//! Who decides what a creature does next: the policy interface, the
//! wandering policy of monsters and the policy that hands on what a player
//! has keyed in.
use crate::action::Action;
use crate::grid::lemma_wrap_in_grid;
use crate::hex::RelativeDir;
use crate::map::{HexMap, MapModel};
use crate::random::random_below;
use crate::view::MapView;
use rand::rngs::StdRng;
use vstd::prelude::*;

verus! {

/// A policy that chooses a creature's actions. It is asked only when the
/// creature is ready to choose, and may read the map but not change it.
pub trait MoveController {
    /// The next action of the creature `id` of `map`.
    fn get_move(&mut self, map: &HexMap, id: usize) -> (action: Action)
        requires
            map.wf(),
            map@.has(id),
    ;
}

/// What a wandering monster does on the draw `draw`: it strikes at a
/// creature in front of it, or else to its left, or else to its right; with
/// nobody there it turns left on a draw of nought and right on a draw of one;
/// on any other draw it steps forward if the terrain lets it, and turns left
/// if not.
pub open spec fn wander(m: MapModel, id: usize, draw: int) -> Action {
    let c = m.creatures[id as int];
    if m.occupant(c.target(RelativeDir::FORWARD)) is Some {
        Action::MELEE(RelativeDir::FORWARD)
    } else if m.occupant(c.target(RelativeDir::LEFT)) is Some {
        Action::MELEE(RelativeDir::LEFT)
    } else if m.occupant(c.target(RelativeDir::RIGHT)) is Some {
        Action::MELEE(RelativeDir::RIGHT)
    } else if draw == 0 {
        Action::TURN(RelativeDir::LEFT)
    } else if draw == 1 {
        Action::TURN(RelativeDir::RIGHT)
    } else if m.tile(c.target(RelativeDir::FORWARD)).passable() {
        Action::MOVE(RelativeDir::FORWARD)
    } else {
        Action::TURN(RelativeDir::LEFT)
    }
}

/// The policy of a monster that wanders about and strikes at whoever comes
/// near.
pub struct MonsterController {
    rng: StdRng,
}

impl MonsterController {
    /// The generator that the policy draws from.
    pub closed spec fn generator(&self) -> StdRng {
        self.rng
    }

    /// A policy that draws from `rng`.
    pub fn new(rng: StdRng) -> (c: MonsterController)
        ensures
            c.generator() == rng,
    {
        MonsterController { rng }
    }

    /// Whether somebody stands next to the creature `id` in the direction
    /// `rd` of its facing.
    fn somebody(map: &HexMap, id: usize, rd: RelativeDir) -> (r: bool)
        requires
            map.wf(),
            map@.has(id),
        ensures
            r == (map@.occupant(map@.creatures[id as int].target(rd)) is Some),
    {
        let creature = map.creature(id);
        let pos = creature.position();
        proof {
            lemma_wrap_in_grid(map@.tiles, creature@.pos);
        }
        let beside = pos.neighbor(creature.direction().turn(rd));
        map.creature_at(&beside).is_some()
    }

    /// What the monster `id` does on the draw `draw`.
    pub fn decide(map: &HexMap, id: usize, draw: usize) -> (action: Action)
        requires
            map.wf(),
            map@.has(id),
        ensures
            action == wander(map@, id, draw as int),
    {
        if MonsterController::somebody(map, id, RelativeDir::FORWARD) {
            return Action::MELEE(RelativeDir::FORWARD);
        }
        if MonsterController::somebody(map, id, RelativeDir::LEFT) {
            return Action::MELEE(RelativeDir::LEFT);
        }
        if MonsterController::somebody(map, id, RelativeDir::RIGHT) {
            return Action::MELEE(RelativeDir::RIGHT);
        }
        if draw == 0 {
            Action::TURN(RelativeDir::LEFT)
        } else if draw == 1 {
            Action::TURN(RelativeDir::RIGHT)
        } else {
            let creature = map.creature(id);
            let pos = creature.position();
            proof {
                lemma_wrap_in_grid(map@.tiles, creature@.pos);
            }
            let front = pos.neighbor(creature.direction());
            if map.at(&front).is_passable() {
                Action::MOVE(RelativeDir::FORWARD)
            } else {
                Action::TURN(RelativeDir::LEFT)
            }
        }
    }
}

impl MoveController for MonsterController {
    /// Draws a number below ten and decides on it.
    fn get_move(&mut self, map: &HexMap, id: usize) -> (action: Action)
        ensures
            exists|draw: int| 0 <= draw < 10 && action == #[trigger] wander(map@, id, draw),
    {
        let draw = random_below(&mut self.rng, 10);
        let action = MonsterController::decide(map, id, draw);
        assert(action == wander(map@, id, draw as int));
        action
    }
}

/// A key that means something to the game.
#[derive(Clone, Copy, PartialEq, Eq, Structural, Debug)]
pub enum Key {
    H,
    J,
    K,
    L,
    Left,
    Right,
    Up,
    Down,
    Comma,
    Space,
    Escape,
    /// Any other key.
    Other,
}

/// What pressing a key asks for.
#[derive(Clone, Copy, PartialEq, Eq, Structural, Debug)]
pub enum Command {
    /// The player's creature is to take this action.
    Act(Action),
    /// The game is to end; the player's creature waits meanwhile.
    Quit,
    /// The key means nothing here.
    Ignore,
}

/// What pressing `key` asks for, with the left or the right control key
/// held or not. With the left control key the steering keys strike; without
/// it they turn and move, and the key for going forward strikes if the
/// right control key is held.
pub open spec fn decoded(key: Key, lctrl: bool, rctrl: bool) -> Command {
    if lctrl {
        match key {
            Key::H | Key::Left => Command::Act(Action::MELEE(RelativeDir::LEFT)),
            Key::L | Key::Right => Command::Act(Action::MELEE(RelativeDir::RIGHT)),
            Key::K | Key::Up => Command::Act(Action::MELEE(RelativeDir::FORWARD)),
            _ => Command::Ignore,
        }
    } else {
        match key {
            Key::Escape => Command::Quit,
            Key::K | Key::Up => if rctrl {
                Command::Act(Action::MELEE(RelativeDir::FORWARD))
            } else {
                Command::Act(Action::MOVE(RelativeDir::FORWARD))
            },
            Key::H | Key::Left => Command::Act(Action::TURN(RelativeDir::LEFT)),
            Key::L | Key::Right => Command::Act(Action::TURN(RelativeDir::RIGHT)),
            Key::J | Key::Down => Command::Act(Action::MOVE(RelativeDir::BACKWARD)),
            Key::Comma | Key::Space => Command::Act(Action::WAIT),
            Key::Other => Command::Ignore,
        }
    }
}

/// The action that a command hands to the player's creature, if any.
pub open spec fn action_of(command: Command) -> Option<Action> {
    match command {
        Command::Act(action) => Some(action),
        Command::Quit => Some(Action::WAIT),
        Command::Ignore => None,
    }
}

/// The policy of the player's creature: it hands on the action that was
/// keyed in last, and waits when nothing was.
pub struct PlayerController {
    queued: Option<Action>,
}

impl PlayerController {
    /// The action that waits to be handed on.
    pub closed spec fn queued(&self) -> Option<Action> {
        self.queued
    }

    pub fn new() -> (c: PlayerController)
        ensures
            c.queued() is None,
    {
        PlayerController { queued: None }
    }

    /// Whether an action waits to be handed on.
    pub fn has_input(&self) -> (r: bool)
        ensures
            r == (self.queued() is Some),
    {
        self.queued.is_some()
    }

    /// Reads a key press.
    pub fn decode(key: Key, lctrl: bool, rctrl: bool) -> (command: Command)
        ensures
            command == decoded(key, lctrl, rctrl),
    {
        if lctrl {
            match key {
                Key::H | Key::Left => Command::Act(Action::MELEE(RelativeDir::LEFT)),
                Key::L | Key::Right => Command::Act(Action::MELEE(RelativeDir::RIGHT)),
                Key::K | Key::Up => Command::Act(Action::MELEE(RelativeDir::FORWARD)),
                _ => Command::Ignore,
            }
        } else {
            match key {
                Key::Escape => Command::Quit,
                Key::K | Key::Up => {
                    if rctrl {
                        Command::Act(Action::MELEE(RelativeDir::FORWARD))
                    } else {
                        Command::Act(Action::MOVE(RelativeDir::FORWARD))
                    }
                },
                Key::H | Key::Left => Command::Act(Action::TURN(RelativeDir::LEFT)),
                Key::L | Key::Right => Command::Act(Action::TURN(RelativeDir::RIGHT)),
                Key::J | Key::Down => Command::Act(Action::MOVE(RelativeDir::BACKWARD)),
                Key::Comma | Key::Space => Command::Act(Action::WAIT),
                Key::Other => Command::Ignore,
            }
        }
    }

    /// Takes a key press: a key that stands for an action puts that action
    /// in the queue in place of what was there, the key that ends the game
    /// puts a wait there, and any other key changes nothing.
    pub fn press(&mut self, key: Key, lctrl: bool, rctrl: bool) -> (command: Command)
        ensures
            command == decoded(key, lctrl, rctrl),
            final(self).queued() == match action_of(command) {
                Some(action) => Some(action),
                None => old(self).queued(),
            },
    {
        let command = PlayerController::decode(key, lctrl, rctrl);
        match command {
            Command::Act(action) => {
                self.queued = Some(action);
            },
            Command::Quit => {
                self.queued = Some(Action::WAIT);
            },
            Command::Ignore => {},
        }
        command
    }
}

impl MoveController for PlayerController {
    /// Hands on the queued action and empties the queue.
    fn get_move(&mut self, map: &HexMap, id: usize) -> (action: Action)
        ensures
            action == match old(self).queued() {
                Some(queued) => queued,
                None => Action::WAIT,
            },
            final(self).queued() is None,
    {
        match self.queued.take() {
            Some(action) => action,
            None => Action::WAIT,
        }
    }
}

} // verus!
