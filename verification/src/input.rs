use vstd::prelude::*;
use crate::events::Key;

verus! {

/// The player actions that are currently held down.
#[derive(Clone, Copy, Debug, PartialEq, Eq, Structural)]
pub struct Actions {
    pub accel_forward: bool,
    pub accel_right: bool,
    pub accel_left: bool,
    pub turn_right: bool,
    pub turn_left: bool,
}

impl Actions {
    /// The actions after `key` went down (`down`) or up (`!down`): `W`, `D`
    /// and `A` steer the three thrusters, `Right` and `Left` the two turns,
    /// and every other key leaves the actions as they are.
    pub open spec fn after_key(self, key: Key, down: bool) -> Actions {
        match key {
            Key::W => Actions { accel_forward: down, ..self },
            Key::D => Actions { accel_right: down, ..self },
            Key::A => Actions { accel_left: down, ..self },
            Key::Right => Actions { turn_right: down, ..self },
            Key::Left => Actions { turn_left: down, ..self },
            _ => self,
        }
    }

    /// Records a key press or release.
    pub fn handle_key(&mut self, key: Key, down: bool)
        ensures
            *final(self) == old(self).after_key(key, down),
    {
        match key {
            Key::W => {
                self.accel_forward = down;
            },
            Key::D => {
                self.accel_right = down;
            },
            Key::A => {
                self.accel_left = down;
            },
            Key::Right => {
                self.turn_right = down;
            },
            Key::Left => {
                self.turn_left = down;
            },
            _ => {},
        }
    }
}

impl Default for Actions {
    /// No action is held.
    fn default() -> (actions: Actions)
        ensures
            actions == (Actions {
                accel_forward: false,
                accel_right: false,
                accel_left: false,
                turn_right: false,
                turn_left: false,
            }),
    {
        Actions {
            accel_forward: false,
            accel_right: false,
            accel_left: false,
            turn_right: false,
            turn_left: false,
        }
    }
}

} // verus!
