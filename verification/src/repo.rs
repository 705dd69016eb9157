//! The device registry's data model.
//!
//! The registry itself — a table of devices and their last-known state — is
//! an external store; the library holds only the records it exchanges with
//! that store and where the store lives.

use crate::nexa::DeviceMode;
use vstd::prelude::*;

verus! {

/// A registered device: its store id, display name, group and last-known
/// on/off state.
#[derive(Clone, Debug)]
pub struct Device {
    pub id: i64,
    pub name: String,
    pub group_id: i32,
    pub current_state: bool,
}

impl Device {
    /// A fresh, not-yet-stored device; the store assigns an id on insertion,
    /// so it starts as 0.
    pub fn new(name: &str, group_id: i32, current_state: bool) -> (d: Device)
        ensures
            d.id == 0,
            d.name@ == name@,
            d.group_id == group_id,
            d.current_state == current_state,
    {
        Device { id: 0, name: name.to_owned(), group_id, current_state }
    }

    /// Record the state a mode sets: on is true, off is false.
    pub fn set_state(&mut self, mode: DeviceMode)
        ensures
            final(self).current_state == (mode == DeviceMode::On),
            final(self).id == old(self).id,
            final(self).name == old(self).name,
            final(self).group_id == old(self).group_id,
    {
        self.current_state = match mode {
            DeviceMode::On => true,
            DeviceMode::Off => false,
        };
    }
}

/// A handle naming where the device store lives.
#[derive(Clone)]
pub struct Repo {
    pub connection_string: String,
}

impl Repo {
    /// A handle on the store at the given location.
    pub fn new(connection_string: &str) -> (r: Repo)
        ensures
            r.connection_string@ == connection_string@,
    {
        Repo { connection_string: connection_string.to_owned() }
    }
}

impl Default for Repo {
    /// A handle with an empty location.
    fn default() -> (r: Repo)
        ensures
            r.connection_string@ == Seq::<char>::empty(),
    {
        Repo { connection_string: String::new() }
    }
}

} // verus!
