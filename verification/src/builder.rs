//! The builder that collects a group's options before it is spawned.

use vstd::prelude::*;

verus! {

/// Collects the options of a process group on top of a command `T`: whether
/// the group is killed when its handle is dropped, and the creation flags of
/// its leader.
pub struct CommandGroupBuilder<'a, T> {
    pub command: &'a mut T,
    pub kill_on_drop: bool,
    pub creation_flags: u32,
}

impl<'a, T> CommandGroupBuilder<'a, T> {
    /// A builder on `command` with every option off.
    pub fn new(command: &'a mut T) -> (builder: Self)
        ensures
            *builder.command == *old(command),
            *final(command) == *final(builder.command),
            !builder.kill_on_drop,
            builder.creation_flags == 0,
    {
        Self { command, kill_on_drop: false, creation_flags: 0 }
    }

    /// Sets whether the group is terminated when its handle is dropped
    /// without having been given up.
    pub fn kill_on_drop(&mut self, kill_on_drop: bool) -> (builder: &mut Self)
        ensures
            builder.kill_on_drop == kill_on_drop,
            builder.creation_flags == old(self).creation_flags,
            builder.command == old(self).command,
            *final(self) == *final(builder),
    {
        self.kill_on_drop = kill_on_drop;
        self
    }

    /// Sets the creation flags of the group's leader.
    pub fn creation_flags(&mut self, creation_flags: u32) -> (builder: &mut Self)
        ensures
            builder.creation_flags == creation_flags,
            builder.kill_on_drop == old(self).kill_on_drop,
            builder.command == old(self).command,
            *final(self) == *final(builder),
    {
        self.creation_flags = creation_flags;
        self
    }
}

} // verus!
