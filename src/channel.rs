//! The worker's inbox: commands queue up in arrival order and the scheduler
//! takes at most one per tick, without waiting.
use vstd::prelude::*;

use std::collections::VecDeque;

use crate::scheduler::UserCommand;

verus! {

/// An unbounded first-in first-out queue of commands.
pub struct CommandQueue {
    commands: VecDeque<UserCommand>,
}

impl View for CommandQueue {
    type V = Seq<UserCommand>;

    /// The pending commands, oldest first.
    closed spec fn view(&self) -> Seq<UserCommand> {
        self.commands@
    }
}

impl CommandQueue {
    pub fn new() -> (r: CommandQueue)
        ensures
            r@ == Seq::<UserCommand>::empty(),
    {
        CommandQueue { commands: VecDeque::new() }
    }

    /// Adds a command behind those already waiting.
    pub fn push_back(&mut self, command: UserCommand)
        ensures
            final(self)@ == old(self)@.push(command),
    {
        self.commands.push_back(command);
    }

    /// Takes the oldest waiting command; nothing when none waits.
    pub fn recv_next(&mut self) -> (r: Option<UserCommand>)
        ensures
            old(self)@.len() == 0 ==> r is None && final(self)@ == old(self)@,
            old(self)@.len() > 0 ==> r == Some(old(self)@[0]) && final(self)@ == old(self)@.drop_first(),
    {
        let r = self.commands.pop_front();
        proof {
            if old(self)@.len() > 0 {
                assert(final(self)@ =~= old(self)@.drop_first());
            }
        }
        r
    }
}

} // verus!
