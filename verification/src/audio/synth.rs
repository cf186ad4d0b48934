use vstd::prelude::*;

verus! {

/// A command for one channel of a synthesizer, stamped with the CPU cycle
/// count at which it was issued.
#[derive(Debug, Clone, Copy, PartialEq, Eq, Structural)]
pub enum SynthCommand<ChannelIdentifier, Payload> {
    ChannelCommand(ChannelIdentifier, Payload, u64),
}

impl<ChannelIdentifier, Payload> SynthCommand<ChannelIdentifier, Payload> {
    /// When the command was issued, in CPU cycles since power-on.
    pub fn time(&self) -> (r: u64)
        ensures
            r == (match *self {
                SynthCommand::ChannelCommand(_, _, t) => t,
            }),
    {
        match self {
            SynthCommand::ChannelCommand(_, _, time) => *time,
        }
    }
}


/// When a command was issued.
pub open spec fn command_time<ChannelIdentifier, Payload>(c: SynthCommand<ChannelIdentifier, Payload>) -> u64 {
    match c {
        SynthCommand::ChannelCommand(_, _, t) => t,
    }
}

/// The channel a command is for.
pub open spec fn command_channel<ChannelIdentifier, Payload>(c: SynthCommand<ChannelIdentifier, Payload>) -> ChannelIdentifier {
    match c {
        SynthCommand::ChannelCommand(channel, _, _) => channel,
    }
}

/// Takes from the front of a queue of commands, in the order they were issued,
/// those that are due at `now`: it stops at the first command issued later,
/// which stays at the front.
pub fn take_due_commands<ChannelIdentifier, Payload>(
    queue: &mut Vec<SynthCommand<ChannelIdentifier, Payload>>,
    now: u64,
) -> (due: Vec<SynthCommand<ChannelIdentifier, Payload>>)
    ensures
        due@ + final(queue)@ == old(queue)@,
        forall|i: int| 0 <= i < due@.len() ==> command_time(#[trigger] due@[i]) <= now,
        final(queue)@.len() > 0 ==> command_time(final(queue)@[0]) > now,
{
    let mut due: Vec<SynthCommand<ChannelIdentifier, Payload>> = Vec::new();
    while queue.len() > 0 && queue[0].time() <= now
        invariant
            due@ + queue@ == old(queue)@,
            forall|i: int| 0 <= i < due@.len() ==> command_time(#[trigger] due@[i]) <= now,
        decreases queue@.len(),
    {
        let c = queue.remove(0);
        proof {
            assert(command_time(c) <= now);
        }
        due.push(c);
        assert(due@ + queue@ =~= old(queue)@);
    }
    due
}

} // verus!
