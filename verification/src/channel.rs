//! The dispatch channel: where an authorized command leaves the pipeline.

use crate::domain::{RoutingCommand, RoutingCommandView};
use vstd::prelude::*;
use vstd::string::StringExecFns;

verus! {

/// Failure of the transport behind a channel.
#[derive(Debug, PartialEq, Eq)]
pub enum ChannelError {
    Transport(String),
}

impl ChannelError {
    /// The text of the error: what the transport reported, after a prefix.
    pub open spec fn message_text(&self) -> Seq<char> {
        match self {
            ChannelError::Transport(m) => "transport: "@ + m@,
        }
    }

    /// Returns the text of the error.
    pub fn message(&self) -> (r: String)
        ensures
            r@ == self.message_text(),
    {
        match self {
            ChannelError::Transport(m) => {
                let mut out = "transport: ".to_owned();
                out.append(m.as_str());
                out
            },
        }
    }
}

/// The commands a channel has taken, oldest first, as contracts see them.
pub type Dispatches = Seq<RoutingCommandView>;

/// A channel to the agents that carry commands out. Sending is one opaque
/// operation: it takes the command or it fails, and it is not retried.
pub trait AgentChannel {
    /// The commands the channel has taken so far, oldest first.
    spec fn sent(&self) -> Dispatches;

    /// The transport behind the channel cannot fail: every send succeeds,
    /// now and after any number of sends.
    spec fn reliable(&self) -> bool;

    /// Hands the command to the channel. A reliable channel does not fail
    /// and stays reliable.
    fn send_routing_command(&mut self, cmd: &RoutingCommand) -> (r: Result<(), ChannelError>)
        ensures
            r is Ok ==> final(self).sent() == old(self).sent().push(cmd@),
            r is Err ==> final(self).sent() == old(self).sent(),
            old(self).reliable() ==> r is Ok && final(self).reliable(),
    ;
}

/// The values of a sequence of commands.
pub open spec fn command_views(cmds: Seq<RoutingCommand>) -> Seq<RoutingCommandView> {
    cmds.map_values(|c: RoutingCommand| c@)
}

/// A channel that sends commands nowhere and keeps them in a journal until
/// they are taken out.
pub struct LoggingAgentChannel {
    journal: Vec<RoutingCommand>,
    taken: Ghost<Seq<RoutingCommandView>>,
}

impl View for LoggingAgentChannel {
    type V = Seq<RoutingCommandView>;

    /// The journal: the commands taken since it was last emptied.
    closed spec fn view(&self) -> Seq<RoutingCommandView> {
        command_views(self.journal@)
    }
}

impl LoggingAgentChannel {
    /// Every command the channel has ever taken, whether still in the
    /// journal or not.
    pub closed spec fn history(&self) -> Seq<RoutingCommandView> {
        self.taken@
    }

    pub fn new() -> (r: Self)
        ensures
            r@ == Seq::<RoutingCommandView>::empty(),
            r.history() == Seq::<RoutingCommandView>::empty(),
    {
        let r = LoggingAgentChannel { journal: Vec::new(), taken: Ghost(Seq::empty()) };
        assert(r@ =~= Seq::<RoutingCommandView>::empty());
        r
    }

    /// The number of commands in the journal.
    pub fn len(&self) -> (r: usize)
        ensures
            r == self@.len(),
    {
        self.journal.len()
    }

    /// The command at index `i` of the journal, if there is one.
    pub fn get(&self, i: usize) -> (r: Option<&RoutingCommand>)
        ensures
            i < self@.len() ==> r is Some && r->0@ == self@[i as int],
            i >= self@.len() ==> r is None,
    {
        if i < self.journal.len() {
            Some(&self.journal[i])
        } else {
            None
        }
    }

    /// Hands out the journal, oldest command first, and empties it. What
    /// the channel has taken stays on its record.
    pub fn drain(&mut self) -> (r: Vec<RoutingCommand>)
        ensures
            command_views(r@) == old(self)@,
            final(self)@ == Seq::<RoutingCommandView>::empty(),
            final(self).history() == old(self).history(),
    {
        let mut out: Vec<RoutingCommand> = Vec::new();
        core::mem::swap(&mut self.journal, &mut out);
        assert(self@ =~= Seq::<RoutingCommandView>::empty());
        out
    }
}

impl AgentChannel for LoggingAgentChannel {
    open spec fn sent(&self) -> Dispatches {
        self.history()
    }

    open spec fn reliable(&self) -> bool {
        true
    }

    /// Never fails; the command is added to the journal.
    fn send_routing_command(&mut self, cmd: &RoutingCommand) -> (r: Result<(), ChannelError>)
        ensures
            r is Ok,
            final(self)@ == old(self)@.push(cmd@),
    {
        self.journal.push(cmd.clone());
        self.taken = Ghost(self.taken@.push(cmd@));
        assert(self@ =~= old(self)@.push(cmd@));
        Ok(())
    }
}

} // verus!
