//! A queue of commands between the places that capture them and the place that
//! draws them.

use vstd::prelude::*;
use crate::command::GizmoCommand;

verus! {

/// What waits in a channel that held `waiting` once each command of `sent` has
/// been sent to it, one after another: each [`CommandChannel::send`] puts its
/// command last.
pub open spec fn after_sends(waiting: Seq<GizmoCommand>, sent: Seq<GizmoCommand>) -> Seq<
    GizmoCommand,
>
    decreases sent.len(),
{
    if sent.len() == 0 {
        waiting
    } else {
        after_sends(waiting, sent.drop_last()).push(sent.last())
    }
}

/// Commands sent one after another come out of the next drain after what was
/// already waiting, in the order they were sent; with nothing waiting and
/// nothing sent, the drain gives nothing.
pub proof fn lemma_drain_keeps_send_order(waiting: Seq<GizmoCommand>, sent: Seq<GizmoCommand>)
    ensures
        after_sends(waiting, sent) == waiting + sent,
    decreases sent.len(),
{
    if sent.len() > 0 {
        lemma_drain_keeps_send_order(waiting, sent.drop_last());
        assert((waiting + sent.drop_last()).push(sent.last()) =~= waiting + sent);
    } else {
        assert(waiting + sent =~= waiting);
    }
}

/// Commands waiting to be drawn, oldest first. There is no bound on how many
/// may wait.
pub struct CommandChannel {
    queue: Vec<GizmoCommand>,
}

impl View for CommandChannel {
    type V = Seq<GizmoCommand>;

    closed spec fn view(&self) -> Seq<GizmoCommand> {
        self.queue@
    }
}

impl CommandChannel {
    /// An empty channel.
    pub fn new() -> (r: CommandChannel)
        ensures
            r@ == Seq::<GizmoCommand>::empty(),
    {
        CommandChannel { queue: Vec::new() }
    }

    /// Puts `c` behind every command already waiting.
    pub fn send(&mut self, c: GizmoCommand)
        ensures
            final(self)@ == old(self)@.push(c),
    {
        self.queue.push(c);
    }

    /// Takes every waiting command, oldest first, and leaves the channel empty.
    pub fn drain(&mut self) -> (r: Vec<GizmoCommand>)
        ensures
            r@ == old(self)@,
            final(self)@ == Seq::<GizmoCommand>::empty(),
    {
        let mut taken: Vec<GizmoCommand> = Vec::new();
        std::mem::swap(&mut taken, &mut self.queue);
        taken
    }

    /// The number of waiting commands.
    pub fn len(&self) -> (r: usize)
        ensures
            r == self@.len(),
    {
        self.queue.len()
    }
}

} // verus!
