//! The bounded hand-off queue of draw commands.
//!
//! Interception callbacks act as producers; the render loop is the single
//! consumer.  The queue is crossbeam's `ArrayQueue`, declared here as an
//! opaque outside type whose contents and capacity are named by
//! uninterpreted spec functions; every method the crate calls goes through a
//! trusted wrapper whose contract states what the crossbeam source shows.
//! Producers never block: on a full queue the oldest entry is evicted.

use crate::fix::Fix;
use crate::text::{decode_wide, decoded_text};
use crate::transform::CoordMode;
use vstd::prelude::*;

verus! {

/// One queued instruction for the render loop.
#[derive(Debug, Clone, PartialEq)]
pub enum DrawCommand {
    /// Render one piece of text at the given source coordinates, interpreted
    /// under the given coordinate mode.
    Text { content: String, x: Fix, y: Fix, z: Fix, mode: CoordMode },
    /// Apply a one-shot pixel offset to the next `Text` command only.
    SetOffset { dx: Fix, dy: Fix },
}

#[verifier::external_type_specification]
#[verifier::external_body]
#[verifier::reject_recursive_types(T)]
pub struct ExArrayQueue<T>(crossbeam_queue::ArrayQueue<T>);

/// The commands currently in the queue, oldest first.
pub uninterp spec fn queue_contents(q: crossbeam_queue::ArrayQueue<DrawCommand>) -> Seq<
    DrawCommand,
>;

/// The fixed capacity the queue was created with.
pub uninterp spec fn queue_capacity(q: crossbeam_queue::ArrayQueue<DrawCommand>) -> nat;

/// How many commands the process-wide queue holds.
pub const QUEUE_CAPACITY: usize = 10240;

/// What force-pushing leaves in the queue: appended when there is room,
/// otherwise with the oldest entry evicted to make room.
pub open spec fn force_pushed(s: Seq<DrawCommand>, cap: nat, c: DrawCommand) -> Seq<DrawCommand> {
    if s.len() < cap {
        s.push(c)
    } else {
        s.drop_first().push(c)
    }
}

/// Relies on crossbeam's `ArrayQueue::new`: a fresh queue with the given
/// capacity holds nothing.  `new` panics on a zero capacity, so that is
/// excluded here.
#[verifier::external_body]
fn raw_new(cap: usize) -> (q: crossbeam_queue::ArrayQueue<DrawCommand>)
    requires
        1 <= cap <= 0x10000000,
    ensures
        queue_contents(q) == Seq::<DrawCommand>::empty(),
        queue_capacity(q) == cap,
{
    crossbeam_queue::ArrayQueue::new(cap)
}

/// Relies on crossbeam's `ArrayQueue::force_push`: the value is pushed at
/// the tail; on a full queue the oldest element is evicted and returned.
#[verifier::external_body]
fn raw_force_push(q: &mut crossbeam_queue::ArrayQueue<DrawCommand>, c: DrawCommand) -> (r: Option<
    DrawCommand,
>)
    ensures
        queue_capacity(*final(q)) == queue_capacity(*old(q)),
        queue_contents(*final(q)) == force_pushed(
            queue_contents(*old(q)),
            queue_capacity(*old(q)),
            c,
        ),
        r == (if queue_contents(*old(q)).len() < queue_capacity(*old(q)) {
            None::<DrawCommand>
        } else {
            Some(queue_contents(*old(q))[0])
        }),
{
    q.force_push(c)
}

/// Relies on crossbeam's `ArrayQueue::pop`: takes the oldest element, or
/// yields `None` on an empty queue.
#[verifier::external_body]
fn raw_pop(q: &mut crossbeam_queue::ArrayQueue<DrawCommand>) -> (r: Option<DrawCommand>)
    ensures
        queue_capacity(*final(q)) == queue_capacity(*old(q)),
        match r {
            Some(c) => queue_contents(*old(q)).len() > 0 && c == queue_contents(*old(q))[0]
                && queue_contents(*final(q)) == queue_contents(*old(q)).drop_first(),
            None => queue_contents(*old(q)).len() == 0 && queue_contents(*final(q))
                == queue_contents(*old(q)),
        },
{
    q.pop()
}

/// The command queue: a fixed-capacity, non-blocking ring of draw commands,
/// oldest first.
pub struct CommandQueue {
    inner: crossbeam_queue::ArrayQueue<DrawCommand>,
}

impl CommandQueue {
    /// The commands currently queued, oldest first.
    pub closed spec fn contents(&self) -> Seq<DrawCommand> {
        queue_contents(self.inner)
    }

    /// The fixed capacity the queue was created with.
    pub closed spec fn cap(&self) -> nat {
        queue_capacity(self.inner)
    }

    /// Creates the empty queue at the process-wide capacity.
    pub fn new() -> (r: CommandQueue)
        ensures
            r.contents() == Seq::<DrawCommand>::empty(),
            r.cap() == QUEUE_CAPACITY,
    {
        CommandQueue { inner: raw_new(QUEUE_CAPACITY) }
    }

    /// Enqueues one command without ever blocking or failing: on a full
    /// queue the oldest command is silently evicted.
    pub fn try_push(&mut self, c: DrawCommand)
        ensures
            final(self).cap() == old(self).cap(),
            final(self).contents() == force_pushed(old(self).contents(), old(self).cap(), c),
    {
        let _ = raw_force_push(&mut self.inner, c);
    }

    /// Dequeues the oldest command; `None` when the queue is empty.
    pub fn try_pop(&mut self) -> (r: Option<DrawCommand>)
        ensures
            final(self).cap() == old(self).cap(),
            match r {
                Some(c) => old(self).contents().len() > 0 && c == old(self).contents()[0]
                    && final(self).contents() == old(self).contents().drop_first(),
                None => old(self).contents().len() == 0
                    && final(self).contents() == old(self).contents(),
            },
    {
        raw_pop(&mut self.inner)
    }
}

/// What a run of force-pushes leaves in the queue, first command pushed
/// first.
pub open spec fn force_pushed_all(s: Seq<DrawCommand>, cap: nat, cs: Seq<DrawCommand>) -> Seq<
    DrawCommand,
>
    decreases cs.len(),
{
    if cs.len() == 0 {
        s
    } else {
        force_pushed_all(force_pushed(s, cap, cs[0]), cap, cs.drop_first())
    }
}

/// A run of pushes that stays within capacity loses nothing and keeps push
/// order: the queue then holds what it held followed by the pushed
/// commands, so draining yields exactly those commands in order.
pub proof fn lemma_pushes_within_capacity_keep_order(
    s: Seq<DrawCommand>,
    cap: nat,
    cs: Seq<DrawCommand>,
)
    requires
        s.len() + cs.len() <= cap,
    ensures
        force_pushed_all(s, cap, cs) == s + cs,
    decreases cs.len(),
{
    if cs.len() == 0 {
        assert(s + cs =~= s);
    } else {
        assert(force_pushed(s, cap, cs[0]) == s.push(cs[0]));
        lemma_pushes_within_capacity_keep_order(s.push(cs[0]), cap, cs.drop_first());
        assert(s.push(cs[0]) + cs.drop_first() =~= s + cs);
    }
}

/// Decodes one intercepted draw-text request and enqueues the resulting
/// `Text` command: the producer half of the plain interception callback.
pub fn enqueue_text(
    q: &mut CommandQueue,
    units: &[u16],
    x: Fix,
    y: Fix,
    z: Fix,
    mode: CoordMode,
)
    ensures
        final(q).cap() == old(q).cap(),
        ({
            let n = final(q).contents();
            &&& n == force_pushed(old(q).contents(), old(q).cap(), n.last())
            &&& n.last() matches DrawCommand::Text { content, x: cx, y: cy, z: cz, mode: cm }
                && content@ == decoded_text(units@) && cx == x && cy == y && cz == z && cm == mode
        }),
{
    let content = decode_wide(units);
    q.try_push(DrawCommand::Text { content, x, y, z, mode });
}

/// Decodes one intercepted draw-text-with-offset request and enqueues the
/// offset followed by the text, preserving program order so the consumer
/// pairs them.
pub fn enqueue_offset_text(
    q: &mut CommandQueue,
    units: &[u16],
    x: Fix,
    y: Fix,
    z: Fix,
    mode: CoordMode,
    dx: Fix,
    dy: Fix,
)
    ensures
        final(q).cap() == old(q).cap(),
        ({
            let mid = force_pushed(
                old(q).contents(),
                old(q).cap(),
                DrawCommand::SetOffset { dx, dy },
            );
            let n = final(q).contents();
            &&& n == force_pushed(mid, old(q).cap(), n.last())
            &&& n.last() matches DrawCommand::Text { content, x: cx, y: cy, z: cz, mode: cm }
                && content@ == decoded_text(units@) && cx == x && cy == y && cz == z && cm == mode
        }),
{
    q.try_push(DrawCommand::SetOffset { dx, dy });
    let content = decode_wide(units);
    q.try_push(DrawCommand::Text { content, x, y, z, mode });
}

} // verus!
