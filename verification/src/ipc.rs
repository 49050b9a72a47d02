//! Inter-Process Communication — synchronous message-passing (Mach-port style).
//!
//! Each port holds a bounded FIFO queue of `Message` objects.  Tasks send
//! messages into a port with [`Port::enqueue`] and receive them with
//! [`Port::dequeue`]; the shared, locked handles to ports live with the
//! kernel's global state.
//!
//! This is deliberately minimal: it demonstrates the micro-kernel IPC
//! primitive that higher-level syscalls (including Darwin mach_msg) will be
//! built on top of.
use std::collections::VecDeque;
use vstd::prelude::*;

verus! {

// ── Message ──────────────────────────────────────────────────────────────────

/// Maximum inline message payload (bytes).
pub const MAX_INLINE_PAYLOAD: usize = 256;

/// A kernel IPC message.
///
/// Large payloads should be transferred via shared-memory descriptors
/// (out-of-line data) rather than inline — that facility will be added
/// alongside the virtual-memory region API.
#[derive(Debug, Clone)]
pub struct Message {
    /// Sender task ID (0 = kernel).
    pub sender: u64,
    /// Message type discriminant — used by subsystems to demultiplex.
    pub msg_type: u32,
    /// Inline payload bytes.
    pub payload: Vec<u8>,
}

impl Message {
    /// Build a message.  The payload must fit inline: at most
    /// [`MAX_INLINE_PAYLOAD`] bytes.
    pub fn new(sender: u64, msg_type: u32, payload: Vec<u8>) -> (m: Self)
        requires
            payload@.len() <= MAX_INLINE_PAYLOAD,
        ensures
            m.sender == sender,
            m.msg_type == msg_type,
            m.payload@ == payload@,
    {
        Message { sender, msg_type, payload }
    }
}

// ── Port ─────────────────────────────────────────────────────────────────────

/// Maximum number of messages a port can queue; a send to a full port is
/// refused and hands the message back.
pub const PORT_QUEUE_CAPACITY: usize = 64;

/// An IPC port — the fundamental communication endpoint.
pub struct Port {
    name: String,
    queue: VecDeque<Message>,
    capacity: usize,
}

impl Port {
    /// The port holds no more messages than its capacity.
    #[verifier::type_invariant]
    spec fn within_capacity(self) -> bool {
        self.queue@.len() <= self.capacity
    }

    /// The messages waiting in the port, oldest first.
    pub closed spec fn messages(&self) -> Seq<Message> {
        self.queue@
    }

    /// How many messages the port can hold.
    pub closed spec fn capacity(&self) -> int {
        self.capacity as int
    }

    /// The port's name.
    pub closed spec fn name_view(&self) -> Seq<char> {
        self.name@
    }

    /// Create an empty port with the standard queue capacity.
    pub fn new(name: String) -> (p: Self)
        ensures
            p.messages() == Seq::<Message>::empty(),
            p.capacity() == PORT_QUEUE_CAPACITY,
            p.name_view() == name@,
    {
        Port {
            name,
            queue: VecDeque::with_capacity(PORT_QUEUE_CAPACITY),
            capacity: PORT_QUEUE_CAPACITY,
        }
    }

    /// Enqueue a message.  Returns `Err(msg)` if the queue is full.
    pub fn enqueue(&mut self, msg: Message) -> (r: Result<(), Message>)
        ensures
            final(self).capacity() == old(self).capacity(),
            final(self).name_view() == old(self).name_view(),
            final(self).messages().len() <= final(self).capacity(),
            old(self).messages().len() >= old(self).capacity() ==> r == Err::<(), Message>(msg)
                && final(self).messages() == old(self).messages(),
            old(self).messages().len() < old(self).capacity() ==> r == Ok::<(), Message>(())
                && final(self).messages() == old(self).messages().push(msg),
    {
        proof {
            use_type_invariant(&*self);
        }
        if self.queue.len() >= self.capacity {
            return Err(msg);
        }
        let mut queue = VecDeque::new();
        std::mem::swap(&mut queue, &mut self.queue);
        queue.push_back(msg);
        self.queue = queue;
        Ok(())
    }

    /// Dequeue the oldest message, if any.
    pub fn dequeue(&mut self) -> (r: Option<Message>)
        ensures
            final(self).capacity() == old(self).capacity(),
            final(self).name_view() == old(self).name_view(),
            final(self).messages().len() <= final(self).capacity(),
            old(self).messages().len() == 0 ==> r is None
                && final(self).messages() == old(self).messages(),
            old(self).messages().len() > 0 ==> r == Some(old(self).messages()[0])
                && final(self).messages() == old(self).messages().drop_first(),
    {
        proof {
            use_type_invariant(&*self);
        }
        let mut queue = VecDeque::new();
        std::mem::swap(&mut queue, &mut self.queue);
        let r = queue.pop_front();
        self.queue = queue;
        r
    }
}

/// Ports are first-in, first-out: on a port that holds messages and has
/// room, sending one and then receiving gives the same as receiving first and
/// sending after, and the message received is the oldest one either way; on
/// an empty port, the message received is the one just sent.
pub proof fn lemma_port_fifo(queued: Seq<Message>, msg: Message)
    ensures
        queued.len() == 0 ==> queued.push(msg)[0] == msg && queued.push(msg).drop_first()
            =~= Seq::<Message>::empty(),
        queued.len() > 0 ==> queued.push(msg)[0] == queued[0] && queued.push(msg).drop_first()
            =~= queued.drop_first().push(msg),
{
}

} // verus!
