//! The RDMA device: descriptor-chain validation, queue processing and the
//! inactive/activated lifecycle.

use crate::host::{new_event_fd, read_event_fd, read_guest, write_event_fd, write_guest};
use crate::queue::{DescriptorChain, Descriptor, Queue, UsedElement, MAX_QUEUE_SIZE};
use crate::wire::{
    dispatch, lemma_le_round_trip, le_bytes_of, RDMA_OPCODE_CREATE_QP, RDMA_STATUS_ERR, RDMA_STATUS_OK, le_u32_at, status_for, RdmaRequest, RDMA_REQUEST_SIZE,
    RDMA_RESPONSE_SIZE,
};
use vm_memory::{GuestMemoryError, GuestMemoryMmap};
use vmm_sys_util::eventfd::EventFd;
use vstd::prelude::*;

verus! {

/// Number of queues of the device.
pub const RDMA_NUM_QUEUES: usize = 1;

/// Index of the request queue.
pub const RDMA_QUEUE: usize = 0;

/// Errors while creating a device.
#[derive(Debug)]
pub enum RdmaError {
    /// Error while handling an event file descriptor.
    EventFd(std::io::Error),
}

/// Errors while handling one descriptor chain.
#[derive(Debug)]
pub enum RdmaQueueError {
    /// Unexpected write-only descriptor.
    WriteOnlyDescriptor,
    /// Unexpected read-only descriptor.
    ReadOnlyDescriptor,
    /// Descriptor chain too short.
    DescriptorChainTooShort,
    /// Descriptor length too small.
    DescriptorTooShort,
    /// Guest memory error.
    GuestMemory(GuestMemoryError),
}

/// Errors while activating a device.
#[derive(Debug)]
pub enum ActivateError {
    /// The device holds another number of queues than it expects.
    QueueMismatch { expected: usize, got: usize },
    /// The activation event could not be signalled.
    EventFd,
}

/// What an activated device holds: the guest memory and the interrupt
/// event through which the guest is told of completed work.
#[derive(Debug)]
pub struct ActiveState {
    pub mem: GuestMemoryMmap,
    pub interrupt: EventFd,
}

/// The lifecycle of a device.
#[derive(Debug)]
pub enum DeviceState {
    Inactive,
    Activated(ActiveState),
}

/// The first structural fault of a chain, checked in this order: the head
/// must be readable and hold a request, a second buffer must follow, and it
/// must be writable and hold a response.
pub open spec fn chain_fault(d: Seq<Descriptor>) -> Option<RdmaQueueError> {
    if d.len() == 0 {
        Some(RdmaQueueError::DescriptorChainTooShort)
    } else if d[0].write_only {
        Some(RdmaQueueError::WriteOnlyDescriptor)
    } else if d[0].len < RDMA_REQUEST_SIZE {
        Some(RdmaQueueError::DescriptorTooShort)
    } else if d.len() < 2 {
        Some(RdmaQueueError::DescriptorChainTooShort)
    } else if !d[1].write_only {
        Some(RdmaQueueError::ReadOnlyDescriptor)
    } else if d[1].len < RDMA_RESPONSE_SIZE {
        Some(RdmaQueueError::DescriptorTooShort)
    } else {
        None
    }
}

/// The response bytes that answer the request bytes `req`.
pub open spec fn response_of(req: Seq<u8>) -> Seq<u8> {
    le_bytes_of(status_for(le_u32_at(req, 0)))
}

/// Checks the structure of `chain` and gives the guest addresses of the
/// request and of the response buffer. Reads no guest memory.
pub fn validate_chain(chain: &DescriptorChain) -> (r: Result<(u64, u64), RdmaQueueError>)
    ensures
        chain_fault(chain.descriptors@) is Some <==> r is Err,
        r is Err ==> chain_fault(chain.descriptors@) == Some(r->Err_0),
        r is Ok ==> r->Ok_0 == (chain.descriptors@[0].addr, chain.descriptors@[1].addr),
{
    let d = &chain.descriptors;
    if d.len() == 0 {
        return Err(RdmaQueueError::DescriptorChainTooShort);
    }
    let head = d[0];
    if head.is_write_only() {
        return Err(RdmaQueueError::WriteOnlyDescriptor);
    }
    if head.len < RDMA_REQUEST_SIZE {
        return Err(RdmaQueueError::DescriptorTooShort);
    }
    if d.len() < 2 {
        return Err(RdmaQueueError::DescriptorChainTooShort);
    }
    let resp = d[1];
    if !resp.is_write_only() {
        return Err(RdmaQueueError::ReadOnlyDescriptor);
    }
    if resp.len < RDMA_RESPONSE_SIZE {
        return Err(RdmaQueueError::DescriptorTooShort);
    }
    Ok((head.addr, resp.addr))
}

/// The response bytes for the request bytes `req`: the status of the
/// request's opcode, little-endian.
pub fn response_bytes(req: &[u8]) -> (r: Vec<u8>)
    requires
        req@.len() >= RDMA_REQUEST_SIZE,
    ensures
        r@ == response_of(req@),
        r@.len() == RDMA_RESPONSE_SIZE,
{
    let request = RdmaRequest::from_le_bytes(req);
    dispatch(&request).to_le_bytes()
}

/// A request for `CREATE_QP`, whatever its queue pair, is answered with
/// the four bytes of status `OK`.
pub proof fn lemma_create_qp_answered_ok(req: Seq<u8>)
    requires
        req.len() >= RDMA_REQUEST_SIZE,
        le_u32_at(req, 0) == RDMA_OPCODE_CREATE_QP,
    ensures
        response_of(req) == seq![0u8, 0u8, 0u8, 0u8],
        le_u32_at(response_of(req), 0) == RDMA_STATUS_OK,
{
    assert(response_of(req) =~= seq![0u8, 0u8, 0u8, 0u8]);
    lemma_le_round_trip(RDMA_STATUS_OK);
}

/// A request for any other opcode is answered with the four bytes of
/// status `ERR`.
pub proof fn lemma_other_opcode_answered_err(req: Seq<u8>)
    requires
        req.len() >= RDMA_REQUEST_SIZE,
        le_u32_at(req, 0) != RDMA_OPCODE_CREATE_QP,
    ensures
        response_of(req) == seq![1u8, 0u8, 0u8, 0u8],
        le_u32_at(response_of(req), 0) == RDMA_STATUS_ERR,
{
    assert(response_of(req) =~= seq![1u8, 0u8, 0u8, 0u8]);
    lemma_le_round_trip(RDMA_STATUS_ERR);
}

/// Whether the used entry `e` records how `chain` was answered: it names the
/// chain's head, holds no bytes when the chain is malformed, and otherwise
/// either no bytes or exactly one response.
pub open spec fn completes(e: UsedElement, chain: DescriptorChain) -> bool {
    &&& e.id == chain.index
    &&& chain_fault(chain.descriptors@) is Some ==> e.len == 0
    &&& e.len == 0 || e.len == RDMA_RESPONSE_SIZE
}

/// Whether a drain pass took `after` from `before` keeping the order of
/// submission: the new used entries answer the oldest waiting chains, one
/// each, and the chains not answered still wait unless the pass stopped.
pub open spec fn completed_in_order(before: Queue, after: Queue) -> bool {
    let b = before.used_entries().len();
    let k = after.used_entries().len() - b;
    &&& 0 <= k <= before.pending().len()
    &&& after.used_entries().subrange(0, b as int) == before.used_entries()
    &&& forall|i: int|
        0 <= i < k ==> #[trigger] completes(after.used_entries()[b + i], before.pending()[i])
}

/// Whether every waiting chain of `q` can be put on its used ring: each
/// head lies in the descriptor table and the ring has room for all.
pub open spec fn fits(q: Queue) -> bool {
    &&& forall|i: int| 0 <= i < q.pending().len() ==> #[trigger] q.pending()[i].index < q.spec_size()
    &&& q.unpublished() + q.pending().len() <= q.spec_size()
}

/// Whether a drain pass took the queue from `before` to `after`: the
/// answered chains are completed in order, all of them when they fit; when
/// a chain could not be put on the used ring the pass stopped there and the
/// chains after it still wait, in order; the used index moved once by every
/// entry not yet published, and the guest was last told of that index.
pub open spec fn drained(before: Queue, after: Queue) -> bool {
    let k = after.used_entries().len() - before.used_entries().len();
    &&& completed_in_order(before, after)
    &&& k == before.pending().len() ==> after.pending().len() == 0
    &&& k < before.pending().len() ==> after.pending() == before.pending().skip(k + 1)
    &&& fits(before) ==> after.pending().len() == 0 && after.used_entries().len()
        == before.used_entries().len() + before.pending().len()
    &&& after.used_idx() as int == (before.used_idx() + before.unpublished() + (
    after.used_entries().len() - before.used_entries().len())) % 65536
    &&& after.unpublished() == 0
    &&& after.spec_size() == before.spec_size()
    &&& after.last_signalled() == after.used_idx()
}

/// A malformed chain is put on the used ring with no bytes, in its turn,
/// and the pass goes on to drain every chain after it.
pub proof fn lemma_malformed_chain_completes_empty(before: Queue, after: Queue, i: int)
    requires
        drained(before, after),
        fits(before),
        0 <= i < before.pending().len(),
        chain_fault(before.pending()[i].descriptors@) is Some,
    ensures
        after.used_entries()[before.used_entries().len() + i] == (UsedElement {
            id: before.pending()[i].index,
            len: 0,
        }),
        after.pending().len() == 0,
        after.used_entries().len() == before.used_entries().len() + before.pending().len(),
{
    assert(completes(after.used_entries()[before.used_entries().len() + i], before.pending()[i]));
}

/// Drains `queue`: answers each waiting chain in order, puts it on the used
/// ring, publishes the used index once, and signals `state`'s interrupt
/// when the queue asks for it. A chain that cannot be put on the used ring
/// ends the pass. Gives whether the interrupt was triggered: exactly when
/// the used index moved since the guest was last told.
pub fn drain_queue(queue: &mut Queue, state: &ActiveState) -> (signalled: bool)
    ensures
        drained(*old(queue), *final(queue)),
        signalled == (final(queue).used_idx() != old(queue).last_signalled()),
{
    let ghost q0 = *queue;
    let ghost b = q0.used_entries().len();
    let ghost mut j: int = 0;
    loop
        invariant_except_break
            0 <= j <= q0.pending().len(),
            queue.pending() == q0.pending().skip(j),
        invariant
            0 <= j <= q0.pending().len(),
            queue.used_entries().len() == b + j,
            queue.used_entries().subrange(0, b as int) == q0.used_entries(),
            forall|i: int| 0 <= i < j ==> #[trigger] completes(queue.used_entries()[b + i], q0.pending()[i]),
            queue.unpublished() == q0.unpublished() + j,
            queue.used_idx() == q0.used_idx(),
            queue.spec_size() == q0.spec_size(),
            queue.last_signalled() == q0.last_signalled(),
        ensures
            0 <= j <= q0.pending().len(),
            j == q0.pending().len() ==> queue.pending().len() == 0,
            j < q0.pending().len() ==> queue.pending() == q0.pending().skip(j + 1),
            fits(q0) ==> j == q0.pending().len() && queue.pending().len() == 0,
        decreases queue.pending().len(),
    {
        let ghost before = *queue;
        match queue.pop() {
            None => {
                break;
            },
            Some(head) => {
                proof {
                    assert(head == q0.pending()[j]);
                    assert(queue.pending() =~= q0.pending().skip(j + 1));
                }
                let used_len: u32 = match VirtioRdma::process_chain(state, &head) {
                    Ok(len) => len,
                    Err(_) => 0,
                };
                match queue.add_used(head.index, used_len) {
                    Ok(()) => {
                        proof {
                            let e = UsedElement { id: head.index, len: used_len };
                            assert(queue.used_entries() == before.used_entries().push(e));
                            assert forall|i: int| 0 <= i < j + 1 implies #[trigger] completes(queue.used_entries()[b + i], q0.pending()[i]) by {
                                if i < j {
                                    assert(queue.used_entries()[b + i] == before.used_entries()[b + i]);
                                }
                            }
                            assert(queue.used_entries().subrange(0, b as int) =~= before.used_entries().subrange(0, b as int));
                            j = j + 1;
                        }
                    },
                    Err(_) => {
                        proof {
                            if fits(q0) {
                                assert(q0.pending()[j].index < q0.spec_size());
                            }
                        }
                        break;
                    },
                }
            },
        }
    }
    queue.advance_used_ring_idx();
    if queue.prepare_kick() {
        let _ = write_event_fd(&state.interrupt, 1);
        true
    } else {
        false
    }
}

/// A paravirtualized RDMA device with one request queue.
#[derive(Debug)]
pub struct VirtioRdma {
    id: String,
    avail_features: u64,
    acked_features: u64,
    activate_event: EventFd,
    device_state: DeviceState,
    queues: Vec<Queue>,
    queue_events: Vec<EventFd>,
}

impl VirtioRdma {
    /// The device's identifier.
    pub closed spec fn spec_id(&self) -> Seq<char> {
        self.id@
    }

    /// Whether the device was activated.
    pub closed spec fn active(&self) -> bool {
        self.device_state is Activated
    }

    /// The device's queues.
    pub closed spec fn queue_seq(&self) -> Seq<Queue> {
        self.queues@
    }

    /// The feature bits the device offers.
    pub closed spec fn spec_avail_features(&self) -> u64 {
        self.avail_features
    }

    /// The feature bits the driver acknowledged.
    pub closed spec fn spec_acked_features(&self) -> u64 {
        self.acked_features
    }

    /// The device holds one notification event per queue it expects.
    pub closed spec fn wf(&self) -> bool {
        self.queue_events@.len() == RDMA_NUM_QUEUES
    }

    /// The notification events, one per queue.
    pub closed spec fn queue_event_seq(&self) -> Seq<EventFd> {
        self.queue_events@
    }

    /// The event that wakes the dispatcher once the device is activated.
    pub closed spec fn spec_activate_event(&self) -> EventFd {
        self.activate_event
    }

    /// The guest memory an activated device was given.
    pub closed spec fn active_mem(&self) -> GuestMemoryMmap {
        self.device_state->Activated_0.mem
    }

    /// The interrupt an activated device was given.
    pub closed spec fn active_interrupt(&self) -> EventFd {
        self.device_state->Activated_0.interrupt
    }

    /// Whether `self` is active exactly when `other` is, with the same
    /// memory and interrupt.
    pub open spec fn same_binding(&self, other: &VirtioRdma) -> bool {
        &&& self.active() == other.active()
        &&& self.active() ==> self.active_mem() == other.active_mem()
            && self.active_interrupt() == other.active_interrupt()
    }

    /// Whether `self` keeps what `other` was apart from its queues and its
    /// lifecycle.
    pub open spec fn same_identity(&self, other: &VirtioRdma) -> bool {
        &&& self.spec_id() == other.spec_id()
        &&& self.queue_event_seq() == other.queue_event_seq()
        &&& self.spec_activate_event() == other.spec_activate_event()
        &&& self.spec_avail_features() == other.spec_avail_features()
        &&& self.spec_acked_features() == other.spec_acked_features()
        &&& self.wf() == other.wf()
    }

    /// A new inactive device named `id`, with one empty queue and its events.
    pub fn new(id: String) -> (r: Result<VirtioRdma, RdmaError>)
        ensures
            r is Ok ==> {
                let d = r->Ok_0;
                &&& d.spec_id() == id@
                &&& !d.active()
                &&& d.wf()
                &&& d.spec_avail_features() == 0
                &&& d.spec_acked_features() == 0
                &&& d.queue_seq().len() == RDMA_NUM_QUEUES
                &&& d.queue_seq()[0].spec_size() == MAX_QUEUE_SIZE
                &&& d.queue_seq()[0].pending().len() == 0
                &&& d.queue_seq()[0].used_entries().len() == 0
                &&& d.queue_seq()[0].used_idx() == 0
                &&& d.queue_seq()[0].unpublished() == 0
            },
    {
        let activate_event = match new_event_fd() {
            Ok(fd) => fd,
            Err(e) => {
                return Err(RdmaError::EventFd(e));
            },
        };
        let mut queues: Vec<Queue> = Vec::new();
        let mut queue_events: Vec<EventFd> = Vec::new();
        let mut i: usize = 0;
        while i < RDMA_NUM_QUEUES
            invariant
                i <= RDMA_NUM_QUEUES,
                queues@.len() == i,
                queue_events@.len() == i,
                forall|k: int|
                    0 <= k < i ==> {
                        let q = #[trigger] queues@[k];
                        &&& q.spec_size() == MAX_QUEUE_SIZE
                        &&& q.pending().len() == 0
                        &&& q.used_entries().len() == 0
                        &&& q.used_idx() == 0
                        &&& q.unpublished() == 0
                    },
            decreases RDMA_NUM_QUEUES - i,
        {
            queues.push(Queue::new(MAX_QUEUE_SIZE));
            match new_event_fd() {
                Ok(fd) => queue_events.push(fd),
                Err(e) => {
                    return Err(RdmaError::EventFd(e));
                },
            }
            i = i + 1;
        }
        Ok(VirtioRdma {
            id,
            avail_features: 0,
            acked_features: 0,
            activate_event,
            device_state: DeviceState::Inactive,
            queues,
            queue_events,
        })
    }

    /// The event that wakes the dispatcher once the device is activated.
    pub fn activate_event(&self) -> (r: &EventFd)
        ensures
            *r == self.spec_activate_event(),
    {
        &self.activate_event
    }

    /// Drains the request queue with the activated state's memory and
    /// interrupt. Gives whether the interrupt was triggered.
    pub fn handle_queue(&mut self) -> (signalled: bool)
        requires
            old(self).active(),
            old(self).queue_seq().len() == RDMA_NUM_QUEUES,
        ensures
            final(self).same_binding(old(self)),
            final(self).same_identity(old(self)),
            final(self).queue_seq().len() == RDMA_NUM_QUEUES,
            drained(old(self).queue_seq()[0], final(self).queue_seq()[0]),
            signalled == (final(self).queue_seq()[0].used_idx() != old(self).queue_seq()[0].last_signalled()),
    {
        match &self.device_state {
            DeviceState::Activated(state) => drain_queue(&mut self.queues[RDMA_QUEUE], state),
            DeviceState::Inactive => vstd::pervasive::unreached(),
        }
    }

    /// Acts on the outcome of reading the queue's notification: a read
    /// notification drains the queue, a failed read leaves it as it was.
    /// Gives whether the interrupt was triggered.
    pub fn on_queue_notification(&mut self, read: Result<u64, std::io::Error>) -> (signalled: bool)
        requires
            old(self).active(),
            old(self).queue_seq().len() == RDMA_NUM_QUEUES,
        ensures
            final(self).same_binding(old(self)),
            final(self).same_identity(old(self)),
            final(self).queue_seq().len() == RDMA_NUM_QUEUES,
            read is Ok ==> drained(old(self).queue_seq()[0], final(self).queue_seq()[0])
                && signalled == (final(self).queue_seq()[0].used_idx() != old(
                self,
            ).queue_seq()[0].last_signalled()),
            read is Err ==> final(self).queue_seq() == old(self).queue_seq() && !signalled,
    {
        match read {
            Ok(_) => self.handle_queue(),
            Err(_) => false,
        }
    }

    /// Consumes the queue's notification, which clears it so that it can
    /// fire again, and acts on the outcome (see `on_queue_notification`).
    pub fn process_queue_event(&mut self)
        requires
            old(self).active(),
            old(self).wf(),
            old(self).queue_seq().len() == RDMA_NUM_QUEUES,
        ensures
            final(self).same_binding(old(self)),
            final(self).same_identity(old(self)),
            final(self).queue_seq().len() == RDMA_NUM_QUEUES,
            drained(old(self).queue_seq()[0], final(self).queue_seq()[0]) || final(self).queue_seq()
                == old(self).queue_seq(),
    {
        let read = read_event_fd(&self.queue_events[RDMA_QUEUE]);
        self.on_queue_notification(read);
    }

    /// The device's identifier.
    pub fn id(&self) -> (r: &str)
        ensures
            r@ == self.spec_id(),
    {
        self.id.as_str()
    }

    /// Whether the device is named `id`.
    pub fn has_id(&self, id: &String) -> (r: bool)
        ensures
            r == (self.spec_id() == id@),
    {
        self.id == *id
    }

    /// The device's queues.
    pub fn queues(&self) -> (r: &[Queue])
        ensures
            r@ == self.queue_seq(),
    {
        self.queues.as_slice()
    }

    /// The device's queues, for the transport to fill.
    pub fn queues_mut(&mut self) -> (r: &mut Vec<Queue>)
        ensures
            r@ == old(self).queue_seq(),
            final(self).queue_seq() == final(r)@,
            final(self).same_identity(old(self)),
            final(self).same_binding(old(self)),
    {
        &mut self.queues
    }

    /// The notification events, one per queue.
    pub fn queue_events(&self) -> (r: &[EventFd])
        ensures
            r@ == self.queue_event_seq(),
            self.wf() ==> r@.len() == RDMA_NUM_QUEUES,
    {
        self.queue_events.as_slice()
    }

    /// The interrupt through which the guest is told of completed work.
    pub fn interrupt_trigger(&self) -> (r: &EventFd)
        requires
            self.active(),
        ensures
            *r == self.active_interrupt(),
    {
        match &self.device_state {
            DeviceState::Activated(state) => &state.interrupt,
            DeviceState::Inactive => vstd::pervasive::unreached(),
        }
    }

    /// The feature bits the device offers.
    pub fn avail_features(&self) -> (r: u64)
        ensures
            r == self.spec_avail_features(),
    {
        self.avail_features
    }

    /// The feature bits the driver acknowledged.
    pub fn acked_features(&self) -> (r: u64)
        ensures
            r == self.spec_acked_features(),
    {
        self.acked_features
    }

    /// Records the feature bits the driver acknowledged.
    pub fn set_acked_features(&mut self, acked_features: u64)
        ensures
            final(self).spec_acked_features() == acked_features,
            final(self).spec_id() == old(self).spec_id(),
            final(self).spec_avail_features() == old(self).spec_avail_features(),
            final(self).wf() == old(self).wf(),
            final(self).queue_event_seq() == old(self).queue_event_seq(),
            final(self).spec_activate_event() == old(self).spec_activate_event(),
            final(self).same_binding(old(self)),
            final(self).queue_seq() == old(self).queue_seq(),
    {
        self.acked_features = acked_features;
    }

    /// Whether the device was activated.
    pub fn is_activated(&self) -> (r: bool)
        ensures
            r == self.active(),
    {
        match &self.device_state {
            DeviceState::Activated(_) => true,
            DeviceState::Inactive => false,
        }
    }

    /// Activates the device with the guest memory and the interrupt: checks
    /// the number of queues, signals the activation event, and keeps both.
    /// On failure the device stays as it was.
    pub fn activate(&mut self, mem: GuestMemoryMmap, interrupt: EventFd) -> (r: Result<
        (),
        ActivateError,
    >)
        ensures
            old(self).queue_seq().len() != RDMA_NUM_QUEUES ==> (r matches Err(
                ActivateError::QueueMismatch { expected, got },
            ) && expected == RDMA_NUM_QUEUES && got == old(self).queue_seq().len()),
            old(self).queue_seq().len() == RDMA_NUM_QUEUES && r is Err ==> r->Err_0
                is EventFd,
            r is Ok ==> final(self).active() && final(self).active_mem() == mem
                && final(self).active_interrupt() == interrupt,
            r is Err ==> final(self).same_binding(old(self)),
            final(self).same_identity(old(self)),
            final(self).queue_seq() == old(self).queue_seq(),
    {
        if self.queues.len() != RDMA_NUM_QUEUES {
            return Err(ActivateError::QueueMismatch { expected: RDMA_NUM_QUEUES, got: self.queues.len() });
        }
        match write_event_fd(&self.activate_event, 1) {
            Ok(()) => {},
            Err(_) => {
                return Err(ActivateError::EventFd);
            },
        }
        self.device_state = DeviceState::Activated(ActiveState { mem, interrupt });
        Ok(())
    }

    /// Answers one chain: checks its structure, reads the request, and
    /// writes the response; gives the number of bytes written.
    pub fn process_chain(active_state: &ActiveState, head: &DescriptorChain) -> (r: Result<
        u32,
        RdmaQueueError,
    >)
        ensures
            chain_fault(head.descriptors@) is Some ==> r is Err && chain_fault(head.descriptors@)
                == Some(r->Err_0),
            chain_fault(head.descriptors@) is None ==> (r is Ok ==> r->Ok_0 == RDMA_RESPONSE_SIZE)
                && (r is Err ==> r->Err_0 is GuestMemory),
    {
        let (req_addr, resp_addr) = match validate_chain(head) {
            Ok(addrs) => addrs,
            Err(e) => {
                return Err(e);
            },
        };
        let request = match read_guest(&active_state.mem, req_addr, RDMA_REQUEST_SIZE as usize) {
            Ok(bytes) => bytes,
            Err(e) => {
                return Err(RdmaQueueError::GuestMemory(e));
            },
        };
        let response = response_bytes(request.as_slice());
        match write_guest(&active_state.mem, resp_addr, response.as_slice()) {
            Ok(()) => Ok(RDMA_RESPONSE_SIZE),
            Err(e) => Err(RdmaQueueError::GuestMemory(e)),
        }
    }
}

} // verus!
