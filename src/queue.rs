//! The virtqueue as the device sees it: chains that the guest made
//! available, in the order it submitted them, and the used ring that the
//! device fills.

use std::collections::VecDeque;
use vstd::prelude::*;

verus! {

/// Largest number of entries a queue of this device holds.
pub const MAX_QUEUE_SIZE: u16 = 256;

/// One buffer of a chain: a guest address, a length, and whether the
/// device may only write it.
#[derive(Debug, Clone, Copy, PartialEq, Eq, Structural)]
pub struct Descriptor {
    pub addr: u64,
    pub len: u32,
    pub write_only: bool,
}

impl Descriptor {
    /// Whether the device may only write this buffer.
    pub fn is_write_only(&self) -> (r: bool)
        ensures
            r == self.write_only,
    {
        self.write_only
    }
}

/// A chain of buffers describing one request and its response, with the
/// index of its head in the descriptor table.
#[derive(Debug)]
pub struct DescriptorChain {
    pub index: u16,
    pub descriptors: Vec<Descriptor>,
}

impl DescriptorChain {
    /// A chain made of `descriptors`, its head at `index` of the table.
    pub fn new(index: u16, descriptors: Vec<Descriptor>) -> (r: DescriptorChain)
        ensures
            r.index == index,
            r.descriptors@ == descriptors@,
    {
        DescriptorChain { index, descriptors }
    }
}

/// An entry of the used ring: the head index of a chain and the number of
/// bytes the device wrote into it.
#[derive(Debug, Clone, Copy, PartialEq, Eq, Structural)]
pub struct UsedElement {
    pub id: u16,
    pub len: u32,
}

/// Ways a queue operation can fail.
#[derive(Debug, Clone, Copy, PartialEq, Eq, Structural)]
pub enum QueueError {
    /// The head index lies outside the descriptor table.
    DescIndexOutOfBounds(u16),
    /// The used ring holds as many unpublished entries as the queue has slots.
    UsedRingFull,
}

/// A virtqueue: its size, the chains waiting for the device, the entries
/// the device put on the used ring, and the used index the guest sees.
#[derive(Debug)]
pub struct Queue {
    size: u16,
    available: VecDeque<DescriptorChain>,
    used: Vec<UsedElement>,
    /// The used index published to the guest, counted modulo 2^16.
    next_used: u16,
    num_added: u16,
    signalled_used: u16,
}

impl Queue {
    /// The chains waiting for the device, oldest first.
    pub closed spec fn pending(&self) -> Seq<DescriptorChain> {
        self.available@
    }

    /// The head indices of the waiting chains, oldest first.
    pub closed spec fn pending_heads(&self) -> Seq<u16> {
        self.available@.map_values(|c: DescriptorChain| c.index)
    }

    /// Every entry put on the used ring, published or not, oldest first.
    pub closed spec fn used_entries(&self) -> Seq<UsedElement> {
        self.used@
    }

    /// How many entries were added since the used index was last advanced.
    pub closed spec fn unpublished(&self) -> nat {
        self.num_added as nat
    }

    /// The number of slots of the queue.
    pub closed spec fn spec_size(&self) -> u16 {
        self.size
    }

    /// The used index published to the guest.
    pub closed spec fn used_idx(&self) -> u16 {
        self.next_used
    }

    /// The used index the guest was last told of.
    pub closed spec fn last_signalled(&self) -> u16 {
        self.signalled_used
    }

    /// An empty queue with `size` slots.
    pub fn new(size: u16) -> (r: Queue)
        ensures
            r.spec_size() == size,
            r.pending().len() == 0,
            r.used_entries().len() == 0,
            r.used_idx() == 0,
            r.unpublished() == 0,
            r.last_signalled() == 0,
    {
        Queue {
            size,
            available: VecDeque::new(),
            used: Vec::new(),
            next_used: 0,
            num_added: 0,
            signalled_used: 0,
        }
    }

    /// The guest makes `chain` available to the device.
    pub fn add_available(&mut self, chain: DescriptorChain)
        ensures
            final(self).pending() == old(self).pending().push(chain),
            final(self).pending_heads() == old(self).pending_heads().push(chain.index),
            final(self).used_entries() == old(self).used_entries(),
            final(self).unpublished() == old(self).unpublished(),
            final(self).used_idx() == old(self).used_idx(),
            final(self).spec_size() == old(self).spec_size(),
            final(self).last_signalled() == old(self).last_signalled(),
    {
        self.available.push_back(chain);
        assert(final(self).pending_heads() =~= old(self).pending_heads().push(chain.index));
    }

    /// Takes the oldest waiting chain, if any.
    pub fn pop(&mut self) -> (r: Option<DescriptorChain>)
        ensures
            old(self).pending().len() == 0 ==> r is None && final(self).pending().len() == 0,
            old(self).pending().len() > 0 ==> r == Some(old(self).pending()[0])
                && final(self).pending() == old(self).pending().drop_first()
                && final(self).pending_heads() == old(self).pending_heads().drop_first(),
            final(self).used_entries() == old(self).used_entries(),
            final(self).unpublished() == old(self).unpublished(),
            final(self).used_idx() == old(self).used_idx(),
            final(self).spec_size() == old(self).spec_size(),
            final(self).last_signalled() == old(self).last_signalled(),
    {
        let r = self.available.pop_front();
        proof {
            if old(self).pending().len() > 0 {
                assert(final(self).pending_heads() =~= old(self).pending_heads().drop_first());
            }
        }
        r
    }

    /// Puts the chain with head `index` on the used ring with `len` bytes
    /// written; the guest sees it once the used index is advanced.
    pub fn add_used(&mut self, index: u16, len: u32) -> (r: Result<(), QueueError>)
        ensures
            index >= old(self).spec_size() ==> r == Err::<(), QueueError>(
                QueueError::DescIndexOutOfBounds(index),
            ),
            index < old(self).spec_size() && old(self).unpublished() >= old(self).spec_size() ==> r == Err::<
                (),
                QueueError,
            >(QueueError::UsedRingFull),
            r is Err ==> *final(self) == *old(self),
            r is Ok <==> index < old(self).spec_size() && old(self).unpublished() < old(self).spec_size(),
            r is Ok ==> final(self).used_entries() == old(self).used_entries().push(
                UsedElement { id: index, len },
            ) && final(self).unpublished() == old(self).unpublished() + 1,
            final(self).pending() == old(self).pending(),
            final(self).pending_heads() == old(self).pending_heads(),
            final(self).used_idx() == old(self).used_idx(),
            final(self).spec_size() == old(self).spec_size(),
            final(self).last_signalled() == old(self).last_signalled(),
    {
        if index >= self.size {
            return Err(QueueError::DescIndexOutOfBounds(index));
        }
        if self.num_added >= self.size {
            return Err(QueueError::UsedRingFull);
        }
        self.used.push(UsedElement { id: index, len });
        self.num_added = self.num_added + 1;
        Ok(())
    }

    /// Publishes the entries added since the last call: the used index
    /// moves forward by their number, modulo 2^16.
    pub fn advance_used_ring_idx(&mut self)
        ensures
            final(self).used_idx() as int == (old(self).used_idx() as int + old(self).unpublished())
                % 65536,
            final(self).unpublished() == 0,
            final(self).used_entries() == old(self).used_entries(),
            final(self).pending() == old(self).pending(),
            final(self).pending_heads() == old(self).pending_heads(),
            final(self).spec_size() == old(self).spec_size(),
            final(self).last_signalled() == old(self).last_signalled(),
    {
        self.next_used = self.next_used.wrapping_add(self.num_added);
        self.num_added = 0;
    }

    /// Whether the guest should be told of completed work: true when the
    /// used index moved since the guest was last told.
    pub fn prepare_kick(&mut self) -> (r: bool)
        ensures
            r == (old(self).used_idx() != old(self).last_signalled()),
            final(self).last_signalled() == old(self).used_idx(),
            final(self).used_idx() == old(self).used_idx(),
            final(self).unpublished() == old(self).unpublished(),
            final(self).used_entries() == old(self).used_entries(),
            final(self).pending() == old(self).pending(),
            final(self).pending_heads() == old(self).pending_heads(),
            final(self).spec_size() == old(self).spec_size(),
    {
        let r = self.next_used != self.signalled_used;
        self.signalled_used = self.next_used;
        r
    }

    /// The entries put on the used ring so far, oldest first.
    pub fn used_ring(&self) -> (r: &Vec<UsedElement>)
        ensures
            r@ == self.used_entries(),
    {
        &self.used
    }

    /// The number of slots of the queue.
    pub fn size(&self) -> (r: u16)
        ensures
            r == self.spec_size(),
    {
        self.size
    }

    /// The used index published to the guest, counted modulo 2^16.
    pub fn next_used(&self) -> (r: u16)
        ensures
            r == self.used_idx(),
    {
        self.next_used
    }

    /// How many chains wait for the device.
    pub fn pending_len(&self) -> (r: usize)
        ensures
            r == self.pending().len(),
    {
        self.available.len()
    }
}

} // verus!
