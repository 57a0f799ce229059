//! The slot pool: one entry for each slot of the descriptor table, kept in place
//! and used again and again.
use crate::queue::VIRTIO_RING_SIZE;
use vstd::prelude::*;

verus! {

/// A table of 128 entries that lies at a known place in guest-physical memory,
/// so that an entry can be named to the device by its address.
pub struct Pool<T> {
    queue: [T; VIRTIO_RING_SIZE],
    base: u64,
    stride: u64,
}

impl<T: Copy + Default> Default for Pool<T> {
    /// A pool of default entries that lies nowhere: every entry is at address
    /// 0.
    fn default() -> (p: Self)
        ensures
            p.wf(),
            p.base() == 0,
            p.stride() == 0,
            forall|i: int| 0 <= i < 128 ==> call_ensures(T::default, (), #[trigger] p.entries()[i]),
    {
        Pool { queue: [T::default(); VIRTIO_RING_SIZE], base: 0, stride: 0 }
    }
}

impl<T: Copy> Pool<T> {
    /// The entries, by slot.
    pub closed spec fn entries(&self) -> Seq<T> {
        self.queue@
    }

    /// The address of entry 0.
    pub closed spec fn base(&self) -> u64 {
        self.base
    }

    /// The distance in bytes from one entry to the next.
    pub closed spec fn stride(&self) -> u64 {
        self.stride
    }

    /// The address of entry `idx`.
    pub open spec fn addr_of(&self, idx: int) -> int {
        self.base() + idx * self.stride()
    }

    /// The pool has its 128 entries, and all of them lie within the address
    /// space.
    pub open spec fn wf(&self) -> bool {
        &&& self.entries().len() == 128
        &&& self.base() + 128 * self.stride() <= u64::MAX
    }

    /// A pool at `base` whose entries are `stride` bytes apart and all hold
    /// `fill`.
    pub fn new(base: u64, stride: u32, fill: T) -> (p: Self)
        requires
            base + 128 * stride <= u64::MAX,
        ensures
            p.wf(),
            p.base() == base,
            p.stride() == stride,
            forall|i: int| 0 <= i < 128 ==> p.entries()[i] == fill,
    {
        Pool { queue: [fill; VIRTIO_RING_SIZE], base, stride: stride as u64 }
    }

    /// Entry `idx`, to read or to change in place.
    pub fn get(&mut self, idx: usize) -> (entry: &mut T)
        requires
            old(self).wf(),
            idx < VIRTIO_RING_SIZE,
        ensures
            *entry == old(self).entries()[idx as int],
            final(self).entries() == old(self).entries().update(idx as int, *final(entry)),
            final(self).base() == old(self).base(),
            final(self).stride() == old(self).stride(),
    {
        &mut self.queue[idx]
    }

    /// Entry `idx`, to read.
    pub fn peek(&self, idx: usize) -> (entry: &T)
        requires
            self.wf(),
            idx < VIRTIO_RING_SIZE,
        ensures
            *entry == self.entries()[idx as int],
    {
        &self.queue[idx]
    }

    /// Installs `v` as entry `idx` and hands the entry out.
    pub fn replace_ref(&mut self, idx: usize, v: T) -> (entry: &mut T)
        requires
            old(self).wf(),
            idx < VIRTIO_RING_SIZE,
        ensures
            *entry == v,
            final(self).entries() == old(self).entries().update(idx as int, *final(entry)),
            final(self).base() == old(self).base(),
            final(self).stride() == old(self).stride(),
    {
        self.queue[idx] = v;
        &mut self.queue[idx]
    }

    /// Installs `v` as entry `idx` and returns the address at which the device
    /// finds it.
    pub fn replace_u64(&mut self, idx: usize, v: T) -> (addr: u64)
        requires
            old(self).wf(),
            idx < VIRTIO_RING_SIZE,
        ensures
            final(self).wf(),
            final(self).entries() == old(self).entries().update(idx as int, v),
            final(self).base() == old(self).base(),
            final(self).stride() == old(self).stride(),
            addr == old(self).addr_of(idx as int),
    {
        self.queue[idx] = v;
        assert(idx * self.stride <= 128 * self.stride) by (nonlinear_arith)
            requires
                idx <= 128,
        ;
        self.base + (idx as u64) * self.stride
    }

    /// The address at which the device finds entry `idx`.
    pub fn addr(&self, idx: usize) -> (addr: u64)
        requires
            self.wf(),
            idx < VIRTIO_RING_SIZE,
        ensures
            addr == self.addr_of(idx as int),
    {
        assert(idx * self.stride <= 128 * self.stride) by (nonlinear_arith)
            requires
                idx <= 128,
        ;
        self.base + (idx as u64) * self.stride
    }

    /// The slot of the entry that lies at `addr`, if one does. Where the
    /// entries have no extent and so all lie at the base, that is slot 0.
    pub open spec fn slot_at(&self, addr: u64) -> Option<int> {
        if self.stride() == 0 {
            if addr == self.base() {
                Some(0)
            } else {
                None
            }
        } else if addr >= self.base() && (addr - self.base()) % (self.stride() as int) == 0 && (addr
            - self.base()) / (self.stride() as int) < 128 {
            Some((addr - self.base()) / (self.stride() as int))
        } else {
            None
        }
    }

    /// The slot of the entry that the device was given as `addr`.
    pub fn index_of(&self, addr: u64) -> (slot: Option<usize>)
        requires
            self.wf(),
        ensures
            match slot {
                Some(i) => self.slot_at(addr) == Some(i as int) && i < 128,
                None => self.slot_at(addr) is None,
            },
    {
        if self.stride == 0 {
            if addr == self.base {
                Some(0)
            } else {
                None
            }
        } else if addr < self.base {
            None
        } else {
            let off = addr - self.base;
            if off % self.stride != 0 {
                None
            } else {
                let i = off / self.stride;
                if i < 128 {
                    Some(i as usize)
                } else {
                    None
                }
            }
        }
    }

    /// An entry is found again by its address, where the entries have an extent.
    pub proof fn lemma_slot_of_addr(&self, idx: int)
        requires
            self.wf(),
            self.stride() > 0,
            0 <= idx < 128,
        ensures
            self.addr_of(idx) <= u64::MAX,
            self.slot_at(self.addr_of(idx) as u64) == Some(idx),
    {
        let s = self.stride() as int;
        assert(idx * s <= 128 * s) by (nonlinear_arith)
            requires
                idx <= 128,
                s >= 0,
        ;
        assert((idx * s) % s == 0 && (idx * s) / s == idx) by (nonlinear_arith)
            requires
                s > 0,
        ;
    }
}

} // verus!
