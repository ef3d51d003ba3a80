//! Device memory: raw device pointers and the allocation table that backs the
//! simulated devices.
//!
//! A device's memory is modelled as a map from allocation handle to the bytes of
//! that allocation. Handles are handed out from 1 upwards and never reused, so a
//! handle names at most one allocation over the whole life of a device, and 0 is
//! never a live handle (it plays the role of a null pointer).

use vstd::prelude::*;
use crate::device::GpuDevice;
use crate::error::{Error, GpuError};
use vstd::bytes::{spec_u32_from_le_bytes, spec_u32_to_le_bytes, u32_from_le_bytes, u32_to_le_bytes};

verus! {

/// A raw device pointer: the allocation handle and the device that owns it.
#[derive(Clone, Copy, Debug, PartialEq, Eq, Hash, Structural)]
pub struct DevicePtr {
    pub addr: u64,
    pub device_id: u32,
}

impl DevicePtr {
    pub fn new(addr: u64, device_id: u32) -> (r: Self)
        ensures
            r == (DevicePtr { addr, device_id }),
    {
        DevicePtr { addr, device_id }
    }

    /// Whether this pointer is the null handle (never allocated).
    pub fn is_null(&self) -> (r: bool)
        ensures
            r == (self.addr == 0),
    {
        self.addr == 0
    }
}

/// Whether `p` names a live allocation of the device with identifier `id`.
pub open spec fn is_live(id: usize, mem: Map<u64, Seq<u8>>, p: DevicePtr) -> bool {
    &&& p.device_id as usize == id
    &&& mem.dom().contains(p.addr)
}

/// The pointer that an allocation with handle `handle` on device `id` gets.
pub open spec fn ptr_for(handle: u64, id: usize) -> DevicePtr {
    DevicePtr { addr: handle, device_id: id as u32 }
}

/// `alloc(bytes)`: the next handle gets `bytes` zero bytes. A request of zero
/// bytes is refused, and so is one when no handle is left.
/// The result: the memory after the call, the next handle after it, and the
/// returned value.
pub open spec fn spec_alloc(id: usize, mem: Map<u64, Seq<u8>>, next: nat, bytes: usize) -> (
    Map<u64, Seq<u8>>,
    nat,
    Result<DevicePtr, Error>,
) {
    if bytes == 0 {
        (mem, next, Err(Error::Gpu(GpuError::OutOfMemory(0))))
    } else if next > usize::MAX {
        (mem, next, Err(Error::Gpu(GpuError::OutOfMemory(bytes))))
    } else {
        (
            mem.insert(next as u64, Seq::new(bytes as nat, |i: int| 0u8)),
            next + 1,
            Ok(ptr_for(next as u64, id)),
        )
    }
}

/// `free(ptr)`: a live allocation is removed; any other pointer is refused.
pub open spec fn spec_free(id: usize, mem: Map<u64, Seq<u8>>, p: DevicePtr) -> (
    Map<u64, Seq<u8>>,
    Result<(), Error>,
) {
    if !is_live(id, mem, p) {
        (mem, Err(Error::Gpu(GpuError::InvalidPtr(p))))
    } else {
        (mem.remove(p.addr), Ok(()))
    }
}

/// `memcpy_h2d(dst, src)`: the first `src.len()` bytes of the allocation become
/// `src`, the rest stays.
pub open spec fn spec_h2d(id: usize, mem: Map<u64, Seq<u8>>, dst: DevicePtr, src: Seq<u8>) -> (
    Map<u64, Seq<u8>>,
    Result<(), Error>,
) {
    if !is_live(id, mem, dst) {
        (mem, Err(Error::Gpu(GpuError::InvalidPtr(dst))))
    } else if src.len() > mem[dst.addr].len() {
        (mem, Err(Error::Gpu(GpuError::OutOfMemory(src.len() as usize))))
    } else {
        (mem.insert(dst.addr, src + mem[dst.addr].skip(src.len() as int)), Ok(()))
    }
}

/// `memcpy_d2h(dst, src)` for a host buffer of `n` bytes: the first `n` bytes of
/// the allocation, or the failure.
pub open spec fn spec_d2h(id: usize, mem: Map<u64, Seq<u8>>, n: nat, src: DevicePtr) -> Result<
    Seq<u8>,
    Error,
> {
    if !is_live(id, mem, src) {
        Err(Error::Gpu(GpuError::InvalidPtr(src)))
    } else if n > mem[src.addr].len() {
        Err(Error::Gpu(GpuError::InvalidPtr(src)))
    } else {
        Ok(mem[src.addr].take(n as int))
    }
}

/// `memcpy_d2d(dst, src, bytes)`: the first `bytes` bytes of `src` are copied
/// over the first `bytes` bytes of `dst`.
pub open spec fn spec_d2d(
    id: usize,
    mem: Map<u64, Seq<u8>>,
    dst: DevicePtr,
    src: DevicePtr,
    bytes: usize,
) -> (Map<u64, Seq<u8>>, Result<(), Error>) {
    if !is_live(id, mem, dst) {
        (mem, Err(Error::Gpu(GpuError::InvalidPtr(dst))))
    } else if !is_live(id, mem, src) {
        (mem, Err(Error::Gpu(GpuError::InvalidPtr(src))))
    } else if bytes > mem[src.addr].len() {
        (mem, Err(Error::Gpu(GpuError::InvalidPtr(src))))
    } else if bytes > mem[dst.addr].len() {
        (mem, Err(Error::Gpu(GpuError::InvalidPtr(dst))))
    } else {
        (
            mem.insert(
                dst.addr,
                mem[src.addr].take(bytes as int) + mem[dst.addr].skip(bytes as int),
            ),
            Ok(()),
        )
    }
}

/// The first `n` little-endian 32-bit words of `bytes`.
pub open spec fn le_words(bytes: Seq<u8>, n: nat) -> Seq<u32> {
    Seq::new(n, |i: int| spec_u32_from_le_bytes(bytes.subrange(4 * i, 4 * i + 4)))
}

/// The little-endian bytes of a sequence of 32-bit words.
pub open spec fn le_bytes(words: Seq<u32>) -> Seq<u8> {
    Seq::new(4 * words.len(), |j: int| spec_u32_to_le_bytes(words[j / 4])[j % 4])
}

/// Reading `n` 32-bit words from the start of an allocation.
pub open spec fn spec_read_words(id: usize, mem: Map<u64, Seq<u8>>, p: DevicePtr, n: usize) -> Result<
    Seq<u32>,
    Error,
> {
    if !is_live(id, mem, p) {
        Err(Error::Gpu(GpuError::InvalidPtr(p)))
    } else if n * 4 > usize::MAX {
        Err(Error::Argument("byte size overflow"))
    } else if n * 4 > mem[p.addr].len() {
        Err(Error::Gpu(GpuError::InvalidPtr(p)))
    } else {
        Ok(le_words(mem[p.addr], n as nat))
    }
}

/// Writing 32-bit words to the start of an allocation.
pub open spec fn spec_write_words(id: usize, mem: Map<u64, Seq<u8>>, p: DevicePtr, w: Seq<u32>) -> (
    Map<u64, Seq<u8>>,
    Result<(), Error>,
) {
    if !is_live(id, mem, p) {
        (mem, Err(Error::Gpu(GpuError::InvalidPtr(p))))
    } else if w.len() * 4 > usize::MAX {
        (mem, Err(Error::Argument("byte size overflow")))
    } else if w.len() * 4 > mem[p.addr].len() {
        (mem, Err(Error::Gpu(GpuError::InvalidPtr(p))))
    } else {
        (mem.insert(p.addr, le_bytes(w) + mem[p.addr].skip(4 * w.len() as int)), Ok(()))
    }
}

/// Words written and then read back are the words written.
pub proof fn law_words_round_trip(id: usize, mem: Map<u64, Seq<u8>>, p: DevicePtr, w: Seq<u32>)
    requires
        spec_write_words(id, mem, p, w).1 is Ok,
    ensures
        spec_read_words(id, spec_write_words(id, mem, p, w).0, p, w.len() as usize) == Ok::<
            Seq<u32>,
            Error,
        >(w),
{
    vstd::bytes::lemma_auto_spec_u32_to_from_le_bytes();
    let m2 = spec_write_words(id, mem, p, w).0;
    let b = m2[p.addr];
    assert forall|i: int| 0 <= i < w.len() implies #[trigger] b.subrange(4 * i, 4 * i + 4)
        == spec_u32_to_le_bytes(w[i]) by {
        assert(spec_u32_to_le_bytes(w[i]).len() == 4);
        assert forall|k: int| 0 <= k < 4 implies b.subrange(4 * i, 4 * i + 4)[k]
            == spec_u32_to_le_bytes(w[i])[k] by {
            assert((4 * i + k) / 4 == i) by (nonlinear_arith)
                requires 0 <= k < 4;
            assert((4 * i + k) % 4 == k) by (nonlinear_arith)
                requires 0 <= k < 4;
            assert(4 * i + k < 4 * w.len()) by (nonlinear_arith)
                requires 0 <= k < 4, i < w.len();
        }
        assert(b.subrange(4 * i, 4 * i + 4) =~= spec_u32_to_le_bytes(w[i]));
    }
    assert forall|i: int| 0 <= i < w.len() implies #[trigger] le_words(b, w.len())[i] == w[i] by {
        assert(b.subrange(4 * i, 4 * i + 4) == spec_u32_to_le_bytes(w[i]));
        assert(spec_u32_from_le_bytes(spec_u32_to_le_bytes(w[i])) == w[i]);
    }
    assert(le_words(b, w.len()) =~= w);
}

/// A read of at most as many bytes as a write just put into an allocation gives
/// back exactly what was written.
pub proof fn law_read_after_write(id: usize, mem: Map<u64, Seq<u8>>, p: DevicePtr, src: Seq<u8>, n: nat)
    requires
        is_live(id, mem, p),
        src.len() <= mem[p.addr].len(),
        n <= src.len(),
    ensures
        spec_h2d(id, mem, p, src).1 is Ok,
        spec_d2h(id, spec_h2d(id, mem, p, src).0, n, p) == Ok::<Seq<u8>, Error>(src.take(n as int)),
{
    let m2 = spec_h2d(id, mem, p, src).0;
    assert(m2[p.addr].take(n as int) =~= src.take(n as int));
}

/// A host-to-device copy into a live allocation that can hold it succeeds,
/// keeps the allocation's length, puts `src` at its start, and leaves every
/// byte past `src.len()` as it was.
pub proof fn law_h2d_frame(id: usize, mem: Map<u64, Seq<u8>>, p: DevicePtr, src: Seq<u8>)
    requires
        is_live(id, mem, p),
        src.len() <= mem[p.addr].len(),
    ensures
        spec_h2d(id, mem, p, src).1 is Ok,
        spec_h2d(id, mem, p, src).0.dom().contains(p.addr),
        spec_h2d(id, mem, p, src).0[p.addr].len() == mem[p.addr].len(),
        forall|i: int| 0 <= i < src.len() ==> #[trigger] spec_h2d(id, mem, p, src).0[p.addr][i] == src[i],
        forall|i: int|
            src.len() <= i < mem[p.addr].len() ==> #[trigger] spec_h2d(id, mem, p, src).0[p.addr][i]
                == mem[p.addr][i],
{
}

/// A device-to-device copy between live allocations that can hold it
/// succeeds, keeps the destination's length, puts the source's first `bytes`
/// bytes at its start, leaves its bytes past `bytes` as they were, and leaves
/// every other allocation as it was.
pub proof fn law_d2d_frame(
    id: usize,
    mem: Map<u64, Seq<u8>>,
    dst: DevicePtr,
    src: DevicePtr,
    bytes: usize,
    q: u64,
)
    requires
        is_live(id, mem, dst),
        is_live(id, mem, src),
        bytes <= mem[src.addr].len(),
        bytes <= mem[dst.addr].len(),
    ensures
        spec_d2d(id, mem, dst, src, bytes).1 is Ok,
        spec_d2d(id, mem, dst, src, bytes).0[dst.addr].len() == mem[dst.addr].len(),
        forall|i: int| 0 <= i < bytes ==> #[trigger] spec_d2d(id, mem, dst, src, bytes).0[dst.addr][i]
            == mem[src.addr][i],
        forall|i: int|
            bytes <= i < mem[dst.addr].len() ==> #[trigger] spec_d2d(id, mem, dst, src, bytes).0[dst.addr][i]
                == mem[dst.addr][i],
        q != dst.addr ==> spec_d2d(id, mem, dst, src, bytes).0.dom().contains(q) == mem.dom().contains(q),
        q != dst.addr && mem.dom().contains(q) ==> spec_d2d(id, mem, dst, src, bytes).0[q] == mem[q],
{
}

/// Freeing a live allocation removes it and nothing else.
pub proof fn law_free_isolated(id: usize, mem: Map<u64, Seq<u8>>, p: DevicePtr, q: u64)
    requires
        is_live(id, mem, p),
    ensures
        !spec_free(id, mem, p).0.dom().contains(p.addr),
        q != p.addr ==> spec_free(id, mem, p).0.dom().contains(q) == mem.dom().contains(q),
        q != p.addr && mem.dom().contains(q) ==> spec_free(id, mem, p).0[q] == mem[q],
{
}

/// A write to one allocation leaves every other allocation as it was.
pub proof fn law_write_isolated(id: usize, mem: Map<u64, Seq<u8>>, p: DevicePtr, src: Seq<u8>, q: u64)
    requires
        q != p.addr,
    ensures
        spec_h2d(id, mem, p, src).0.dom().contains(q) == mem.dom().contains(q),
        mem.dom().contains(q) ==> spec_h2d(id, mem, p, src).0[q] == mem[q],
{
}

/// A fresh allocation reads as zeros, and it does not disturb the allocations
/// that were there before it.
pub proof fn law_alloc_reads_zero(id: usize, mem: Map<u64, Seq<u8>>, next: nat, bytes: usize, n: nat)
    requires
        forall|h: u64| #[trigger] mem.dom().contains(h) ==> h < next,
        bytes > 0,
        1 <= next <= usize::MAX,
        n <= bytes,
    ensures
        ({
            let (m2, next2, r) = spec_alloc(id, mem, next, bytes);
            &&& r matches Ok(p) && {
                &&& !mem.dom().contains(p.addr)
                &&& p.addr != 0
                &&& (id as u32) as usize == id ==> spec_d2h(id, m2, n, p) == Ok::<Seq<u8>, Error>(
                    Seq::new(n, |i: int| 0u8),
                )
                &&& forall|h: u64| #[trigger] mem.dom().contains(h) ==> m2.dom().contains(h) && m2[h] == mem[h]
            }
            &&& next2 == next + 1
        }),
{
    let (m2, next2, r) = spec_alloc(id, mem, next, bytes);
    let p = r->Ok_0;
    assert(m2[p.addr].take(n as int) =~= Seq::new(n, |i: int| 0u8));
}

/// Once freed, a pointer is refused by every operation that takes it.
pub proof fn law_free_invalidates(id: usize, mem: Map<u64, Seq<u8>>, p: DevicePtr, src: Seq<u8>, n: nat)
    requires
        is_live(id, mem, p),
    ensures
        spec_free(id, mem, p).1 is Ok,
        spec_free(id, spec_free(id, mem, p).0, p).1 == Err::<(), Error>(
            Error::Gpu(GpuError::InvalidPtr(p)),
        ),
        spec_h2d(id, spec_free(id, mem, p).0, p, src).1 == Err::<(), Error>(
            Error::Gpu(GpuError::InvalidPtr(p)),
        ),
        spec_d2h(id, spec_free(id, mem, p).0, n, p) == Err::<Seq<u8>, Error>(
            Error::Gpu(GpuError::InvalidPtr(p)),
        ),
{
}

/// After a device-to-device copy of `bytes` bytes, reading at most that many
/// bytes of the destination gives the source's bytes.
pub proof fn law_copy_then_read(
    id: usize,
    mem: Map<u64, Seq<u8>>,
    dst: DevicePtr,
    src: DevicePtr,
    bytes: usize,
    n: nat,
)
    requires
        is_live(id, mem, dst),
        is_live(id, mem, src),
        bytes <= mem[src.addr].len(),
        bytes <= mem[dst.addr].len(),
        n <= bytes,
    ensures
        spec_d2d(id, mem, dst, src, bytes).1 is Ok,
        spec_d2h(id, spec_d2d(id, mem, dst, src, bytes).0, n, dst) == Ok::<Seq<u8>, Error>(
            mem[src.addr].take(n as int),
        ),
{
    let m2 = spec_d2d(id, mem, dst, src, bytes).0;
    assert(m2[dst.addr].take(n as int) =~= mem[src.addr].take(n as int));
}

/// A device allocation as the user-facing API sees it: its pointer and its
/// length. The device that owns it is passed to each operation; `free` hands
/// the allocation back.
pub struct DeviceBuffer {
    ptr: DevicePtr,
    len: usize,
}

impl DeviceBuffer {
    pub closed spec fn spec_ptr(&self) -> DevicePtr {
        self.ptr
    }

    pub closed spec fn spec_len(&self) -> usize {
        self.len
    }

    pub fn as_ptr(&self) -> (r: DevicePtr)
        ensures
            r == self.spec_ptr(),
    {
        self.ptr
    }

    pub fn len(&self) -> (r: usize)
        ensures
            r == self.spec_len(),
    {
        self.len
    }

    pub fn is_empty(&self) -> (r: bool)
        ensures
            r == (self.spec_len() == 0),
    {
        self.len == 0
    }

    /// Copy host bytes into this buffer.
    pub fn copy_from_host<D: GpuDevice>(&self, device: &mut D, src: &[u8]) -> (r: Result<(), Error>)
        ensures
            final(device).spec_info() == old(device).spec_info(),
            final(device).models_memory() == old(device).models_memory(),
            old(device).models_memory() ==> final(device).next_handle() == old(device).next_handle()
                && (final(device).memory(), r) == spec_h2d(
                old(device).spec_info().id,
                old(device).memory(),
                self.spec_ptr(),
                src@,
            ),
    {
        device.memcpy_h2d(self.ptr, src)
    }

    /// Copy the start of this buffer to host memory.
    pub fn copy_to_host<D: GpuDevice>(&self, device: &D, dst: &mut [u8]) -> (r: Result<(), Error>)
        ensures
            final(dst)@.len() == old(dst)@.len(),
            device.models_memory() ==> match spec_d2h(
                device.spec_info().id,
                device.memory(),
                old(dst)@.len(),
                self.spec_ptr(),
            ) {
                Ok(bytes) => r is Ok && final(dst)@ == bytes,
                Err(e) => r == Err::<(), Error>(e) && final(dst)@ == old(dst)@,
            },
    {
        device.memcpy_d2h(dst, self.ptr)
    }

    /// Release this buffer on its device.
    pub fn free<D: GpuDevice>(self, device: &mut D) -> (r: Result<(), Error>)
        ensures
            final(device).spec_info() == old(device).spec_info(),
            final(device).models_memory() == old(device).models_memory(),
            old(device).models_memory() ==> final(device).next_handle() == old(device).next_handle()
                && (final(device).memory(), r) == spec_free(
                old(device).spec_info().id,
                old(device).memory(),
                self.spec_ptr(),
            ),
    {
        device.free(self.ptr)
    }
}

/// Allocate a buffer of `len` bytes on `device`.
pub fn alloc_buffer<D: GpuDevice>(device: &mut D, len: usize) -> (r: Result<DeviceBuffer, Error>)
    ensures
        final(device).spec_info() == old(device).spec_info(),
        final(device).models_memory() == old(device).models_memory(),
        old(device).models_memory() ==> ({
            let (m, n, a) = spec_alloc(
                old(device).spec_info().id,
                old(device).memory(),
                old(device).next_handle(),
                len,
            );
            &&& final(device).memory() == m
            &&& final(device).next_handle() == n
            &&& match a {
                Ok(p) => r matches Ok(b) && b.spec_ptr() == p && b.spec_len() == len,
                Err(e) => r == Err::<DeviceBuffer, Error>(e),
            }
        }),
{
    let ptr = device.allocate(len)?;
    Ok(DeviceBuffer { ptr, len })
}

/// The allocations of one simulated device: slot `h - 1` holds the bytes of
/// handle `h`, or nothing once `h` was freed. Each operation takes the
/// identifier of the device that owns the table.
pub struct AllocTable {
    slots: Vec<Option<Vec<u8>>>,
}

impl AllocTable {
    /// Handle to bytes, for every live allocation.
    pub closed spec fn memory(&self) -> Map<u64, Seq<u8>> {
        Map::new(
            |h: u64| 1 <= h <= self.slots@.len() && self.slots@[h - 1] is Some,
            |h: u64| self.slots@[h - 1]->Some_0@,
        )
    }

    /// The handle that the next allocation gets.
    pub closed spec fn next_handle(&self) -> nat {
        self.slots@.len() + 1
    }

    /// Every live handle was handed out already, and none is the null handle.
    pub proof fn lemma_handles(&self)
        ensures
            forall|h: u64| #[trigger] self.memory().dom().contains(h) ==> 1 <= h < self.next_handle(),
    {
    }

    /// An empty table.
    pub fn new() -> (r: Self)
        ensures
            r.memory() == Map::<u64, Seq<u8>>::empty(),
            r.next_handle() == 1,
    {
        let r = AllocTable { slots: Vec::new() };
        assert(r.memory() =~= Map::<u64, Seq<u8>>::empty());
        r
    }

    /// The slot of a live pointer, if it is one.
    fn slot_of(&self, id: usize, p: DevicePtr) -> (r: Option<usize>)
        ensures
            r is Some <==> is_live(id, self.memory(), p),
            r matches Some(i) ==> i + 1 == p.addr && i < self.slots@.len()
                && self.slots@[i as int] is Some,
    {
        if p.device_id as usize != id {
            return None;
        }
        if p.addr == 0 || p.addr > self.slots.len() as u64 {
            return None;
        }
        let i = (p.addr - 1) as usize;
        if self.slots[i].is_some() {
            Some(i)
        } else {
            None
        }
    }

    /// Whether `p` names a live allocation of device `id`.
    pub fn is_live_ptr(&self, id: usize, p: DevicePtr) -> (r: bool)
        ensures
            r == is_live(id, self.memory(), p),
    {
        self.slot_of(id, p).is_some()
    }

    /// The length of a live allocation.
    fn len_at(&self, i: usize) -> (r: usize)
        requires
            i < self.slots@.len(),
            self.slots@[i as int] is Some,
        ensures
            r == self.slots@[i as int]->Some_0@.len(),
    {
        match &self.slots[i] {
            Some(b) => b.len(),
            None => 0,
        }
    }

    /// The length in bytes of the allocation that `p` names.
    pub fn len_of(&self, id: usize, p: DevicePtr) -> (r: Result<usize, Error>)
        ensures
            is_live(id, self.memory(), p) ==> r == Ok::<usize, Error>(
                self.memory()[p.addr].len() as usize,
            ),
            !is_live(id, self.memory(), p) ==> r == Err::<usize, Error>(
                Error::Gpu(GpuError::InvalidPtr(p)),
            ),
    {
        match self.slot_of(id, p) {
            Some(i) => Ok(self.len_at(i)),
            None => Err(Error::Gpu(GpuError::InvalidPtr(p))),
        }
    }

    pub fn allocate(&mut self, id: usize, bytes: usize) -> (r: Result<DevicePtr, Error>)
        ensures
            (final(self).memory(), final(self).next_handle(), r) == spec_alloc(
                id,
                old(self).memory(),
                old(self).next_handle(),
                bytes,
            ),
    {
        if bytes == 0 {
            return Err(Error::Gpu(GpuError::OutOfMemory(0)));
        }
        if self.slots.len() == usize::MAX {
            return Err(Error::Gpu(GpuError::OutOfMemory(bytes)));
        }
        let handle = self.slots.len() as u64 + 1;
        let ghost old_mem = self.memory();
        let buf: Vec<u8> = vec![0u8; bytes];
        assert(buf@ =~= Seq::new(bytes as nat, |i: int| 0u8));
        self.slots.push(Some(buf));
        assert(self.memory() =~= old_mem.insert(handle, Seq::new(bytes as nat, |i: int| 0u8)));
        Ok(DevicePtr::new(handle, id as u32))
    }

    pub fn free(&mut self, id: usize, p: DevicePtr) -> (r: Result<(), Error>)
        ensures
            final(self).next_handle() == old(self).next_handle(),
            (final(self).memory(), r) == spec_free(id, old(self).memory(), p),
    {
        match self.slot_of(id, p) {
            None => Err(Error::Gpu(GpuError::InvalidPtr(p))),
            Some(i) => {
                let ghost old_mem = self.memory();
                self.slots.set(i, None);
                assert(self.memory() =~= old_mem.remove(p.addr));
                Ok(())
            },
        }
    }

    pub fn memcpy_h2d(&mut self, id: usize, dst: DevicePtr, src: &[u8]) -> (r: Result<(), Error>)
        ensures
            final(self).next_handle() == old(self).next_handle(),
            (final(self).memory(), r) == spec_h2d(
                id,
                old(self).memory(),
                dst,
                src@,
            ),
    {
        let i = match self.slot_of(id, dst) {
            None => return Err(Error::Gpu(GpuError::InvalidPtr(dst))),
            Some(i) => i,
        };
        let cap = self.len_at(i);
        if src.len() > cap {
            return Err(Error::Gpu(GpuError::OutOfMemory(src.len())));
        }
        let ghost old_mem = self.memory();
        let mut taken: Option<Vec<u8>> = None;
        self.slots.set_and_swap(i, &mut taken);
        let mut buf = match taken {
            Some(b) => b,
            None => Vec::new(),
        };
        let ghost old_buf = buf@;
        let mut k: usize = 0;
        while k < src.len()
            invariant
                k <= src@.len(),
                src@.len() <= old_buf.len(),
                buf@.len() == old_buf.len(),
                forall|j: int| 0 <= j < k ==> buf@[j] == src@[j],
                forall|j: int| k <= j < old_buf.len() ==> buf@[j] == old_buf[j],
            decreases src@.len() - k,
        {
            buf[k] = src[k];
            k = k + 1;
        }
        assert(buf@ =~= src@ + old_buf.skip(src@.len() as int));
        self.slots.set(i, Some(buf));
        assert(self.memory() =~= old_mem.insert(dst.addr, src@ + old_buf.skip(src@.len() as int)));
        Ok(())
    }

    pub fn memcpy_d2h(&self, id: usize, dst: &mut [u8], src: DevicePtr) -> (r: Result<(), Error>)
        ensures
            match spec_d2h(id, self.memory(), old(dst)@.len(), src) {
                Ok(bytes) => r is Ok && final(dst)@ == bytes,
                Err(e) => r == Err::<(), Error>(e) && final(dst)@ == old(dst)@,
            },
    {
        let i = match self.slot_of(id, src) {
            None => return Err(Error::Gpu(GpuError::InvalidPtr(src))),
            Some(i) => i,
        };
        let buf = match &self.slots[i] {
            Some(b) => b,
            None => return Err(Error::Gpu(GpuError::InvalidPtr(src))),
        };
        if dst.len() > buf.len() {
            return Err(Error::Gpu(GpuError::InvalidPtr(src)));
        }
        let n = dst.len();
        let mut k: usize = 0;
        while k < n
            invariant
                n == dst@.len(),
                n <= buf@.len(),
                k <= n,
                forall|j: int| 0 <= j < k ==> dst@[j] == buf@[j],
            decreases n - k,
        {
            dst[k] = buf[k];
            k = k + 1;
        }
        assert(dst@ =~= buf@.take(n as int));
        Ok(())
    }

    pub fn memcpy_d2d(&mut self, id: usize, dst: DevicePtr, src: DevicePtr, bytes: usize) -> (r: Result<
        (),
        Error,
    >)
        ensures
            final(self).next_handle() == old(self).next_handle(),
            (final(self).memory(), r) == spec_d2d(
                id,
                old(self).memory(),
                dst,
                src,
                bytes,
            ),
    {
        let di = match self.slot_of(id, dst) {
            None => return Err(Error::Gpu(GpuError::InvalidPtr(dst))),
            Some(i) => i,
        };
        let si = match self.slot_of(id, src) {
            None => return Err(Error::Gpu(GpuError::InvalidPtr(src))),
            Some(i) => i,
        };
        if bytes > self.len_at(si) {
            return Err(Error::Gpu(GpuError::InvalidPtr(src)));
        }
        if bytes > self.len_at(di) {
            return Err(Error::Gpu(GpuError::InvalidPtr(dst)));
        }
        let ghost old_mem = self.memory();
        let mut tmp: Vec<u8> = Vec::new();
        match &self.slots[si] {
            Some(s) => {
                let mut k: usize = 0;
                while k < bytes
                    invariant
                        k <= bytes,
                        bytes <= s@.len(),
                        tmp@ == s@.take(k as int),
                    decreases bytes - k,
                {
                    tmp.push(s[k]);
                    k = k + 1;
                    assert(tmp@ =~= s@.take(k as int));
                }
            },
            None => {},
        }
        assert(tmp@ == old_mem[src.addr].take(bytes as int));
        let mut taken: Option<Vec<u8>> = None;
        self.slots.set_and_swap(di, &mut taken);
        let mut buf = match taken {
            Some(b) => b,
            None => Vec::new(),
        };
        let ghost old_buf = buf@;
        assert(old_buf == old_mem[dst.addr]);
        let mut k: usize = 0;
        while k < bytes
            invariant
                k <= bytes,
                tmp@.len() == bytes,
                bytes <= old_buf.len(),
                buf@.len() == old_buf.len(),
                forall|j: int| 0 <= j < k ==> buf@[j] == tmp@[j],
                forall|j: int| k <= j < old_buf.len() ==> buf@[j] == old_buf[j],
            decreases bytes - k,
        {
            buf[k] = tmp[k];
            k = k + 1;
        }
        assert(buf@ =~= tmp@ + old_buf.skip(bytes as int));
        self.slots.set(di, Some(buf));
        assert(self.memory() =~= old_mem.insert(dst.addr, tmp@ + old_buf.skip(bytes as int)));
        Ok(())
    }
    /// Read `n` little-endian 32-bit words from the start of an allocation.
    pub fn read_f32_vec(&self, id: usize, p: DevicePtr, n: usize) -> (r: Result<Vec<u32>, Error>)
        ensures
            match spec_read_words(id, self.memory(), p, n) {
                Ok(w) => r matches Ok(v) && v@ == w,
                Err(e) => r == Err::<Vec<u32>, Error>(e),
            },
    {
        let i = match self.slot_of(id, p) {
            None => return Err(Error::Gpu(GpuError::InvalidPtr(p))),
            Some(i) => i,
        };
        let bytes = match n.checked_mul(4) {
            None => return Err(Error::Argument("byte size overflow")),
            Some(b) => b,
        };
        let buf = match &self.slots[i] {
            Some(b) => b,
            None => return Err(Error::Gpu(GpuError::InvalidPtr(p))),
        };
        if bytes > buf.len() {
            return Err(Error::Gpu(GpuError::InvalidPtr(p)));
        }
        let mut out: Vec<u32> = Vec::new();
        let mut k: usize = 0;
        while k < n
            invariant
                bytes == 4 * n,
                bytes <= buf@.len(),
                k <= n,
                out@ =~= le_words(buf@, k as nat),
            decreases n - k,
        {
            let chunk = vstd::slice::slice_subrange(buf.as_slice(), 4 * k, 4 * k + 4);
            let w = u32_from_le_bytes(chunk);
            out.push(w);
            k = k + 1;
            assert(out@ =~= le_words(buf@, k as nat));
        }
        Ok(out)
    }

    /// Write little-endian 32-bit words to the start of an allocation.
    pub fn write_f32_vec(&mut self, id: usize, p: DevicePtr, w: &[u32]) -> (r: Result<(), Error>)
        ensures
            final(self).next_handle() == old(self).next_handle(),
            (final(self).memory(), r) == spec_write_words(id, old(self).memory(), p, w@),
    {
        let i = match self.slot_of(id, p) {
            None => return Err(Error::Gpu(GpuError::InvalidPtr(p))),
            Some(i) => i,
        };
        let bytes = match w.len().checked_mul(4) {
            None => return Err(Error::Argument("byte size overflow")),
            Some(b) => b,
        };
        if bytes > self.len_at(i) {
            return Err(Error::Gpu(GpuError::InvalidPtr(p)));
        }
        let ghost old_mem = self.memory();
        let mut taken: Option<Vec<u8>> = None;
        self.slots.set_and_swap(i, &mut taken);
        let mut buf = match taken {
            Some(b) => b,
            None => Vec::new(),
        };
        let ghost old_buf = buf@;
        let ghost target = le_bytes(w@);
        proof {
            vstd::bytes::lemma_auto_spec_u32_to_from_le_bytes();
        }
        let mut k: usize = 0;
        while k < w.len()
            invariant
                bytes == 4 * w@.len(),
                bytes <= old_buf.len(),
                buf@.len() == old_buf.len(),
                k <= w@.len(),
                target == le_bytes(w@),
                forall|x: u32| #[trigger] spec_u32_to_le_bytes(x).len() == 4,
                forall|j: int| 0 <= j < 4 * k ==> buf@[j] == target[j],
                forall|j: int| 4 * k <= j < old_buf.len() ==> buf@[j] == old_buf[j],
            decreases w@.len() - k,
        {
            let wb = u32_to_le_bytes(w[k]);
            let mut q: usize = 0;
            while q < 4
                invariant
                    bytes == 4 * w@.len(),
                    bytes <= old_buf.len(),
                    buf@.len() == old_buf.len(),
                    k < w@.len(),
                    q <= 4,
                    wb@ == spec_u32_to_le_bytes(w@[k as int]),
                    wb@.len() == 4,
                    target == le_bytes(w@),
                    forall|j: int| 0 <= j < 4 * k + q ==> buf@[j] == target[j],
                    forall|j: int| 4 * k + q <= j < old_buf.len() ==> buf@[j] == old_buf[j],
                decreases 4 - q,
            {
                proof {
                    let j = 4 * k + q;
                    assert(j / 4 == k as int && j % 4 == q as int) by (nonlinear_arith)
                        requires j == 4 * k + q, q < 4;
                    assert(j < 4 * w@.len()) by (nonlinear_arith)
                        requires j == 4 * k + q, q < 4, k < w@.len();
                }
                buf[4 * k + q] = wb[q];
                q = q + 1;
            }
            k = k + 1;
        }
        assert(buf@ =~= target + old_buf.skip(4 * w@.len() as int));
        self.slots.set(i, Some(buf));
        assert(self.memory() =~= old_mem.insert(p.addr, target + old_buf.skip(4 * w@.len() as int)));
        Ok(())
    }
}

} // verus!
