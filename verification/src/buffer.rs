use vstd::prelude::*;

use crate::device::{byte_count, transfer_spec, Device, Direction, Mem, Transfer};
use crate::error::RWError;

verus! {

/// A buffer of `len` values of type `T` in the device's memory. Its device
/// memory always holds exactly the bytes of `len` values.
pub struct Buffer<T: Copy> {
    mem: Mem,
    len: usize,
    executor: &'static Device,
    phantom: core::marker::PhantomData<T>,
}

/// The copy that writing `count` values into `buf` asks of the runtime, or the
/// size mismatch that refuses it.
pub open spec fn write_spec<T: Copy>(buf: Buffer<T>, count: int) -> Result<Transfer, RWError> {
    transfer_spec(
        Direction::ToDevice,
        buf.device(),
        buf.memory(),
        byte_count::<T>(count),
        0,
        false,
        false,
    )
}

/// The copy that reading `buf` back asks of the runtime.
pub open spec fn read_spec<T: Copy>(buf: Buffer<T>) -> Result<Transfer, RWError> {
    transfer_spec(
        Direction::FromDevice,
        buf.device(),
        buf.memory(),
        byte_count::<T>(buf.elems() as int),
        0,
        false,
        false,
    )
}

impl<T: Copy> Buffer<T> {
    /// The device memory holds exactly the bytes of the buffer's values.
    #[verifier::type_invariant]
    pub closed spec fn inv(self) -> bool {
        self.mem.byte_len() == byte_count::<T>(self.len as int)
    }

    /// Number of values of type `T` in the buffer.
    pub closed spec fn elems(self) -> usize {
        self.len
    }

    pub closed spec fn memory(self) -> Mem {
        self.mem
    }

    pub closed spec fn device(self) -> Device {
        *self.executor
    }

    /// Number of bytes to allocate for a buffer of `len` values, or `None`
    /// when that number does not fit in a `usize`.
    pub fn alloc_size(len: usize) -> (r: Option<usize>)
        ensures
            match r {
                Some(size) => size == byte_count::<T>(len as int),
                None => byte_count::<T>(len as int) > usize::MAX,
            },
    {
        len.checked_mul(core::mem::size_of::<T>())
    }

    /// A buffer of `len` values of type `T` held in the device memory `mem`,
    /// which `executor` allocated with the size that `alloc_size` gives.
    pub fn new(executor: &'static Device, len: usize, mem: Mem) -> (r: Self)
        requires
            mem.byte_len() == byte_count::<T>(len as int),
        ensures
            r.elems() == len,
            r.memory() == mem,
            r.device() == *executor,
            r.inv(),
    {
        Buffer { mem, len, executor, phantom: core::marker::PhantomData }
    }

    /// Number of values of type `T` in the buffer.
    pub fn len(&self) -> (r: usize)
        ensures
            r == self.elems(),
    {
        self.len
    }

    /// The device memory of the buffer.
    pub fn mem(&self) -> (r: &Mem)
        ensures
            *r == self.memory(),
    {
        &self.mem
    }

    /// The device that holds the buffer.
    pub fn executor(&self) -> (r: &'static Device)
        ensures
            *r == self.device(),
    {
        self.executor
    }

    /// Checks a read of the whole buffer back to the host. It is never refused:
    /// the copy is of all the bytes of the buffer's device memory.
    pub fn read(&self) -> (r: Result<Transfer, RWError>)
        ensures
            self.inv(),
            r == read_spec(*self),
            r matches Ok(t) && t.mem == self.memory().id() && t.size == self.memory().byte_len()
                && t.direction == Direction::FromDevice && t.device == self.device().id(),
            r matches Ok(t) && t.wait_count == 0 && !t.wait_list && !t.signals_event
                && t.size == self.elems() * vstd::layout::size_of::<T>(),
    {
        proof {
            use_type_invariant(self);
        }
        self.executor.read_buffer::<T>(&self.mem, self.len)
    }

    /// Checks a write of `data` into the buffer. It is refused with a size
    /// mismatch exactly when `data` has more bytes than the buffer, which, for
    /// a type of nonzero size, is when it has more values.
    pub fn write(&self, data: &[T]) -> (r: Result<Transfer, RWError>)
        requires
            byte_count::<T>(data@.len() as int) <= usize::MAX,
        ensures
            self.inv(),
            r == write_spec(*self, data@.len() as int),
            r is Err <==> byte_count::<T>(data@.len() as int) > byte_count::<T>(self.elems() as int),
            vstd::layout::size_of::<T>() > 0 ==> (r is Err <==> data@.len() > self.elems()),
            r matches Err(e) ==> e == RWError::SizeMismatch(
                (data@.len() * vstd::layout::size_of::<T>()) as usize,
                self.memory().byte_len(),
            ),
            r matches Ok(t) ==> {
                &&& t.direction == Direction::ToDevice
                &&& t.device == self.device().id()
                &&& t.mem == self.memory().id()
                &&& t.size == data@.len() * vstd::layout::size_of::<T>()
                &&& t.wait_count == 0
                &&& !t.wait_list
                &&& !t.signals_event
            },
    {
        proof {
            use_type_invariant(self);
            if vstd::layout::size_of::<T>() > 0 {
                lemma_byte_count_order::<T>(data@.len() as int, self.len as int);
            }
        }
        self.executor.write_buffer(data, &self.mem)
    }
}

/// For a type of nonzero size, more values take more bytes, and only then.
proof fn lemma_byte_count_order<T>(a: int, b: int)
    requires
        vstd::layout::size_of::<T>() > 0,
    ensures
        (a > b) <==> (byte_count::<T>(a) > byte_count::<T>(b)),
{
    let s = vstd::layout::size_of::<T>() as int;
    assert((a > b) <==> (a * s > b * s)) by (nonlinear_arith)
        requires
            s > 0,
    ;
}

/// A write of as many values as the buffer holds and a read of the buffer
/// copy the same bytes: all those of the buffer's device memory.
pub proof fn lemma_full_write_matches_read<T: Copy>(buf: Buffer<T>, count: int)
    requires
        buf.inv(),
        count == buf.elems(),
    ensures
        write_spec(buf, count) matches Ok(w) && read_spec(buf) matches Ok(rd) && w.mem == rd.mem
            && w.size == rd.size && w.size == buf.memory().byte_len() && w.mem == buf.memory().id()
            && w.device == rd.device && w.device == buf.device().id(),
{
}

/// An accepted write of `count` values into a buffer is a blocking copy to
/// the buffer's device memory of the bytes of those values, waiting for no
/// event and signalling none.
pub proof fn lemma_write_is_copy_to_device<T: Copy>(buf: Buffer<T>, count: int)
    requires
        0 <= count,
    ensures
        write_spec(buf, count) matches Ok(t) ==> {
            &&& t.direction == Direction::ToDevice
            &&& t.device == buf.device().id()
            &&& t.mem == buf.memory().id()
            &&& t.size == count * vstd::layout::size_of::<T>()
            &&& t.wait_count == 0
            &&& !t.wait_list
            &&& !t.signals_event
        },
{
    let s = vstd::layout::size_of::<T>() as int;
    assert(count * s >= 0) by (nonlinear_arith)
        requires
            count >= 0,
            s >= 0,
    ;
}

/// Reading a buffer back is a blocking copy from the buffer's device memory of
/// all its bytes, waiting for no event and signalling none.
pub proof fn lemma_read_is_blocking_copy_from_device<T: Copy>(buf: Buffer<T>)
    requires
        buf.inv(),
    ensures
        read_spec(buf) matches Ok(t) && t.direction == Direction::FromDevice
            && t.device == buf.device().id() && t.mem == buf.memory().id()
            && t.size == buf.elems() * vstd::layout::size_of::<T>() && t.wait_count == 0
            && !t.wait_list && !t.signals_event,
{
    let s = vstd::layout::size_of::<T>() as int;
    let n = buf.elems() as int;
    assert(n * s >= 0) by (nonlinear_arith)
        requires
            n >= 0,
            s >= 0,
    ;
}

/// A write of at most as many values as the buffer holds is never refused.
pub proof fn lemma_write_within_len_accepted<T: Copy>(buf: Buffer<T>, count: int)
    requires
        buf.inv(),
        0 <= count <= buf.elems(),
    ensures
        write_spec(buf, count) is Ok,
{
    let s = vstd::layout::size_of::<T>() as int;
    let n = buf.elems() as int;
    assert(count * s <= n * s) by (nonlinear_arith)
        requires
            0 <= count <= n,
            s >= 0,
    ;
}

impl Device {
    /// A buffer of `len` values of type `T` on this device, held in the device
    /// memory `mem` that this device allocated for it.
    pub fn allocate_array<T: Copy>(&'static self, len: usize, mem: Mem) -> (r: Buffer<T>)
        requires
            mem.byte_len() == byte_count::<T>(len as int),
        ensures
            r.elems() == len,
            r.memory() == mem,
            r.device() == *self,
            r.inv(),
    {
        Buffer::new(self, len, mem)
    }
}

} // verus!
