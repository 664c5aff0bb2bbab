use vstd::prelude::*;

use crate::error::{status_result, unit_status, ClError, RWError};

verus! {

/// Number of bytes that `count` values of type `T` occupy.
pub open spec fn byte_count<T>(count: int) -> int {
    count * vstd::layout::size_of::<T>()
}

/// A Telajax execution context, known by the handle of the runtime's device.
#[derive(Debug)]
pub struct Device {
    handle: usize,
}

/// A buffer allocated on the device: the runtime's handle of the memory
/// object and the number of bytes allocated.
#[derive(Debug)]
pub struct Mem {
    handle: usize,
    len: usize,
}

/// A wrapper that calls a kernel through the OpenCL interface.
#[derive(Debug)]
pub struct Wrapper {
    handle: usize,
}

/// A compiled kernel.
#[derive(Debug)]
pub struct Kernel {
    handle: usize,
}

/// An event triggered at the end of a memory operation or a kernel execution.
/// The handle 0 stands for an event that no runtime call has filled yet.
#[derive(Debug)]
pub struct Event {
    handle: usize,
}

/// Direction of a copy between host memory and a device buffer.
#[derive(Debug, Clone, Copy, PartialEq, Eq, Structural)]
pub enum Direction {
    ToDevice,
    FromDevice,
}

/// A copy between host memory and a device buffer that passed the size check,
/// described by the arguments that the runtime's copy call receives.
#[derive(Debug, Clone, Copy, PartialEq, Eq, Structural)]
pub struct Transfer {
    pub direction: Direction,
    /// Handle of the device that runs the copy.
    pub device: usize,
    /// Handle of the device memory object.
    pub mem: usize,
    /// Number of bytes copied.
    pub size: usize,
    /// Number of events the copy waits for.
    pub wait_count: u32,
    /// Whether the list of events to wait for is handed to the runtime (when it
    /// is not, a null list is).
    pub wait_list: bool,
    /// Whether the copy is asynchronous and signals an event when it ends.
    pub signals_event: bool,
}

impl Device {
    pub closed spec fn id(&self) -> usize {
        self.handle
    }

    /// The device that the runtime's initialisation returned with `status`.
    pub fn init(handle: usize, status: i32) -> (r: Result<Device, ClError>)
        ensures
            match r {
                Ok(d) => status == 0 && d.id() == handle,
                Err(e) => status != 0 && e.code == status,
            },
    {
        if status != 0 {
            Err(status.into())
        } else {
            Ok(Device { handle })
        }
    }

    pub fn handle(&self) -> (r: usize)
        ensures
            r == self.id(),
    {
        self.handle
    }

    /// The memory buffer of `size` bytes that the runtime's allocation returned
    /// with `status`.
    pub fn mem_alloc(&self, size: usize, mem: usize, status: i32) -> (r: Result<Mem, ClError>)
        ensures
            match r {
                Ok(m) => status == 0 && m.id() == mem && m.byte_len() == size,
                Err(e) => status != 0 && e.code == status,
            },
    {
        if status == 0 {
            Ok(Mem { handle: mem, len: size })
        } else {
            Err(status.into())
        }
    }

    /// The kernel wrapper that the runtime's build returned with `status`.
    pub fn build_wrapper(&self, wrapper: usize, status: i32) -> (r: Result<Wrapper, ClError>)
        ensures
            match r {
                Ok(w) => status == 0 && w.id() == wrapper,
                Err(e) => status != 0 && e.code == status,
            },
    {
        if status != 0 {
            Err(status.into())
        } else {
            Ok(Wrapper { handle: wrapper })
        }
    }

    /// The kernel that the runtime's compilation returned with `status`.
    pub fn build_kernel(&self, kernel: usize, status: i32) -> (r: Result<Kernel, ClError>)
        ensures
            match r {
                Ok(k) => status == 0 && k.id() == kernel,
                Err(e) => status != 0 && e.code == status,
            },
    {
        if status != 0 {
            Err(status.into())
        } else {
            Ok(Kernel { handle: kernel })
        }
    }

    /// The event of a kernel launch that the runtime accepted or refused with
    /// `status`.
    pub fn enqueue_kernel(&self, event: usize, status: i32) -> (r: Result<Event, ClError>)
        ensures
            match r {
                Ok(ev) => status == 0 && ev.id() == event,
                Err(e) => status != 0 && e.code == status,
            },
    {
        if status != 0 {
            Err(status.into())
        } else {
            Ok(Event { handle: event })
        }
    }

    /// Outcome of a kernel execution: the launch (`launch`) returned
    /// `enqueue_status`, and, only when the launch succeeded, the wait that
    /// `execute_step` gives returned `wait_status`.
    pub fn execute_kernel(&self, enqueue_status: i32, wait_status: i32) -> (r: Result<(), ClError>)
        ensures
            enqueue_status != 0 ==> r == Err::<(), ClError>(ClError { code: enqueue_status }),
            enqueue_status == 0 && wait_status != 0 ==> r == Err::<(), ClError>(
                ClError { code: wait_status },
            ),
            enqueue_status == 0 && wait_status == 0 ==> r == Ok::<(), ClError>(()),
            r == (if enqueue_status != 0 {
                status_result(enqueue_status)
            } else {
                status_result(wait_status)
            }),
    {
        if enqueue_status != 0 {
            return Err(enqueue_status.into());
        }
        ClError::check(wait_status)
    }

    /// Outcome of waiting for every kernel of the device.
    pub fn wait_all(&self, status: i32) -> (r: Result<(), ClError>)
        ensures
            status == 0 ==> r == Ok::<(), ClError>(()),
            status != 0 ==> r == Err::<(), ClError>(ClError { code: status }),
            r == status_result(status),
    {
        ClError::check(status)
    }

    /// Outcome of attaching a callback to an event.
    pub fn set_event_callback(&self, status: i32) -> (r: Result<(), ()>)
        ensures
            r is Ok <==> status == 0,
    {
        unit_status(status)
    }
}

/// Memory flag of a device buffer that kernels both read and write.
pub const MEM_READ_WRITE: u64 = 1;

/// The runtime call that allocates a device buffer.
#[derive(Debug, Clone, Copy, PartialEq, Eq, Structural)]
pub struct AllocCall {
    pub device: usize,
    /// Number of bytes to allocate.
    pub size: usize,
    pub flags: u64,
}

/// The runtime call that builds a kernel wrapper. The strings are C strings:
/// their bytes, ending with a nul byte.
#[derive(Debug, Clone)]
pub struct WrapperCall<'a> {
    pub device: usize,
    pub name: &'a [u8],
    pub code: &'a [u8],
    /// Compilation flags: the empty C string.
    pub flags: Vec<u8>,
}

/// The runtime call that compiles a kernel. The strings are C strings: their
/// bytes, ending with a nul byte.
#[derive(Debug, Clone, Copy)]
pub struct KernelCall<'a> {
    pub device: usize,
    /// Handle of the wrapper that calls the kernel.
    pub wrapper: usize,
    pub code: &'a [u8],
    pub cflags: &'a [u8],
    pub lflags: &'a [u8],
}

/// The runtime call that launches a kernel on a device.
#[derive(Debug, Clone, Copy, PartialEq, Eq, Structural)]
pub struct Launch {
    pub device: usize,
    pub kernel: usize,
}

/// The runtime call that waits for events: the `count` events starting with
/// `event`.
#[derive(Debug, Clone, Copy, PartialEq, Eq, Structural)]
pub struct EventWait {
    pub count: i32,
    pub event: usize,
}

impl Device {
    /// The runtime call that allocates `size` bytes on this device, readable
    /// and writable by kernels.
    pub fn alloc_call(&self, size: usize) -> (r: AllocCall)
        ensures
            r.device == self.id(),
            r.size == size,
            r.flags == MEM_READ_WRITE,
    {
        AllocCall { device: self.handle, size, flags: MEM_READ_WRITE }
    }

    /// The runtime call that builds, on this device, the wrapper named `name`
    /// from `code`, with no compilation flags.
    pub fn wrapper_call<'a>(&self, name: &'a [u8], code: &'a [u8]) -> (r: WrapperCall<'a>)
        ensures
            r.device == self.id(),
            r.name == name,
            r.code == code,
            r.flags@ == seq![0u8],
    {
        WrapperCall { device: self.handle, name, code, flags: vec![0u8] }
    }

    /// The runtime call that compiles `code` on this device with the given
    /// compilation and link flags, to be called through `wrapper`.
    pub fn kernel_call<'a>(
        &self,
        code: &'a [u8],
        cflags: &'a [u8],
        lflags: &'a [u8],
        wrapper: &Wrapper,
    ) -> (r: KernelCall<'a>)
        ensures
            r.device == self.id(),
            r.wrapper == wrapper.id(),
            r.code == code,
            r.cflags == cflags,
            r.lflags == lflags,
    {
        KernelCall { device: self.handle, wrapper: wrapper.handle, code, cflags, lflags }
    }

    /// The runtime call that launches `kernel` on this device.
    pub fn launch(&self, kernel: &Kernel) -> (r: Launch)
        ensures
            r.device == self.id(),
            r.kernel == kernel.id(),
    {
        Launch { device: self.handle, kernel: kernel.handle }
    }

    /// What an execution does after the launch returned `enqueue_status` and
    /// the event `event`: on success, wait for that one event; otherwise stop
    /// with the launch's error, without waiting.
    pub fn execute_step(&self, enqueue_status: i32, event: usize) -> (r: Result<EventWait, ClError>)
        ensures
            match r {
                Ok(w) => enqueue_status == 0 && w.count == 1 && w.event == event,
                Err(e) => enqueue_status != 0 && e.code == enqueue_status,
            },
    {
        if enqueue_status != 0 {
            return Err(enqueue_status.into());
        }
        Ok(EventWait { count: 1, event })
    }
}

/// The copy of `size` bytes, or the size mismatch when `mem` is too small.
pub open spec fn transfer_spec(
    direction: Direction,
    device: Device,
    mem: Mem,
    size: int,
    wait_count: u32,
    wait_list: bool,
    signals_event: bool,
) -> Result<Transfer, RWError> {
    if size > mem.byte_len() {
        Err(RWError::SizeMismatch(size as usize, mem.byte_len()))
    } else {
        Ok(
            Transfer {
                direction,
                device: device.id(),
                mem: mem.id(),
                size: size as usize,
                wait_count,
                wait_list,
                signals_event,
            },
        )
    }
}

/// A copy is refused exactly when it needs more bytes than the device buffer
/// holds, with the size mismatch of those two numbers; otherwise it is run on
/// the given device and buffer, in the given direction, over exactly `size`
/// bytes, with the given waiting and signalling.
pub proof fn lemma_transfer_plan(
    direction: Direction,
    device: Device,
    mem: Mem,
    size: int,
    wait_count: u32,
    wait_list: bool,
    signals_event: bool,
)
    requires
        0 <= size,
    ensures
        ({
            let r = transfer_spec(direction, device, mem, size, wait_count, wait_list, signals_event);
            &&& r is Err <==> size > mem.byte_len()
            &&& r matches Err(e) ==> e == RWError::SizeMismatch(size as usize, mem.byte_len())
            &&& r matches Ok(t) ==> {
                &&& t.direction == direction
                &&& t.device == device.id()
                &&& t.mem == mem.id()
                &&& t.size == size
                &&& t.wait_count == wait_count
                &&& t.wait_list == wait_list
                &&& t.signals_event == signals_event
            }
        }),
{
}

fn plan_transfer(
    direction: Direction,
    device: &Device,
    mem: &Mem,
    size: usize,
    wait_count: u32,
    wait_list: bool,
    signals_event: bool,
) -> (r: Result<Transfer, RWError>)
    ensures
        r == transfer_spec(
            direction,
            *device,
            *mem,
            size as int,
            wait_count,
            wait_list,
            signals_event,
        ),
{
    if size > mem.len {
        return Err(RWError::SizeMismatch(size, mem.len));
    }
    Ok(
        Transfer {
            direction,
            device: device.handle,
            mem: mem.handle,
            size,
            wait_count,
            wait_list,
            signals_event,
        },
    )
}

impl Device {
    /// Checks a copy of `data` to the device buffer `mem`.
    pub fn write_buffer<T: Copy>(&self, data: &[T], mem: &Mem) -> (r: Result<Transfer, RWError>)
        requires
            byte_count::<T>(data@.len() as int) <= usize::MAX,
        ensures
            r == transfer_spec(
                Direction::ToDevice,
                *self,
                *mem,
                byte_count::<T>(data@.len() as int),
                0,
                false,
                false,
            ),
            r is Err <==> data@.len() * vstd::layout::size_of::<T>() > mem.byte_len(),
            r matches Err(e) ==> e == RWError::SizeMismatch(
                (data@.len() * vstd::layout::size_of::<T>()) as usize,
                mem.byte_len(),
            ),
            r matches Ok(t) ==> {
                &&& t.direction == Direction::ToDevice
                &&& t.device == self.id()
                &&& t.mem == mem.id()
                &&& t.size == data@.len() * vstd::layout::size_of::<T>()
                &&& t.wait_count == 0
                &&& t.wait_list == false
                &&& t.signals_event == false
            },
    {
        let size = data.len() * core::mem::size_of::<T>();
        plan_transfer(Direction::ToDevice, self, mem, size, 0, false, false)
    }

    /// Checks an asynchronous copy of `data` to the device buffer `mem`, once
    /// the events of `wait_events` have been triggered.
    pub fn async_write_buffer<T: Copy>(&self, data: &[T], mem: &Mem, wait_events: &[Event]) -> (r:
        Result<Transfer, RWError>)
        requires
            byte_count::<T>(data@.len() as int) <= usize::MAX,
        ensures
            r == transfer_spec(
                Direction::ToDevice,
                *self,
                *mem,
                byte_count::<T>(data@.len() as int),
                wait_events@.len() as u32,
                true,
                true,
            ),
            r is Err <==> data@.len() * vstd::layout::size_of::<T>() > mem.byte_len(),
            r matches Err(e) ==> e == RWError::SizeMismatch(
                (data@.len() * vstd::layout::size_of::<T>()) as usize,
                mem.byte_len(),
            ),
            r matches Ok(t) ==> {
                &&& t.direction == Direction::ToDevice
                &&& t.device == self.id()
                &&& t.mem == mem.id()
                &&& t.size == data@.len() * vstd::layout::size_of::<T>()
                &&& t.wait_count == wait_events@.len() as u32
                &&& t.wait_list == true
                &&& t.signals_event == true
            },
    {
        let size = data.len() * core::mem::size_of::<T>();
        let wait_n = wait_events.len() as u32;
        plan_transfer(Direction::ToDevice, self, mem, size, wait_n, true, true)
    }

    /// Checks a copy of `len` values of type `T` from the device buffer `mem`.
    pub fn read_buffer<T: Copy>(&self, mem: &Mem, len: usize) -> (r: Result<Transfer, RWError>)
        requires
            byte_count::<T>(len as int) <= usize::MAX,
        ensures
            r == transfer_spec(
                Direction::FromDevice,
                *self,
                *mem,
                byte_count::<T>(len as int),
                0,
                false,
                false,
            ),
            r is Err <==> len * vstd::layout::size_of::<T>() > mem.byte_len(),
            r matches Err(e) ==> e == RWError::SizeMismatch(
                (len * vstd::layout::size_of::<T>()) as usize,
                mem.byte_len(),
            ),
            r matches Ok(t) ==> {
                &&& t.direction == Direction::FromDevice
                &&& t.device == self.id()
                &&& t.mem == mem.id()
                &&& t.size == len * vstd::layout::size_of::<T>()
                &&& t.wait_count == 0
                &&& t.wait_list == false
                &&& t.signals_event == false
            },
    {
        let size = len * core::mem::size_of::<T>();
        plan_transfer(Direction::FromDevice, self, mem, size, 0, false, false)
    }

    /// Checks an asynchronous copy of `len` values of type `T` from the device
    /// buffer `mem`, once the events of `wait_events` have been triggered. The
    /// list of events is handed to the runtime only when it is not empty.
    pub fn async_read_buffer<T: Copy>(&self, mem: &Mem, len: usize, wait_events: &[Event]) -> (r:
        Result<Transfer, RWError>)
        requires
            byte_count::<T>(len as int) <= usize::MAX,
        ensures
            r == transfer_spec(
                Direction::FromDevice,
                *self,
                *mem,
                byte_count::<T>(len as int),
                wait_events@.len() as u32,
                wait_events@.len() as u32 != 0,
                true,
            ),
            r is Err <==> len * vstd::layout::size_of::<T>() > mem.byte_len(),
            r matches Err(e) ==> e == RWError::SizeMismatch(
                (len * vstd::layout::size_of::<T>()) as usize,
                mem.byte_len(),
            ),
            r matches Ok(t) ==> {
                &&& t.direction == Direction::FromDevice
                &&& t.device == self.id()
                &&& t.mem == mem.id()
                &&& t.size == len * vstd::layout::size_of::<T>()
                &&& t.wait_count == wait_events@.len() as u32
                &&& t.wait_list == (wait_events@.len() as u32 != 0)
                &&& t.signals_event == true
            },
    {
        let size = len * core::mem::size_of::<T>();
        let wait_n = wait_events.len() as u32;
        plan_transfer(Direction::FromDevice, self, mem, size, wait_n, wait_n != 0, true)
    }
}

impl Transfer {
    /// Outcome of a blocking copy that the runtime ran with `status`.
    pub fn finish(&self, status: i32) -> (r: Result<(), RWError>)
        ensures
            status == 0 ==> r == Ok::<(), RWError>(()),
            status != 0 ==> r == Err::<(), RWError>(RWError::CLError(ClError { code: status })),
    {
        if status != 0 {
            Err(RWError::CLError(status.into()))
        } else {
            Ok(())
        }
    }

    /// Outcome of an asynchronous copy that the runtime started with `status`,
    /// signalling the event `event` at its end.
    pub fn finish_async(&self, status: i32, event: usize) -> (r: Result<Event, RWError>)
        ensures
            match r {
                Ok(ev) => status == 0 && ev.id() == event,
                Err(e) => status != 0 && e == RWError::CLError(ClError { code: status }),
            },
    {
        if status != 0 {
            Err(RWError::CLError(status.into()))
        } else {
            Ok(Event { handle: event })
        }
    }
}

impl Mem {
    pub closed spec fn id(&self) -> usize {
        self.handle
    }

    pub closed spec fn byte_len(&self) -> usize {
        self.len
    }

    /// Size of the handle of a device buffer, which the runtime needs to pass
    /// a buffer as a kernel argument: the size of a host pointer.
    pub fn get_mem_size() -> (r: usize)
        ensures
            r as nat == vstd::layout::size_of::<usize>(),
    {
        core::mem::size_of::<usize>()
    }

    /// Number of bytes allocated on the device.
    pub fn len(&self) -> (r: usize)
        ensures
            r == self.byte_len(),
    {
        self.len
    }

    pub fn handle(&self) -> (r: usize)
        ensures
            r == self.id(),
    {
        self.handle
    }

    /// The place where the handle is stored, whose address the runtime
    /// receives when the buffer is a kernel argument.
    pub fn handle_ref(&self) -> (r: &usize)
        ensures
            *r == self.id(),
    {
        &self.handle
    }
}

impl Wrapper {
    pub closed spec fn id(&self) -> usize {
        self.handle
    }

    pub fn handle(&self) -> (r: usize)
        ensures
            r == self.id(),
    {
        self.handle
    }
}

/// Largest number of clusters that can execute a kernel.
pub const MAX_CLUSTERS: usize = 16;

impl Kernel {
    pub closed spec fn id(&self) -> usize {
        self.handle
    }

    pub fn handle(&self) -> (r: usize)
        ensures
            r == self.id(),
    {
        self.handle
    }

    /// Checks the arguments of the kernel: one size per argument, `args`
    /// holding the addresses of the argument values. On success, gives the
    /// runtime call that sets them on this kernel.
    pub fn set_args<'a>(&self, sizes: &'a [usize], args: &'a [usize]) -> (r: Result<ArgsCall<'a>, ()>)
        ensures
            match r {
                Ok(call) => {
                    &&& sizes@.len() == args@.len()
                    &&& call.kernel == self.id()
                    &&& call.num_args == sizes@.len() as i32
                    &&& call.sizes == sizes
                    &&& call.args == args
                },
                Err(()) => sizes@.len() != args@.len(),
            },
    {
        if sizes.len() != args.len() {
            return Err(());
        }
        Ok(ArgsCall { kernel: self.handle, num_args: sizes.len() as i32, sizes, args })
    }

    /// Checks the number of clusters that must execute the kernel. On
    /// success, gives the runtime call that sets it: one dimension, a global
    /// size of 1 and a local size of `num`.
    pub fn set_num_clusters(&self, num: usize) -> (r: Result<DimCall, ()>)
        ensures
            match r {
                Ok(call) => {
                    &&& num <= MAX_CLUSTERS
                    &&& call.kernel == self.id()
                    &&& call.work_dim == 1
                    &&& call.global_size == 1
                    &&& call.local_size == num
                },
                Err(()) => num > MAX_CLUSTERS,
            },
    {
        if num > MAX_CLUSTERS {
            return Err(());
        }
        Ok(DimCall { kernel: self.handle, work_dim: 1, global_size: 1, local_size: num })
    }
}

/// The runtime call that sets the arguments of a kernel.
#[derive(Debug, Clone, Copy)]
pub struct ArgsCall<'a> {
    /// Handle of the kernel.
    pub kernel: usize,
    /// Number of arguments.
    pub num_args: i32,
    /// Size in bytes of each argument.
    pub sizes: &'a [usize],
    /// Address of the value of each argument.
    pub args: &'a [usize],
}

/// The runtime call that sets the dimensions of a kernel's execution.
#[derive(Debug, Clone, Copy, PartialEq, Eq, Structural)]
pub struct DimCall {
    /// Handle of the kernel.
    pub kernel: usize,
    /// Number of dimensions.
    pub work_dim: i32,
    /// The one global size.
    pub global_size: usize,
    /// The one local size: the number of clusters.
    pub local_size: usize,
}

impl Event {
    pub closed spec fn id(&self) -> usize {
        self.handle
    }

    /// An event not yet filled by a runtime call.
    pub fn new() -> (r: Event)
        ensures
            r.id() == 0,
    {
        Event { handle: 0 }
    }

    pub fn handle(&self) -> (r: usize)
        ensures
            r == self.id(),
    {
        self.handle
    }
}

} // verus!
