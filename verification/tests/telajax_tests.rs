use telajax::buffer::Buffer;
use telajax::characterize::{check_gpu_desc, create_table_header, DescError};
use telajax::device::{
    AllocCall, DimCall, Device, Direction, Event, EventWait, Launch, Mem, Transfer, MAX_CLUSTERS,
    MEM_READ_WRITE,
};
use telajax::error::{unit_status, ClError, RWError};

fn device() -> &'static Device {
    Box::leak(Box::new(Device::init(42, 0).unwrap()))
}

fn mem(device: &Device, handle: usize, size: usize) -> Mem {
    device.mem_alloc(size, handle, 0).unwrap()
}

#[test]
fn status_zero_is_success() {
    assert_eq!(ClError::check(0), Ok(()));
}

#[test]
fn status_nonzero_is_error_with_code() {
    assert_eq!(ClError::check(-5), Err(ClError { code: -5 }));
    assert_eq!(ClError::check(1), Err(ClError { code: 1 }));
}

#[test]
fn error_from_code() {
    let e: ClError = (-34).into();
    assert_eq!(e.code, -34);
}

#[test]
fn unit_status_maps_zero_only() {
    assert_eq!(unit_status(0), Ok(()));
    assert_eq!(unit_status(-1), Err(()));
}

#[test]
fn device_init_success_and_failure() {
    let d = Device::init(9, 0).unwrap();
    assert_eq!(d.handle(), 9);
    assert_eq!(Device::init(9, -1).unwrap_err(), ClError { code: -1 });
}

#[test]
fn mem_alloc_gives_requested_size() {
    let d = device();
    let m = mem(d, 77, 128);
    assert_eq!(m.len(), 128);
    assert_eq!(m.handle(), 77);
    assert_eq!(d.mem_alloc(128, 77, -4).unwrap_err(), ClError { code: -4 });
}

#[test]
fn build_wrapper_and_kernel() {
    let d = device();
    assert_eq!(d.build_wrapper(5, 0).unwrap().handle(), 5);
    assert_eq!(d.build_wrapper(5, 3).unwrap_err(), ClError { code: 3 });
    assert_eq!(d.build_kernel(6, 0).unwrap().handle(), 6);
    assert_eq!(d.build_kernel(6, -11).unwrap_err(), ClError { code: -11 });
}

#[test]
fn enqueue_kernel_event() {
    let d = device();
    assert_eq!(d.enqueue_kernel(1234, 0).unwrap().handle(), 1234);
    assert_eq!(d.enqueue_kernel(1234, -5).unwrap_err(), ClError { code: -5 });
}

#[test]
fn execute_kernel_outcomes() {
    let d = device();
    assert_eq!(d.execute_kernel(0, 0), Ok(()));
    assert_eq!(d.execute_kernel(-2, -3), Err(ClError { code: -2 }));
    assert_eq!(d.execute_kernel(0, -3), Err(ClError { code: -3 }));
}

#[test]
fn wait_all_and_callback() {
    let d = device();
    assert_eq!(d.wait_all(0), Ok(()));
    assert_eq!(d.wait_all(-36), Err(ClError { code: -36 }));
    assert_eq!(d.set_event_callback(0), Ok(()));
    assert_eq!(d.set_event_callback(-30), Err(()));
}

#[test]
fn write_buffer_fits() {
    let d = device();
    let m = mem(d, 3, 16);
    let data: [u32; 4] = [1, 2, 3, 4];
    let t = d.write_buffer(&data, &m).unwrap();
    assert_eq!(
        t,
        Transfer {
            direction: Direction::ToDevice,
            device: 42,
            mem: 3,
            size: 16,
            wait_count: 0,
            wait_list: false,
            signals_event: false,
        }
    );
}

#[test]
fn write_buffer_too_large() {
    let d = device();
    let m = mem(d, 3, 15);
    let data: [u32; 4] = [1, 2, 3, 4];
    assert_eq!(d.write_buffer(&data, &m), Err(RWError::SizeMismatch(16, 15)));
}

#[test]
fn async_write_buffer_waits_on_events() {
    let d = device();
    let m = mem(d, 8, 64);
    let data: [u64; 2] = [10, 20];
    let events = [Event::new(), Event::new()];
    let t = d.async_write_buffer(&data, &m, &events).unwrap();
    assert_eq!(t.size, 16);
    assert_eq!(t.wait_count, 2);
    assert!(t.wait_list);
    assert!(t.signals_event);
    let none: [Event; 0] = [];
    let t = d.async_write_buffer(&data, &m, &none).unwrap();
    assert_eq!(t.wait_count, 0);
    assert!(t.wait_list);
}

#[test]
fn read_buffer_checks_size() {
    let d = device();
    let m = mem(d, 4, 10);
    let t = d.read_buffer::<u16>(&m, 5).unwrap();
    assert_eq!(t.direction, Direction::FromDevice);
    assert_eq!(t.size, 10);
    assert!(!t.signals_event);
    assert_eq!(d.read_buffer::<u16>(&m, 6), Err(RWError::SizeMismatch(12, 10)));
}

#[test]
fn async_read_buffer_passes_wait_list_only_when_nonempty() {
    let d = device();
    let m = mem(d, 4, 8);
    let none: [Event; 0] = [];
    let t = d.async_read_buffer::<u8>(&m, 8, &none).unwrap();
    assert_eq!(t.wait_count, 0);
    assert!(!t.wait_list);
    assert!(t.signals_event);
    let one = [Event::new()];
    let t = d.async_read_buffer::<u8>(&m, 8, &one).unwrap();
    assert_eq!(t.wait_count, 1);
    assert!(t.wait_list);
    assert_eq!(
        d.async_read_buffer::<u32>(&m, 3, &one),
        Err(RWError::SizeMismatch(12, 8))
    );
}

#[test]
fn transfer_finish() {
    let d = device();
    let m = mem(d, 4, 8);
    let t = d.read_buffer::<u8>(&m, 8).unwrap();
    assert_eq!(t.finish(0), Ok(()));
    assert_eq!(t.finish(-5), Err(RWError::CLError(ClError { code: -5 })));
    assert_eq!(t.finish_async(0, 99).unwrap().handle(), 99);
    assert_eq!(
        t.finish_async(-14, 99).unwrap_err(),
        RWError::CLError(ClError { code: -14 })
    );
}

#[test]
fn kernel_set_args() {
    let d = device();
    let k = d.build_kernel(1, 0).unwrap();
    let sizes = [4, 8, 8];
    let args = [100, 200, 300];
    let call = k.set_args(&sizes, &args).unwrap();
    assert_eq!(call.kernel, 1);
    assert_eq!(call.num_args, 3);
    assert_eq!(call.sizes, &sizes[..]);
    assert_eq!(call.args, &args[..]);
    assert_eq!(k.set_args(&[], &[]).unwrap().num_args, 0);
    assert!(k.set_args(&[4, 8], &[100]).is_err());
}

#[test]
fn kernel_set_num_clusters() {
    let d = device();
    let k = d.build_kernel(7, 0).unwrap();
    assert_eq!(MAX_CLUSTERS, 16);
    assert_eq!(
        k.set_num_clusters(16),
        Ok(DimCall { kernel: 7, work_dim: 1, global_size: 1, local_size: 16 })
    );
    assert_eq!(k.set_num_clusters(1).unwrap().local_size, 1);
    assert_eq!(k.set_num_clusters(0).unwrap().local_size, 0);
    assert_eq!(k.set_num_clusters(17), Err(()));
}

#[test]
fn alloc_call_is_read_write_on_device() {
    let d = device();
    assert_eq!(MEM_READ_WRITE, 1);
    assert_eq!(d.alloc_call(256), AllocCall { device: 42, size: 256, flags: 1 });
}

#[test]
fn wrapper_call_has_empty_flags() {
    let d = device();
    let name = b"wrapper\0";
    let code = b"void f() {}\0";
    let call = d.wrapper_call(name, code);
    assert_eq!(call.device, 42);
    assert_eq!(call.name, &name[..]);
    assert_eq!(call.code, &code[..]);
    assert_eq!(call.flags, vec![0u8]);
}

#[test]
fn kernel_call_uses_wrapper_and_device() {
    let d = device();
    let w = d.build_wrapper(55, 0).unwrap();
    let call = d.kernel_call(b"code\0", b"-O2\0", b"-lm\0", &w);
    assert_eq!(call.device, 42);
    assert_eq!(call.wrapper, 55);
    assert_eq!(call.code, b"code\0");
    assert_eq!(call.cflags, b"-O2\0");
    assert_eq!(call.lflags, b"-lm\0");
}

#[test]
fn launch_on_this_device() {
    let d = device();
    let k = d.build_kernel(8, 0).unwrap();
    assert_eq!(d.launch(&k), Launch { device: 42, kernel: 8 });
}

#[test]
fn execute_step_waits_only_after_launch() {
    let d = device();
    assert_eq!(d.execute_step(0, 600), Ok(EventWait { count: 1, event: 600 }));
    assert_eq!(d.execute_step(-5, 600), Err(ClError { code: -5 }));
}

#[test]
fn mem_size_is_pointer_size() {
    assert_eq!(Mem::get_mem_size(), std::mem::size_of::<&u8>());
}

#[test]
fn event_new_is_unfilled() {
    assert_eq!(Event::new().handle(), 0);
}

#[test]
fn buffer_alloc_size() {
    assert_eq!(Buffer::<u32>::alloc_size(10), Some(40));
    assert_eq!(Buffer::<u8>::alloc_size(0), Some(0));
    assert_eq!(Buffer::<u64>::alloc_size(usize::MAX / 4), None);
    assert_eq!(Buffer::<()>::alloc_size(usize::MAX), Some(0));
}

#[test]
fn buffer_new_and_accessors() {
    let d = device();
    let size = Buffer::<f32>::alloc_size(6).unwrap();
    let b = Buffer::<f32>::new(d, 6, mem(d, 21, size));
    assert_eq!(b.len(), 6);
    assert_eq!(b.mem().len(), 24);
    assert_eq!(b.mem().handle(), 21);
    assert_eq!(b.executor().handle(), 42);
}

#[test]
fn allocate_array_builds_buffer() {
    let d = device();
    let b: Buffer<u16> = d.allocate_array(3, mem(d, 5, 6));
    assert_eq!(b.len(), 3);
    assert_eq!(b.mem().len(), 6);
}

#[test]
fn buffer_read_is_whole_buffer() {
    let d = device();
    let b: Buffer<u64> = d.allocate_array(4, mem(d, 12, 32));
    let t = b.read().unwrap();
    assert_eq!(t.mem, 12);
    assert_eq!(t.size, 32);
    assert_eq!(t.direction, Direction::FromDevice);
}

#[test]
fn buffer_write_refused_only_when_longer() {
    let d = device();
    let b: Buffer<i32> = d.allocate_array(3, mem(d, 2, 12));
    assert_eq!(b.write(&[1, 2, 3, 4]), Err(RWError::SizeMismatch(16, 12)));
    assert_eq!(b.write(&[1, 2, 3]).unwrap().size, 12);
    assert_eq!(b.write(&[1]).unwrap().size, 4);
    assert_eq!(b.write(&[]).unwrap().size, 0);
}

#[test]
fn full_write_and_read_copy_same_bytes() {
    let d = device();
    let b: Buffer<u32> = d.allocate_array(5, mem(d, 31, 20));
    let w = b.write(&[0, 1, 2, 3, 4]).unwrap();
    let r = b.read().unwrap();
    assert_eq!(w.mem, r.mem);
    assert_eq!(w.size, r.size);
    assert_eq!(w.size, b.mem().len());
    assert_eq!(w.device, r.device);
    assert_eq!(w.device, 42);
}

#[test]
fn zero_sized_buffer_accepts_any_write() {
    let d = device();
    let b: Buffer<()> = d.allocate_array(2, mem(d, 1, 0));
    assert_eq!(b.write(&[(), (), (), ()]).unwrap().size, 0);
}

#[test]
fn gpu_desc_used_when_name_matches() {
    assert_eq!(check_gpu_desc(Ok("Tesla K40".to_string()), "Tesla K40".to_string()), Ok(()));
}

#[test]
fn gpu_desc_wrong_gpu() {
    assert_eq!(
        check_gpu_desc(Ok("Tesla K40".to_string()), "GTX 1080".to_string()),
        Err(DescError::WrongGpu("GTX 1080".to_string()))
    );
}

#[test]
fn gpu_desc_load_errors_pass_through() {
    let e = DescError::FileNotFound("no such file".to_string());
    assert_eq!(check_gpu_desc(Err(e.clone()), "GTX 1080".to_string()), Err(e));
    let e = DescError::Parser("expected value".to_string());
    assert_eq!(check_gpu_desc(Err(e.clone()), "GTX 1080".to_string()), Err(e));
}

#[test]
fn table_header_parameters_then_counters() {
    let header = create_table_header(&["m", "n"], &["gld_transactions".to_string(), "elapsed".to_string()]);
    assert_eq!(header, vec!["m", "n", "gld_transactions", "elapsed"]);
    assert!(create_table_header(&[], &[]).is_empty());
}
