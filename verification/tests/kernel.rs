use pikernel::gic::{irq_set_mask, Gic};
use pikernel::mmu::{Addr, VirtAddr};
use pikernel::rref::RRef;
use pikernel::syscall::{syscall, SyscallRequest, SYSCALL_EXIT};
use pikernel::thread::{Context, Scheduler, SwitchTo, Thread};
use pikernel::timer::{get_time, sys_get_time, trigger_interval, CoreTimer, CoreTimerSetup};
use pikernel::uart::MiniUartInner;

fn leak_context(elr: u64) -> &'static Context {
    let mut c = Context::default();
    c.elr = elr;
    Box::leak(Box::new(c))
}

#[test]
fn scheduler_runs_threads_round_robin() {
    let mut s = Scheduler::empty();
    s.init();
    s.insert(Thread::new(VirtAddr::from_usize(0x1000), VirtAddr::from_usize(0x8000)));
    s.insert(Thread::new(VirtAddr::from_usize(0x2000), VirtAddr::from_usize(0x9000)));

    let a = leak_context(1);
    match s.schedule(a) {
        SwitchTo::Start { sp, pc } => {
            assert_eq!(sp.to_usize(), 0x9000);
            assert_eq!(pc.to_usize(), 0x1000);
        },
        SwitchTo::Resume(_) => panic!("first thread must start fresh"),
    }
    let b = leak_context(2);
    match s.schedule(b) {
        SwitchTo::Start { sp, pc } => {
            assert_eq!(sp.to_usize(), 0xa000);
            assert_eq!(pc.to_usize(), 0x2000);
        },
        SwitchTo::Resume(_) => panic!("second thread must start fresh"),
    }
    let c = leak_context(3);
    match s.schedule(c) {
        SwitchTo::Resume(ctx) => assert!(std::ptr::eq(ctx, b)),
        SwitchTo::Start { .. } => panic!("first thread must resume"),
    }
    s.remove_self();
    let d = leak_context(4);
    match s.schedule(d) {
        SwitchTo::Resume(ctx) => {
            assert!(std::ptr::eq(ctx, c));
            assert_eq!(ctx.elr, 3);
        },
        SwitchTo::Start { .. } => panic!("second thread must resume"),
    }
}

#[test]
fn scheduler_single_thread_keeps_running() {
    let mut s = Scheduler::empty();
    s.init();
    s.insert(Thread::new(VirtAddr::from_usize(0x4000), VirtAddr::from_usize(0x1_0000)));
    let a = leak_context(1);
    assert!(matches!(s.schedule(a), SwitchTo::Start { .. }));
    let b = leak_context(2);
    match s.schedule(b) {
        SwitchTo::Resume(ctx) => assert!(std::ptr::eq(ctx, b)),
        SwitchTo::Start { .. } => panic!("the only thread must resume"),
    }
}

#[test]
fn thread_records_its_stack() {
    let t = Thread::new(VirtAddr::from_usize(0x4000), VirtAddr::from_usize(0x7000));
    assert_eq!(t.stack_start().to_usize(), 0x7000);
}

#[test]
fn time_in_milliseconds() {
    assert_eq!(get_time(19_200_000 * 3, 19_200_000), 3000);
    assert_eq!(get_time(19_200, 19_200_000), 1);
    assert_eq!(get_time(19_199, 19_200_000), 0);
    assert_eq!(sys_get_time(62_500_000, 62_500_000), 1000);
}

#[test]
fn timer_intervals() {
    assert_eq!(trigger_interval(19_200_000, 100), 192_000);
    assert_eq!(CoreTimer::interval_ticks(19_200_000, 10), 192_000);
    assert_eq!(CoreTimer::interval_ticks(62_500_000, 3), 187_500);
}

#[test]
fn prescaler_truncates_to_32_bits() {
    assert_eq!(CoreTimer::prescaler_cal(19_200_000, 1_000_000), 2_576_980_377);
    assert_eq!(CoreTimer::prescaler_cal(1, 1), 0x8000_0000);
    assert_eq!(CoreTimer::prescaler_cal(2, 1), 0);
}

#[test]
fn core_timer_setup_values() {
    let mut t = CoreTimer::empty();
    let setup = t.init(VirtAddr::from_usize(0xffff_ff80_0100_0000));
    assert_eq!(
        setup,
        CoreTimerSetup { ctrl: 0, core0_int_ctrl: 2, prescaler: 2_576_980_377 }
    );
}

#[test]
fn uart_baud_and_status_bits() {
    assert_eq!(MiniUartInner::baud_reg(), 270);
    assert!(MiniUartInner::tx_ready(0x20));
    assert!(!MiniUartInner::tx_ready(0x40));
    assert!(MiniUartInner::tx_idle(0x60));
    assert!(!MiniUartInner::tx_idle(0x21));
    assert_eq!(MiniUartInner::io_with_data(0xabcd_12ff, b'A'), 0xabcd_1241);
    let mut u = MiniUartInner::empty();
    assert_eq!(u.aux_base(), 0);
    u.init(0xffff_ff80_0000_c000);
    assert_eq!(u.aux_base(), 0xffff_ff80_0000_c000);
}

#[test]
fn syscall_decodes_exit() {
    assert_eq!(syscall(SYSCALL_EXIT, [5, 0, 0]), SyscallRequest::Exit(5));
    assert_eq!(syscall(SYSCALL_EXIT, [usize::MAX, 1, 2]), SyscallRequest::Exit(-1));
    assert_eq!(syscall(SYSCALL_EXIT, [0x1_0000_0007, 0, 0]), SyscallRequest::Exit(7));
}

#[test]
fn gic_records_bases() {
    let gic = Gic::new(0xff84_1000, 0xff84_2000);
    gic.set_enable(30, true);
    irq_set_mask(&gic, 30, false);
}

#[test]
fn rref_borrow_forfeit_and_move() {
    let mut r = RRef::new(1, 42u64);
    assert_eq!(r.borrow_count(), 0);
    r.borrow();
    r.borrow();
    assert_eq!(r.borrow_count(), 2);
    r.forfeit();
    assert_eq!(r.borrow_count(), 1);
    r.move_to(7);
    assert_eq!(r.domain_id(), 7);
    assert_eq!(*r, 42);
    *r = 43;
    assert_eq!(*r, 43);
    assert_eq!(r.borrow_count(), 1);
}

#[test]
fn every_queued_thread_runs_within_queue_length_plus_one_ticks() {
    let mut s = Scheduler::empty();
    s.init();
    for i in 0..4usize {
        s.insert(Thread::new(VirtAddr::from_usize(0x1000 * (i + 1)), VirtAddr::from_usize(0x10_0000 * (i + 1))));
    }
    // the thread at position k starts on tick k + 1
    for k in 0..4usize {
        match s.schedule(leak_context(k as u64)) {
            SwitchTo::Start { pc, .. } => assert_eq!(pc.to_usize(), 0x1000 * (k + 1)),
            SwitchTo::Resume(_) => panic!("thread {} must start fresh", k),
        }
    }
    // then the preempted ones resume in the same order
    match s.schedule(leak_context(9)) {
        SwitchTo::Resume(ctx) => assert_eq!(ctx.elr, 1),
        SwitchTo::Start { .. } => panic!("first thread must resume"),
    }
}
