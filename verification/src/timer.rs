//! Timer arithmetic: the millisecond clock, the tick interval between timer
//! interrupts, and the setup of the BCM2836 core timer block.
use crate::mmu::VirtAddr;
use vstd::prelude::*;

verus! {

/// Milliseconds per second.
pub const MSEC_PER_SEC: u64 = 1000;

/// Milliseconds since the counter started, from the physical counter value
/// `ticks` (CNTPCT_EL0) and the counter frequency `clock_freq` (CNTFRQ_EL0).
pub fn get_time(ticks: u64, clock_freq: u64) -> (r: u64)
    requires
        clock_freq != 0,
        ticks * MSEC_PER_SEC <= u64::MAX,
    ensures
        r == ticks * MSEC_PER_SEC / (clock_freq as int),
{
    ticks * MSEC_PER_SEC / clock_freq
}

/// The `get_time` system call: the millisecond clock as a signed value.
pub fn sys_get_time(ticks: u64, clock_freq: u64) -> (r: isize)
    requires
        clock_freq != 0,
        ticks * MSEC_PER_SEC <= u64::MAX,
    ensures
        r == #[verifier::truncate] ((ticks * MSEC_PER_SEC / (clock_freq as int)) as isize),
{
    #[verifier::truncate]
    (get_time(ticks, clock_freq) as isize)
}

/// Counter ticks until the next timer interrupt (for CNTP_TVAL_EL0) when the
/// timer should fire `ticks_per_second` times a second.
pub fn trigger_interval(clock_freq: u64, ticks_per_second: u64) -> (r: u64)
    requires
        ticks_per_second != 0,
    ensures
        r == clock_freq / ticks_per_second,
{
    clock_freq / ticks_per_second
}

/// Register values that bring up the core timer block.
#[derive(Clone, Copy, PartialEq, Eq, Structural, Debug)]
pub struct CoreTimerSetup {
    /// Control register: crystal clock source, increment by one.
    pub ctrl: u32,
    /// Core 0 interrupt control: route the non-secure physical timer IRQ.
    pub core0_int_ctrl: u32,
    /// Prescaler that divides the crystal down to the timer frequency.
    pub prescaler: u32,
}

/// The core timer block (memory mapped at `start` once initialised).
pub struct CoreTimer {
    start: Option<VirtAddr>,
}

impl CoreTimer {
    /// Frequency of the crystal feeding the timer block, in Hz.
    pub const CRYSTAL_FREQ: u64 = 19_200_000;

    /// Frequency the timer block should count at, in Hz.
    pub const TIMER_FREQ: u64 = 1_000_000;

    /// Where the timer registers are mapped, or `None` before `init`.
    pub closed spec fn start(&self) -> Option<VirtAddr> {
        self.start
    }

    /// Whether `init` has run.
    pub fn is_initialized(&self) -> (r: bool)
        ensures
            r == (self.start() is Some),
    {
        self.start.is_some()
    }

    /// A timer that has not been set up.
    pub fn empty() -> (r: Self)
        ensures
            r.start() == None::<VirtAddr>,
    {
        Self { start: None }
    }

    /// Records that the timer registers are mapped at `start` and returns the
    /// values to write into them. A timer is set up once only.
    pub fn init(&mut self, start: VirtAddr) -> (r: CoreTimerSetup)
        requires
            old(self).start() is None,
        ensures
            final(self).start() == Some(start),
            r == (CoreTimerSetup {
                ctrl: 0,
                core0_int_ctrl: 2,
                prescaler: #[verifier::truncate] (((Self::CRYSTAL_FREQ * 0x8000_0000) / (Self::TIMER_FREQ as int)) as u32),
            }),
    {
        self.start = Some(start);
        // CTRL::INC::Inc1 (bit 9 = 0) + CTRL::CLK::Crystal (bit 8 = 0)
        let ctrl: u32 = (0u32 << 9u32) | (0u32 << 8u32);
        // INT_CTRL::CNTPNSIRQ (bit 1) = 1
        let core0_int_ctrl: u32 = 1u32 << 1u32;
        assert(ctrl == 0 && core0_int_ctrl == 2) by (bit_vector)
            requires
                ctrl == (0u32 << 9u32) | (0u32 << 8u32),
                core0_int_ctrl == 1u32 << 1u32,
        ;
        CoreTimerSetup {
            ctrl,
            core0_int_ctrl,
            prescaler: Self::prescaler_cal(Self::CRYSTAL_FREQ, Self::TIMER_FREQ),
        }
    }

    /// Counter ticks in an interval of `ms` milliseconds at counter frequency
    /// `clock_freq` (the value `set_interval` writes to CNTP_TVAL_EL0).
    pub fn interval_ticks(clock_freq: u64, ms: usize) -> (r: u64)
        requires
            clock_freq * ms <= u64::MAX,
        ensures
            r == clock_freq * ms / 1000int,
    {
        (clock_freq * ms as u64) / 1000
    }

    /// The prescaler for which the block turns `freq_in` into `freq_out`:
    /// `freq_out = 2^31 / prescaler * freq_in`, truncated to 32 bits.
    pub fn prescaler_cal(freq_in: u64, freq_out: u64) -> (r: u32)
        requires
            freq_out != 0,
            freq_in * 0x8000_0000 <= u64::MAX,
        ensures
            r == #[verifier::truncate] (((freq_in * 0x8000_0000) / (freq_out as int)) as u32),
    {
        let scale: u64 = 1u64 << 31u64;
        assert(scale == 0x8000_0000) by (bit_vector)
            requires
                scale == 1u64 << 31u64,
        ;
        #[verifier::truncate]
        (((freq_in * scale) / freq_out) as u32)
    }
}

} // verus!
