//! The BCM2835 MiniUART: where its registers are, how fast it runs, and the
//! status bits the transmit loop waits on.
use vstd::prelude::*;

verus! {

/// Core clock feeding the MiniUART, in Hz.
pub const VCLK: usize = 250_000_000;

/// Line speed, in bits per second.
pub const BAUDRATE: usize = 115200;

/// Bit of the line status register set when the transmit FIFO can take a byte.
pub const LSR_TX_EMPTY: u32 = 1 << 5;

/// Bit of the line status register set when the transmitter is idle.
pub const LSR_TX_IDLE: u32 = 1 << 6;

/// The MiniUART, its registers mapped at `aux_base`.
pub struct MiniUartInner {
    aux_base: usize,
}

impl MiniUartInner {
    /// Where the auxiliary peripheral registers are mapped.
    pub closed spec fn base(&self) -> usize {
        self.aux_base
    }

    /// A UART whose registers are not mapped yet.
    pub fn empty() -> (r: Self)
        ensures
            r.base() == 0,
    {
        Self { aux_base: 0 }
    }

    /// Records that the registers are mapped at `va`.
    pub fn init(&mut self, va: usize)
        ensures
            final(self).base() == va,
    {
        self.aux_base = va;
    }

    /// Where the auxiliary peripheral registers are mapped.
    pub fn aux_base(&self) -> (r: usize)
        ensures
            r == self.base(),
    {
        self.aux_base
    }

    /// The baud-rate register value: `VCLK / (8 * BAUDRATE) - 1`.
    pub fn baud_reg() -> (r: u32)
        ensures
            r == (VCLK as int) / (8 * BAUDRATE) - 1,
            r == 270,
    {
        (VCLK / (8 * BAUDRATE) - 1) as u32
    }

    /// Whether the transmitter can take the next byte (`putc` waits for it).
    pub fn tx_ready(lsr: u32) -> (r: bool)
        ensures
            r == (lsr & LSR_TX_EMPTY != 0),
    {
        lsr & LSR_TX_EMPTY != 0
    }

    /// Whether every byte has left the transmitter (`flush` waits for it).
    pub fn tx_idle(lsr: u32) -> (r: bool)
        ensures
            r == (lsr & LSR_TX_IDLE != 0),
    {
        lsr & LSR_TX_IDLE != 0
    }

    /// The I/O register value that sends `ch`: its data field replaced.
    pub fn io_with_data(io: u32, ch: u8) -> (r: u32)
        ensures
            r == (io & !0xffu32) | (ch as u32),
            r & 0xff == ch as u32,
    {
        let r = (io & !0xffu32) | (ch as u32);
        assert(r & 0xff == ch as u32) by (bit_vector)
            requires
                r == (io & !0xffu32) | (ch as u32),
                ch as u32 <= 0xff,
        ;
        r
    }
}

} // verus!
