//! The GICv2 interrupt controller interface (distributor and CPU interface).
use vstd::prelude::*;

verus! {

/// A GICv2 interrupt controller.
pub struct Gic {
    gicd_base: usize,
    gicc_base: usize,
    max_irqs: usize,
}

impl Gic {
    /// Base of the distributor registers.
    pub closed spec fn gicd(&self) -> usize {
        self.gicd_base
    }

    /// Base of the CPU interface registers.
    pub closed spec fn gicc(&self) -> usize {
        self.gicc_base
    }

    /// Number of interrupt lines (not probed yet, so zero).
    pub closed spec fn irqs(&self) -> usize {
        self.max_irqs
    }

    /// A controller with its distributor at `gicd_base` and its CPU interface
    /// at `gicc_base`.
    pub fn new(gicd_base: usize, gicc_base: usize) -> (r: Self)
        ensures
            r.gicd() == gicd_base,
            r.gicc() == gicc_base,
            r.irqs() == 0,
    {
        Self { gicd_base, gicc_base, max_irqs: 0 }
    }

    /// Enables or disables interrupt `vector`. The distributor is not driven
    /// yet, so this leaves every register as it is.
    pub fn set_enable(&self, vector: usize, enable: bool) {
    }
}

/// Masks (`masked`) or unmasks interrupt `vector` at the controller.
pub fn irq_set_mask(gic: &Gic, vector: usize, masked: bool) {
    gic.set_enable(vector, !masked);
}

} // verus!
