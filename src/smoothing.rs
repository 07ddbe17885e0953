use vstd::prelude::*;
use crate::kernel::Kernel;

verus! {

/// The settings from which a smoothing kernel is normalised: the
/// dimensionality of the space, the number of quadrature steps, and the
/// kernel shape.
pub struct SmoothingRadius<K: Kernel> {
    dimensionality: u8,
    integration_steps: u32,
    kernel: K,
}

impl<K: Kernel> SmoothingRadius<K> {
    /// The dimensionality of the space.
    pub closed spec fn dimensionality_spec(&self) -> u8 {
        self.dimensionality
    }

    /// The number of quadrature steps.
    pub closed spec fn integration_steps_spec(&self) -> u32 {
        self.integration_steps
    }

    /// The kernel shape.
    pub closed spec fn kernel_spec(&self) -> K {
        self.kernel
    }

    /// Creates the settings for dimensionality `d`, `n` quadrature steps and
    /// the shape `kernel`.
    pub fn new(d: u8, n: u32, kernel: K) -> (r: Self)
        ensures
            r.dimensionality_spec() == d,
            r.integration_steps_spec() == n,
            r.kernel_spec() == kernel,
    {
        SmoothingRadius { dimensionality: d, integration_steps: n, kernel }
    }
}

} // verus!
