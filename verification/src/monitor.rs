//! Turning the operating system's cumulative counters into the rates the
//! resource statistics report. Process CPU use is the growth of kernel
//! plus user time between two samples over the wall time between them,
//! divided among the logical cores, as Task Manager's details view shows
//! it: one busy core of eight reads 12.5%.

use vstd::prelude::*;

verus! {

/// A `FILETIME`'s two halves as one count of 100 ns intervals.
pub fn filetime_to_u64(high: u32, low: u32) -> (t: u64)
    ensures
        t == high as int * 0x1_0000_0000 + low as int,
{
    let t = ((high as u64) << 32u64) | low as u64;
    assert(t == high as int * 0x1_0000_0000 + low as int) by (bit_vector)
        requires
            t == ((high as u64) << 32u64) | low as u64,
    ;
    t
}

/// Bytes in a megabyte, as memory figures count them.
pub open spec fn mb() -> int {
    1024int * 1024int
}

/// A working set in hundredths of a megabyte, rounded down.
pub fn working_set_mb_x100(bytes: u64) -> (m: u64)
    ensures
        m == bytes as int * 100 / mb(),
{
    let m: u128 = bytes as u128 * 100 / (1024 * 1024);
    assert(m <= bytes) by (nonlinear_arith)
        requires
            m == bytes as int * 100 / (1024int * 1024int),
            bytes >= 0,
    ;
    m as u64
}

/// Shortest interval a rate is computed over, in 100 ns units (1 ms), so
/// two samples taken back to back never divide by nearly nothing.
pub open spec fn min_interval_100ns() -> int {
    10_000
}

/// CPU use in hundredths of a percent over an interval: CPU time grown by
/// `cpu_delta_100ns` during `elapsed_100ns` (at least 1 ms) on `cores`
/// logical cores, clamped to 0..=100%. With no cores reported any CPU time
/// reads as fully busy, and none as idle.
pub open spec fn cpu_percent_x100(cpu_delta_100ns: int, elapsed_100ns: int, cores: int) -> int {
    let elapsed = if elapsed_100ns < min_interval_100ns() { min_interval_100ns() } else { elapsed_100ns };
    if cores == 0 {
        if cpu_delta_100ns > 0 { 10_000 } else { 0 }
    } else {
        let p = cpu_delta_100ns * 10_000 / (elapsed * cores);
        if p > 10_000 { 10_000 } else { p }
    }
}

/// The process CPU sampler's memory of the previous sample.
#[derive(Debug, Clone, Copy, PartialEq, Eq, Structural)]
pub struct CpuSampler {
    pub last_kernel_100ns: u64,
    pub last_user_100ns: u64,
    pub logical_cores: u32,
}

impl CpuSampler {
    /// A sampler that has seen no CPU time yet.
    pub fn new(logical_cores: u32) -> (s: Self)
        ensures
            s == (CpuSampler { last_kernel_100ns: 0, last_user_100ns: 0, logical_cores }),
    {
        CpuSampler { last_kernel_100ns: 0, last_user_100ns: 0, logical_cores }
    }

    /// Takes the process's cumulative kernel and user times and the wall
    /// time since the previous sample, and returns the CPU use over that
    /// interval. Time that went backwards counts as none.
    pub fn sample(&mut self, kernel_100ns: u64, user_100ns: u64, elapsed_100ns: u64) -> (p: u64)
        ensures
            final(self).last_kernel_100ns == kernel_100ns,
            final(self).last_user_100ns == user_100ns,
            final(self).logical_cores == old(self).logical_cores,
            p == cpu_percent_x100(
                if kernel_100ns + user_100ns >= old(self).last_kernel_100ns + old(self).last_user_100ns {
                    kernel_100ns + user_100ns - (old(self).last_kernel_100ns + old(self).last_user_100ns)
                } else {
                    0
                },
                elapsed_100ns as int,
                old(self).logical_cores as int,
            ),
    {
        let now: u128 = kernel_100ns as u128 + user_100ns as u128;
        let before: u128 = self.last_kernel_100ns as u128 + self.last_user_100ns as u128;
        let delta: u128 = if now >= before { now - before } else { 0 };
        let elapsed: u128 = if elapsed_100ns < 10_000 { 10_000 } else { elapsed_100ns as u128 };
        let cores = self.logical_cores as u128;
        let p: u128 = if cores == 0 {
            if delta > 0 { 10_000 } else { 0 }
        } else {
            assert(delta * 10_000 <= 2 * 0xFFFF_FFFF_FFFF_FFFFu64 * 10_000) by (nonlinear_arith)
                requires
                    delta <= 2 * 0xFFFF_FFFF_FFFF_FFFFu64,
            ;
            assert(elapsed * cores <= 0xFFFF_FFFF_FFFF_FFFFu64 * 0xFFFF_FFFFu64) by (nonlinear_arith)
                requires
                    elapsed <= 0xFFFF_FFFF_FFFF_FFFFu64,
                    cores <= 0xFFFF_FFFFu32,
            ;
            assert(elapsed * cores >= 1) by (nonlinear_arith)
                requires
                    elapsed >= 10_000,
                    cores >= 1,
            ;
            let q = delta * 10_000 / (elapsed * cores);
            if q > 10_000 { 10_000 } else { q }
        };
        self.last_kernel_100ns = kernel_100ns;
        self.last_user_100ns = user_100ns;
        p as u64
    }
}

} // verus!
