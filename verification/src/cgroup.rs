//! Control groups (version 2) that limit the CPU time of a sandbox.

use vstd::prelude::*;
use vstd::string::StringExecFns;

use crate::text::{decimal_string, decimal_text};

verus! {

/// The default CPU period, in microseconds.
pub const DEFAULT_CPU_PERIOD_US: u64 = 100_000;

/// A CPU quota: at most `quota_us` of CPU time in each period of `period_us`.
#[derive(Clone, Copy, Debug, PartialEq, Eq, Structural)]
pub struct CpuQuota {
    /// CPU time allowed per period, in microseconds
    pub quota_us: u64,
    /// The period, in microseconds
    pub period_us: u64,
}

/// The directory of a sandbox's control group.
pub open spec fn cgroup_dir_text(cgroup_name: Seq<char>) -> Seq<char> {
    "/sys/fs/cgroup/microsandbox/"@ + cgroup_name
}

/// The directory of a sandbox's control group.
pub fn cgroup_dir_path(cgroup_name: &str) -> (r: String)
    ensures
        r@ == cgroup_dir_text(cgroup_name@),
{
    String::from_str("/sys/fs/cgroup/microsandbox/").concat(cgroup_name)
}

/// What is written to a control group's `cpu.max` file: quota and period.
pub fn cpu_max_value(quota: CpuQuota) -> (r: String)
    ensures
        r@ == decimal_text(quota.quota_us as nat) + " "@ + decimal_text(quota.period_us as nat),
{
    decimal_string(quota.quota_us).concat(" ").concat(decimal_string(quota.period_us).as_str())
}

} // verus!
