//! Resource usage of the terminated child: CPU times and peak resident
//! memory, built from the raw counters the operating system reports.

use vstd::prelude::*;
use crate::duration::Duration;
use crate::render::{rss_hundredths, spec_fmt_rss_mb};

verus! {

/// The unit in which the running platform reports the raw peak-RSS counter.
/// One major platform family reports bytes; the others report kibibytes.
#[derive(Clone, Copy, Debug, PartialEq, Eq, Structural)]
pub enum Platform {
    /// The raw counter is already in bytes.
    RssInBytes,
    /// The raw counter is in kibibytes and must be scaled by 1024.
    RssInKibibytes,
}

/// How many bytes one unit of the raw counter stands for.
pub open spec fn spec_rss_unit(p: Platform) -> nat {
    match p {
        Platform::RssInBytes => 1,
        Platform::RssInKibibytes => 1024,
    }
}

/// The raw counter scaled to bytes.
pub open spec fn spec_scale_rss(raw: nat, p: Platform) -> nat {
    raw * spec_rss_unit(p)
}

/// Scales a raw peak-RSS counter to bytes for the given platform; `None`
/// exactly when the product does not fit the result type.
pub fn scale_rss(raw: u64, p: &Platform) -> (r: Option<u64>)
    ensures
        r is Some <==> spec_scale_rss(raw as nat, *p) <= u64::MAX,
        r is Some ==> r->0 == spec_scale_rss(raw as nat, *p),
{
    match p {
        Platform::RssInBytes => Some(raw),
        Platform::RssInKibibytes => {
            if raw <= u64::MAX / 1024 {
                Some(raw * 1024)
            } else {
                None
            }
        },
    }
}

/// CPU time consumed by the terminated child and its exited descendants,
/// split into user and kernel mode, plus peak resident memory in bytes.
#[derive(Clone, Copy, Debug, PartialEq, Eq, Structural)]
pub struct ResourceUsage {
    pub user_cpu: Duration,
    pub sys_cpu: Duration,
    pub max_rss_bytes: u64,
}

impl ResourceUsage {
    /// Both CPU times are well-formed and their sum stays representable.
    pub open spec fn wf(&self) -> bool {
        &&& self.user_cpu.wf()
        &&& self.sys_cpu.wf()
        &&& self.user_cpu.secs + self.sys_cpu.secs < u64::MAX
    }

    /// Builds the usage record from the raw operating-system counters: two
    /// seconds-and-microseconds CPU time pairs and the raw peak-RSS counter
    /// in the platform's unit. The ranges required are the ones the system
    /// promises for such counters. `None` exactly when the scaled peak RSS
    /// does not fit in bytes.
    pub fn from_raw(
        utime_sec: i64,
        utime_usec: i64,
        stime_sec: i64,
        stime_usec: i64,
        max_rss_raw: u64,
        platform: &Platform,
    ) -> (r: Option<ResourceUsage>)
        requires
            0 <= utime_sec,
            0 <= utime_usec < 1_000_000,
            0 <= stime_sec,
            0 <= stime_usec < 1_000_000,
        ensures
            r is Some <==> spec_scale_rss(max_rss_raw as nat, *platform) <= u64::MAX,
            r is Some ==> r->0.wf(),
            r is Some ==> r->0.user_cpu.as_nanos() == utime_sec * 1_000_000_000 + utime_usec
                * 1000,
            r is Some ==> r->0.sys_cpu.as_nanos() == stime_sec * 1_000_000_000 + stime_usec
                * 1000,
            r is Some ==> r->0.max_rss_bytes == spec_scale_rss(max_rss_raw as nat, *platform),
    {
        match scale_rss(max_rss_raw, platform) {
            Some(bytes) => Some(
                ResourceUsage {
                    user_cpu: Duration::from_timeval(utime_sec, utime_usec),
                    sys_cpu: Duration::from_timeval(stime_sec, stime_usec),
                    max_rss_bytes: bytes,
                },
            ),
            None => None,
        }
    }

    /// Total CPU time: user plus system.
    pub fn total_cpu(&self) -> (r: Duration)
        requires
            self.wf(),
        ensures
            r.wf(),
            r.as_nanos() == self.user_cpu.as_nanos() + self.sys_cpu.as_nanos(),
    {
        self.user_cpu.plus(&self.sys_cpu)
    }
}

/// Every reported resource value is non-negative, and the total CPU time is
/// at least as large as each of its two components.
pub proof fn lemma_resource_values_nonnegative(ru: ResourceUsage, wall: Duration)
    requires
        ru.wf(),
        wall.wf(),
    ensures
        wall.as_nanos() >= 0,
        ru.user_cpu.as_nanos() + ru.sys_cpu.as_nanos() >= 0,
        ru.user_cpu.as_nanos() + ru.sys_cpu.as_nanos() >= ru.user_cpu.as_nanos(),
        ru.user_cpu.as_nanos() + ru.sys_cpu.as_nanos() >= ru.sys_cpu.as_nanos(),
        ru.max_rss_bytes >= 0,
{
}

/// Platform scaling of the raw peak-RSS counter: where the unit is
/// kibibytes the counter is multiplied by 1024 before the megabyte value is
/// formed, where it is bytes it is taken as it stands, and the megabyte
/// value shown is the scaled byte count over 2^20, in hundredths.
pub proof fn lemma_platform_rss_scaling(v: u64)
    ensures
        spec_scale_rss(v as nat, Platform::RssInKibibytes) == v * 1024,
        spec_scale_rss(v as nat, Platform::RssInBytes) == v,
        spec_fmt_rss_mb(spec_scale_rss(v as nat, Platform::RssInKibibytes)) == spec_fmt_rss_mb(
            (v * 1024) as nat,
        ),
        rss_hundredths(spec_scale_rss(v as nat, Platform::RssInBytes)) == rss_hundredths(
            v as nat,
        ),
{
}

} // verus!
