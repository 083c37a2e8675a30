//! What the wrapper decides once the child has been waited on: the report
//! block to print and the outcome to exit with.

use vstd::prelude::*;
use crate::duration::Duration;
use crate::outcome::{child_outcome, spec_child_outcome, ChildStatus, Failure};
use crate::render::{format_duration, format_rss_mb, spec_fmt_duration, spec_fmt_rss_mb};
use crate::rusage::ResourceUsage;

verus! {

/// The full report block: a leading blank line, then the wall-clock time,
/// the CPU times (total, then user and system parts) and the peak resident
/// memory in megabytes, each on its own labelled line.
pub open spec fn spec_report(wall: nat, user: nat, sys: nat, rss_bytes: nat) -> Seq<char> {
    "\nreal "@ + spec_fmt_duration(wall) + "\ncpu  "@ + spec_fmt_duration(user + sys) + " ("@
        + spec_fmt_duration(user) + " user + "@ + spec_fmt_duration(sys) + " sys)\nrss  "@
        + spec_fmt_rss_mb(rss_bytes) + "mb"@
}

/// Renders the report block for a finished run.
pub fn format_report(wall: &Duration, ru: &ResourceUsage) -> (s: String)
    requires
        wall.wf(),
        ru.wf(),
    ensures
        s@ == spec_report(
            wall.as_nanos(),
            ru.user_cpu.as_nanos(),
            ru.sys_cpu.as_nanos(),
            ru.max_rss_bytes as nat,
        ),
{
    let total = ru.total_cpu();
    let wall_text = format_duration(wall);
    let total_text = format_duration(&total);
    let user_text = format_duration(&ru.user_cpu);
    let sys_text = format_duration(&ru.sys_cpu);
    let rss_text = format_rss_mb(ru.max_rss_bytes);
    let mut s = String::from_str("\nreal ");
    s.append(wall_text.as_str());
    s.append("\ncpu  ");
    s.append(total_text.as_str());
    s.append(" (");
    s.append(user_text.as_str());
    s.append(" user + ");
    s.append(sys_text.as_str());
    s.append(" sys)\nrss  ");
    s.append(rss_text.as_str());
    s.append("mb");
    proof {
        assert(s@ =~= spec_report(
            wall.as_nanos(),
            ru.user_cpu.as_nanos(),
            ru.sys_cpu.as_nanos(),
            ru.max_rss_bytes as nat,
        ));
    }
    s
}

/// Everything the wrapper concludes after the wait: the report block, which
/// is printed whether or not the child succeeded, and the overall outcome.
pub fn report_and_outcome(wall: &Duration, ru: &ResourceUsage, st: &ChildStatus) -> (r: (
    String,
    Result<(), Failure>,
))
    requires
        wall.wf(),
        ru.wf(),
    ensures
        r.0@ == spec_report(
            wall.as_nanos(),
            ru.user_cpu.as_nanos(),
            ru.sys_cpu.as_nanos(),
            ru.max_rss_bytes as nat,
        ),
        r.1 == spec_child_outcome(*st),
{
    (format_report(wall, ru), child_outcome(st))
}

/// `sub` occurs somewhere in `s`.
pub open spec fn spec_contains(s: Seq<char>, sub: Seq<char>) -> bool {
    exists|i: int|
        0 <= i && i + sub.len() <= s.len() && #[trigger] s.subrange(i, i + sub.len()) == sub
}

/// An occurrence at a known position witnesses containment.
proof fn lemma_contains_at(s: Seq<char>, sub: Seq<char>, i: int)
    requires
        0 <= i,
        i + sub.len() <= s.len(),
        s.subrange(i, i + sub.len()) == sub,
    ensures
        spec_contains(s, sub),
{
}

/// The middle piece of a three-way concatenation is contained in the whole.
proof fn lemma_concat_contains_middle(x: Seq<char>, y: Seq<char>, z: Seq<char>)
    ensures
        spec_contains(x + y + z, y),
{
    let s = x + y + z;
    assert(s.subrange(x.len() as int, x.len() as int + y.len() as int) =~= y);
    lemma_contains_at(s, y, x.len() as int);
}

/// The report block carries a labelled line for each reported quantity: a
/// "real" line, a "cpu" line and an "rss" line, each starting its own line.
pub proof fn lemma_report_has_labels(wall: nat, user: nat, sys: nat, rss_bytes: nat)
    ensures
        spec_contains(spec_report(wall, user, sys, rss_bytes), "\nreal "@),
        spec_contains(spec_report(wall, user, sys, rss_bytes), "\ncpu  "@),
        spec_contains(spec_report(wall, user, sys, rss_bytes), "\nrss  "@),
{
    let s = spec_report(wall, user, sys, rss_bytes);
    let fw = spec_fmt_duration(wall);
    let ft = spec_fmt_duration(user + sys);
    let fu = spec_fmt_duration(user);
    let fs = spec_fmt_duration(sys);
    let fr = spec_fmt_rss_mb(rss_bytes);
    let tail_real = fw + "\ncpu  "@ + ft + " ("@ + fu + " user + "@ + fs + " sys)\nrss  "@ + fr
        + "mb"@;
    assert(s =~= Seq::<char>::empty() + "\nreal "@ + tail_real);
    lemma_concat_contains_middle(Seq::<char>::empty(), "\nreal "@, tail_real);
    let head_cpu = "\nreal "@ + fw;
    let tail_cpu = ft + " ("@ + fu + " user + "@ + fs + " sys)\nrss  "@ + fr + "mb"@;
    assert(s =~= head_cpu + "\ncpu  "@ + tail_cpu);
    lemma_concat_contains_middle(head_cpu, "\ncpu  "@, tail_cpu);
    reveal_strlit(" sys)\nrss  ");
    reveal_strlit(" sys)");
    reveal_strlit("\nrss  ");
    assert(" sys)\nrss  "@ =~= " sys)"@ + "\nrss  "@);
    let head_rss = "\nreal "@ + fw + "\ncpu  "@ + ft + " ("@ + fu + " user + "@ + fs + " sys)"@;
    let tail_rss = fr + "mb"@;
    assert(s =~= head_rss + "\nrss  "@ + tail_rss);
    lemma_concat_contains_middle(head_rss, "\nrss  "@, tail_rss);
}

} // verus!
