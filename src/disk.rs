//! Mounted volumes and their usage.
use crate::measure::{percent_hundredths, usage_hundredths};
use vstd::prelude::*;

verus! {

/// A mounted volume as the operating system reports it.
pub struct DiskSample {
    pub name: String,
    pub mount_point: String,
    pub total_bytes: u64,
    pub available_bytes: u64,
}

#[derive(Clone, Debug)]
pub struct DiskInfo {
    pub name: String,
    pub total_bytes: u64,
    pub used_bytes: u64,
    /// Hundredths of a percent.
    pub usage_percent: u64,
    pub mount_point: String,
}

/// Bytes in use: the total less what is available, and zero when more is
/// reported available than the total.
pub open spec fn used_bytes(d: DiskSample) -> int {
    if d.available_bytes >= d.total_bytes {
        0
    } else {
        d.total_bytes - d.available_bytes
    }
}

/// `i` describes the volume `d`.
pub open spec fn disk_info_of(d: DiskSample, i: DiskInfo) -> bool {
    &&& i.name@ == d.name@
    &&& i.mount_point@ == d.mount_point@
    &&& i.total_bytes == d.total_bytes
    &&& i.used_bytes == used_bytes(d)
    &&& i.usage_percent == percent_hundredths(used_bytes(d), d.total_bytes as int)
}

/// Usage of one volume; zero percent when its total is zero.
pub fn disk_info(d: DiskSample) -> (r: DiskInfo)
    ensures
        disk_info_of(d, r),
{
    let used = d.total_bytes.saturating_sub(d.available_bytes);
    let usage_percent = usage_hundredths(used, d.total_bytes);
    DiskInfo {
        name: d.name,
        total_bytes: d.total_bytes,
        used_bytes: used,
        usage_percent,
        mount_point: d.mount_point,
    }
}

/// Usage of every volume, in the order they were enumerated.
pub fn collect_disks(volumes: Vec<DiskSample>) -> (r: Vec<DiskInfo>)
    ensures
        r@.len() == volumes@.len(),
        forall|i: int| 0 <= i < r@.len() ==> disk_info_of(volumes@[i], #[trigger] r@[i]),
{
    let ghost orig = volumes@;
    let n = volumes.len();
    let mut rest = volumes;
    let mut out: Vec<DiskInfo> = Vec::new();
    while rest.len() > 0
        invariant
            out@.len() + rest@.len() == orig.len(),
            orig.len() == n,
            rest@ == orig.subrange(out@.len() as int, orig.len() as int),
            forall|i: int| 0 <= i < out@.len() ==> disk_info_of(orig[i], #[trigger] out@[i]),
        decreases rest@.len(),
    {
        let d = rest.remove(0);
        out.push(disk_info(d));
        assert(rest@ =~= orig.subrange(out@.len() as int, orig.len() as int));
    }
    out
}

/// A volume's usage is zero when its total is zero, and otherwise its share
/// of the total in hundredths of a percent, rounded down: within one
/// hundredth of a percent of `used / total * 100`.
pub proof fn lemma_disk_usage(d: DiskSample, i: DiskInfo)
    requires
        disk_info_of(d, i),
    ensures
        d.total_bytes == 0 ==> i.usage_percent == 0,
        d.total_bytes > 0 ==> i.usage_percent * d.total_bytes <= i.used_bytes * 10000 < (
        i.usage_percent + 1) * d.total_bytes,
{
    if d.total_bytes > 0 {
        let u = i.used_bytes as int;
        let t = d.total_bytes as int;
        assert(u <= t);
        assert(u * 10000 / t <= 10000) by (nonlinear_arith)
            requires
                0 <= u <= t,
                t > 0,
        ;
        let q = u * 10000 / t;
        assert(q * t <= u * 10000 < (q + 1) * t) by (nonlinear_arith)
            requires
                t > 0,
                u >= 0,
                q == u * 10000 / t,
        ;
    }
}

} // verus!
