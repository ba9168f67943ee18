//! CPU and memory figures of a snapshot.
use crate::measure::{percent_hundredths, usage_hundredths};
use vstd::prelude::*;
use vstd::string::*;

verus! {

/// One logical CPU, read after the settle wait between two refreshes.
pub struct CoreSample {
    /// Usage in hundredths of a percent.
    pub usage: u32,
    pub frequency_mhz: u64,
    pub brand: String,
}

/// Load averages in hundredths.
#[derive(Clone, Copy, Debug, PartialEq, Eq, Structural)]
pub struct LoadAverage {
    pub one: u64,
    pub five: u64,
    pub fifteen: u64,
}

#[derive(Clone, Debug)]
pub struct ResourceBlock {
    /// Mean usage of all cores, hundredths of a percent.
    pub cpu_usage: u32,
    pub cpu_count: usize,
    pub cpu_name: String,
    pub memory_total_bytes: u64,
    pub memory_used_bytes: u64,
    /// Hundredths of a percent.
    pub memory_usage_percent: u64,
}

#[derive(Clone, Debug)]
pub struct CpuAdvanced {
    /// Hundredths of a percent, one per core in enumeration order.
    pub per_core_usage: Vec<u32>,
    pub cpu_frequency_mhz: u64,
    /// Load averages over 1, 5 and 15 minutes, in hundredths.
    pub load_avg_1: u64,
    pub load_avg_5: u64,
    pub load_avg_15: u64,
}

pub open spec fn usage_sum(s: Seq<CoreSample>) -> int
    decreases s.len(),
{
    if s.len() == 0 {
        0
    } else {
        usage_sum(s.drop_last()) + s.last().usage
    }
}

/// Mean usage of the cores, rounded down; zero when there is none.
pub open spec fn mean_usage(s: Seq<CoreSample>) -> int {
    if s.len() == 0 {
        0
    } else {
        usage_sum(s) / (s.len() as int)
    }
}

proof fn lemma_usage_sum_bound(s: Seq<CoreSample>)
    ensures
        0 <= usage_sum(s) <= s.len() * 0xFFFF_FFFF,
    decreases s.len(),
{
    if s.len() > 0 {
        lemma_usage_sum_bound(s.drop_last());
    }
}

/// Mean usage of all cores, in hundredths of a percent; zero when no core
/// could be enumerated.
pub fn mean_core_usage(cores: &Vec<CoreSample>) -> (r: u32)
    ensures
        r == mean_usage(cores@),
{
    let n = cores.len();
    if n == 0 {
        return 0;
    }
    let mut sum: u128 = 0;
    let mut i: usize = 0;
    while i < n
        invariant
            n == cores@.len(),
            i <= n,
            sum == usage_sum(cores@.take(i as int)),
        decreases n - i,
    {
        proof {
            let t = cores@.take(i + 1);
            assert(t.drop_last() =~= cores@.take(i as int));
            lemma_usage_sum_bound(cores@.take(i as int));
            assert(i * 0xFFFF_FFFF + 0xFFFF_FFFF <= 0x1_0000_0000_0000_0000 * 0x1_0000_0000);
        }
        sum = sum + cores[i].usage as u128;
        i = i + 1;
    }
    assert(cores@.take(n as int) =~= cores@);
    proof {
        lemma_usage_sum_bound(cores@);
        let total = usage_sum(cores@);
        let len = n as int;
        assert(total / len <= 0xFFFF_FFFF) by (nonlinear_arith)
            requires
                0 <= total <= len * 0xFFFF_FFFF,
                len > 0,
        ;
    }
    (sum / (n as u128)) as u32
}

/// `b` is the resource block for `cores` and the memory totals.
pub open spec fn resource_block_of(
    cores: Seq<CoreSample>,
    total: u64,
    used: u64,
    b: ResourceBlock,
) -> bool {
    &&& b.cpu_usage == mean_usage(cores)
    &&& b.cpu_count == cores.len()
    &&& b.cpu_name@ == if cores.len() > 0 {
        cores[0].brand@
    } else {
        "Unknown"@
    }
    &&& b.memory_total_bytes == total
    &&& b.memory_used_bytes == used
    &&& b.memory_usage_percent == percent_hundredths(used as int, total as int)
}

/// CPU usage, count and name, and memory use. The name is the first core's
/// brand, or `Unknown`; memory usage is zero when the total is.
pub fn resource_block(cores: &Vec<CoreSample>, memory_total: u64, memory_used: u64) -> (r:
    ResourceBlock)
    ensures
        resource_block_of(cores@, memory_total, memory_used, r),
{
    let cpu_name = if cores.len() > 0 {
        cores[0].brand.clone()
    } else {
        String::from_str("Unknown")
    };
    ResourceBlock {
        cpu_usage: mean_core_usage(cores),
        cpu_count: cores.len(),
        cpu_name,
        memory_total_bytes: memory_total,
        memory_used_bytes: memory_used,
        memory_usage_percent: usage_hundredths(memory_used, memory_total),
    }
}

/// `a` is the detailed CPU block for `cores` and `load`.
pub open spec fn cpu_advanced_of(cores: Seq<CoreSample>, load: LoadAverage, a: CpuAdvanced) -> bool {
    &&& a.per_core_usage@.len() == cores.len()
    &&& forall|i: int| 0 <= i < cores.len() ==> #[trigger] a.per_core_usage@[i] == cores[i].usage
    &&& a.cpu_frequency_mhz == if cores.len() > 0 {
        cores[0].frequency_mhz
    } else {
        0
    }
    &&& a.load_avg_1 == load.one
    &&& a.load_avg_5 == load.five
    &&& a.load_avg_15 == load.fifteen
}

/// Per-core usage, the first core's frequency (zero without cores) and the
/// load averages.
pub fn cpu_advanced(cores: &Vec<CoreSample>, load: LoadAverage) -> (r: CpuAdvanced)
    ensures
        cpu_advanced_of(cores@, load, r),
{
    let mut per_core: Vec<u32> = Vec::new();
    let mut i: usize = 0;
    while i < cores.len()
        invariant
            i <= cores@.len(),
            per_core@.len() == i,
            forall|k: int| 0 <= k < i ==> #[trigger] per_core@[k] == cores@[k].usage,
        decreases cores@.len() - i,
    {
        per_core.push(cores[i].usage);
        i = i + 1;
    }
    let freq = if cores.len() > 0 {
        cores[0].frequency_mhz
    } else {
        0
    };
    CpuAdvanced {
        per_core_usage: per_core,
        cpu_frequency_mhz: freq,
        load_avg_1: load.one,
        load_avg_5: load.five,
        load_avg_15: load.fifteen,
    }
}

} // verus!
