//! GPU probing: one strategy per vendor, tried in a fixed order
//! (NVIDIA, then AMD, then Intel); the first that finds a device wins.
//!
//! Each strategy is a function from what was read about the device to an
//! optional [`GpuInfo`]; the cascade itself is the step function
//! [`collect_gpu_info`], which says what to probe next.
use crate::text::{active_clock, active_clock_mhz, read_u32, trim, trimmed_string, u32_text};
use crate::measure::MIB;
use vstd::prelude::*;
use vstd::string::*;

verus! {

/// Most resident processes listed for a GPU.
pub const MAX_GPU_PROCESSES: usize = 5;

/// Fan speed, in RPM, taken as 100% when only the speed is known.
pub const FAN_FULL_RPM: u64 = 3000;

#[derive(Clone, Copy, Debug, PartialEq, Eq, Structural)]
pub enum GpuVendor {
    Nvidia,
    Amd,
    Intel,
}

/// A process that holds GPU memory.
#[derive(Clone, Debug)]
pub struct GpuProcessInfo {
    pub pid: u32,
    pub name: String,
    pub memory_mb: u64,
}

/// The one GPU that a snapshot reports.
#[derive(Clone, Debug)]
pub struct GpuInfo {
    pub vendor: GpuVendor,
    pub name: String,
    pub usage_percent: u32,
    pub memory_total_mb: u64,
    pub memory_used_mb: u64,
    /// Degrees Celsius; zero when unknown.
    pub temperature: u32,
    pub fan_speed_percent: Option<u32>,
    pub core_clock_mhz: Option<u32>,
    pub memory_clock_mhz: Option<u32>,
    pub top_processes: Vec<GpuProcessInfo>,
}

/// A process as the vendor management interface reports it.
pub struct GpuProcessSample {
    pub pid: u32,
    pub name: Option<String>,
    pub used_memory_bytes: u64,
}

/// Device memory, in bytes.
pub struct GpuMemorySample {
    pub total_bytes: u64,
    pub used_bytes: u64,
}

/// What the vendor management interface reported about device 0; each
/// reading is `None` where the query failed.
pub struct NvidiaSample {
    pub name: Option<String>,
    pub utilization_percent: Option<u32>,
    pub memory: Option<GpuMemorySample>,
    pub temperature: Option<u32>,
    pub fan_speed_percent: Option<u32>,
    pub graphics_clock_mhz: Option<u32>,
    pub memory_clock_mhz: Option<u32>,
    pub graphics_processes: Option<Vec<GpuProcessSample>>,
}

/// The files of an AMD device directory; a file is `None` where it could
/// not be read.
pub struct AmdSample {
    pub device_present: bool,
    pub product_name: Option<String>,
    /// The core clock table (`pp_dpm_sclk`).
    pub sclk_table: Option<String>,
    /// Milli-degrees Celsius, from the hardware monitor.
    pub temp_input: Option<String>,
    /// Fan speed in RPM, from the hardware monitor.
    pub fan_input: Option<String>,
}

/// The files of the primary DRM card, read for an integrated Intel GPU.
pub struct IntelSample {
    pub card_present: bool,
    pub device_present: bool,
    /// Current GT frequency in MHz (`gt_cur_freq_mhz`).
    pub cur_freq_mhz: Option<String>,
}

/// What the probe cascade does next.
pub enum GpuProbeStep {
    Probe(GpuVendor),
    Finished(Option<GpuInfo>),
}

pub open spec fn option_text(s: Option<String>, default: Seq<char>) -> Seq<char> {
    match s {
        Some(t) => t@,
        None => default,
    }
}

pub open spec fn reading_or_zero(r: Option<u32>) -> u32 {
    match r {
        Some(v) => v,
        None => 0,
    }
}

/// Fan percentage estimated from a speed in RPM, 3000 RPM counting as full.
pub open spec fn fan_percent(rpm: u32) -> u32 {
    if rpm as int * 100 / 3000 > 100 {
        100
    } else {
        (rpm as int * 100 / 3000) as u32
    }
}

/// `p` lists the process that `s` reports.
pub open spec fn gpu_process_of(s: GpuProcessSample, p: GpuProcessInfo) -> bool {
    &&& p.pid == s.pid
    &&& p.name@ == option_text(s.name, "unknown"@)
    &&& p.memory_mb == s.used_memory_bytes / MIB
}

/// `ps` lists the first five of the reported processes, in their order.
pub open spec fn gpu_processes_of(s: Option<Vec<GpuProcessSample>>, ps: Seq<GpuProcessInfo>) -> bool {
    match s {
        None => ps.len() == 0,
        Some(v) => {
            &&& ps.len() == if v@.len() < 5 {
                v@.len()
            } else {
                5
            }
            &&& forall|i: int| 0 <= i < ps.len() ==> gpu_process_of(v@[i], #[trigger] ps[i])
        },
    }
}

/// `g` is what the NVIDIA strategy reports from `s`.
pub open spec fn nvidia_info(s: NvidiaSample, g: GpuInfo) -> bool {
    &&& g.vendor == GpuVendor::Nvidia
    &&& g.name@ == option_text(s.name, "Unknown GPU"@)
    &&& g.usage_percent == reading_or_zero(s.utilization_percent)
    &&& g.memory_total_mb == s.memory->Some_0.total_bytes / MIB
    &&& g.memory_used_mb == s.memory->Some_0.used_bytes / MIB
    &&& g.temperature == reading_or_zero(s.temperature)
    &&& g.fan_speed_percent == s.fan_speed_percent
    &&& g.core_clock_mhz == s.graphics_clock_mhz
    &&& g.memory_clock_mhz == s.memory_clock_mhz
    &&& gpu_processes_of(s.graphics_processes, g.top_processes@)
}

/// `g` is what the AMD strategy reports from the files in `s`.
pub open spec fn amd_info(s: AmdSample, g: GpuInfo) -> bool {
    &&& g.vendor == GpuVendor::Amd
    &&& g.name@ == match s.product_name {
        Some(t) => trim(t@),
        None => "AMD GPU"@,
    }
    &&& g.usage_percent == 0
    &&& g.memory_total_mb == 0
    &&& g.memory_used_mb == 0
    &&& g.temperature == match s.temp_input {
        Some(t) => reading_or_zero(u32_text(trim(t@))) / 1000,
        None => 0,
    }
    &&& g.fan_speed_percent == match s.fan_input {
        Some(t) => match u32_text(trim(t@)) {
            Some(rpm) => Some(fan_percent(rpm)),
            None => None,
        },
        None => None,
    }
    &&& g.core_clock_mhz == match s.sclk_table {
        Some(t) => active_clock(t@),
        None => None,
    }
    &&& g.memory_clock_mhz is None
    &&& g.top_processes@.len() == 0
}

/// `g` is what the Intel strategy reports from the files in `s`.
pub open spec fn intel_info(s: IntelSample, g: GpuInfo) -> bool {
    &&& g.vendor == GpuVendor::Intel
    &&& g.name@ == "Intel Integrated Graphics"@
    &&& g.usage_percent == 0
    &&& g.memory_total_mb == 0
    &&& g.memory_used_mb == 0
    &&& g.temperature == 0
    &&& g.fan_speed_percent is None
    &&& g.core_clock_mhz == match s.cur_freq_mhz {
        Some(t) => u32_text(trim(t@)),
        None => None,
    }
    &&& g.memory_clock_mhz is None
    &&& g.top_processes@.len() == 0
}

/// The vendor tried after `v`, if any.
pub open spec fn vendor_after(v: GpuVendor) -> Option<GpuVendor> {
    match v {
        GpuVendor::Nvidia => Some(GpuVendor::Amd),
        GpuVendor::Amd => Some(GpuVendor::Intel),
        GpuVendor::Intel => None,
    }
}

/// The cascade's decision once `v` was probed with `outcome`.
pub open spec fn gpu_step(v: GpuVendor, outcome: Option<GpuInfo>) -> GpuProbeStep {
    match outcome {
        Some(g) => GpuProbeStep::Finished(Some(g)),
        None => match vendor_after(v) {
            Some(w) => GpuProbeStep::Probe(w),
            None => GpuProbeStep::Finished(None),
        },
    }
}

impl GpuVendor {
    /// The vendor that the cascade probes first.
    pub fn first() -> (r: GpuVendor)
        ensures
            r == GpuVendor::Nvidia,
    {
        GpuVendor::Nvidia
    }
}

/// Fan percentage from a speed in RPM against a 3000 RPM ceiling, at most 100.
pub fn fan_percent_of(rpm: u32) -> (r: u32)
    ensures
        r == fan_percent(rpm),
{
    let p: u64 = rpm as u64 * 100 / FAN_FULL_RPM;
    if p > 100 {
        100
    } else {
        p as u32
    }
}

fn text_or(s: Option<String>, default: &str) -> (r: String)
    ensures
        r@ == option_text(s, default@),
{
    match s {
        Some(t) => t,
        None => String::from_str(default),
    }
}

/// The NVIDIA strategy. `None` for `device` means the management interface
/// could not be started or has no device 0; a device whose memory cannot be
/// read is not reported either.
pub fn collect_nvidia_gpu(device: Option<NvidiaSample>) -> (r: Option<GpuInfo>)
    ensures
        match device {
            None => r is None,
            Some(s) => match s.memory {
                None => r is None,
                Some(_) => r is Some && nvidia_info(s, r->Some_0),
            },
        },
{
    let s = match device {
        None => return None,
        Some(s) => s,
    };
    let (total, used) = match &s.memory {
        None => return None,
        Some(m) => (m.total_bytes, m.used_bytes),
    };
    let mut top: Vec<GpuProcessInfo> = Vec::new();
    match &s.graphics_processes {
        None => {},
        Some(ps) => {
            let n = if ps.len() < MAX_GPU_PROCESSES {
                ps.len()
            } else {
                MAX_GPU_PROCESSES
            };
            let mut i: usize = 0;
            while i < n
                invariant
                    n <= ps@.len(),
                    i <= n,
                    top@.len() == i,
                    forall|k: int| 0 <= k < i ==> gpu_process_of(ps@[k], #[trigger] top@[k]),
                decreases n - i,
            {
                let p = &ps[i];
                let name = match &p.name {
                    Some(t) => t.clone(),
                    None => String::from_str("unknown"),
                };
                top.push(GpuProcessInfo { pid: p.pid, name, memory_mb: p.used_memory_bytes / MIB });
                i = i + 1;
            }
        },
    }
    let usage_percent = match s.utilization_percent {
        Some(u) => u,
        None => 0,
    };
    let temperature = match s.temperature {
        Some(t) => t,
        None => 0,
    };
    let g = GpuInfo {
        vendor: GpuVendor::Nvidia,
        name: text_or(s.name, "Unknown GPU"),
        usage_percent,
        memory_total_mb: total / MIB,
        memory_used_mb: used / MIB,
        temperature,
        fan_speed_percent: s.fan_speed_percent,
        core_clock_mhz: s.graphics_clock_mhz,
        memory_clock_mhz: s.memory_clock_mhz,
        top_processes: top,
    };
    Some(g)
}

/// The AMD strategy: reports a device when its directory exists, reading
/// what it can of its files. Utilization and memory are not read (zero).
pub fn collect_amd_gpu(s: &AmdSample) -> (r: Option<GpuInfo>)
    ensures
        r is Some <==> s.device_present,
        r is Some ==> amd_info(*s, r->Some_0),
{
    if !s.device_present {
        return None;
    }
    let name = match &s.product_name {
        Some(t) => trimmed_string(t.as_str()),
        None => String::from_str("AMD GPU"),
    };
    let core_clock_mhz = match &s.sclk_table {
        Some(t) => active_clock_mhz(t.as_str()),
        None => None,
    };
    let temperature = match &s.temp_input {
        Some(t) => match read_u32(t.as_str()) {
            Some(m) => m / 1000,
            None => 0,
        },
        None => 0,
    };
    let fan_speed_percent = match &s.fan_input {
        Some(t) => match read_u32(t.as_str()) {
            Some(rpm) => Some(fan_percent_of(rpm)),
            None => None,
        },
        None => None,
    };
    Some(
        GpuInfo {
            vendor: GpuVendor::Amd,
            name,
            usage_percent: 0,
            memory_total_mb: 0,
            memory_used_mb: 0,
            temperature,
            fan_speed_percent,
            core_clock_mhz,
            memory_clock_mhz: None,
            top_processes: Vec::new(),
        },
    )
}

/// The Intel strategy: reports an integrated GPU when the primary DRM card
/// and its device exist. It shares the CPU's thermal domain and memory, so
/// only its frequency is read.
pub fn collect_intel_gpu(s: &IntelSample) -> (r: Option<GpuInfo>)
    ensures
        r is Some <==> (s.card_present && s.device_present),
        r is Some ==> intel_info(*s, r->Some_0),
{
    if !s.card_present || !s.device_present {
        return None;
    }
    let core_clock_mhz = match &s.cur_freq_mhz {
        Some(t) => read_u32(t.as_str()),
        None => None,
    };
    Some(
        GpuInfo {
            vendor: GpuVendor::Intel,
            name: String::from_str("Intel Integrated Graphics"),
            usage_percent: 0,
            memory_total_mb: 0,
            memory_used_mb: 0,
            temperature: 0,
            fan_speed_percent: None,
            core_clock_mhz,
            memory_clock_mhz: None,
            top_processes: Vec::new(),
        },
    )
}

/// One step of the probe cascade: `vendor` was just probed with `outcome`.
/// A device found ends the cascade with it; otherwise the next vendor in
/// the order NVIDIA, AMD, Intel is probed, and after Intel there is no GPU.
pub fn collect_gpu_info(vendor: GpuVendor, outcome: Option<GpuInfo>) -> (r: GpuProbeStep)
    ensures
        r == gpu_step(vendor, outcome),
{
    match outcome {
        Some(g) => GpuProbeStep::Finished(Some(g)),
        None => match vendor {
            GpuVendor::Nvidia => GpuProbeStep::Probe(GpuVendor::Amd),
            GpuVendor::Amd => GpuProbeStep::Probe(GpuVendor::Intel),
            GpuVendor::Intel => GpuProbeStep::Finished(None),
        },
    }
}

/// The outcome that probing `v` gives, when the NVIDIA, AMD and Intel
/// strategies give `n`, `a` and `i`.
pub open spec fn outcome_for(
    v: GpuVendor,
    n: Option<GpuInfo>,
    a: Option<GpuInfo>,
    i: Option<GpuInfo>,
) -> Option<GpuInfo> {
    match v {
        GpuVendor::Nvidia => n,
        GpuVendor::Amd => a,
        GpuVendor::Intel => i,
    }
}

/// What the cascade ends with, run from `v` for at most `steps` probes.
pub open spec fn cascade_from(
    v: GpuVendor,
    n: Option<GpuInfo>,
    a: Option<GpuInfo>,
    i: Option<GpuInfo>,
    steps: nat,
) -> Option<GpuInfo>
    decreases steps,
{
    if steps == 0 {
        None
    } else {
        match gpu_step(v, outcome_for(v, n, a, i)) {
            GpuProbeStep::Finished(g) => g,
            GpuProbeStep::Probe(w) => cascade_from(w, n, a, i, (steps - 1) as nat),
        }
    }
}

/// What the whole cascade, started at NVIDIA, ends with.
pub open spec fn cascade(n: Option<GpuInfo>, a: Option<GpuInfo>, i: Option<GpuInfo>) -> Option<GpuInfo> {
    cascade_from(GpuVendor::Nvidia, n, a, i, 3)
}

/// The cascade reports the device of the first strategy, in the order
/// NVIDIA, AMD, Intel, that found one, and nothing when none did. When each
/// strategy reports its own vendor, the GPU reported has the vendor of that
/// first strategy: AMD whenever NVIDIA found nothing and AMD found a device,
/// and Intel only when both found nothing.
pub proof fn lemma_cascade_order(n: Option<GpuInfo>, a: Option<GpuInfo>, i: Option<GpuInfo>)
    requires
        n is Some ==> n->Some_0.vendor == GpuVendor::Nvidia,
        a is Some ==> a->Some_0.vendor == GpuVendor::Amd,
        i is Some ==> i->Some_0.vendor == GpuVendor::Intel,
    ensures
        cascade(n, a, i) == (if n is Some {
            n
        } else if a is Some {
            a
        } else {
            i
        }),
        cascade(n, a, i) is Some ==> (cascade(n, a, i)->Some_0.vendor == GpuVendor::Nvidia
            <==> n is Some),
        cascade(n, a, i) is Some ==> (cascade(n, a, i)->Some_0.vendor == GpuVendor::Amd <==> (
        n is None && a is Some)),
        cascade(n, a, i) is Some ==> (cascade(n, a, i)->Some_0.vendor == GpuVendor::Intel <==> (
        n is None && a is None)),
{
    reveal_with_fuel(cascade_from, 4);
}

} // verus!
