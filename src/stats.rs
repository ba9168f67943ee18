//! The snapshot: every component's result merged into one record.
use crate::battery::{battery_info_of, collect_battery_info, BatteryInfo, BatterySample};
use crate::disk::{collect_disks, disk_info_of, DiskInfo, DiskSample};
use crate::gpu::GpuInfo;
use crate::netrate::{
    cap_u64, collect_network_advanced, interface_of, rates_since, total_received,
    total_transmitted, InterfaceCounters, NetworkAdvanced, NetworkRateTracker, RateBaseline,
};
use crate::process::{collect_process_info, sorted_by_usage, top_processes, ProcessInfo};
use crate::resources::{
    cpu_advanced, cpu_advanced_of, resource_block, resource_block_of, CoreSample, CpuAdvanced,
    LoadAverage, ResourceBlock,
};
use crate::sensors::{collect_hardware_sensors, scan_result, HardwareSensors, SensorEntry, SensorSelection};
use vstd::prelude::*;
use vstd::string::*;

verus! {

/// Everything read from the machine for one snapshot but the GPU, which
/// the probe cascade yields. The CPU cores are read after the settle wait.
pub struct MachineReadings {
    pub hostname: Option<String>,
    pub os_version: Option<String>,
    pub cores: Vec<CoreSample>,
    pub load: LoadAverage,
    pub memory_total_bytes: u64,
    pub memory_used_bytes: u64,
    pub processes: Vec<ProcessInfo>,
    pub disks: Vec<DiskSample>,
    pub interfaces: Vec<InterfaceCounters>,
    /// When the interface counters were read, in microseconds of a
    /// monotonic clock.
    pub now_micros: u64,
    pub sensors: Vec<SensorEntry>,
    /// The generic thermal zone's temperature file.
    pub thermal_zone: Option<String>,
    pub battery: Option<BatterySample>,
}

/// One normalized snapshot of the machine.
pub struct SystemStats {
    pub hostname: String,
    pub os_version: String,
    pub resources: ResourceBlock,
    pub cpu_advanced: CpuAdvanced,
    pub gpu: Option<GpuInfo>,
    pub processes: Vec<ProcessInfo>,
    pub disks: Vec<DiskInfo>,
    pub network_advanced: NetworkAdvanced,
    pub sensors: HardwareSensors,
    pub battery: Option<BatteryInfo>,
}

impl SystemStats {
    /// What holds of every snapshot: at most ten processes, highest CPU
    /// usage first.
    pub open spec fn wf(&self) -> bool {
        &&& self.processes@.len() <= 10
        &&& sorted_by_usage(self.processes@)
    }
}

pub open spec fn text_or_unknown(s: Option<String>) -> Seq<char> {
    match s {
        Some(t) => t@,
        None => "Unknown"@,
    }
}

/// `st` merges what was read in `m`, the GPU `gpu`, and the network rates
/// against the tracker's baseline `before`.
pub open spec fn stats_of(
    m: MachineReadings,
    gpu: Option<GpuInfo>,
    before: Option<RateBaseline>,
    sel: SensorSelection,
    st: SystemStats,
) -> bool {
    let rx = cap_u64(total_received(m.interfaces@)) as u64;
    let tx = cap_u64(total_transmitted(m.interfaces@)) as u64;
    &&& st.hostname@ == text_or_unknown(m.hostname)
    &&& st.os_version@ == text_or_unknown(m.os_version)
    &&& resource_block_of(m.cores@, m.memory_total_bytes, m.memory_used_bytes, st.resources)
    &&& cpu_advanced_of(m.cores@, m.load, st.cpu_advanced)
    &&& st.gpu == gpu
    &&& st.processes@ == top_processes(m.processes@)
    &&& st.disks@.len() == m.disks@.len()
    &&& forall|i: int| 0 <= i < m.disks@.len() ==> disk_info_of(m.disks@[i], #[trigger] st.disks@[i])
    &&& st.network_advanced.interfaces@.len() == m.interfaces@.len()
    &&& forall|i: int|
        0 <= i < m.interfaces@.len() ==> interface_of(
            m.interfaces@[i],
            #[trigger] st.network_advanced.interfaces@[i],
        )
    &&& (st.network_advanced.download_bits_per_sec, st.network_advanced.upload_bits_per_sec)
        == rates_since(before, rx, tx, m.now_micros)
    &&& st.sensors == scan_result(m.sensors@, m.thermal_zone, sel)
    &&& st.battery == match m.battery {
        Some(b) => Some(battery_info_of(b)),
        None => None,
    }
}

fn text_or_unknown_of(s: Option<String>) -> (r: String)
    ensures
        r@ == text_or_unknown(s),
{
    match s {
        Some(t) => t,
        None => String::from_str("Unknown"),
    }
}

/// Merges one collection's readings into a snapshot. The GPU comes from
/// the probe cascade; the network rates are taken against `tracker`, whose
/// baseline becomes this collection's counter totals.
pub fn assemble_stats(
    m: MachineReadings,
    gpu: Option<GpuInfo>,
    tracker: &mut NetworkRateTracker,
    sel: SensorSelection,
) -> (r: SystemStats)
    ensures
        stats_of(m, gpu, old(tracker).baseline, sel, r),
        r.wf(),
        final(tracker).baseline == Some(
            RateBaseline {
                received: cap_u64(total_received(m.interfaces@)) as u64,
                transmitted: cap_u64(total_transmitted(m.interfaces@)) as u64,
                at_micros: m.now_micros,
            },
        ),
{
    let resources = resource_block(&m.cores, m.memory_total_bytes, m.memory_used_bytes);
    let cpu = cpu_advanced(&m.cores, m.load);
    let network_advanced = collect_network_advanced(&m.interfaces, m.now_micros, tracker);
    let sensors = collect_hardware_sensors(&m.sensors, &m.thermal_zone, sel);
    let battery = collect_battery_info(m.battery);
    let processes = collect_process_info(m.processes);
    let disks = collect_disks(m.disks);
    SystemStats {
        hostname: text_or_unknown_of(m.hostname),
        os_version: text_or_unknown_of(m.os_version),
        resources,
        cpu_advanced: cpu,
        gpu,
        processes,
        disks,
        network_advanced,
        sensors,
        battery,
    }
}

} // verus!
