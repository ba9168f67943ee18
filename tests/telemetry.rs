use std::sync::{Arc, Mutex};

use system_monitor::battery::{collect_battery_info, BatterySample, BatteryState};
use system_monitor::disk::{collect_disks, disk_info, DiskSample};
use system_monitor::measure::usage_hundredths;
use system_monitor::netrate::{collect_network_advanced, InterfaceCounters, NetworkRateTracker};
use system_monitor::process::{collect_process_info, ProcessInfo, ProcessStatus};
use system_monitor::resources::{cpu_advanced, mean_core_usage, resource_block, CoreSample, LoadAverage};
use system_monitor::sensors::{collect_hardware_sensors, SensorEntry, SensorSelection};
use system_monitor::stats::{assemble_stats, MachineReadings};

const GIB: u64 = 1024 * 1024 * 1024;

fn cpu_core(usage: u32, mhz: u64) -> CoreSample {
    CoreSample { usage, frequency_mhz: mhz, brand: "Ryzen 9 7950X".to_string() }
}

fn process(pid: u32, cpu: u32) -> ProcessInfo {
    ProcessInfo {
        pid,
        name: format!("p{}", pid),
        cpu_usage: cpu,
        memory_bytes: pid as u64 * 4096,
        status: ProcessStatus::Running,
    }
}

fn sensor(name: &str, temp: &str, fan: &str, volt: &str) -> SensorEntry {
    let opt = |s: &str| if s.is_empty() { None } else { Some(s.to_string()) };
    SensorEntry {
        name: Some(format!("{}\n", name)),
        temp_input: opt(temp),
        fan_input: opt(fan),
        voltage_input: opt(volt),
    }
}

#[test]
fn memory_half_used_is_fifty_percent() {
    let b = resource_block(&vec![cpu_core(1000, 3000)], 16 * GIB, 8 * GIB);
    assert_eq!(b.memory_usage_percent, 5000);
    assert_eq!(b.memory_usage_percent as f64 / 100.0, 50.0);
    assert_eq!(b.memory_total_bytes, 16 * GIB);
    assert_eq!(b.memory_used_bytes, 8 * GIB);
}

#[test]
fn usage_is_zero_for_zero_total() {
    assert_eq!(usage_hundredths(5, 0), 0);
    assert_eq!(usage_hundredths(1, 3), 3333);
    assert_eq!(usage_hundredths(3, 3), 10000);
    assert_eq!(usage_hundredths(u64::MAX, 1), u64::MAX);
}

#[test]
fn cpu_usage_is_mean_of_cores() {
    let cores = vec![cpu_core(1000, 4200), cpu_core(2000, 3000), cpu_core(3001, 3000)];
    assert_eq!(mean_core_usage(&cores), 2000);
    let b = resource_block(&cores, 0, 0);
    assert_eq!(b.cpu_usage, 2000);
    assert_eq!(b.cpu_count, 3);
    assert_eq!(b.cpu_name, "Ryzen 9 7950X");
    assert_eq!(b.memory_usage_percent, 0);
    let load = LoadAverage { one: 150, five: 120, fifteen: 99 };
    let a = cpu_advanced(&cores, load);
    assert_eq!(a.per_core_usage, vec![1000, 2000, 3001]);
    assert_eq!(a.cpu_frequency_mhz, 4200);
    assert_eq!((a.load_avg_1, a.load_avg_5, a.load_avg_15), (150, 120, 99));
}

#[test]
fn no_cores_gives_zero_usage() {
    assert_eq!(mean_core_usage(&vec![]), 0);
    let b = resource_block(&vec![], 0, 0);
    assert_eq!(b.cpu_usage, 0);
    assert_eq!(b.cpu_count, 0);
    assert_eq!(b.cpu_name, "Unknown");
    let a = cpu_advanced(&vec![], LoadAverage { one: 0, five: 0, fifteen: 0 });
    assert_eq!(a.cpu_frequency_mhz, 0);
    assert!(a.per_core_usage.is_empty());
}

#[test]
fn disk_usage_is_share_of_total() {
    let d = disk_info(DiskSample {
        name: "nvme0n1p2".to_string(),
        mount_point: "/".to_string(),
        total_bytes: 500 * GIB,
        available_bytes: 125 * GIB,
    });
    assert_eq!(d.used_bytes, 375 * GIB);
    assert_eq!(d.usage_percent, 7500);
    assert_eq!(d.name, "nvme0n1p2");
    assert_eq!(d.mount_point, "/");
    let ratio = d.used_bytes as f64 / d.total_bytes as f64 * 100.0;
    assert!((d.usage_percent as f64 / 100.0 - ratio).abs() < 0.01);
}

#[test]
fn disk_with_zero_total_has_zero_usage() {
    let ds = collect_disks(vec![
        DiskSample {
            name: "tmpfs".to_string(),
            mount_point: "/run".to_string(),
            total_bytes: 0,
            available_bytes: 0,
        },
        DiskSample {
            name: "odd".to_string(),
            mount_point: "/odd".to_string(),
            total_bytes: 10,
            available_bytes: 20,
        },
    ]);
    assert_eq!(ds.len(), 2);
    assert_eq!(ds[0].usage_percent, 0);
    assert_eq!(ds[1].used_bytes, 0);
    assert_eq!(ds[1].usage_percent, 0);
}

#[test]
fn processes_ranked_and_truncated() {
    let table: Vec<ProcessInfo> = (1..=15).map(|i| process(i, (i * 37 % 11) * 100)).collect();
    let ranked = collect_process_info(table);
    assert_eq!(ranked.len(), 10);
    for w in ranked.windows(2) {
        assert!(w[0].cpu_usage >= w[1].cpu_usage);
    }
    assert_eq!(ranked[0].cpu_usage, 1000);
}

#[test]
fn equal_usage_keeps_table_order() {
    let table = vec![process(5, 100), process(3, 300), process(9, 100), process(1, 300), process(2, 0)];
    let ranked = collect_process_info(table);
    let pids: Vec<u32> = ranked.iter().map(|p| p.pid).collect();
    assert_eq!(pids, vec![3, 1, 5, 9, 2]);
}

#[test]
fn small_table_is_only_reordered() {
    let table = vec![process(4, 0), process(8, 900), process(6, 450), process(2, 900)];
    let ranked = collect_process_info(table);
    let mut pids: Vec<u32> = ranked.iter().map(|p| p.pid).collect();
    assert_eq!(pids, vec![8, 2, 6, 4]);
    pids.sort();
    assert_eq!(pids, vec![2, 4, 6, 8]);
}

#[test]
fn empty_process_table() {
    assert!(collect_process_info(vec![]).is_empty());
}

#[test]
fn first_network_sample_reports_zero() {
    let mut t = NetworkRateTracker::new();
    assert_eq!(t.update(123456, 654321, 5_000_000), (0, 0));
}

#[test]
fn network_rate_from_baseline() {
    let mut t = NetworkRateTracker::new();
    assert_eq!(t.update(0, 0, 0), (0, 0));
    let (down, up) = t.update(1_000_000, 500_000, 1_000_000);
    assert_eq!((down, up), (8_000_000, 4_000_000));
    assert!((down as f64 / 1e6 - 8.0).abs() < 1e-9);
    assert!((up as f64 / 1e6 - 4.0).abs() < 1e-9);
}

#[test]
fn network_rate_without_elapsed_time_is_zero() {
    let mut t = NetworkRateTracker::new();
    t.update(0, 0, 7);
    assert_eq!(t.update(1_000, 1_000, 7), (0, 0));
    assert_eq!(t.baseline.unwrap().received, 1_000);
    assert_eq!(t.update(500, 2_000, 1_000_007), (0, 8_000));
}

#[test]
fn network_interfaces_and_totals() {
    let counters = vec![
        InterfaceCounters {
            name: "eth0".to_string(),
            received_bytes: 3 * 1048576 + 5,
            transmitted_bytes: 1048575,
        },
        InterfaceCounters { name: "wlan0".to_string(), received_bytes: 1048576, transmitted_bytes: 0 },
    ];
    let mut t = NetworkRateTracker::new();
    let n = collect_network_advanced(&counters, 10, &mut t);
    assert_eq!(n.interfaces.len(), 2);
    assert_eq!(n.interfaces[0].name, "eth0");
    assert_eq!(n.interfaces[0].received_mb, 3);
    assert_eq!(n.interfaces[0].transmitted_mb, 0);
    assert_eq!(n.interfaces[1].received_mb, 1);
    assert_eq!((n.download_bits_per_sec, n.upload_bits_per_sec), (0, 0));
    let b = t.baseline.unwrap();
    assert_eq!((b.received, b.transmitted, b.at_micros), (4 * 1048576 + 5, 1048575, 10));
}

#[test]
fn interleaved_collections_keep_baseline_whole() {
    let tracker = Arc::new(Mutex::new(NetworkRateTracker::new()));
    let callers: Vec<Arc<Mutex<NetworkRateTracker>>> = (0..8).map(|_| Arc::clone(&tracker)).collect();
    for step in 0..50u64 {
        for (k, caller) in callers.iter().enumerate() {
            let v = ((k as u64 * 7919 + step * 104729) % 1_000_003) * 1000;
            let counters = vec![InterfaceCounters {
                name: "eth0".to_string(),
                received_bytes: v,
                transmitted_bytes: u64::MAX - v,
            }];
            let mut guard = caller.lock().unwrap();
            let n = collect_network_advanced(&counters, v / 3, &mut guard);
            let b = guard.baseline.unwrap();
            assert_eq!((b.received, b.transmitted, b.at_micros), (v, u64::MAX - v, v / 3));
            assert!((n.download_bits_per_sec as f64).is_finite());
            assert!((n.upload_bits_per_sec as f64).is_finite());
        }
    }
}

#[test]
fn empty_sensor_registry_reports_nothing() {
    for sel in [SensorSelection::LastEnumerated, SensorSelection::FirstMatch] {
        let s = collect_hardware_sensors(&vec![], &None, sel);
        assert_eq!(s.cpu_temp_millicelsius, None);
        assert_eq!(s.motherboard_temp_millicelsius, None);
        assert_eq!(s.cpu_fan_rpm, None);
        assert_eq!(s.cpu_voltage_millivolts, None);
    }
}

#[test]
fn thermal_zone_stands_in_for_cpu_temperature() {
    let s = collect_hardware_sensors(&vec![], &Some("47500\n".to_string()), SensorSelection::LastEnumerated);
    assert_eq!(s.cpu_temp_millicelsius, Some(47500));
    let entries = vec![sensor("nvme", "39850", "", "")];
    let s = collect_hardware_sensors(&entries, &Some("41000".to_string()), SensorSelection::LastEnumerated);
    assert_eq!(s.cpu_temp_millicelsius, Some(41000));
}

#[test]
fn sensors_classified_by_name() {
    let entries = vec![
        sensor("acpitz", "27800", "", ""),
        sensor("coretemp", "55000", "1200", "1100"),
        sensor("nvme", "39850", "", "950"),
    ];
    let s = collect_hardware_sensors(&entries, &Some("99000".to_string()), SensorSelection::LastEnumerated);
    assert_eq!(s.cpu_temp_millicelsius, Some(55000));
    assert_eq!(s.motherboard_temp_millicelsius, Some(27800));
    assert_eq!(s.cpu_fan_rpm, None);
    assert_eq!(s.cpu_voltage_millivolts, Some(950));
    let s = collect_hardware_sensors(&entries, &None, SensorSelection::FirstMatch);
    assert_eq!(s.cpu_temp_millicelsius, Some(55000));
    assert_eq!(s.motherboard_temp_millicelsius, Some(27800));
    assert_eq!(s.cpu_fan_rpm, Some(1200));
    assert_eq!(s.cpu_voltage_millivolts, Some(1100));
}

#[test]
fn last_and_first_cpu_device_differ() {
    let entries = vec![
        sensor("k10temp", "61000", "900", ""),
        sensor("cpu_thermal", "58000", "", ""),
        sensor("mainboard", "30000", "", ""),
    ];
    let last = collect_hardware_sensors(&entries, &None, SensorSelection::LastEnumerated);
    assert_eq!(last.cpu_temp_millicelsius, Some(58000));
    assert_eq!(last.motherboard_temp_millicelsius, Some(30000));
    assert_eq!(last.cpu_fan_rpm, None);
    let first = collect_hardware_sensors(&entries, &None, SensorSelection::FirstMatch);
    assert_eq!(first.cpu_temp_millicelsius, Some(61000));
    assert_eq!(first.cpu_fan_rpm, Some(900));
}

#[test]
fn battery_time_only_while_discharging() {
    let mut b = BatterySample {
        state_of_charge: 8350,
        state_of_health: 9720,
        state: BatteryState::Discharging,
        time_to_empty_secs: Some(3659),
    };
    let i = collect_battery_info(Some(b)).unwrap();
    assert_eq!(i.percentage, 8350);
    assert_eq!(i.health_percent, 9720);
    assert!(!i.is_charging);
    assert_eq!(i.time_remaining_minutes, Some(60));
    b.state = BatteryState::Charging;
    let i = collect_battery_info(Some(b)).unwrap();
    assert!(i.is_charging);
    assert_eq!(i.time_remaining_minutes, None);
    b.state = BatteryState::Full;
    assert!(collect_battery_info(Some(b)).unwrap().is_charging);
    assert!(collect_battery_info(None).is_none());
}

#[test]
fn snapshot_merges_components() {
    let m = MachineReadings {
        hostname: None,
        os_version: Some("Linux 6.8".to_string()),
        cores: vec![cpu_core(5000, 3600), cpu_core(1000, 3600)],
        load: LoadAverage { one: 100, five: 50, fifteen: 25 },
        memory_total_bytes: 16 * GIB,
        memory_used_bytes: 4 * GIB,
        processes: (1..=12).map(|i| process(i, i * 10)).collect(),
        disks: vec![DiskSample {
            name: "sda1".to_string(),
            mount_point: "/".to_string(),
            total_bytes: 100,
            available_bytes: 40,
        }],
        interfaces: vec![InterfaceCounters {
            name: "eth0".to_string(),
            received_bytes: 2_000_000,
            transmitted_bytes: 1_000_000,
        }],
        now_micros: 2_000_000,
        sensors: vec![],
        thermal_zone: None,
        battery: None,
    };
    let mut tracker = NetworkRateTracker::new();
    tracker.update(1_000_000, 500_000, 1_000_000);
    let st = assemble_stats(m, None, &mut tracker, SensorSelection::LastEnumerated);
    assert_eq!(st.hostname, "Unknown");
    assert_eq!(st.os_version, "Linux 6.8");
    assert_eq!(st.resources.cpu_usage, 3000);
    assert_eq!(st.resources.memory_usage_percent, 2500);
    assert_eq!(st.processes.len(), 10);
    assert_eq!(st.processes[0].pid, 12);
    assert_eq!(st.disks[0].usage_percent, 6000);
    assert_eq!(st.network_advanced.download_bits_per_sec, 8_000_000);
    assert_eq!(st.network_advanced.upload_bits_per_sec, 4_000_000);
    assert!(st.gpu.is_none());
    assert!(st.battery.is_none());
    assert_eq!(st.sensors.cpu_temp_millicelsius, None);
}
