use system_monitor::gpu::{
    collect_amd_gpu, collect_gpu_info, fan_percent_of, collect_intel_gpu, collect_nvidia_gpu, AmdSample, GpuInfo,
    GpuMemorySample, GpuProbeStep, GpuProcessSample, GpuVendor, IntelSample, NvidiaSample,
};

fn amd_sample() -> AmdSample {
    AmdSample {
        device_present: true,
        product_name: Some("  Radeon RX 6800 \n".to_string()),
        sclk_table: Some("0: 500Mhz\n1: 2105Mhz *\n".to_string()),
        temp_input: Some("52000\n".to_string()),
        fan_input: Some("1500\n".to_string()),
    }
}

fn nvidia_sample(processes: usize) -> NvidiaSample {
    let mut ps = Vec::new();
    for i in 0..processes {
        ps.push(GpuProcessSample {
            pid: 100 + i as u32,
            name: if i == 0 { None } else { Some(format!("proc{}", i)) },
            used_memory_bytes: (i as u64 + 1) * 1048576 * 3 + 17,
        });
    }
    NvidiaSample {
        name: Some("GeForce RTX 4090".to_string()),
        utilization_percent: Some(37),
        memory: Some(GpuMemorySample { total_bytes: 25769803776, used_bytes: 1073741824 + 5 }),
        temperature: Some(61),
        fan_speed_percent: Some(30),
        graphics_clock_mhz: Some(2520),
        memory_clock_mhz: Some(10501),
        graphics_processes: Some(ps),
    }
}

/// Runs the cascade with the given per-vendor outcomes, recording the probes.
fn run_cascade(
    mut nvidia: Option<GpuInfo>,
    mut amd: Option<GpuInfo>,
    mut intel: Option<GpuInfo>,
) -> (Option<GpuInfo>, Vec<GpuVendor>) {
    let mut probed = Vec::new();
    let mut vendor = GpuVendor::first();
    loop {
        probed.push(vendor);
        let outcome = match vendor {
            GpuVendor::Nvidia => nvidia.take(),
            GpuVendor::Amd => amd.take(),
            GpuVendor::Intel => intel.take(),
        };
        match collect_gpu_info(vendor, outcome) {
            GpuProbeStep::Probe(v) => vendor = v,
            GpuProbeStep::Finished(g) => return (g, probed),
        }
    }
}

#[test]
fn amd_probe_reads_device_files() {
    let g = collect_amd_gpu(&amd_sample()).unwrap();
    assert_eq!(g.vendor, GpuVendor::Amd);
    assert_eq!(g.name, "Radeon RX 6800");
    assert_eq!(g.core_clock_mhz, Some(2105));
    assert_eq!(g.temperature, 52);
    assert_eq!(g.fan_speed_percent, Some(50));
    assert_eq!(g.usage_percent, 0);
    assert_eq!(g.memory_total_mb, 0);
    assert_eq!(g.memory_clock_mhz, None);
    assert!(g.top_processes.is_empty());
}

#[test]
fn amd_probe_defaults_for_unreadable_files() {
    let s = AmdSample {
        device_present: true,
        product_name: None,
        sclk_table: None,
        temp_input: Some("hot".to_string()),
        fan_input: None,
    };
    let g = collect_amd_gpu(&s).unwrap();
    assert_eq!(g.name, "AMD GPU");
    assert_eq!(g.core_clock_mhz, None);
    assert_eq!(g.temperature, 0);
    assert_eq!(g.fan_speed_percent, None);
}

#[test]
fn amd_probe_needs_device_directory() {
    let mut s = amd_sample();
    s.device_present = false;
    assert!(collect_amd_gpu(&s).is_none());
}

#[test]
fn fan_percent_is_capped() {
    assert_eq!(fan_percent_of(0), 0);
    assert_eq!(fan_percent_of(30), 1);
    assert_eq!(fan_percent_of(1500), 50);
    assert_eq!(fan_percent_of(3000), 100);
    assert_eq!(fan_percent_of(9000), 100);
    assert_eq!(fan_percent_of(u32::MAX), 100);
}

#[test]
fn intel_probe_needs_card_and_device() {
    let s = IntelSample { card_present: true, device_present: false, cur_freq_mhz: None };
    assert!(collect_intel_gpu(&s).is_none());
    let s = IntelSample {
        card_present: true,
        device_present: true,
        cur_freq_mhz: Some("1300\n".to_string()),
    };
    let g = collect_intel_gpu(&s).unwrap();
    assert_eq!(g.vendor, GpuVendor::Intel);
    assert_eq!(g.name, "Intel Integrated Graphics");
    assert_eq!(g.core_clock_mhz, Some(1300));
    assert_eq!(g.temperature, 0);
}

#[test]
fn nvidia_probe_converts_and_limits_processes() {
    let g = collect_nvidia_gpu(Some(nvidia_sample(7))).unwrap();
    assert_eq!(g.vendor, GpuVendor::Nvidia);
    assert_eq!(g.name, "GeForce RTX 4090");
    assert_eq!(g.usage_percent, 37);
    assert_eq!(g.memory_total_mb, 24576);
    assert_eq!(g.memory_used_mb, 1024);
    assert_eq!(g.temperature, 61);
    assert_eq!(g.fan_speed_percent, Some(30));
    assert_eq!(g.core_clock_mhz, Some(2520));
    assert_eq!(g.memory_clock_mhz, Some(10501));
    assert_eq!(g.top_processes.len(), 5);
    assert_eq!(g.top_processes[0].pid, 100);
    assert_eq!(g.top_processes[0].name, "unknown");
    assert_eq!(g.top_processes[0].memory_mb, 3);
    assert_eq!(g.top_processes[4].name, "proc4");
    assert_eq!(g.top_processes[4].memory_mb, 15);
}

#[test]
fn nvidia_probe_defaults_and_failures() {
    assert!(collect_nvidia_gpu(None).is_none());
    let mut s = nvidia_sample(0);
    s.memory = None;
    assert!(collect_nvidia_gpu(Some(s)).is_none());
    let mut s = nvidia_sample(2);
    s.name = None;
    s.utilization_percent = None;
    s.temperature = None;
    s.graphics_processes = None;
    let g = collect_nvidia_gpu(Some(s)).unwrap();
    assert_eq!(g.name, "Unknown GPU");
    assert_eq!(g.usage_percent, 0);
    assert_eq!(g.temperature, 0);
    assert!(g.top_processes.is_empty());
}

#[test]
fn cascade_falls_through_to_amd_when_nvidia_fails() {
    let amd = collect_amd_gpu(&amd_sample());
    let intel = collect_intel_gpu(&IntelSample {
        card_present: true,
        device_present: true,
        cur_freq_mhz: None,
    });
    let (g, probed) = run_cascade(None, amd, intel);
    assert_eq!(g.unwrap().vendor, GpuVendor::Amd);
    assert_eq!(probed, vec![GpuVendor::Nvidia, GpuVendor::Amd]);
}

#[test]
fn cascade_stops_at_first_success() {
    let (g, probed) = run_cascade(collect_nvidia_gpu(Some(nvidia_sample(1))), collect_amd_gpu(&amd_sample()), None);
    assert_eq!(g.unwrap().vendor, GpuVendor::Nvidia);
    assert_eq!(probed, vec![GpuVendor::Nvidia]);
}

#[test]
fn cascade_reaches_intel_only_after_amd_fails() {
    let intel = collect_intel_gpu(&IntelSample {
        card_present: true,
        device_present: true,
        cur_freq_mhz: None,
    });
    let (g, probed) = run_cascade(None, None, intel);
    assert_eq!(g.unwrap().vendor, GpuVendor::Intel);
    assert_eq!(probed, vec![GpuVendor::Nvidia, GpuVendor::Amd, GpuVendor::Intel]);
    let (g, _) = run_cascade(None, None, None);
    assert!(g.is_none());
}

#[test]
fn cascade_step_decisions() {
    assert!(matches!(collect_gpu_info(GpuVendor::Nvidia, None), GpuProbeStep::Probe(GpuVendor::Amd)));
    assert!(matches!(collect_gpu_info(GpuVendor::Amd, None), GpuProbeStep::Probe(GpuVendor::Intel)));
    assert!(matches!(collect_gpu_info(GpuVendor::Intel, None), GpuProbeStep::Finished(None)));
}
