//! Snapshot derivations: percentages, aggregates, clamping, battery
//! figures, and the process-list name filter.

use systrix::monitor::{
    battery_health, battery_time_remaining, filter_process_list, get_battery_icon, parse_sort_key,
    sort_processes, usage_percent, BatteryInfo, CpuSnapshot, DiskInfo, DiskSnapshot,
    MemorySnapshot, NetworkInterface, NetworkSnapshot, ProcessInfo, SortKey,
};

fn iface(name: &str, received: u64, transmitted: u64) -> NetworkInterface {
    NetworkInterface {
        name: name.to_string(),
        received,
        transmitted,
        rx_rate: 0,
        tx_rate: 0,
        packets_received: 0,
        packets_transmitted: 0,
        errors_received: 0,
        errors_transmitted: 0,
    }
}

#[test]
fn test_usage_percent_formula() {
    assert_eq!(usage_percent(0, 0), 0);
    assert_eq!(usage_percent(5, 0), 0);
    assert_eq!(usage_percent(50, 200), 25);
    assert_eq!(usage_percent(200, 200), 100);
    assert_eq!(usage_percent(1, 3), 33);
}

#[test]
fn test_memory_snapshot_formula() {
    let m = MemorySnapshot::compute(1000, 250, 100, 50);
    assert_eq!(m.total, 1000);
    assert_eq!(m.available, 250);
    assert_eq!(m.used, 750);
    assert_eq!(m.usage_percent, 75);
    assert_eq!(m.swap_total, 100);
    assert_eq!(m.swap_used, 50);
    assert_eq!(m.swap_usage_percent, 50);
    assert!(m.used <= m.total);
}

#[test]
fn test_memory_snapshot_zero_total() {
    let m = MemorySnapshot::compute(0, 0, 0, 0);
    assert_eq!(m.usage_percent, 0);
    assert_eq!(m.swap_usage_percent, 0);
}

#[test]
fn test_disk_aggregate() {
    let disks = vec![
        DiskInfo::compute(
            "sda1".to_string(),
            "/".to_string(),
            "ext4".to_string(),
            1000,
            400,
            false,
        ),
        DiskInfo::compute(
            "sdb1".to_string(),
            "/data".to_string(),
            "ext4".to_string(),
            3000,
            600,
            true,
        ),
    ];
    assert_eq!(disks[0].used, 600);
    assert_eq!(disks[0].usage_percent, 60);
    assert!(disks[1].is_removable);
    let agg = DiskSnapshot::aggregate(&disks);
    assert_eq!(agg.total, 4000);
    assert_eq!(agg.available, 1000);
    assert_eq!(agg.used, 3000);
    assert_eq!(agg.usage_percent, 75);
}

#[test]
fn test_disk_aggregate_empty_and_zero() {
    let agg = DiskSnapshot::aggregate(&Vec::new());
    assert_eq!(agg.total, 0);
    assert_eq!(agg.used, 0);
    assert_eq!(agg.usage_percent, 0);
}

#[test]
fn test_cpu_snapshot_clamps_percentages() {
    let c = CpuSnapshot::compute(
        "m".to_string(),
        2,
        4,
        250,
        2400,
        vec![30, 150],
        (100, 50, 25),
        3600,
        "os".to_string(),
        "host".to_string(),
    );
    assert_eq!(c.global_usage, 100);
    assert_eq!(c.per_core_usage, vec![30, 100]);
    assert!(c.global_usage <= 100);
}

#[test]
fn test_process_memory_percent() {
    let p = ProcessInfo::compute(
        3,
        "vim".to_string(),
        "bob".to_string(),
        130,
        10,
        1000,
        0,
        0,
        1,
        "Run".to_string(),
        0,
        "/usr/bin/vim".to_string(),
    );
    assert_eq!(p.cpu_usage, 100);
    assert_eq!(p.memory_usage, 1);
}

#[test]
fn test_network_aggregate_saturates() {
    let snap = NetworkSnapshot::aggregate(vec![
        iface("eth0", 100, 40),
        iface("wlan0", 50, 10),
    ]);
    assert_eq!(snap.total_rx, 150);
    assert_eq!(snap.total_tx, 50);
    assert_eq!(snap.interfaces.len(), 2);

    let big = NetworkSnapshot::aggregate(vec![
        iface("a", u64::MAX, 0),
        iface("b", 10, 0),
    ]);
    assert_eq!(big.total_rx, u64::MAX);
}

#[test]
fn test_battery_defaults_and_derivations() {
    let b = BatteryInfo::default();
    assert!(!b.is_present);
    assert_eq!(b.percentage, 0);
    assert_eq!(b.health, 100);
    assert_eq!(b.status, "Unknown");
    assert_eq!(b.time_remaining, None);

    assert_eq!(battery_time_remaining(3600, 60), Some(216000));
    assert_eq!(battery_time_remaining(500, 0), None);
    assert_eq!(battery_health(80, 100), 80);
    assert_eq!(battery_health(5, 0), 100);

    assert_eq!(get_battery_icon(50, true), "\u{1F50C}");
    assert_eq!(get_battery_icon(50, false), "\u{1F50B}");
    assert_eq!(get_battery_icon(10, false), "\u{1FAAB}");
}

fn metered_proc(pid: u32, cpu: u64, mem: u64, io: u64) -> ProcessInfo {
    ProcessInfo {
        pid,
        name: format!("p{}", pid),
        user: "u".to_string(),
        cpu_usage: cpu,
        memory_usage: mem,
        disk_read: io,
        disk_write: 0,
        threads: 1,
        status: "Run".to_string(),
        start_time: 0,
        exe_path: String::new(),
    }
}

#[test]
fn test_parse_sort_key() {
    assert_eq!(parse_sort_key("cpu"), SortKey::Cpu);
    assert_eq!(parse_sort_key("mem"), SortKey::Mem);
    assert_eq!(parse_sort_key("io"), SortKey::Io);
    assert_eq!(parse_sort_key("bogus"), SortKey::Cpu);
}

#[test]
fn test_sort_processes_descending() {
    let procs = vec![
        metered_proc(1, 10, 50, 0),
        metered_proc(2, 90, 20, 5),
        metered_proc(3, 40, 80, 9),
    ];
    let by_cpu = sort_processes(procs.clone(), SortKey::Cpu);
    let cpu_pids: Vec<u32> = by_cpu.iter().map(|p| p.pid).collect();
    assert_eq!(cpu_pids, vec![2, 3, 1]);

    let by_mem = sort_processes(procs.clone(), SortKey::Mem);
    let mem_pids: Vec<u32> = by_mem.iter().map(|p| p.pid).collect();
    assert_eq!(mem_pids, vec![3, 1, 2]);

    let by_io = sort_processes(procs, SortKey::Io);
    let io_pids: Vec<u32> = by_io.iter().map(|p| p.pid).collect();
    assert_eq!(io_pids, vec![3, 2, 1]);
}

#[test]
fn test_filter_process_list_by_name() {
    let procs = vec![
        ProcessInfo::compute(
            1,
            "Vim".to_string(),
            "bob".to_string(),
            0,
            0,
            100,
            0,
            0,
            1,
            "Run".to_string(),
            0,
            String::new(),
        ),
        ProcessInfo::compute(
            2,
            "bash".to_string(),
            "vim".to_string(),
            0,
            0,
            100,
            0,
            0,
            1,
            "Run".to_string(),
            0,
            String::new(),
        ),
    ];
    let matched = filter_process_list(&procs, Some("VIM"));
    assert_eq!(matched.len(), 1);
    assert_eq!(matched[0].pid, 1);
    let all = filter_process_list(&procs, None);
    assert_eq!(all.len(), 2);
}
