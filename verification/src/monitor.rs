//! Telemetry snapshot value types and their derived quantities.
//!
//! Each snapshot is an immutable bundle of plain values describing one
//! telemetry domain at a point in time. Percentages are integers in
//! `[0, 100]`; load averages are carried in hundredths. The surrounding
//! application reads the operating system and hands the raw numbers to
//! the constructors here, which derive and bound the percentage fields.

use vstd::prelude::*;
use vstd::string::*;
use crate::search;

verus! {

/// Usage percentage of `used` out of `total`, as an integer in `[0, 100]`
/// when `used <= total`; a zero total yields zero.
pub open spec fn pct_spec(used: int, total: int) -> int {
    if total == 0 {
        0
    } else {
        used * 100 / total
    }
}

/// Integer usage percentage: `used * 100 / total`, or 0 when `total` is 0;
/// a quotient beyond `u64::MAX` (only possible when `used > total`) saturates.
pub fn usage_percent(used: u64, total: u64) -> (r: u64)
    ensures
        pct_spec(used as int, total as int) <= u64::MAX ==> r == pct_spec(
            used as int,
            total as int,
        ),
        pct_spec(used as int, total as int) > u64::MAX ==> r == u64::MAX,
        used <= total ==> r <= 100,
{
    if total == 0 {
        0
    } else {
        proof {
            lemma_pct_bound(used as int, total as int);
        }
        let q: u128 = ((used as u128) * 100) / (total as u128);
        if q > u64::MAX as u128 {
            u64::MAX
        } else {
            q as u64
        }
    }
}

/// The usage percentage is non-negative, and never exceeds 100 when
/// `used <= total`.
pub proof fn lemma_pct_bound(used: int, total: int)
    requires
        0 <= used,
        0 < total,
    ensures
        0 <= used * 100 / total,
        used <= total ==> used * 100 / total <= 100,
{
    assert(0 <= used * 100) by (nonlinear_arith)
        requires 0 <= used;
    assert(0 <= used * 100 / total) by (nonlinear_arith)
        requires 0 <= used * 100, 0 < total;
    if used <= total {
        assert(used * 100 <= total * 100) by (nonlinear_arith)
            requires used <= total;
        assert(used * 100 / total <= total * 100 / total) by (nonlinear_arith)
            requires used * 100 <= total * 100, 0 < total;
        assert(total * 100 / total == 100) by (nonlinear_arith)
            requires 0 < total;
    }
}

/// Addition on `u64` values that stops at `u64::MAX` instead of wrapping.
pub open spec fn sat_add_spec(a: int, b: int) -> int {
    if a + b > u64::MAX {
        u64::MAX as int
    } else {
        a + b
    }
}

/// `x` clamped from above to 100.
pub open spec fn clamp100_spec(x: int) -> int {
    if x > 100 {
        100
    } else {
        x
    }
}

/// Clamps a raw percentage reading to the valid range `[0, 100]`.
pub fn clamp100(x: u64) -> (r: u64)
    ensures
        r == clamp100_spec(x as int),
        r <= 100,
{
    if x > 100 {
        100
    } else {
        x
    }
}

/// One point-in-time reading of the host's processor and identity data.
/// All percentage fields are clamped to `[0, 100]` on construction;
/// load averages are in hundredths.
#[derive(Debug)]
pub struct CpuSnapshot {
    pub model: String,
    pub physical_cores: usize,
    pub logical_cores: usize,
    pub global_usage: u64,
    pub frequency: u64,
    pub per_core_usage: Vec<u64>,
    pub load_average: (u64, u64, u64),
    pub uptime: u64,
    pub os_name: String,
    pub hostname: String,
}

impl CpuSnapshot {
    /// All usage percentages lie in `[0, 100]`.
    pub open spec fn wf(self) -> bool {
        &&& self.global_usage <= 100
        &&& forall|i: int| 0 <= i < self.per_core_usage@.len() ==> self.per_core_usage@[i] <= 100
    }

    /// Builds a snapshot from raw readings, clamping every usage
    /// percentage to `[0, 100]`.
    #[allow(clippy::too_many_arguments)]
    pub fn compute(
        model: String,
        physical_cores: usize,
        logical_cores: usize,
        global_usage: u64,
        frequency: u64,
        per_core_usage: Vec<u64>,
        load_average: (u64, u64, u64),
        uptime: u64,
        os_name: String,
        hostname: String,
    ) -> (r: CpuSnapshot)
        ensures
            r.wf(),
            r.model == model,
            r.physical_cores == physical_cores,
            r.logical_cores == logical_cores,
            r.global_usage == clamp100_spec(global_usage as int),
            r.frequency == frequency,
            r.per_core_usage@.len() == per_core_usage@.len(),
            forall|i: int|
                0 <= i < per_core_usage@.len() ==> r.per_core_usage@[i] == clamp100_spec(
                    per_core_usage@[i] as int,
                ),
            r.load_average == load_average,
            r.uptime == uptime,
            r.os_name == os_name,
            r.hostname == hostname,
    {
        let mut cores: Vec<u64> = Vec::new();
        let mut i: usize = 0;
        while i < per_core_usage.len()
            invariant
                i <= per_core_usage@.len(),
                cores@.len() == i,
                forall|k: int|
                    0 <= k < i ==> cores@[k] == clamp100_spec(per_core_usage@[k] as int),
            decreases per_core_usage@.len() - i,
        {
            cores.push(clamp100(per_core_usage[i]));
            i = i + 1;
        }
        CpuSnapshot {
            model,
            physical_cores,
            logical_cores,
            global_usage: clamp100(global_usage),
            frequency,
            per_core_usage: cores,
            load_average,
            uptime,
            os_name,
            hostname,
        }
    }
}

/// One point-in-time reading of physical memory and swap, in bytes.
#[derive(Debug, Clone)]
pub struct MemorySnapshot {
    pub total: u64,
    pub used: u64,
    pub available: u64,
    pub usage_percent: u64,
    pub swap_total: u64,
    pub swap_used: u64,
    pub swap_usage_percent: u64,
}

impl MemorySnapshot {
    /// Used memory never exceeds the total, and the percentages are in range.
    pub open spec fn wf(self) -> bool {
        &&& self.used <= self.total
        &&& self.usage_percent <= 100
        &&& self.swap_used <= self.swap_total
        &&& self.swap_usage_percent <= 100
    }

    /// Derives the snapshot from raw totals: `used = total - available`,
    /// and both usage percentages by the integer percentage formula.
    pub fn compute(total: u64, available: u64, swap_total: u64, swap_used: u64) -> (r:
        MemorySnapshot)
        requires
            available <= total,
            swap_used <= swap_total,
        ensures
            r.wf(),
            r.total == total,
            r.available == available,
            r.used == total - available,
            r.usage_percent == pct_spec(total - available, total as int),
            r.swap_total == swap_total,
            r.swap_used == swap_used,
            r.swap_usage_percent == pct_spec(swap_used as int, swap_total as int),
    {
        let used = total - available;
        MemorySnapshot {
            total,
            used,
            available,
            usage_percent: usage_percent(used, total),
            swap_total,
            swap_used,
            swap_usage_percent: usage_percent(swap_used, swap_total),
        }
    }
}

/// Aggregate disk capacity over every partition, in bytes.
#[derive(Debug, Clone)]
pub struct DiskSnapshot {
    pub total: u64,
    pub used: u64,
    pub available: u64,
    pub usage_percent: u64,
}

/// One partition: identity strings plus capacity figures in bytes.
#[derive(Debug)]
pub struct DiskInfo {
    pub name: String,
    pub mount_point: String,
    pub fs_type: String,
    pub total: u64,
    pub used: u64,
    pub available: u64,
    pub usage_percent: u64,
    pub is_removable: bool,
}

impl DiskInfo {
    /// Used space never exceeds the total, and the percentage is in range.
    pub open spec fn wf(self) -> bool {
        &&& self.used <= self.total
        &&& self.usage_percent <= 100
    }

    /// Derives a partition record from its raw capacity readings:
    /// `used` saturates at zero when `available > total`.
    pub fn compute(
        name: String,
        mount_point: String,
        fs_type: String,
        total: u64,
        available: u64,
        is_removable: bool,
    ) -> (r: DiskInfo)
        ensures
            r.wf(),
            r.name == name,
            r.mount_point == mount_point,
            r.fs_type == fs_type,
            r.total == total,
            r.available == available,
            r.used == if available <= total { total - available } else { 0int },
            r.usage_percent == pct_spec(r.used as int, total as int),
    {
        let used = if available <= total {
            total - available
        } else {
            0
        };
        DiskInfo {
            name,
            mount_point,
            fs_type,
            total,
            used,
            available,
            usage_percent: usage_percent(used, total),
            is_removable,
        }
    }
}

/// Saturating sum of the `total` fields of a partition list.
pub open spec fn sum_disk_total(s: Seq<DiskInfo>) -> int
    decreases s.len(),
{
    if s.len() == 0 {
        0
    } else {
        sat_add_spec(sum_disk_total(s.drop_last()), s.last().total as int)
    }
}

/// Saturating sum of the `available` fields of a partition list.
pub open spec fn sum_disk_available(s: Seq<DiskInfo>) -> int
    decreases s.len(),
{
    if s.len() == 0 {
        0
    } else {
        sat_add_spec(sum_disk_available(s.drop_last()), s.last().available as int)
    }
}

impl DiskSnapshot {
    /// Used space never exceeds the total, and the percentage is in range.
    pub open spec fn wf(self) -> bool {
        &&& self.used <= self.total
        &&& self.usage_percent <= 100
    }

    /// Aggregates a partition list: capacity fields are saturating sums
    /// over the partitions, `used = total - available` saturating at zero,
    /// and the percentage follows the integer percentage formula.
    pub fn aggregate(disks: &Vec<DiskInfo>) -> (r: DiskSnapshot)
        ensures
            r.wf(),
            r.total == sum_disk_total(disks@),
            r.available == sum_disk_available(disks@),
            r.used == if r.available <= r.total { r.total - r.available } else { 0int },
            r.usage_percent == pct_spec(r.used as int, r.total as int),
    {
        let mut total: u64 = 0;
        let mut available: u64 = 0;
        let mut i: usize = 0;
        while i < disks.len()
            invariant
                i <= disks@.len(),
                total == sum_disk_total(disks@.take(i as int)),
                available == sum_disk_available(disks@.take(i as int)),
            decreases disks@.len() - i,
        {
            proof {
                assert(disks@.take(i + 1).drop_last() =~= disks@.take(i as int));
                assert(disks@.take(i + 1).last() == disks@[i as int]);
            }
            total = total.saturating_add(disks[i].total);
            available = available.saturating_add(disks[i].available);
            i = i + 1;
        }
        proof {
            assert(disks@.take(disks@.len() as int) =~= disks@);
        }
        let used = if available <= total {
            total - available
        } else {
            0
        };
        DiskSnapshot { total, used, available, usage_percent: usage_percent(used, total) }
    }
}

/// Cumulative and instantaneous counters of one network interface.
/// The rate fields are point-in-time deltas supplied by the reader,
/// not derived here.
#[derive(Debug)]
pub struct NetworkInterface {
    pub name: String,
    pub received: u64,
    pub transmitted: u64,
    pub rx_rate: u64,
    pub tx_rate: u64,
    pub packets_received: u64,
    pub packets_transmitted: u64,
    pub errors_received: u64,
    pub errors_transmitted: u64,
}

/// All interfaces plus saturating aggregate byte totals.
#[derive(Debug)]
pub struct NetworkSnapshot {
    pub interfaces: Vec<NetworkInterface>,
    pub total_rx: u64,
    pub total_tx: u64,
}

/// Saturating sum of the `received` fields of an interface list.
pub open spec fn sum_received(s: Seq<NetworkInterface>) -> int
    decreases s.len(),
{
    if s.len() == 0 {
        0
    } else {
        sat_add_spec(sum_received(s.drop_last()), s.last().received as int)
    }
}

/// Saturating sum of the `transmitted` fields of an interface list.
pub open spec fn sum_transmitted(s: Seq<NetworkInterface>) -> int
    decreases s.len(),
{
    if s.len() == 0 {
        0
    } else {
        sat_add_spec(sum_transmitted(s.drop_last()), s.last().transmitted as int)
    }
}

impl NetworkSnapshot {
    /// Aggregates an interface list; the byte totals are saturating sums
    /// of the per-interface cumulative counters.
    pub fn aggregate(interfaces: Vec<NetworkInterface>) -> (r: NetworkSnapshot)
        ensures
            r.interfaces@ == interfaces@,
            r.total_rx == sum_received(interfaces@),
            r.total_tx == sum_transmitted(interfaces@),
    {
        let mut total_rx: u64 = 0;
        let mut total_tx: u64 = 0;
        let mut i: usize = 0;
        while i < interfaces.len()
            invariant
                i <= interfaces@.len(),
                total_rx == sum_received(interfaces@.take(i as int)),
                total_tx == sum_transmitted(interfaces@.take(i as int)),
            decreases interfaces@.len() - i,
        {
            proof {
                assert(interfaces@.take(i + 1).drop_last() =~= interfaces@.take(i as int));
                assert(interfaces@.take(i + 1).last() == interfaces@[i as int]);
            }
            total_rx = total_rx.saturating_add(interfaces[i].received);
            total_tx = total_tx.saturating_add(interfaces[i].transmitted);
            i = i + 1;
        }
        proof {
            assert(interfaces@.take(interfaces@.len() as int) =~= interfaces@);
        }
        NetworkSnapshot { interfaces, total_rx, total_tx }
    }
}

/// Battery state; `is_present == false` is the valid terminal state on
/// hardware without a battery. Percentages are integers.
#[derive(Debug, Clone)]
pub struct BatteryInfo {
    pub is_present: bool,
    pub percentage: u64,
    pub is_charging: bool,
    pub is_plugged: bool,
    pub time_remaining: Option<u64>,
    pub health: u64,
    pub status: String,
    pub technology: String,
    pub vendor: String,
}

impl Default for BatteryInfo {
    /// The absent-battery record: nothing present, full health, every
    /// descriptive string `"Unknown"`.
    fn default() -> (r: BatteryInfo)
        ensures
            !r.is_present,
            r.percentage == 0,
            !r.is_charging,
            !r.is_plugged,
            r.time_remaining is None,
            r.health == 100,
            r.status@ == "Unknown"@,
            r.technology@ == "Unknown"@,
            r.vendor@ == "Unknown"@,
    {
        BatteryInfo {
            is_present: false,
            percentage: 0,
            is_charging: false,
            is_plugged: false,
            time_remaining: None,
            health: 100,
            status: String::from_str("Unknown"),
            technology: String::from_str("Unknown"),
            vendor: String::from_str("Unknown"),
        }
    }
}

/// Estimated seconds of battery left from instantaneous energy and power
/// readings: `energy * 3600 / power`, or nothing when no power is drawn.
/// A quotient beyond `u64::MAX` saturates.
pub fn battery_time_remaining(energy_now: u64, power_now: u64) -> (r: Option<u64>)
    ensures
        power_now == 0 <==> r is None,
        power_now > 0 ==> r == Some(
            if energy_now * 3600 / power_now as int <= u64::MAX {
                (energy_now * 3600 / power_now as int) as u64
            } else {
                u64::MAX
            },
        ),
{
    if power_now == 0 {
        None
    } else {
        let q: u128 = ((energy_now as u128) * 3600) / (power_now as u128);
        if q > u64::MAX as u128 {
            Some(u64::MAX)
        } else {
            Some(q as u64)
        }
    }
}

/// Battery health as the percentage of design capacity still reachable:
/// `full * 100 / design`, or 100 when the design capacity is unknown (zero).
pub fn battery_health(energy_full: u64, energy_design: u64) -> (r: u64)
    ensures
        energy_design == 0 ==> r == 100,
        energy_design > 0 ==> r == if pct_spec(energy_full as int, energy_design as int)
            <= u64::MAX {
            pct_spec(energy_full as int, energy_design as int)
        } else {
            u64::MAX as int
        },
        energy_full <= energy_design ==> r <= 100,
{
    if energy_design == 0 {
        100
    } else {
        usage_percent(energy_full, energy_design)
    }
}

/// The rendering of a battery time estimate in seconds: hours and
/// minutes when at least one hour remains, minutes alone otherwise.
pub open spec fn format_time_remaining_spec(s: int) -> Seq<char> {
    let hours = s / 3600;
    let minutes = (s % 3600) / 60;
    if hours > 0 {
        crate::utils::dec_str(hours) + seq!['h', ' '] + crate::utils::dec_str(minutes)
            + seq!['m']
    } else {
        crate::utils::dec_str(minutes) + seq!['m']
    }
}

/// Formats a battery time estimate, given in seconds, as hours and
/// minutes.
pub fn format_time_remaining(seconds: u64) -> (r: String)
    ensures
        r@ == format_time_remaining_spec(seconds as int),
{
    proof {
        reveal_strlit("h ");
        reveal_strlit("m");
    }
    let hours = seconds / 3600;
    let minutes = (seconds % 3600) / 60;
    let mut s: String;
    if hours > 0 {
        s = crate::utils::u64_to_string(hours);
        s.append("h ");
        let ms = crate::utils::u64_to_string(minutes);
        s.append(ms.as_str());
        s.append("m");
    } else {
        s = crate::utils::u64_to_string(minutes);
        s.append("m");
    }
    proof {
        assert("h "@ =~= seq!['h', ' ']);
        assert("m"@ =~= seq!['m']);
        assert(s@ =~= format_time_remaining_spec(seconds as int));
    }
    s
}

/// Battery glyph for a given charge level; a charging battery always
/// shows the plug.
pub fn get_battery_icon(percentage: u64, is_charging: bool) -> (r: &'static str)
    ensures
        is_charging ==> r@ == "\u{1F50C}"@,
        !is_charging && percentage >= 30 ==> r@ == "\u{1F50B}"@,
        !is_charging && percentage < 30 ==> r@ == "\u{1FAAB}"@,
{
    if is_charging {
        "\u{1F50C}"
    } else if percentage >= 30 {
        "\u{1F50B}"
    } else {
        "\u{1FAAB}"
    }
}

/// One live process: identity, ownership and resource figures.
/// `pid` is the process identity; percentages are integers in `[0, 100]`
/// when constructed through [`ProcessInfo::compute`].
#[derive(Debug)]
pub struct ProcessInfo {
    pub pid: u32,
    pub name: String,
    pub user: String,
    pub cpu_usage: u64,
    pub memory_usage: u64,
    pub disk_read: u64,
    pub disk_write: u64,
    pub threads: usize,
    pub status: String,
    pub start_time: u64,
    pub exe_path: String,
}

impl Clone for ProcessInfo {
    /// A clone carries exactly the fields of the original.
    fn clone(&self) -> (r: ProcessInfo)
        ensures
            r == *self,
    {
        ProcessInfo {
            pid: self.pid,
            name: self.name.clone(),
            user: self.user.clone(),
            cpu_usage: self.cpu_usage,
            memory_usage: self.memory_usage,
            disk_read: self.disk_read,
            disk_write: self.disk_write,
            threads: self.threads,
            status: self.status.clone(),
            start_time: self.start_time,
            exe_path: self.exe_path.clone(),
        }
    }
}

impl ProcessInfo {
    /// Builds a process record from raw readings. The CPU percentage is
    /// clamped to `[0, 100]`; the memory percentage is derived from the
    /// process's bytes against the system total by the integer
    /// percentage formula.
    #[allow(clippy::too_many_arguments)]
    pub fn compute(
        pid: u32,
        name: String,
        user: String,
        cpu_usage: u64,
        memory_bytes: u64,
        total_memory: u64,
        disk_read: u64,
        disk_write: u64,
        threads: usize,
        status: String,
        start_time: u64,
        exe_path: String,
    ) -> (r: ProcessInfo)
        requires
            memory_bytes <= total_memory,
        ensures
            r.pid == pid,
            r.name == name,
            r.user == user,
            r.cpu_usage == clamp100_spec(cpu_usage as int),
            r.memory_usage == pct_spec(memory_bytes as int, total_memory as int),
            r.memory_usage <= 100,
            r.disk_read == disk_read,
            r.disk_write == disk_write,
            r.threads == threads,
            r.status == status,
            r.start_time == start_time,
            r.exe_path == exe_path,
    {
        ProcessInfo {
            pid,
            name,
            user,
            cpu_usage: clamp100(cpu_usage),
            memory_usage: usage_percent(memory_bytes, total_memory),
            disk_read,
            disk_write,
            threads,
            status,
            start_time,
            exe_path,
        }
    }
}

/// The column a process listing is ordered by.
#[derive(Clone, Copy, Debug, PartialEq, Eq, Structural)]
pub enum SortKey {
    Cpu,
    Mem,
    Io,
}

/// The figure a process is ranked by under a sort key: its CPU
/// percentage, its memory percentage, or its combined (saturating) disk
/// traffic.
pub open spec fn sort_metric(p: ProcessInfo, key: SortKey) -> int {
    match key {
        SortKey::Cpu => p.cpu_usage as int,
        SortKey::Mem => p.memory_usage as int,
        SortKey::Io => sat_add_spec(p.disk_read as int, p.disk_write as int),
    }
}

/// The ranking figure of one process under a sort key.
pub fn process_metric(p: &ProcessInfo, key: SortKey) -> (r: u64)
    ensures
        r == sort_metric(*p, key),
{
    match key {
        SortKey::Cpu => p.cpu_usage,
        SortKey::Mem => p.memory_usage,
        SortKey::Io => p.disk_read.saturating_add(p.disk_write),
    }
}

/// The sort key named on the command line: `mem` and `io` select their
/// columns, anything else sorts by CPU.
pub open spec fn sort_key_spec(name: Seq<char>) -> SortKey {
    if name == "mem"@ {
        SortKey::Mem
    } else if name == "io"@ {
        SortKey::Io
    } else {
        SortKey::Cpu
    }
}

/// Parses a sort column name; unknown names fall back to CPU.
pub fn parse_sort_key(name: &str) -> (r: SortKey)
    ensures
        r == sort_key_spec(name@),
{
    if search::str_eq(name, "mem") {
        SortKey::Mem
    } else if search::str_eq(name, "io") {
        SortKey::Io
    } else {
        SortKey::Cpu
    }
}

/// Sorts a process list by the given key, highest figure first: the
/// result is a permutation of the input (the same processes, as a
/// multiset), ordered by descending metric.
pub fn sort_processes(processes: Vec<ProcessInfo>, key: SortKey) -> (r: Vec<ProcessInfo>)
    ensures
        r@.to_multiset() == processes@.to_multiset(),
        forall|i: int, j: int|
            0 <= i < j < r@.len() ==> sort_metric(r@[i], key) >= sort_metric(r@[j], key),
{
    let mut remaining = processes;
    let ghost orig = remaining@;
    let mut out: Vec<ProcessInfo> = Vec::new();
    proof {
        out@.to_multiset_ensures();
        assert(forall|a: ProcessInfo| !out@.contains(a));
        assert(out@.to_multiset().add(remaining@.to_multiset()) =~= remaining@.to_multiset());
    }
    while remaining.len() > 0
        invariant
            out@.to_multiset().add(remaining@.to_multiset()) =~= orig.to_multiset(),
            forall|i: int, j: int|
                0 <= i < j < out@.len() ==> sort_metric(out@[i], key) >= sort_metric(
                    out@[j],
                    key,
                ),
            forall|i: int, j: int|
                0 <= i < out@.len() && 0 <= j < remaining@.len() ==> sort_metric(out@[i], key)
                    >= sort_metric(remaining@[j], key),
        decreases remaining@.len(),
    {
        let mut best: usize = 0;
        let mut k: usize = 1;
        while k < remaining.len()
            invariant
                remaining@.len() > 0,
                best < k,
                k <= remaining@.len(),
                forall|j: int|
                    0 <= j < k ==> sort_metric(remaining@[best as int], key) >= sort_metric(
                        remaining@[j],
                        key,
                    ),
            decreases remaining@.len() - k,
        {
            if process_metric(&remaining[k], key) > process_metric(&remaining[best], key) {
                best = k;
            }
            k = k + 1;
        }
        let ghost before = remaining@;
        let ghost out_before = out@;
        let p = remaining.remove(best);
        out.push(p);
        proof {
            before.to_multiset_ensures();
            out_before.to_multiset_ensures();
            assert(before.remove(best as int).to_multiset() =~= before.to_multiset().remove(p));
            assert(out@.to_multiset() =~= out_before.to_multiset().insert(p));
            assert(before.contains(p));
            assert(before.to_multiset().count(p) > 0);
            assert(out@.to_multiset().add(remaining@.to_multiset()) =~= out_before.to_multiset().add(
                before.to_multiset(),
            ));
            assert(forall|j: int|
                0 <= j < remaining@.len() ==> sort_metric(p, key) >= sort_metric(
                    remaining@[j],
                    key,
                ));
        }
    }
    proof {
        remaining@.to_multiset_ensures();
        assert(forall|a: ProcessInfo| !remaining@.contains(a));
        assert(out@.to_multiset() =~= orig.to_multiset());
    }
    out
}

/// Those processes whose name contains `pattern` (ASCII case-insensitively),
/// in their original order; no pattern keeps every process.
pub open spec fn name_filtered(s: Seq<ProcessInfo>, pattern: Option<Seq<char>>) -> Seq<
    ProcessInfo,
> {
    match pattern {
        Option::None => s,
        Option::Some(p) => s.filter(|x: ProcessInfo| search::contains_ci_spec(x.name@, p)),
    }
}

/// Keeps the processes whose name matches `pattern` (ASCII
/// case-insensitively), preserving order; `None` keeps everything.
pub fn filter_process_list(processes: &Vec<ProcessInfo>, pattern: Option<&str>) -> (r: Vec<
    ProcessInfo,
>)
    ensures
        r@ == name_filtered(processes@, match pattern {
            Option::None => Option::None,
            Option::Some(p) => Option::Some(p@),
        }),
{
    match pattern {
        Option::None => {
            let mut out: Vec<ProcessInfo> = Vec::new();
            let mut i: usize = 0;
            while i < processes.len()
                invariant
                    i <= processes@.len(),
                    out@.len() == i,
                    forall|k: int| 0 <= k < i ==> out@[k] == processes@[k],
                decreases processes@.len() - i,
            {
                out.push(processes[i].clone());
                i = i + 1;
            }
            proof {
                assert(out@ =~= processes@);
            }
            out
        },
        Option::Some(p) => {
            let mut out: Vec<ProcessInfo> = Vec::new();
            let mut i: usize = 0;
            while i < processes.len()
                invariant
                    i <= processes@.len(),
                    out@ == processes@.take(i as int).filter(
                        |x: ProcessInfo| search::contains_ci_spec(x.name@, p@),
                    ),
                decreases processes@.len() - i,
            {
                proof {
                    reveal(Seq::filter);
                    assert(processes@.take(i + 1).drop_last() =~= processes@.take(i as int));
                    assert(processes@.take(i + 1).last() == processes@[i as int]);
                }
                if search::contains_ci(processes[i].name.as_str(), p) {
                    out.push(processes[i].clone());
                }
                i = i + 1;
            }
            proof {
                assert(processes@.take(processes@.len() as int) =~= processes@);
            }
            out
        },
    }
}

} // verus!
