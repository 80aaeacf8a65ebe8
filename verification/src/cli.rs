//! The command-line surface as plain data, and the decisions the
//! commands make: the refresh-interval floor and export-format parsing.
//! Argument parsing itself and the commands' printing belong to the
//! surrounding application.

use vstd::prelude::*;
use crate::export::ExportFormat;
use crate::search;

verus! {

/// The parsed command line: which subcommand to run, if any.
pub struct Cli {
    pub command: Option<Commands>,
}

/// The subcommands the tool offers.
pub enum Commands {
    /// Display a system information summary.
    Info,
    /// List processes, sorted and optionally filtered by name.
    Ps { sort: String, filter: Option<String>, limit: usize },
    /// Kill a process, optionally forcing past the safety guard.
    Kill { pid: u32, signal: String, force: bool },
    /// Display network interfaces.
    Net,
    /// Display disk partitions and usage.
    Disk,
    /// Launch the interactive dashboard.
    Tui { refresh_interval: u64 },
    /// Export a system report to the given path.
    Report { output: String },
    /// Export system data in the given format.
    Export { format: String, output: Option<String>, processes: bool, process_limit: usize },
    /// Display version information.
    Version,
}

/// The lowest refresh interval the dashboard accepts, in milliseconds.
pub open spec fn refresh_floor() -> int {
    100
}

/// Clamps a configured refresh interval to the 100 ms floor; the floor
/// bounds acquisition overhead.
pub fn clamp_refresh_interval(ms: u64) -> (r: u64)
    ensures
        r == if ms < refresh_floor() {
            refresh_floor()
        } else {
            ms as int
        },
        r >= refresh_floor(),
{
    if ms < 100 {
        100
    } else {
        ms
    }
}

/// The export format named on the command line, compared ASCII
/// case-insensitively; only `csv` and `json` can be requested there.
pub open spec fn export_format_spec(name: Seq<char>) -> Option<ExportFormat> {
    if search::seq_ieq(name, "csv"@) {
        Some(ExportFormat::Csv)
    } else if search::seq_ieq(name, "json"@) {
        Some(ExportFormat::Json)
    } else {
        None
    }
}

/// Parses an export format name case-insensitively; an unknown name is
/// rejected.
pub fn parse_export_format(name: &str) -> (r: Option<ExportFormat>)
    ensures
        r == export_format_spec(name@),
{
    if search::eq_ignore_case(name, "csv") {
        Some(ExportFormat::Csv)
    } else if search::eq_ignore_case(name, "json") {
        Some(ExportFormat::Json)
    } else {
        None
    }
}

} // verus!
