//! Export formats and file naming. Writing the artifacts themselves is
//! the surrounding application's concern; the dashboard core only
//! chooses names and reports outcomes.

use vstd::prelude::*;
use vstd::string::*;
use crate::utils;

verus! {

/// The artifact formats an export can produce.
#[derive(Clone, Copy, Debug, PartialEq, Eq, Structural)]
pub enum ExportFormat {
    Csv,
    Json,
    Html,
}

/// The file extension of each export format.
pub open spec fn export_extension_spec(format: ExportFormat) -> Seq<char> {
    match format {
        ExportFormat::Csv => "csv"@,
        ExportFormat::Json => "json"@,
        ExportFormat::Html => "html"@,
    }
}

/// The file extension used for an export format.
pub fn export_extension(format: ExportFormat) -> (r: &'static str)
    ensures
        r@ == export_extension_spec(format),
{
    match format {
        ExportFormat::Csv => "csv",
        ExportFormat::Json => "json",
        ExportFormat::Html => "html",
    }
}

/// The default export file name for a timestamp string and format.
pub open spec fn default_filename_spec(timestamp: Seq<char>, format: ExportFormat) -> Seq<char> {
    "systrix_export_"@ + timestamp + "."@ + export_extension_spec(format)
}

/// Builds the default export file name,
/// `systrix_export_<timestamp>.<extension>`.
pub fn default_export_filename(timestamp: &str, format: ExportFormat) -> (r: String)
    ensures
        r@ == default_filename_spec(timestamp@, format),
{
    let mut s = String::from_str("systrix_export_");
    s.append(timestamp);
    s.append(".");
    s.append(export_extension(format));
    proof {
        assert(s@ =~= default_filename_spec(timestamp@, format));
    }
    s
}

} // verus!
