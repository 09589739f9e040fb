//! Builds a self-contained HTML report out of a feature-analysis result:
//! a tree of workspace crates, each with dependencies and the feature flags
//! that were found removable, unremovable, or left as-is.
//!
//! The pipeline has three stages, all verified here:
//! loading (JSON text to the in-memory `Report`), aggregation and rendering
//! (running totals and per-crate markup, in stored order), and assembly
//! (totals plus crate sections wrapped into one document).
use vstd::prelude::*;

mod json;
mod loader;
mod model;
mod numeral;
mod render;

pub use loader::LoadError;
pub use loader::load_report;
pub use model::CrateModel;
pub use model::DepModel;
pub use model::Report;
pub use model::ReportDependencyEntry;
pub use model::WorkspaceCrate;
pub use model::report_totals;
pub use numeral::usize_to_decimal;
pub use render::collapsable_header;
pub use render::dependencies_table;
pub use render::dependency_html_table;
pub use render::html_report;
pub use render::join_comma;
pub use render::render_report;
pub use render::totals_overview_table;

verus! {

/// The report-building command: where to read the analysis result,
/// where to write the document, and how loud to log. Argument parsing
/// and all file handling live with the caller; this crate only keeps
/// the command's plain data.
#[derive(Debug, Clone)]
pub struct ReportBuildingCommand {
    /// Path of the JSON analysis result to read.
    pub input_json_path: String,
    /// Path the finished document is written to; `None` asks the caller
    /// to place `report.html` next to the input file.
    pub output_report_path: Option<String>,
    /// Log level name (debug, info, warn, error, off); `None` means info.
    pub log_level: Option<String>,
}

impl Default for ReportBuildingCommand {
    /// An empty command: no input path, defaults everywhere else.
    fn default() -> (r: Self)
        ensures
            r.input_json_path@ == Seq::<char>::empty(),
            r.output_report_path is None,
            r.log_level is None,
    {
        ReportBuildingCommand {
            input_json_path: String::new(),
            output_report_path: None,
            log_level: None,
        }
    }
}

} // verus!
