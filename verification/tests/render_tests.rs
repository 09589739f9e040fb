use unused_features_report::Report;
use unused_features_report::ReportDependencyEntry;
use unused_features_report::WorkspaceCrate;
use unused_features_report::collapsable_header;
use unused_features_report::dependencies_table;
use unused_features_report::dependency_html_table;
use unused_features_report::html_report;
use unused_features_report::join_comma;
use unused_features_report::render_report;
use unused_features_report::report_totals;
use unused_features_report::totals_overview_table;
use unused_features_report::usize_to_decimal;

fn entry(
    original: &[&str],
    removed: &[&str],
    unremoved: &[&str],
) -> ReportDependencyEntry {
    ReportDependencyEntry {
        original_features: original.iter().map(|s| s.to_string()).collect(),
        successfully_removed_features: removed.iter().map(|s| s.to_string()).collect(),
        unsuccessfully_removed_features: unremoved.iter().map(|s| s.to_string()).collect(),
    }
}

fn sample_report() -> Report {
    Report {
        workspace_crates: vec![
            (
                "core".to_string(),
                WorkspaceCrate {
                    full_path: "/ws/core".to_string(),
                    dependencies: vec![
                        ("serde".to_string(), entry(&["derive", "std"], &["derive"], &[])),
                        ("log".to_string(), entry(&["std"], &[], &["std"])),
                    ],
                },
            ),
            (
                "cli".to_string(),
                WorkspaceCrate {
                    full_path: "/ws/cli".to_string(),
                    dependencies: vec![
                        ("clap".to_string(), entry(&["derive", "env", "color"], &["env"], &[])),
                    ],
                },
            ),
            (
                "empty".to_string(),
                WorkspaceCrate { full_path: "/ws/empty".to_string(), dependencies: vec![] },
            ),
        ],
    }
}

#[test]
fn decimal_rendering() {
    assert_eq!(usize_to_decimal(0), "0");
    assert_eq!(usize_to_decimal(7), "7");
    assert_eq!(usize_to_decimal(10), "10");
    assert_eq!(usize_to_decimal(105), "105");
    assert_eq!(usize_to_decimal(987654321), "987654321");
    assert_eq!(usize_to_decimal(usize::MAX), usize::MAX.to_string());
}

#[test]
fn join_comma_orders_and_empties() {
    let items: Vec<String> = vec!["derive".to_string(), "std".to_string()];
    assert_eq!(join_comma(&items), "derive, std");
    let one: Vec<String> = vec!["alloc".to_string()];
    assert_eq!(join_comma(&one), "alloc");
    let none: Vec<String> = vec![];
    assert_eq!(join_comma(&none), "");
}

#[test]
fn dependency_row_matches_expected_markup() {
    let row = dependency_html_table(
        "serde".to_string(),
        entry(&["derive", "std"], &["derive"], &[]),
    );
    let expected = "
        <tr>
            <td>serde</td>
            <td>derive, std</td>
            <td>derive</td>
            <td></td>
        </tr>";
    assert_eq!(row, expected);
}

#[test]
fn empty_set_renders_as_empty_string() {
    let row = dependency_html_table("serde".to_string(), entry(&[], &[], &[]));
    assert!(row.contains("<td></td>"));
    assert!(!row.contains("none"));
    assert!(!row.contains("-"));
}

#[test]
fn totals_table_shows_counts_in_order() {
    let table = totals_overview_table(1, 2, 1);
    assert!(table.contains("<td>1</td>\n        <td>2</td>\n        <td>1</td>"));
    assert!(table.contains("<th>Total Crates</th>"));
    assert!(table.contains("<th>Total Features</th>"));
    assert!(table.contains("<th>Total Potential Removable Features</th>"));
}

#[test]
fn collapsable_header_wraps_name_path_and_table() {
    let section = collapsable_header(
        "TABLE".to_string(),
        "core".to_string(),
        "/ws/core".to_string(),
    );
    assert!(section.contains("<button type='button' class='collapsible'><h3>core</h3></button>"));
    assert!(section.contains("<i style='margin: 5px' class='styled-table'>/ws/core</i>"));
    let name_at = section.find("core").unwrap();
    let path_at = section.find("/ws/core").unwrap();
    let table_at = section.find("TABLE").unwrap();
    assert!(name_at < path_at && path_at < table_at);
}

#[test]
fn dependencies_table_wraps_rows() {
    let table = dependencies_table("ROWS".to_string());
    assert!(table.contains("<th>Dependency</th>"));
    assert!(table.contains("<th>Original</th>"));
    assert!(table.contains("<th>Potential Removable</th>"));
    assert!(table.contains("<th>Unremovable</th>"));
    assert!(table.contains("ROWS"));
}

#[test]
fn document_wraps_totals_then_body() {
    let doc = html_report("TOTALS".to_string(), "BODY".to_string());
    assert!(doc.contains("<title>Unused Feature Flag Finder Report</title>"));
    assert!(doc.contains("getElementsByClassName(\"collapsible\")"));
    let totals_at = doc.find("TOTALS").unwrap();
    let body_at = doc.find("BODY").unwrap();
    let script_at = doc.find("<script>").unwrap();
    assert!(totals_at < body_at && body_at < script_at);
}

#[test]
fn totals_count_crates_features_and_removable() {
    let report = sample_report();
    let (crates, features, removed) = report_totals(&report);
    assert_eq!(crates, 3);
    assert_eq!(features, 6);
    assert_eq!(removed, 2);
}

#[test]
fn crate_sections_and_rows_keep_stored_order() {
    let doc = render_report(&sample_report());
    let core_at = doc.find("<h3>core</h3>").unwrap();
    let cli_at = doc.find("<h3>cli</h3>").unwrap();
    let empty_at = doc.find("<h3>empty</h3>").unwrap();
    assert!(core_at < cli_at && cli_at < empty_at);
    let serde_at = doc.find("<td>serde</td>").unwrap();
    let log_at = doc.find("<td>log</td>").unwrap();
    let clap_at = doc.find("<td>clap</td>").unwrap();
    assert!(serde_at < log_at && log_at < clap_at);
}

#[test]
fn rendering_twice_is_byte_identical() {
    let report = sample_report();
    let first = render_report(&report);
    let second = render_report(&report);
    assert_eq!(first.as_bytes(), second.as_bytes());
}

#[test]
fn empty_report_renders_zero_totals_and_no_sections() {
    let doc = render_report(&Report { workspace_crates: vec![] });
    assert!(doc.contains("<td>0</td>\n        <td>0</td>\n        <td>0</td>"));
    assert!(!doc.contains("<button"));
    assert!(!doc.contains("<h3>"));
}

#[test]
fn crate_without_dependencies_still_gets_a_section() {
    let doc = render_report(&Report {
        workspace_crates: vec![(
            "bare".to_string(),
            WorkspaceCrate { full_path: "/ws/bare".to_string(), dependencies: vec![] },
        )],
    });
    assert!(doc.contains("<h3>bare</h3>"));
    assert!(doc.contains("<th>Dependency</th>"));
    assert_eq!(doc.matches("<td>").count(), 3);
}
