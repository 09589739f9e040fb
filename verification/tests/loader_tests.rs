use unused_features_report::LoadError;
use unused_features_report::Report;
use unused_features_report::load_report;
use unused_features_report::render_report;
use unused_features_report::report_totals;

fn load_ok(text: &str) -> Report {
    match load_report(text) {
        Ok(report) => report,
        Err(e) => panic!("expected a report, got {}", e.message()),
    }
}

#[test]
fn empty_object_is_an_empty_report() {
    let report = load_ok("{}");
    assert_eq!(report.workspace_crates.len(), 0);
    let report = load_ok("  { \t\r\n }  ");
    assert_eq!(report.workspace_crates.len(), 0);
}

#[test]
fn example_report_loads_and_totals_match() {
    let text = "{\"core\": {\"full_path\": \"/ws/core\", \"dependencies\": {
      \"serde\": {\"original_features\": [\"derive\",\"std\"],
                \"successfully_removed_features\": [\"derive\"],
                \"unsuccessfully_removed_features\": []}
    }}}";
    let report = load_ok(text);
    assert_eq!(report.workspace_crates.len(), 1);
    let (name, ws_crate) = &report.workspace_crates[0];
    assert_eq!(name, "core");
    assert_eq!(ws_crate.full_path, "/ws/core");
    assert_eq!(ws_crate.dependencies.len(), 1);
    let (dep_name, dep) = &ws_crate.dependencies[0];
    assert_eq!(dep_name, "serde");
    assert_eq!(dep.original_features, vec!["derive", "std"]);
    assert_eq!(dep.successfully_removed_features, vec!["derive"]);
    assert!(dep.unsuccessfully_removed_features.is_empty());
    let (crates, features, removed) = report_totals(&report);
    assert_eq!((crates, features, removed), (1, 2, 1));
    let doc = render_report(&report);
    assert!(doc.contains("<td>serde</td>"));
    assert!(doc.contains("<td>derive, std</td>"));
    assert!(doc.contains("<td>derive</td>"));
}

#[test]
fn crates_and_dependencies_keep_source_order() {
    let text = "{\"b\": {\"full_path\": \"/b\", \"dependencies\": {
        \"z\": {\"original_features\": [], \"successfully_removed_features\": [], \"unsuccessfully_removed_features\": []},
        \"a\": {\"original_features\": [], \"successfully_removed_features\": [], \"unsuccessfully_removed_features\": []}
    }},
    \"a\": {\"full_path\": \"/a\", \"dependencies\": {}}}";
    let report = load_ok(text);
    assert_eq!(report.workspace_crates[0].0, "b");
    assert_eq!(report.workspace_crates[1].0, "a");
    let deps = &report.workspace_crates[0].1.dependencies;
    assert_eq!(deps[0].0, "z");
    assert_eq!(deps[1].0, "a");
}

#[test]
fn schema_rejection_when_dependencies_is_a_string() {
    let text = "{\"core\": {\"full_path\": \"/ws/core\", \"dependencies\": \"nope\"}}";
    assert!(matches!(load_report(text), Err(LoadError::SchemaError)));
}

#[test]
fn parse_errors_on_malformed_json() {
    assert!(matches!(load_report(""), Err(LoadError::ParseError)));
    assert!(matches!(load_report("hello"), Err(LoadError::ParseError)));
    assert!(matches!(load_report("{"), Err(LoadError::ParseError)));
    assert!(matches!(load_report("{\"a\": }"), Err(LoadError::ParseError)));
    assert!(matches!(load_report("{\"a\": 01}"), Err(LoadError::ParseError)));
    assert!(matches!(load_report("{\"a\": tru}"), Err(LoadError::ParseError)));
    assert!(matches!(load_report("{} trailing"), Err(LoadError::ParseError)));
    assert!(matches!(load_report("{\"a\": \"unterminated}"), Err(LoadError::ParseError)));
}

#[test]
fn schema_errors_on_well_formed_but_wrong_shape() {
    assert!(matches!(load_report("[]"), Err(LoadError::SchemaError)));
    assert!(matches!(load_report("null"), Err(LoadError::SchemaError)));
    assert!(matches!(load_report("{\"a\": 5}"), Err(LoadError::SchemaError)));
    assert!(matches!(load_report("{\"a\": true}"), Err(LoadError::SchemaError)));
    assert!(matches!(load_report("{\"a\": -0.5e+3}"), Err(LoadError::SchemaError)));
    assert!(matches!(
        load_report("{\"core\": {\"full_path\": \"/x\"}}"),
        Err(LoadError::SchemaError)
    ));
    let swapped = "{\"core\": {\"dependencies\": {}, \"full_path\": \"/x\"}}";
    assert!(matches!(load_report(swapped), Err(LoadError::SchemaError)));
}

#[test]
fn duplicate_names_are_refused() {
    let dup_crate = "{\"core\": {\"full_path\": \"/a\", \"dependencies\": {}},
                     \"core\": {\"full_path\": \"/b\", \"dependencies\": {}}}";
    assert!(matches!(load_report(dup_crate), Err(LoadError::SchemaError)));
    let dup_dep = "{\"core\": {\"full_path\": \"/a\", \"dependencies\": {
        \"x\": {\"original_features\": [], \"successfully_removed_features\": [], \"unsuccessfully_removed_features\": []},
        \"x\": {\"original_features\": [], \"successfully_removed_features\": [], \"unsuccessfully_removed_features\": []}
    }}}";
    assert!(matches!(load_report(dup_dep), Err(LoadError::SchemaError)));
}

#[test]
fn string_escapes_are_decoded() {
    let text = "{\"c\\u0072ate\": {\"full_path\": \"a\\tb\\\\c\\\"d\\/e\\u0041\", \"dependencies\": {
        \"d\": {\"original_features\": [\"\\uD83D\\uDE00\", \"line\\nbreak\"],
               \"successfully_removed_features\": [],
               \"unsuccessfully_removed_features\": []}
    }}}";
    let report = load_ok(text);
    assert_eq!(report.workspace_crates[0].0, "crate");
    assert_eq!(report.workspace_crates[0].1.full_path, "a\tb\\c\"d/eA");
    let dep = &report.workspace_crates[0].1.dependencies[0].1;
    assert_eq!(dep.original_features[0], "\u{1F600}");
    assert_eq!(dep.original_features[1], "line\nbreak");
}

#[test]
fn lone_surrogate_escape_gives_no_report() {
    let text = "{\"c\": {\"full_path\": \"\\uD83D\", \"dependencies\": {}}}";
    assert!(matches!(load_report(text), Err(LoadError::SchemaError)));
}

#[test]
fn control_characters_must_be_escaped() {
    let text = "{\"a\nb\": {\"full_path\": \"/x\", \"dependencies\": {}}}";
    assert!(matches!(load_report(text), Err(LoadError::ParseError)));
}

#[test]
fn error_messages_name_the_failure() {
    assert_eq!(LoadError::IoError.message(), "the input file could not be read");
    assert_eq!(LoadError::ParseError.message(), "the input is not well-formed JSON");
    assert_eq!(
        LoadError::SchemaError.message(),
        "the input does not match the report shape"
    );
}

#[test]
fn loaded_report_renders_deterministically() {
    let text = "{\"core\": {\"full_path\": \"/ws/core\", \"dependencies\": {
        \"serde\": {\"original_features\": [\"derive\",\"std\"],
                  \"successfully_removed_features\": [\"derive\"],
                  \"unsuccessfully_removed_features\": []}
    }}}";
    let first = render_report(&load_ok(text));
    let second = render_report(&load_ok(text));
    assert_eq!(first, second);
}
