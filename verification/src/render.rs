//! Aggregation and rendering: walks a `Report` crate-major and
//! dependency-minor, yielding the totals block, a collapsible section per
//! crate with a table of its dependency rows, and the finished document.
//!
//! Every fragment is pinned exactly by a spec function, so the output is a
//! pure function of the report's contents and their stored order. Names and
//! paths are spliced into the markup verbatim, without escaping; that keeps
//! the historical output shape and is a stated limitation, not an accident.
use vstd::prelude::*;

use crate::model::CrateModel;
use crate::model::DepModel;
use crate::model::Report;
use crate::model::ReportDependencyEntry;
use crate::model::WorkspaceCrate;
use crate::model::report_totals;
use crate::model::spec_total_features;
use crate::model::spec_total_removed;
use crate::numeral::spec_decimal;
use crate::numeral::usize_to_decimal;

verus! {

/// Markup ahead of the first totals cell.
pub const TOTALS_HEAD: &'static str = "
    <table class=\"styled-table\">
       <tr>
           <th>Total Crates</th>
           <th>Total Features</th>
           <th>Total Potential Removable Features</th>
       </tr>
       <tr>
        <td>";

/// Markup between two totals cells.
pub const TOTALS_MID: &'static str = "</td>
        <td>";

/// Markup after the last totals cell.
pub const TOTALS_TAIL: &'static str = "</td>
       </tr>
    </table>
       ";

/// Markup ahead of the crate name in a collapsible section.
pub const SECTION_HEAD: &'static str = "
        <button type='button' class='collapsible'><h3>";

/// Markup between the crate name and its path.
pub const SECTION_PATH: &'static str = "</h3></button>
        <div class='content'>
            <i style='margin: 5px' class='styled-table'>";

/// Markup between the path and the dependency table.
pub const SECTION_TABLE: &'static str = "</i>
            ";

/// Markup closing a collapsible section.
pub const SECTION_TAIL: &'static str = "
        </div>";

/// Markup ahead of the first cell of a dependency row.
pub const ROW_HEAD: &'static str = "
        <tr>
            <td>";

/// Markup between two cells of a dependency row.
pub const ROW_MID: &'static str = "</td>
            <td>";

/// Markup closing a dependency row.
pub const ROW_TAIL: &'static str = "</td>
        </tr>";

/// Header row of a crate's dependency table.
pub const TABLE_HEAD: &'static str = "
        <table class=\"styled-table\">
        <tr>
            <th>Dependency</th>
            <th>Original</th>
            <th>Potential Removable</th>
            <th>Unremovable</th>
        </tr>
        ";

/// Markup closing a crate's dependency table.
pub const TABLE_TAIL: &'static str = "
        </table>
       ";

/// Fixed document head: title and the embedded stylesheet.
pub const DOCUMENT_HEAD: &'static str = "
    <html>
        <head>
            <title>Unused Feature Flag Finder Report</title>

            <style>
                .styled-table {
                    border-collapse: collapse;
                    margin: 25px 0;
                    font-size: 0.9em;
                    font-family: sans-serif;
                    min-width: 400px;
                    box-shadow: 0 0 20px rgba(0, 0, 0, 0.15);
                }
                .styled-table thead tr {
                    background-color: #009879;
                    color: #ffffff;
                    text-align: left;
                }
                .styled-table th,
                .styled-table td {
                    text-align: left;
                    padding: 12px 15px;
                }
                .styled-table tbody tr {
                    border-bottom: 1px solid #dddddd;
                }
                .styled-table tbody tr:nth-of-type(even) {
                    background-color: #f3f3f3;
                }
                .styled-table tbody tr:last-of-type {
                    border-bottom: 2px solid #009879;
                }
                .collapsible {
                    background-color: #eee;
                    color: #444;
                    cursor: pointer;
                    padding: 10px;
                    width: 100%;
                    border: none;
                    text-align: left;
                    outline: none;
                    font-size: 15px;
                    font-family: sans-serif;
                }
                .active,
                .collapsible:hover {
                    background-color: #ccc;
                }
                .content {
                    padding: 10px 18px;
                    display: none;
                    overflow: hidden;
                    background-color: #f1f1f1;
                }
            </style>
        </head>

        <body>
            ";

/// Markup between the totals block and the crate sections.
pub const DOCUMENT_MID: &'static str = "
            ";

/// Fixed document trailer: the behavior block that lets each collapsible
/// section toggle its own content panel, independent of the others.
pub const DOCUMENT_TAIL: &'static str = "
        </body>

        </html>

        <script>
            var coll = document.getElementsByClassName(\"collapsible\");
            var i;

            for (i = 0; i < coll.length; i++) {
                coll[i].addEventListener(\"click\", function () {
                    this.classList.toggle(\"active\");
                    var content = this.nextElementSibling;
                    if (content.style.display === \"block\") {
                        content.style.display = \"none\";
                    } else {
                        content.style.display = \"block\";
                    }
                });
            }
        </script>
    </html>";

/// The items joined by a comma and a space, in the order given; an empty
/// list of items yields the empty string.
pub open spec fn spec_join_comma(items: Seq<Seq<char>>) -> Seq<char>
    decreases items.len(),
{
    if items.len() == 0 {
        Seq::empty()
    } else if items.len() == 1 {
        items[0]
    } else {
        spec_join_comma(items.drop_last()) + ", "@ + items.last()
    }
}

/// One table row for a dependency: its name, then its three feature sets,
/// each comma-joined in stored order.
pub open spec fn spec_dependency_row(name: Seq<char>, d: DepModel) -> Seq<char> {
    ROW_HEAD@ + name + ROW_MID@ + spec_join_comma(d.original) + ROW_MID@ + spec_join_comma(
        d.removed,
    ) + ROW_MID@ + spec_join_comma(d.unremoved) + ROW_TAIL@
}

/// The rows of a crate's dependencies, concatenated in stored order.
pub open spec fn spec_dependency_rows(deps: Seq<(Seq<char>, DepModel)>) -> Seq<char>
    decreases deps.len(),
{
    if deps.len() == 0 {
        Seq::empty()
    } else {
        spec_dependency_rows(deps.drop_last()) + spec_dependency_row(
            deps.last().0,
            deps.last().1,
        )
    }
}

/// A crate's dependency table around the given rows.
pub open spec fn spec_dependencies_table(rows: Seq<char>) -> Seq<char> {
    TABLE_HEAD@ + rows + TABLE_TAIL@
}

/// A collapsible section: the crate name as the header, then the crate's
/// path and the given table as the initially hidden content.
pub open spec fn spec_collapsable_header(
    table: Seq<char>,
    crate_name: Seq<char>,
    full_path: Seq<char>,
) -> Seq<char> {
    SECTION_HEAD@ + crate_name + SECTION_PATH@ + full_path + SECTION_TABLE@ + table
        + SECTION_TAIL@
}

/// The whole section of one crate: its name, path, and dependency table.
pub open spec fn spec_crate_section(name: Seq<char>, c: CrateModel) -> Seq<char> {
    spec_collapsable_header(spec_dependencies_table(spec_dependency_rows(c.deps)), name, c.path)
}

/// The sections of all crates, concatenated in stored order.
pub open spec fn spec_crate_sections(crates: Seq<(Seq<char>, CrateModel)>) -> Seq<char>
    decreases crates.len(),
{
    if crates.len() == 0 {
        Seq::empty()
    } else {
        spec_crate_sections(crates.drop_last()) + spec_crate_section(
            crates.last().0,
            crates.last().1,
        )
    }
}

/// The totals block, with the three counts rendered in decimal, in the
/// order the cells are handed over.
pub open spec fn spec_totals_overview_table(first: int, second: int, third: int) -> Seq<char> {
    TOTALS_HEAD@ + spec_decimal(first) + TOTALS_MID@ + spec_decimal(second) + TOTALS_MID@
        + spec_decimal(third) + TOTALS_TAIL@
}

/// The document around a totals block and a body of crate sections.
pub open spec fn spec_html_report(totals: Seq<char>, body: Seq<char>) -> Seq<char> {
    DOCUMENT_HEAD@ + totals + DOCUMENT_MID@ + body + DOCUMENT_TAIL@
}

/// The complete document of a report: the fixed frame around its totals
/// (crate count, feature count, removable count) and its crate sections.
pub open spec fn spec_document(crates: Seq<(Seq<char>, CrateModel)>) -> Seq<char> {
    spec_html_report(
        spec_totals_overview_table(
            crates.len() as int,
            spec_total_features(crates),
            spec_total_removed(crates),
        ),
        spec_crate_sections(crates),
    )
}

/// Splitting the crate list anywhere splits the rendered sections the same
/// way: sections are emitted crate by crate, in stored order.
pub proof fn lemma_sections_append(
    a: Seq<(Seq<char>, CrateModel)>,
    b: Seq<(Seq<char>, CrateModel)>,
)
    ensures
        spec_crate_sections(a + b) == spec_crate_sections(a) + spec_crate_sections(b),
    decreases b.len(),
{
    if b.len() == 0 {
        assert(a + b =~= a);
        assert(spec_crate_sections(a) + Seq::<char>::empty() =~= spec_crate_sections(a));
    } else {
        lemma_sections_append(a, b.drop_last());
        assert((a + b).drop_last() =~= a + b.drop_last());
        assert((a + b).last() == b.last());
        assert((spec_crate_sections(a) + spec_crate_sections(b.drop_last()))
            + spec_crate_section(b.last().0, b.last().1) =~= spec_crate_sections(a) + (
        spec_crate_sections(b.drop_last()) + spec_crate_section(b.last().0, b.last().1)));
    }
}

/// Splitting a dependency list anywhere splits the rendered rows the same
/// way: rows are emitted dependency by dependency, in stored order.
pub proof fn lemma_rows_append(a: Seq<(Seq<char>, DepModel)>, b: Seq<(Seq<char>, DepModel)>)
    ensures
        spec_dependency_rows(a + b) == spec_dependency_rows(a) + spec_dependency_rows(b),
    decreases b.len(),
{
    if b.len() == 0 {
        assert(a + b =~= a);
        assert(spec_dependency_rows(a) + Seq::<char>::empty() =~= spec_dependency_rows(a));
    } else {
        lemma_rows_append(a, b.drop_last());
        assert((a + b).drop_last() =~= a + b.drop_last());
        assert((a + b).last() == b.last());
        assert((spec_dependency_rows(a) + spec_dependency_rows(b.drop_last()))
            + spec_dependency_row(b.last().0, b.last().1) =~= spec_dependency_rows(a) + (
        spec_dependency_rows(b.drop_last()) + spec_dependency_row(b.last().0, b.last().1)));
    }
}

/// Order preservation: a report listing the crates [c1, c2, c3] renders its
/// body as the section of c1, then of c2, then of c3, in exactly that order;
/// and a crate with the dependencies [d1, d2] renders its rows as the row of
/// d1 followed by the row of d2.
pub proof fn lemma_order_preserved(
    c1: (Seq<char>, CrateModel),
    c2: (Seq<char>, CrateModel),
    c3: (Seq<char>, CrateModel),
    d1: (Seq<char>, DepModel),
    d2: (Seq<char>, DepModel),
)
    ensures
        spec_crate_sections(seq![c1, c2, c3]) == spec_crate_section(c1.0, c1.1)
            + spec_crate_section(c2.0, c2.1) + spec_crate_section(c3.0, c3.1),
        spec_dependency_rows(seq![d1, d2]) == spec_dependency_row(d1.0, d1.1)
            + spec_dependency_row(d2.0, d2.1),
{
    let s1 = spec_crate_section(c1.0, c1.1);
    let s2 = spec_crate_section(c2.0, c2.1);
    let s3 = spec_crate_section(c3.0, c3.1);
    assert(spec_crate_sections(Seq::<(Seq<char>, CrateModel)>::empty())
        == Seq::<char>::empty());
    assert(seq![c1].drop_last() =~= Seq::<(Seq<char>, CrateModel)>::empty());
    assert(seq![c1].last() == c1);
    assert(spec_crate_sections(seq![c1]) == Seq::<char>::empty() + s1);
    assert(Seq::<char>::empty() + s1 =~= s1);
    assert(seq![c1, c2].drop_last() =~= seq![c1]);
    assert(seq![c1, c2].last() == c2);
    assert(spec_crate_sections(seq![c1, c2]) == s1 + s2);
    assert(seq![c1, c2, c3].drop_last() =~= seq![c1, c2]);
    assert(seq![c1, c2, c3].last() == c3);
    assert(spec_crate_sections(seq![c1, c2, c3]) == (s1 + s2) + s3);
    let r1 = spec_dependency_row(d1.0, d1.1);
    let r2 = spec_dependency_row(d2.0, d2.1);
    assert(spec_dependency_rows(Seq::<(Seq<char>, DepModel)>::empty())
        == Seq::<char>::empty());
    assert(seq![d1].drop_last() =~= Seq::<(Seq<char>, DepModel)>::empty());
    assert(seq![d1].last() == d1);
    assert(spec_dependency_rows(seq![d1]) == Seq::<char>::empty() + r1);
    assert(Seq::<char>::empty() + r1 =~= r1);
    assert(seq![d1, d2].drop_last() =~= seq![d1]);
    assert(seq![d1, d2].last() == d2);
    assert(spec_dependency_rows(seq![d1, d2]) == r1 + r2);
}

/// A report with no crates renders as the fixed frame around a totals block
/// whose three counts are all zero, with no crate sections between the
/// totals and the trailer.
pub proof fn lemma_empty_report_document(crates: Seq<(Seq<char>, CrateModel)>)
    requires
        crates.len() == 0,
    ensures
        spec_document(crates) == spec_html_report(
            spec_totals_overview_table(0, 0, 0),
            Seq::<char>::empty(),
        ),
        spec_decimal(0) == "0"@,
{
}

/// An empty feature set renders as the empty string: the row of a dependency
/// whose unremovable set is empty closes its last cell with nothing in it,
/// no placeholder word.
pub proof fn lemma_empty_set_renders_empty(name: Seq<char>, d: DepModel)
    requires
        d.unremoved.len() == 0,
    ensures
        spec_join_comma(d.unremoved) == Seq::<char>::empty(),
        spec_dependency_row(name, d) == ROW_HEAD@ + name + ROW_MID@ + spec_join_comma(d.original)
            + ROW_MID@ + spec_join_comma(d.removed) + ROW_MID@ + ROW_TAIL@,
{
    let front = ROW_HEAD@ + name + ROW_MID@ + spec_join_comma(d.original) + ROW_MID@
        + spec_join_comma(d.removed) + ROW_MID@;
    assert(front + Seq::<char>::empty() =~= front);
}

/// Determinism: the rendered document is a pure function of the report, so
/// any two renderings of the same report are identical, character for
/// character.
pub proof fn lemma_render_deterministic(
    crates: Seq<(Seq<char>, CrateModel)>,
    a: Seq<char>,
    b: Seq<char>,
)
    requires
        a == spec_document(crates),
        b == spec_document(crates),
    ensures
        a == b,
{
}

/// Joins the items with ", " in stored order; empty input gives "".
pub fn join_comma(items: &Vec<String>) -> (r: String)
    ensures
        r@ == spec_join_comma(items.deep_view()),
{
    let ghost dv = items.deep_view();
    let mut r = String::new();
    let n = items.len();
    for j in 0..n
        invariant
            n == items@.len(),
            dv == items.deep_view(),
            r@ == spec_join_comma(dv.take(j as int)),
    {
        if j > 0 {
            r.append(", ");
        }
        r.append(items[j].as_str());
        proof {
            assert(dv[j as int] == items@[j as int]@);
            assert(dv.take(j as int + 1).drop_last() =~= dv.take(j as int));
            assert(dv.take(j as int + 1).last() == dv[j as int]);
            if j == 0 {
                assert(Seq::empty() + dv[0] =~= dv[0]);
                assert(r@ == spec_join_comma(dv.take(1)));
            }
        }
    }
    proof {
        assert(dv.take(n as int) =~= dv);
    }
    r
}

fn dependency_row(name: &str, dependency: &ReportDependencyEntry) -> (r: String)
    ensures
        r@ == spec_dependency_row(name@, dependency@),
{
    let original = join_comma(&dependency.original_features);
    let removed = join_comma(&dependency.successfully_removed_features);
    let unremoved = join_comma(&dependency.unsuccessfully_removed_features);
    let mut r = String::from_str(ROW_HEAD);
    r.append(name);
    r.append(ROW_MID);
    r.append(original.as_str());
    r.append(ROW_MID);
    r.append(removed.as_str());
    r.append(ROW_MID);
    r.append(unremoved.as_str());
    r.append(ROW_TAIL);
    r
}

/// One table row for a dependency: its name and its three feature sets,
/// comma-joined in stored order (an empty set becomes an empty cell).
pub fn dependency_html_table(crate_name: String, dependency: ReportDependencyEntry) -> (r: String)
    ensures
        r@ == spec_dependency_row(crate_name@, dependency@),
{
    dependency_row(crate_name.as_str(), &dependency)
}

/// Wraps already rendered dependency rows into a crate's table.
pub fn dependencies_table(dependency_rows: String) -> (r: String)
    ensures
        r@ == spec_dependencies_table(dependency_rows@),
{
    let mut r = String::from_str(TABLE_HEAD);
    r.append(dependency_rows.as_str());
    r.append(TABLE_TAIL);
    r
}

/// Wraps a rendered table into the collapsible section of one crate,
/// labeled with the crate's name and showing its path above the table.
pub fn collapsable_header(table: String, crate_name: String, full_path: String) -> (r: String)
    ensures
        r@ == spec_collapsable_header(table@, crate_name@, full_path@),
{
    let mut r = String::from_str(SECTION_HEAD);
    r.append(crate_name.as_str());
    r.append(SECTION_PATH);
    r.append(full_path.as_str());
    r.append(SECTION_TABLE);
    r.append(table.as_str());
    r.append(SECTION_TAIL);
    r
}

/// The totals block; the three cells show the arguments in the order
/// given, rendered in decimal.
pub fn totals_overview_table(
    total_features: usize,
    total_removed_features: usize,
    total_crates: usize,
) -> (r: String)
    ensures
        r@ == spec_totals_overview_table(
            total_features as int,
            total_removed_features as int,
            total_crates as int,
        ),
{
    let first = usize_to_decimal(total_features);
    let second = usize_to_decimal(total_removed_features);
    let third = usize_to_decimal(total_crates);
    let mut r = String::from_str(TOTALS_HEAD);
    r.append(first.as_str());
    r.append(TOTALS_MID);
    r.append(second.as_str());
    r.append(TOTALS_MID);
    r.append(third.as_str());
    r.append(TOTALS_TAIL);
    r
}

/// Assembles the document: fixed head (title, stylesheet), the totals
/// block, the crate sections, and the fixed trailer with the toggling
/// behavior. A pure function of its two fragments.
pub fn html_report(totals_overview_html: String, html_body: String) -> (r: String)
    ensures
        r@ == spec_html_report(totals_overview_html@, html_body@),
{
    let mut r = String::from_str(DOCUMENT_HEAD);
    r.append(totals_overview_html.as_str());
    r.append(DOCUMENT_MID);
    r.append(html_body.as_str());
    r.append(DOCUMENT_TAIL);
    r
}

fn crate_section(name: &str, entry: &WorkspaceCrate) -> (r: String)
    ensures
        r@ == spec_crate_section(name@, entry@),
{
    let ghost deps = entry@.deps;
    let mut rows = String::new();
    let m = entry.dependencies.len();
    for j in 0..m
        invariant
            m == entry.dependencies@.len(),
            deps == entry@.deps,
            rows@ == spec_dependency_rows(deps.take(j as int)),
    {
        let row = dependency_row(
            entry.dependencies[j].0.as_str(),
            &entry.dependencies[j].1,
        );
        rows.append(row.as_str());
        proof {
            assert(deps[j as int] == (entry.dependencies@[j as int].0@, entry.dependencies@[j as int].1@));
            assert(deps.take(j as int + 1).drop_last() =~= deps.take(j as int));
            assert(deps.take(j as int + 1).last() == deps[j as int]);
            if j == 0 {
                assert(Seq::empty() + spec_dependency_row(deps[0].0, deps[0].1) =~= spec_dependency_row(deps[0].0, deps[0].1));
            }
        }
    }
    proof {
        assert(deps.take(m as int) =~= deps);
    }
    let table = dependencies_table(rows);
    collapsable_header(table, String::from_str(name), String::from_str(entry.full_path.as_str()))
}

/// The whole pipeline after loading: totals, every crate section in stored
/// order, and assembly, exactly as `spec_document` states. The two bounds
/// only keep the running totals within machine range.
pub fn render_report(report: &Report) -> (html: String)
    requires
        spec_total_features(report@) <= usize::MAX,
        spec_total_removed(report@) <= usize::MAX,
    ensures
        html@ == spec_document(report@),
{
    let ghost crates = report@;
    let (total_crates, total_features, total_removed) = report_totals(report);
    let mut body = String::new();
    let n = report.workspace_crates.len();
    for i in 0..n
        invariant
            n == report.workspace_crates@.len(),
            crates == report@,
            body@ == spec_crate_sections(crates.take(i as int)),
    {
        let section = crate_section(
            report.workspace_crates[i].0.as_str(),
            &report.workspace_crates[i].1,
        );
        body.append(section.as_str());
        proof {
            assert(crates[i as int] == (report.workspace_crates@[i as int].0@, report.workspace_crates@[i as int].1@));
            assert(crates.take(i as int + 1).drop_last() =~= crates.take(i as int));
            assert(crates.take(i as int + 1).last() == crates[i as int]);
            if i == 0 {
                assert(Seq::empty() + spec_crate_section(crates[0].0, crates[0].1)
                    =~= spec_crate_section(crates[0].0, crates[0].1));
            }
        }
    }
    proof {
        assert(crates.take(n as int) =~= crates);
    }
    let totals = totals_overview_table(total_crates, total_features, total_removed);
    html_report(totals, body)
}

} // verus!
