//! The in-memory shape of one analysis result: an ordered list of workspace
//! crates, each with an ordered list of dependencies and their feature sets.
//! Order is part of the data — the lists keep the order of the source
//! document, and the renderer walks them as they stand.
use vstd::prelude::*;

verus! {

/// One dependency of one workspace crate, as the feature analysis left it.
/// The three collections are feature-name sets; they are kept as lists so
/// that their stored order is preserved and rendering stays deterministic.
pub struct ReportDependencyEntry {
    /// Feature names the dependency declared before the analysis.
    pub original_features: Vec<String>,
    /// Feature names confirmed removable (the build still succeeds).
    pub successfully_removed_features: Vec<String>,
    /// Feature names whose removal broke the build.
    pub unsuccessfully_removed_features: Vec<String>,
}

/// Mathematical shape of a dependency entry: three sequences of strings.
pub ghost struct DepModel {
    pub original: Seq<Seq<char>>,
    pub removed: Seq<Seq<char>>,
    pub unremoved: Seq<Seq<char>>,
}

impl View for ReportDependencyEntry {
    type V = DepModel;

    open spec fn view(&self) -> DepModel {
        DepModel {
            original: self.original_features.deep_view(),
            removed: self.successfully_removed_features.deep_view(),
            unremoved: self.unsuccessfully_removed_features.deep_view(),
        }
    }
}

/// One crate of the analyzed workspace: its location on disk (display only)
/// and its dependencies, in the order the source document listed them.
pub struct WorkspaceCrate {
    /// Where the crate lived at analysis time; shown, never resolved.
    pub full_path: String,
    /// Dependency name paired with its entry, source order kept.
    pub dependencies: Vec<(String, ReportDependencyEntry)>,
}

/// Mathematical shape of a workspace crate.
pub ghost struct CrateModel {
    pub path: Seq<char>,
    pub deps: Seq<(Seq<char>, DepModel)>,
}

/// The mathematical shape of a stored dependency mapping: each name beside
/// the model of its entry, in stored order.
pub open spec fn spec_deps_view(v: Seq<(String, ReportDependencyEntry)>) -> Seq<
    (Seq<char>, DepModel),
> {
    Seq::new(v.len(), |i: int| (v[i].0@, v[i].1@))
}

impl View for WorkspaceCrate {
    type V = CrateModel;

    open spec fn view(&self) -> CrateModel {
        CrateModel { path: self.full_path@, deps: spec_deps_view(self.dependencies@) }
    }
}

/// The root of one analysis result: crate name paired with its entry,
/// source order kept.
pub struct Report {
    pub workspace_crates: Vec<(String, WorkspaceCrate)>,
}

/// The mathematical shape of the stored crate mapping: each name beside
/// the model of its crate, in stored order.
pub open spec fn spec_crates_view(v: Seq<(String, WorkspaceCrate)>) -> Seq<
    (Seq<char>, CrateModel),
> {
    Seq::new(v.len(), |i: int| (v[i].0@, v[i].1@))
}

impl View for Report {
    type V = Seq<(Seq<char>, CrateModel)>;

    open spec fn view(&self) -> Seq<(Seq<char>, CrateModel)> {
        spec_crates_view(self.workspace_crates@)
    }
}

/// Sum of `|original_features|` over a crate's dependencies.
pub open spec fn spec_crate_features(deps: Seq<(Seq<char>, DepModel)>) -> int
    decreases deps.len(),
{
    if deps.len() == 0 {
        0
    } else {
        spec_crate_features(deps.drop_last()) + deps.last().1.original.len()
    }
}

/// Sum of `|successfully_removed_features|` over a crate's dependencies.
pub open spec fn spec_crate_removed(deps: Seq<(Seq<char>, DepModel)>) -> int
    decreases deps.len(),
{
    if deps.len() == 0 {
        0
    } else {
        spec_crate_removed(deps.drop_last()) + deps.last().1.removed.len()
    }
}

/// Sum of `|original_features|` over every dependency of every crate.
pub open spec fn spec_total_features(crates: Seq<(Seq<char>, CrateModel)>) -> int
    decreases crates.len(),
{
    if crates.len() == 0 {
        0
    } else {
        spec_total_features(crates.drop_last()) + spec_crate_features(crates.last().1.deps)
    }
}

/// Sum of `|successfully_removed_features|` over every dependency of every crate.
pub open spec fn spec_total_removed(crates: Seq<(Seq<char>, CrateModel)>) -> int
    decreases crates.len(),
{
    if crates.len() == 0 {
        0
    } else {
        spec_total_removed(crates.drop_last()) + spec_crate_removed(crates.last().1.deps)
    }
}

pub proof fn lemma_crate_sums_nonneg(deps: Seq<(Seq<char>, DepModel)>)
    ensures
        spec_crate_features(deps) >= 0,
        spec_crate_removed(deps) >= 0,
    decreases deps.len(),
{
    if deps.len() > 0 {
        lemma_crate_sums_nonneg(deps.drop_last());
    }
}

pub proof fn lemma_total_sums_nonneg(crates: Seq<(Seq<char>, CrateModel)>)
    ensures
        spec_total_features(crates) >= 0,
        spec_total_removed(crates) >= 0,
    decreases crates.len(),
{
    if crates.len() > 0 {
        lemma_total_sums_nonneg(crates.drop_last());
        lemma_crate_sums_nonneg(crates.last().1.deps);
    }
}

/// A prefix of the dependency list never sums to more than the whole list.
pub proof fn lemma_crate_prefix_le(deps: Seq<(Seq<char>, DepModel)>, i: int)
    requires
        0 <= i <= deps.len(),
    ensures
        spec_crate_features(deps.take(i)) <= spec_crate_features(deps),
        spec_crate_removed(deps.take(i)) <= spec_crate_removed(deps),
    decreases deps.len() - i,
{
    if i == deps.len() {
        assert(deps.take(i) =~= deps);
    } else {
        lemma_crate_prefix_le(deps, i + 1);
        assert(deps.take(i + 1).drop_last() =~= deps.take(i));
        assert(deps.take(i + 1).last() == deps[i]);
    }
}

/// A prefix of the crate list never sums to more than the whole list.
pub proof fn lemma_total_prefix_le(crates: Seq<(Seq<char>, CrateModel)>, i: int)
    requires
        0 <= i <= crates.len(),
    ensures
        spec_total_features(crates.take(i)) <= spec_total_features(crates),
        spec_total_removed(crates.take(i)) <= spec_total_removed(crates),
    decreases crates.len() - i,
{
    if i == crates.len() {
        assert(crates.take(i) =~= crates);
    } else {
        lemma_total_prefix_le(crates, i + 1);
        lemma_crate_sums_nonneg(crates[i].1.deps);
        assert(crates.take(i + 1).drop_last() =~= crates.take(i));
        assert(crates.take(i + 1).last() == crates[i]);
    }
}

/// One pass over the report: how many crates it lists, how many features
/// its dependencies declared, and how many of those were found removable.
pub fn report_totals(report: &Report) -> (t: (usize, usize, usize))
    requires
        spec_total_features(report@) <= usize::MAX,
        spec_total_removed(report@) <= usize::MAX,
    ensures
        t.0 == report@.len(),
        t.1 == spec_total_features(report@),
        t.2 == spec_total_removed(report@),
{
    let ghost crates = report@;
    let mut total_features: usize = 0;
    let mut total_removed: usize = 0;
    let n = report.workspace_crates.len();
    for i in 0..n
        invariant
            n == crates.len(),
            crates == report@,
            spec_total_features(report@) <= usize::MAX,
            spec_total_removed(report@) <= usize::MAX,
            total_features == spec_total_features(crates.take(i as int)),
            total_removed == spec_total_removed(crates.take(i as int)),
    {
        let ghost deps = crates[i as int].1.deps;
        let entry = &report.workspace_crates[i].1;
        let m = entry.dependencies.len();
        let mut crate_features: usize = 0;
        let mut crate_removed: usize = 0;
        proof {
            lemma_total_prefix_le(crates, i + 1);
            lemma_total_sums_nonneg(crates.take(i as int));
            assert(crates.take(i as int + 1).drop_last() =~= crates.take(i as int));
            assert(crates.take(i as int + 1).last() == crates[i as int]);
        }
        for j in 0..m
            invariant
                m == deps.len(),
                deps == crates[i as int].1.deps,
                crates == report@,
                0 <= i < crates.len(),
                entry == &report.workspace_crates[i as int].1,
                spec_total_features(crates.take(i as int)) + spec_crate_features(deps)
                    <= usize::MAX,
                spec_total_removed(crates.take(i as int)) + spec_crate_removed(deps) <= usize::MAX,
                spec_total_features(crates.take(i as int)) >= 0,
                spec_total_removed(crates.take(i as int)) >= 0,
                crate_features == spec_crate_features(deps.take(j as int)),
                crate_removed == spec_crate_removed(deps.take(j as int)),
        {
            proof {
                lemma_crate_prefix_le(deps, j + 1);
                lemma_crate_sums_nonneg(deps.take(j as int));
                assert(deps.take(j as int + 1).drop_last() =~= deps.take(j as int));
                assert(deps.take(j as int + 1).last() == deps[j as int]);
                assert(deps[j as int].1 == entry.dependencies@[j as int].1@);
            }
            crate_features = crate_features + entry.dependencies[j].1.original_features.len();
            crate_removed = crate_removed + entry.dependencies[j].1.successfully_removed_features.len();
        }
        proof {
            assert(deps.take(m as int) =~= deps);
        }
        total_features = total_features + crate_features;
        total_removed = total_removed + crate_removed;
    }
    proof {
        assert(crates.take(n as int) =~= crates);
    }
    (n, total_features, total_removed)
}

} // verus!
