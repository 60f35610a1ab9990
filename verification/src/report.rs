//! What a build run leaves behind: one result per application, the totals
//! and the exit code.

use crate::toolchain::AppKind;
use vstd::prelude::*;

verus! {

/// The outcome of one application's build.
#[derive(Debug, PartialEq, Eq)]
pub struct BuildResult {
    /// The label of the application.
    pub app: String,
    pub success: bool,
    pub kind: AppKind,
    /// The time the build took, in milliseconds; 0 where none was run.
    pub elapsed_ms: u64,
}

/// `BuildResult` over texts.
pub struct BuildResultView {
    pub app: Seq<char>,
    pub success: bool,
    pub kind: AppKind,
    pub elapsed_ms: u64,
}

impl View for BuildResult {
    type V = BuildResultView;

    open spec fn view(&self) -> BuildResultView {
        BuildResultView {
            app: self.app@,
            success: self.success,
            kind: self.kind,
            elapsed_ms: self.elapsed_ms,
        }
    }
}

/// The totals of a build run.
#[derive(Clone, Copy, Debug, PartialEq, Eq, Structural)]
pub struct Summary {
    pub total: usize,
    pub successful: usize,
    pub failed: usize,
}

/// The views of `results`.
pub open spec fn result_views(results: Seq<BuildResult>) -> Seq<BuildResultView> {
    results.map_values(|r: BuildResult| r@)
}

/// The number of successful results.
pub open spec fn successes(results: Seq<BuildResultView>) -> nat
    decreases results.len(),
{
    if results.len() == 0 {
        0
    } else {
        successes(results.drop_last()) + if results.last().success {
            1nat
        } else {
            0nat
        }
    }
}

/// Every result is a success.
pub open spec fn all_succeeded(results: Seq<BuildResultView>) -> bool {
    forall|i: int| 0 <= i < results.len() ==> (#[trigger] results[i]).success
}

/// The exit code of a run: 0 where every build succeeded, else 1.
pub open spec fn exit_code_of(results: Seq<BuildResultView>) -> i32 {
    if all_succeeded(results) {
        0
    } else {
        1
    }
}

/// There are no more successes than results.
pub proof fn lemma_successes_bounded(results: Seq<BuildResultView>)
    ensures
        successes(results) <= results.len(),
    decreases results.len(),
{
    if results.len() > 0 {
        lemma_successes_bounded(results.drop_last());
    }
}

/// Every build succeeded exactly where the successes are as many as the
/// results.
pub proof fn lemma_all_succeeded_counts(results: Seq<BuildResultView>)
    ensures
        all_succeeded(results) <==> successes(results) == results.len(),
    decreases results.len(),
{
    if results.len() > 0 {
        let before = results.drop_last();
        lemma_all_succeeded_counts(before);
        lemma_successes_bounded(before);
        if all_succeeded(results) {
            assert forall|i: int| 0 <= i < before.len() implies (#[trigger] before[i]).success by {
                assert(results[i].success);
            }
            assert(results.last() == results[results.len() - 1]);
        }
        if successes(results) == results.len() {
            assert(results.last().success);
            assert forall|i: int| 0 <= i < results.len() implies (#[trigger] results[i]).success by {
                if i < before.len() {
                    assert(before[i].success);
                }
            }
        }
    }
}

/// The exit code is 0 exactly where every build succeeded, and 1 as soon as
/// one did not.
pub proof fn lemma_exit_code(results: Seq<BuildResultView>)
    ensures
        exit_code_of(results) == 0 <==> all_succeeded(results),
        exit_code_of(results) == 1 <==> exists|i: int|
            0 <= i < results.len() && !(#[trigger] results[i]).success,
{
}

/// Counts the results and the successes among them.
pub fn summarize(results: &Vec<BuildResult>) -> (summary: Summary)
    ensures
        summary.total == results@.len(),
        summary.successful == successes(result_views(results@)),
        summary.failed == summary.total - summary.successful,
{
    let mut successful: usize = 0;
    let mut i: usize = 0;
    while i < results.len()
        invariant
            i <= results.len(),
            successful <= i,
            successful == successes(result_views(results@).take(i as int)),
        decreases results.len() - i,
    {
        proof {
            let after = result_views(results@).take(i + 1);
            assert(after.drop_last() =~= result_views(results@).take(i as int));
            assert(after.last() == results@[i as int]@);
        }
        if results[i].success {
            successful += 1;
        }
        i += 1;
    }
    proof {
        assert(result_views(results@).take(results.len() as int) =~= result_views(results@));
    }
    Summary { total: results.len(), successful, failed: results.len() - successful }
}

/// The exit code of a run: 0 where every build succeeded, else 1.
pub fn exit_code(results: &Vec<BuildResult>) -> (code: i32)
    ensures
        code == exit_code_of(result_views(results@)),
{
    let mut i: usize = 0;
    while i < results.len()
        invariant
            i <= results.len(),
            forall|j: int| 0 <= j < i ==> (#[trigger] result_views(results@)[j]).success,
        decreases results.len() - i,
    {
        if !results[i].success {
            proof {
                assert(!result_views(results@)[i as int].success);
            }
            return 1;
        }
        i += 1;
    }
    0
}

} // verus!
