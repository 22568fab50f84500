//! The combined diff of a worktree: the changes to tracked files, then each
//! untracked file as a diff against the empty file.
//!
//! The diff is put together from the outputs of several git invocations. A
//! `DiffJob` says which invocation is next and takes its output; running git
//! is the caller's part.

use crate::text::concat;
use crate::worktree::tracked_diff_call;
use crate::worktree::untracked_diff_call;
use crate::worktree::untracked_list_call;
use crate::worktree::untracked_of;
use crate::worktree::untracked_paths;
use crate::worktree::null_device;
use crate::worktree::ExitTolerance;
use crate::worktree::GitCall;
use crate::worktree::GitCallView;
use vstd::prelude::*;
use vstd::string::*;

verus! {

/// How far a job has come.
#[derive(Debug, Clone, Copy, PartialEq, Eq, Structural)]
pub enum DiffStage {
    /// The changes to tracked files are asked for.
    Changes,
    /// The list of untracked files is asked for.
    Listing,
    /// The diff of one untracked file is asked for.
    NewFiles,
    /// The diff is complete.
    Done,
}

/// The mathematical form of a job: how far it has come, the diff so far, the
/// files listed and which of them is next.
pub struct DiffJobView {
    pub stage: DiffStage,
    pub windows: bool,
    pub combined: Seq<char>,
    pub paths: Seq<Seq<char>>,
    pub next: int,
}

/// The making of one combined diff.
#[derive(Debug, Clone, PartialEq, Eq)]
pub struct DiffJob {
    stage: DiffStage,
    windows: bool,
    combined: String,
    paths: Vec<String>,
    next: usize,
}

impl View for DiffJob {
    type V = DiffJobView;

    closed spec fn view(&self) -> DiffJobView {
        DiffJobView {
            stage: self.stage,
            windows: self.windows,
            combined: self.combined@,
            paths: self.paths.deep_view(),
            next: self.next as int,
        }
    }
}

/// The invocation of the tracked changes.
pub open spec fn tracked_call() -> GitCallView {
    GitCallView { args: seq!["diff"@, "--no-color"@], tolerance: ExitTolerance::DiffCodes }
}

/// The invocation of the list of untracked files.
pub open spec fn listing_call() -> GitCallView {
    GitCallView {
        args: seq!["ls-files"@, "--others"@, "--exclude-standard"@],
        tolerance: ExitTolerance::Strict,
    }
}

/// The invocation of the diff of one untracked file.
pub open spec fn untracked_call(windows: bool, path: Seq<char>) -> GitCallView {
    GitCallView {
        args: seq!["diff"@, "--no-color"@, "--no-index"@, "--"@, null_device(windows), path],
        tolerance: ExitTolerance::DiffCodes,
    }
}

impl DiffJobView {
    /// The job at its beginning.
    pub open spec fn initial(windows: bool) -> DiffJobView {
        DiffJobView {
            stage: DiffStage::Changes,
            windows,
            combined: Seq::empty(),
            paths: Seq::empty(),
            next: 0,
        }
    }

    /// What holds of every job: while untracked files are gone through, the
    /// next of them is one of the listed.
    pub open spec fn well_formed(self) -> bool {
        &&& 0 <= self.next <= self.paths.len()
        &&& self.stage is NewFiles ==> self.next < self.paths.len()
        &&& self.stage is Done ==> self.next == self.paths.len()
    }

    /// The invocation whose output the job waits for; none once it is done.
    pub open spec fn pending(self) -> Option<GitCallView> {
        match self.stage {
            DiffStage::Changes => Some(tracked_call()),
            DiffStage::Listing => Some(listing_call()),
            DiffStage::NewFiles => Some(untracked_call(self.windows, self.paths[self.next])),
            DiffStage::Done => None,
        }
    }

    /// The job after the pending invocation gave `output`.
    pub open spec fn after(self, output: Seq<char>) -> DiffJobView {
        match self.stage {
            DiffStage::Changes => DiffJobView {
                stage: DiffStage::Listing,
                combined: self.combined + output,
                ..self
            },
            DiffStage::Listing => {
                let paths = untracked_of(output);
                DiffJobView {
                    stage: if paths.len() == 0 {
                        DiffStage::Done
                    } else {
                        DiffStage::NewFiles
                    },
                    paths,
                    next: 0,
                    ..self
                }
            },
            DiffStage::NewFiles => DiffJobView {
                stage: if self.next + 1 == self.paths.len() {
                    DiffStage::Done
                } else {
                    DiffStage::NewFiles
                },
                combined: self.combined + output,
                next: self.next + 1,
                ..self
            },
            DiffStage::Done => self,
        }
    }

    /// The job after a run of outputs, one for each invocation in turn.
    pub open spec fn after_all(self, outputs: Seq<Seq<char>>) -> DiffJobView
        decreases outputs.len(),
    {
        if outputs.len() == 0 {
            self
        } else {
            self.after_all(outputs.drop_last()).after(outputs.last())
        }
    }
}

/// While the untracked files are gone through, the outputs are appended in
/// the order of the files.
pub proof fn lemma_untracked_run(job: DiffJobView, diffs: Seq<Seq<char>>)
    requires
        job.well_formed(),
        job.stage is NewFiles,
        diffs.len() <= job.paths.len() - job.next,
    ensures
        job.after_all(diffs).combined == job.combined + concat(diffs),
        job.after_all(diffs).paths == job.paths,
        job.after_all(diffs).windows == job.windows,
        job.after_all(diffs).next == job.next + diffs.len(),
        job.after_all(diffs).stage == if job.next + diffs.len() == job.paths.len() {
            DiffStage::Done
        } else {
            DiffStage::NewFiles
        },
    decreases diffs.len(),
{
    if diffs.len() == 0 {
        assert(job.combined + concat(diffs) =~= job.combined);
    } else {
        lemma_untracked_run(job, diffs.drop_last());
        assert(job.combined + concat(diffs.drop_last()) + diffs.last() =~= job.combined + concat(
            diffs,
        ));
    }
}

/// The outputs of a whole run followed through: first the tracked changes,
/// then the listing, then one diff for each listed file.
pub open spec fn run_outputs(changes: Seq<char>, listing: Seq<char>, diffs: Seq<Seq<char>>) -> Seq<
    Seq<char>,
> {
    seq![changes, listing] + diffs
}

/// A whole run ends with the changes changes followed by the diffs of the
/// untracked files, in the order in which the listing names them.
pub proof fn lemma_whole_run(
    windows: bool,
    changes: Seq<char>,
    listing: Seq<char>,
    diffs: Seq<Seq<char>>,
)
    requires
        diffs.len() == untracked_of(listing).len(),
    ensures
        DiffJobView::initial(windows).after_all(run_outputs(changes, listing, diffs)).stage
            is Done,
        DiffJobView::initial(windows).after_all(run_outputs(changes, listing, diffs)).combined
            == changes + concat(diffs),
{
    let start = DiffJobView::initial(windows);
    let head = seq![changes, listing];
    assert(head.drop_last() =~= seq![changes]);
    assert(seq![changes].drop_last() =~= Seq::<Seq<char>>::empty());
    assert(start.after_all(Seq::<Seq<char>>::empty()) == start);
    assert(start.after_all(seq![changes]) == start.after(changes));
    let listed = start.after_all(head);
    assert(listed == start.after(changes).after(listing));
    assert(Seq::<char>::empty() + changes =~= changes);
    lemma_after_all_append(start, head, diffs);
    if untracked_of(listing).len() == 0 {
        assert(diffs =~= Seq::<Seq<char>>::empty());
        assert(listed.after_all(diffs) == listed);
        assert(changes + concat(diffs) =~= changes);
    } else {
        lemma_untracked_run(listed, diffs);
    }
}

/// Outputs can be followed through in two parts.
pub proof fn lemma_after_all_append(
    job: DiffJobView,
    first: Seq<Seq<char>>,
    second: Seq<Seq<char>>,
)
    ensures
        job.after_all(first + second) == job.after_all(first).after_all(second),
    decreases second.len(),
{
    if second.len() == 0 {
        assert(first + second =~= first);
    } else {
        lemma_after_all_append(job, first, second.drop_last());
        assert((first + second).drop_last() =~= first + second.drop_last());
        assert((first + second).last() == second.last());
    }
}

impl DiffJob {
    /// Begins a job. `windows` tells which name the empty file has.
    pub fn start(windows: bool) -> (job: DiffJob)
        ensures
            job@ == DiffJobView::initial(windows),
            job@.well_formed(),
    {
        let job = DiffJob {
            stage: DiffStage::Changes,
            windows,
            combined: String::new(),
            paths: Vec::new(),
            next: 0,
        };
        assert(job.paths.deep_view() =~= Seq::<Seq<char>>::empty());
        job
    }

    /// The invocation to run next; none once the diff is complete.
    pub fn next_call(&self) -> (call: Option<GitCall>)
        requires
            self@.well_formed(),
        ensures
            call.deep_view() == self@.pending(),
    {
        match self.stage {
            DiffStage::Changes => Some(tracked_diff_call()),
            DiffStage::Listing => Some(untracked_list_call()),
            DiffStage::NewFiles => Some(
                untracked_diff_call(self.windows, self.paths[self.next].as_str()),
            ),
            DiffStage::Done => None,
        }
    }

    /// Takes the output of the invocation that was next.
    pub fn advance(self, output: &str) -> (job: DiffJob)
        requires
            self@.well_formed(),
        ensures
            job@ == self@.after(output@),
            job@.well_formed(),
    {
        match self.stage {
            DiffStage::Changes => {
                let mut combined = self.combined;
                combined.append(output);
                DiffJob {
                    stage: DiffStage::Listing,
                    windows: self.windows,
                    combined,
                    paths: self.paths,
                    next: self.next,
                }
            },
            DiffStage::Listing => {
                let paths = untracked_paths(output);
                let stage = if paths.len() == 0 {
                    DiffStage::Done
                } else {
                    DiffStage::NewFiles
                };
                DiffJob { stage, windows: self.windows, combined: self.combined, paths, next: 0 }
            },
            DiffStage::NewFiles => {
                assert(self.paths.deep_view().len() == self.paths.len());
                let mut combined = self.combined;
                combined.append(output);
                let next = self.next + 1;
                let stage = if next == self.paths.len() {
                    DiffStage::Done
                } else {
                    DiffStage::NewFiles
                };
                DiffJob { stage, windows: self.windows, combined, paths: self.paths, next }
            },
            DiffStage::Done => self,
        }
    }

    /// The combined diff, once it is complete.
    pub fn finish(self) -> (diff: Option<String>)
        ensures
            diff is Some <==> self@.stage is Done,
            diff matches Some(text) ==> text@ == self@.combined,
    {
        match self.stage {
            DiffStage::Done => Some(self.combined),
            _ => None,
        }
    }
}

} // verus!
