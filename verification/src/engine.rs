//! The synchronization engine.
//!
//! The engine never touches a repository itself. For each selected project it names the git
//! operation to perform next; the caller performs it and hands back what happened; the engine
//! then either names the following operation or closes the project with an outcome, a log line
//! and the completion fraction. Projects are worked through strictly one after the other.

use vstd::prelude::*;
use vstd::string::StringExecFns;
use crate::outcome::{MergeAnalysis, MergeClass, SyncOutcome, SyncOutcomeView};
use crate::project::{ProjectRecord, ProjectView, views_of};

verus! {

/// Name of the remote that every project is fetched from.
pub const REMOTE_NAME: &'static str = "origin";

/// Branch that is fetched and fast-forwarded unless the caller names another.
pub const DEFAULT_BRANCH: &'static str = "master";

/// Reference that records the most recently fetched commit.
pub const FETCH_HEAD: &'static str = "FETCH_HEAD";

/// Prefix of the full name of a local branch reference.
pub const BRANCH_REF_PREFIX: &'static str = "refs/heads/";

/// One git operation of the per-project sequence, in the order in which they are asked for.
#[derive(Debug, Clone, Copy, PartialEq, Eq, Structural)]
pub enum SyncStep {
    /// Open the repository at the project's path.
    OpenRepository,
    /// Look up the remote called [`REMOTE_NAME`].
    FindOrigin,
    /// Fetch the configured branch from that remote.
    FetchBranch,
    /// Read [`FETCH_HEAD`] and resolve it to a commit.
    ResolveFetchHead,
    /// Analyze how the current branch tip relates to the fetched commit.
    AnalyzeMerge,
    /// Move the local branch to the fetched commit, point the checkout at it and force the
    /// working directory to match.
    FastForward,
}

impl SyncStep {
    /// Position of the step in the sequence.
    pub open spec fn rank(self) -> nat {
        match self {
            SyncStep::OpenRepository => 0,
            SyncStep::FindOrigin => 1,
            SyncStep::FetchBranch => 2,
            SyncStep::ResolveFetchHead => 3,
            SyncStep::AnalyzeMerge => 4,
            SyncStep::FastForward => 5,
        }
    }

    /// The one step that changes a reference or the working directory.
    pub open spec fn mutates_repository(self) -> bool {
        self == SyncStep::FastForward
    }
}

/// What the caller reports after performing the requested step.
#[derive(Debug, PartialEq, Eq)]
pub enum GitReply {
    /// The operation succeeded.
    Done,
    /// The operation failed; the text is the underlying error.
    Failed(String),
    /// The merge analysis was computed.
    Analysis(MergeAnalysis),
}

/// Mathematical value of a [`GitReply`].
#[verifier::ext_equal]
pub enum GitReplyView {
    Done,
    Failed(Seq<char>),
    Analysis(MergeAnalysis),
}

impl GitReplyView {
    /// The reading of the analysis that the reply carries, if it carries one.
    pub open spec fn analysis_class(self) -> Option<MergeClass> {
        match self {
            GitReplyView::Analysis(analysis) => Some(analysis.class()),
            _ => None,
        }
    }
}

impl View for GitReply {
    type V = GitReplyView;

    open spec fn view(&self) -> GitReplyView {
        match self {
            GitReply::Done => GitReplyView::Done,
            GitReply::Failed(reason) => GitReplyView::Failed(reason@),
            GitReply::Analysis(analysis) => GitReplyView::Analysis(*analysis),
        }
    }
}

/// What a reply means for the project at hand.
#[derive(Debug, PartialEq, Eq)]
pub enum Verdict {
    /// The reply does not answer the pending step; nothing changes.
    Unanswered,
    /// The project goes on with the given step.
    Continue(SyncStep),
    /// The project is closed with the given outcome.
    Finished(SyncOutcome),
}

/// Mathematical value of a [`Verdict`].
#[verifier::ext_equal]
pub enum VerdictView {
    Unanswered,
    Continue(SyncStep),
    Finished(SyncOutcomeView),
}

impl View for Verdict {
    type V = VerdictView;

    open spec fn view(&self) -> VerdictView {
        match self {
            Verdict::Unanswered => VerdictView::Unanswered,
            Verdict::Continue(step) => VerdictView::Continue(*step),
            Verdict::Finished(outcome) => VerdictView::Finished(outcome@),
        }
    }
}

/// Tells whether `reply` is an answer to `step`. A failure answers every step. Success is
/// reported by [`GitReplyView::Analysis`] for a merge analysis, which has a result to hand
/// over, and by [`GitReplyView::Done`] for every other step.
pub open spec fn answers(step: SyncStep, reply: GitReplyView) -> bool {
    match reply {
        GitReplyView::Failed(_) => true,
        GitReplyView::Analysis(_) => step == SyncStep::AnalyzeMerge,
        GitReplyView::Done => step != SyncStep::AnalyzeMerge,
    }
}

/// The per-project rules. Every failure closes the project with an error outcome, so that no
/// failure ever holds up the batch. Opening, finding the remote and resolving `FETCH_HEAD`
/// have an outcome of their own. A fetch that fails gives `FetchFailed` with the error text;
/// so do a merge analysis that cannot be computed and a fast-forward that cannot be applied:
/// in all three the project did not get the remote update, and the text says why. An analysis
/// is read in the order up-to-date, fast-forward, diverged; only the second leads on to
/// [`SyncStep::FastForward`]. A reply that does not answer the pending step (see
/// [`answers`]) changes nothing.
pub open spec fn verdict(step: SyncStep, reply: GitReplyView) -> VerdictView {
    match step {
        SyncStep::OpenRepository => match reply {
            GitReplyView::Done => VerdictView::Continue(SyncStep::FindOrigin),
            GitReplyView::Failed(_) => VerdictView::Finished(SyncOutcomeView::RepositoryOpenFailed),
            GitReplyView::Analysis(_) => VerdictView::Unanswered,
        },
        SyncStep::FindOrigin => match reply {
            GitReplyView::Done => VerdictView::Continue(SyncStep::FetchBranch),
            GitReplyView::Failed(_) => VerdictView::Finished(SyncOutcomeView::RemoteMissing),
            GitReplyView::Analysis(_) => VerdictView::Unanswered,
        },
        SyncStep::FetchBranch => match reply {
            GitReplyView::Done => VerdictView::Continue(SyncStep::ResolveFetchHead),
            GitReplyView::Failed(reason) => VerdictView::Finished(
                SyncOutcomeView::FetchFailed(reason),
            ),
            GitReplyView::Analysis(_) => VerdictView::Unanswered,
        },
        SyncStep::ResolveFetchHead => match reply {
            GitReplyView::Done => VerdictView::Continue(SyncStep::AnalyzeMerge),
            GitReplyView::Failed(_) => VerdictView::Finished(SyncOutcomeView::CorruptFetchHead),
            GitReplyView::Analysis(_) => VerdictView::Unanswered,
        },
        SyncStep::AnalyzeMerge => match reply {
            GitReplyView::Analysis(analysis) => match analysis.class() {
                MergeClass::UpToDate => VerdictView::Finished(SyncOutcomeView::UpToDate),
                MergeClass::FastForward => VerdictView::Continue(SyncStep::FastForward),
                MergeClass::Diverged => VerdictView::Finished(
                    SyncOutcomeView::ConflictNeedsManualResolution,
                ),
            },
            GitReplyView::Failed(reason) => VerdictView::Finished(
                SyncOutcomeView::FetchFailed(reason),
            ),
            GitReplyView::Done => VerdictView::Unanswered,
        },
        SyncStep::FastForward => match reply {
            GitReplyView::Done => VerdictView::Finished(SyncOutcomeView::FastForwarded),
            GitReplyView::Failed(reason) => VerdictView::Finished(
                SyncOutcomeView::FetchFailed(reason),
            ),
            GitReplyView::Analysis(_) => VerdictView::Unanswered,
        },
    }
}

/// Applies the per-project rules to one reply.
pub fn decide(step: SyncStep, reply: GitReply) -> (result: Verdict)
    ensures
        result@ == verdict(step, reply@),
{
    match step {
        SyncStep::OpenRepository => match reply {
            GitReply::Done => Verdict::Continue(SyncStep::FindOrigin),
            GitReply::Failed(_) => Verdict::Finished(SyncOutcome::RepositoryOpenFailed),
            GitReply::Analysis(_) => Verdict::Unanswered,
        },
        SyncStep::FindOrigin => match reply {
            GitReply::Done => Verdict::Continue(SyncStep::FetchBranch),
            GitReply::Failed(_) => Verdict::Finished(SyncOutcome::RemoteMissing),
            GitReply::Analysis(_) => Verdict::Unanswered,
        },
        SyncStep::FetchBranch => match reply {
            GitReply::Done => Verdict::Continue(SyncStep::ResolveFetchHead),
            GitReply::Failed(reason) => Verdict::Finished(SyncOutcome::FetchFailed(reason)),
            GitReply::Analysis(_) => Verdict::Unanswered,
        },
        SyncStep::ResolveFetchHead => match reply {
            GitReply::Done => Verdict::Continue(SyncStep::AnalyzeMerge),
            GitReply::Failed(_) => Verdict::Finished(SyncOutcome::CorruptFetchHead),
            GitReply::Analysis(_) => Verdict::Unanswered,
        },
        SyncStep::AnalyzeMerge => match reply {
            GitReply::Analysis(analysis) => match analysis.classify() {
                MergeClass::UpToDate => Verdict::Finished(SyncOutcome::UpToDate),
                MergeClass::FastForward => Verdict::Continue(SyncStep::FastForward),
                MergeClass::Diverged => Verdict::Finished(
                    SyncOutcome::ConflictNeedsManualResolution,
                ),
            },
            GitReply::Failed(reason) => Verdict::Finished(SyncOutcome::FetchFailed(reason)),
            GitReply::Done => Verdict::Unanswered,
        },
        SyncStep::FastForward => match reply {
            GitReply::Done => Verdict::Finished(SyncOutcome::FastForwarded),
            GitReply::Failed(reason) => Verdict::Finished(SyncOutcome::FetchFailed(reason)),
            GitReply::Analysis(_) => Verdict::Unanswered,
        },
    }
}

/// Completion fraction `completed / total` of a batch, kept as its two whole numbers.
#[derive(Debug, Clone, Copy, PartialEq, Eq, Structural)]
pub struct Progress {
    pub completed: usize,
    pub total: usize,
}

/// Mathematical value of a [`Progress`].
pub struct ProgressView {
    pub completed: nat,
    pub total: nat,
}

impl View for Progress {
    type V = ProgressView;

    open spec fn view(&self) -> ProgressView {
        ProgressView { completed: self.completed as nat, total: self.total as nat }
    }
}

impl Progress {
    /// Tells whether the fraction has reached one.
    pub fn is_complete(&self) -> (complete: bool)
        ensures
            complete == (self.completed == self.total),
    {
        self.completed == self.total
    }
}

/// What the engine hands out when a project is closed.
#[derive(Debug, PartialEq, Eq)]
pub struct SyncReport {
    /// The project that was worked on.
    pub project: ProjectRecord,
    /// How the attempt ended.
    pub outcome: SyncOutcome,
    /// The log line that reports the outcome.
    pub line: String,
    /// Completion fraction of the batch once this project is counted.
    pub progress: Progress,
}

/// Mathematical value of a [`SyncReport`].
#[verifier::ext_equal]
pub struct SyncReportView {
    pub project: ProjectView,
    pub outcome: SyncOutcomeView,
    pub line: Seq<char>,
    pub progress: ProgressView,
}

impl View for SyncReport {
    type V = SyncReportView;

    open spec fn view(&self) -> SyncReportView {
        SyncReportView {
            project: self.project@,
            outcome: self.outcome@,
            line: self.line@,
            progress: self.progress@,
        }
    }
}

/// Mathematical value of a [`SyncRun`]: the selection, how many of its projects are closed,
/// the step that is pending for the next one, and the branch that is synchronized.
#[verifier::ext_equal]
pub struct SyncRunView {
    pub projects: Seq<ProjectView>,
    pub completed: nat,
    pub step: SyncStep,
    pub branch: Seq<char>,
}

impl SyncRunView {
    /// A fresh run over `projects`: nothing closed, the first project waits to be opened.
    pub open spec fn initial(projects: Seq<ProjectView>, branch: Seq<char>) -> SyncRunView {
        SyncRunView { projects, completed: 0, step: SyncStep::OpenRepository, branch }
    }

    /// No more projects are closed than were selected.
    pub open spec fn wf(self) -> bool {
        self.completed <= self.projects.len()
    }

    /// Every selected project is closed.
    pub open spec fn finished(self) -> bool {
        self.completed >= self.projects.len()
    }

    /// The step that the caller has to perform next; none once the run is finished.
    pub open spec fn pending(self) -> Option<SyncStep> {
        if self.finished() {
            None
        } else {
            Some(self.step)
        }
    }

    /// The project that the pending step is for; none once the run is finished.
    pub open spec fn current_project(self) -> Option<ProjectView> {
        if self.finished() {
            None
        } else {
            Some(self.projects[self.completed as int])
        }
    }

    /// The report that closes the current project with `outcome`.
    pub open spec fn report(self, outcome: SyncOutcomeView) -> SyncReportView {
        let project = self.projects[self.completed as int];
        SyncReportView {
            project,
            outcome,
            line: outcome.line(project),
            progress: ProgressView { completed: self.completed + 1, total: self.projects.len() },
        }
    }

    /// One transition of the batch. A finished run ignores every reply. Otherwise the reply is
    /// judged by [`verdict`]: the run stays as it is, moves the current project to its next
    /// step, or closes it with a report and turns to the next project, which starts over at
    /// [`SyncStep::OpenRepository`].
    pub open spec fn advance(self, reply: GitReplyView) -> (SyncRunView, Option<SyncReportView>) {
        if self.finished() {
            (self, None)
        } else {
            match verdict(self.step, reply) {
                VerdictView::Unanswered => (self, None),
                VerdictView::Continue(next) => (SyncRunView { step: next, ..self }, None),
                VerdictView::Finished(outcome) => (
                    SyncRunView {
                        completed: self.completed + 1,
                        step: SyncStep::OpenRepository,
                        ..self
                    },
                    Some(self.report(outcome)),
                ),
            }
        }
    }

    /// The run after a whole sequence of replies, and the reports handed out on the way.
    pub open spec fn replay(self, replies: Seq<GitReplyView>) -> (SyncRunView, Seq<SyncReportView>)
        decreases replies.len(),
    {
        if replies.len() == 0 {
            (self, Seq::empty())
        } else {
            let (before, reports) = self.replay(replies.drop_last());
            let (after, report) = before.advance(replies.last());
            match report {
                Some(r) => (after, reports.push(r)),
                None => (after, reports),
            }
        }
    }
}

/// Every answer moves the project on: a reply that answers the pending step, be it success,
/// failure or an analysis, either closes the project or leads on to the step that follows
/// the pending one. A failure always closes it. A reply that is no answer changes nothing.
/// Since there are six steps, a project is closed by its sixth answer at the latest.
pub proof fn every_answer_moves_on(step: SyncStep, reply: GitReplyView)
    ensures
        step.rank() <= 5,
        answers(step, reply) <==> !(verdict(step, reply) is Unanswered),
        reply is Failed ==> verdict(step, reply) is Finished,
        match verdict(step, reply) {
            VerdictView::Continue(next) => next.rank() == step.rank() + 1,
            _ => true,
        },
{
}

/// The engine asks for the one step that changes a repository only right after a merge
/// analysis that is not up to date and can be fast-forwarded, and it reports
/// `FastForwarded` only once that step has succeeded. An up-to-date analysis closes the
/// project as `UpToDate`, a diverged one as `ConflictNeedsManualResolution`, and neither
/// asks for a change. `FetchFailed` is the outcome of a failed fetch, a failed analysis and a
/// failed fast-forward, and of nothing else, and it carries the text of the failure.
pub proof fn repository_changes_only_on_fast_forward(step: SyncStep, reply: GitReplyView)
    ensures
        (verdict(step, reply) is Continue && verdict(step, reply)->Continue_0.mutates_repository())
            <==> (step == SyncStep::AnalyzeMerge && reply.analysis_class() == Some(
            MergeClass::FastForward,
        )),
        verdict(step, reply) == VerdictView::Finished(SyncOutcomeView::FastForwarded) <==> (step
            == SyncStep::FastForward && reply == GitReplyView::Done),
        verdict(step, reply) == VerdictView::Finished(SyncOutcomeView::UpToDate) <==> (step
            == SyncStep::AnalyzeMerge && reply.analysis_class() == Some(MergeClass::UpToDate)),
        verdict(step, reply) == VerdictView::Finished(
            SyncOutcomeView::ConflictNeedsManualResolution,
        ) <==> (step == SyncStep::AnalyzeMerge && reply.analysis_class() == Some(
            MergeClass::Diverged,
        )),
        forall|reason: Seq<char>|
            verdict(step, reply) == VerdictView::Finished(SyncOutcomeView::FetchFailed(reason))
                <==> (reply == GitReplyView::Failed(reason) && (step == SyncStep::FetchBranch
                || step == SyncStep::AnalyzeMerge || step == SyncStep::FastForward)),
{
}

/// Whatever the replies are, a run hands out its reports in selection order and counts them
/// up: the `k`-th report after `run` (from zero) is for the project at position
/// `run.completed + k`, carries the fraction `(run.completed + k + 1) / N`, where `N` is the
/// size of the selection, and its line is the one that belongs to its outcome. The selection
/// and the branch never change, and there is one report for each project that was closed.
pub proof fn reports_count_up(run: SyncRunView, replies: Seq<GitReplyView>)
    requires
        run.wf(),
    ensures
        ({
            let (end, reports) = run.replay(replies);
            &&& end.wf()
            &&& end.projects == run.projects
            &&& end.branch == run.branch
            &&& end.completed == run.completed + reports.len()
            &&& forall|k: int|
                0 <= k < reports.len() ==> {
                    &&& (#[trigger] reports[k]).project == run.projects[run.completed + k]
                    &&& reports[k].progress == (ProgressView {
                        completed: (run.completed + k + 1) as nat,
                        total: run.projects.len(),
                    })
                    &&& reports[k].line == reports[k].outcome.line(reports[k].project)
                }
        }),
    decreases replies.len(),
{
    if replies.len() > 0 {
        reports_count_up(run, replies.drop_last());
    }
}

/// A run that starts on a selection of `N` projects never hands out more than `N` reports.
/// Once it is finished it has handed out exactly `N`, one for each selected project in
/// selection order, with the fractions `1 / N`, `2 / N`, up to `N / N`. On an empty selection
/// it is finished from the start and reports nothing.
pub proof fn batch_covers_selection(
    projects: Seq<ProjectView>,
    branch: Seq<char>,
    replies: Seq<GitReplyView>,
)
    ensures
        ({
            let (end, reports) = SyncRunView::initial(projects, branch).replay(replies);
            &&& reports.len() <= projects.len()
            &&& end.finished() <==> reports.len() == projects.len()
            &&& forall|k: int|
                0 <= k < reports.len() ==> {
                    &&& (#[trigger] reports[k]).project == projects[k]
                    &&& reports[k].progress == (ProgressView {
                        completed: (k + 1) as nat,
                        total: projects.len(),
                    })
                }
        }),
{
    reports_count_up(SyncRunView::initial(projects, branch), replies);
}

impl SyncRunView {
    /// Tells whether every reply of `replies` answers the step that is pending when it comes
    /// in. Replies to a finished run are never asked for and count as answered.
    pub open spec fn all_answered(self, replies: Seq<GitReplyView>) -> bool
        decreases replies.len(),
    {
        if replies.len() == 0 {
            true
        } else {
            let (before, _) = self.replay(replies.drop_last());
            &&& self.all_answered(replies.drop_last())
            &&& before.finished() || answers(before.step, replies.last())
        }
    }

    /// Upper bound on the number of answers that the run still needs: six for every project
    /// that is not closed, less the steps that the current one has behind it.
    pub open spec fn answers_needed(self) -> int {
        if self.finished() {
            0
        } else {
            (self.projects.len() - self.completed) * 6 - self.step.rank()
        }
    }
}

/// One answer brings a run that is not finished at least one answer closer to its end.
pub proof fn answer_brings_the_end_closer(run: SyncRunView, reply: GitReplyView)
    requires
        run.wf(),
        !run.finished(),
        answers(run.step, reply),
    ensures
        run.advance(reply).0.answers_needed() < run.answers_needed(),
        run.advance(reply).0.answers_needed() >= 0,
{
}

/// Whatever succeeds and whatever fails, a batch always completes: when the caller answers
/// every step that it is asked to perform, the run is finished after at most six answers for
/// each project that was still open, and it has then handed out exactly one report for each
/// of them, in selection order (see [`reports_count_up`]).
pub proof fn answered_batch_completes(run: SyncRunView, replies: Seq<GitReplyView>)
    requires
        run.wf(),
        run.all_answered(replies),
    ensures
        ({
            let (end, reports) = run.replay(replies);
            &&& end.wf()
            &&& 0 <= end.answers_needed()
            &&& end.finished() || end.answers_needed() <= run.answers_needed() - replies.len()
            &&& replies.len() >= run.answers_needed() ==> end.finished() && reports.len()
                == run.projects.len() - run.completed
        }),
    decreases replies.len(),
{
    reports_count_up(run, replies);
    if replies.len() > 0 {
        let earlier = replies.drop_last();
        answered_batch_completes(run, earlier);
        reports_count_up(run, earlier);
        let (before, _) = run.replay(earlier);
        if !before.finished() {
            answer_brings_the_end_closer(before, replies.last());
        }
    }
}

/// One project's failure never keeps the next one from being attempted: a reply that closes
/// a project, with whatever outcome, leaves the run either finished or waiting to open the
/// project that follows in the selection.
pub proof fn closing_turns_to_next_project(run: SyncRunView, reply: GitReplyView)
    requires
        run.wf(),
        run.advance(reply).1 is Some,
    ensures
        ({
            let (after, report) = run.advance(reply);
            &&& after.completed == run.completed + 1
            &&& after.completed < run.projects.len() ==> after.pending() == Some(
                SyncStep::OpenRepository,
            ) && after.current_project() == Some(run.projects[after.completed as int])
            &&& after.completed == run.projects.len() ==> after.finished()
        }),
{
}

/// A batch synchronization in progress.
pub struct SyncRun {
    projects: Vec<ProjectRecord>,
    completed: usize,
    step: SyncStep,
    branch: String,
}

impl View for SyncRun {
    type V = SyncRunView;

    closed spec fn view(&self) -> SyncRunView {
        SyncRunView {
            projects: views_of(self.projects@),
            completed: self.completed as nat,
            step: self.step,
            branch: self.branch@,
        }
    }
}

impl SyncRun {
    #[verifier::type_invariant]
    spec fn inv(self) -> bool {
        self.completed <= self.projects.len()
    }

    /// Starts a run over `selected`, in the given order, on [`DEFAULT_BRANCH`].
    pub fn start(selected: Vec<ProjectRecord>) -> (run: SyncRun)
        ensures
            run@ == SyncRunView::initial(views_of(selected@), DEFAULT_BRANCH@),
            run@.wf(),
    {
        SyncRun {
            projects: selected,
            completed: 0,
            step: SyncStep::OpenRepository,
            branch: String::from_str(DEFAULT_BRANCH),
        }
    }

    /// Starts a run over `selected`, in the given order, on `branch`.
    pub fn start_on_branch(selected: Vec<ProjectRecord>, branch: String) -> (run: SyncRun)
        ensures
            run@ == SyncRunView::initial(views_of(selected@), branch@),
            run@.wf(),
    {
        SyncRun { projects: selected, completed: 0, step: SyncStep::OpenRepository, branch }
    }

    /// Number of selected projects.
    pub fn total(&self) -> (total: usize)
        ensures
            total == self@.projects.len(),
    {
        self.projects.len()
    }

    /// Number of projects closed so far.
    pub fn completed(&self) -> (completed: usize)
        ensures
            completed == self@.completed,
            self@.wf(),
    {
        proof {
            use_type_invariant(self);
        }
        self.completed
    }

    /// Tells whether every selected project is closed.
    pub fn is_finished(&self) -> (finished: bool)
        ensures
            finished == self@.finished(),
    {
        self.completed >= self.projects.len()
    }

    /// The step to perform next, or `None` once the run is finished.
    pub fn pending(&self) -> (step: Option<SyncStep>)
        ensures
            step == self@.pending(),
    {
        if self.completed >= self.projects.len() {
            None
        } else {
            Some(self.step)
        }
    }

    /// The project that the pending step is for, or `None` once the run is finished.
    pub fn current_project(&self) -> (project: Option<&ProjectRecord>)
        ensures
            match project {
                Some(p) => self@.current_project() == Some(p@),
                None => self@.current_project() is None,
            },
    {
        if self.completed >= self.projects.len() {
            None
        } else {
            Some(&self.projects[self.completed])
        }
    }

    /// The branch that is fetched and fast-forwarded.
    pub fn branch(&self) -> (branch: &str)
        ensures
            branch@ == self@.branch,
    {
        self.branch.as_str()
    }

    /// Full name of the local branch reference that a fast-forward moves.
    pub fn branch_ref(&self) -> (name: String)
        ensures
            name@ == BRANCH_REF_PREFIX@ + self@.branch,
    {
        let mut name = String::from_str(BRANCH_REF_PREFIX);
        name.append(self.branch.as_str());
        name
    }

    /// Takes the caller's reply to the pending step and moves the run on by
    /// [`SyncRunView::advance`]. When the reply closes the current project, its report is
    /// returned.
    pub fn advance(&mut self, reply: GitReply) -> (report: Option<SyncReport>)
        ensures
            final(self)@ == old(self)@.advance(reply@).0,
            final(self)@.wf(),
            match report {
                Some(r) => old(self)@.advance(reply@).1 == Some(r@),
                None => old(self)@.advance(reply@).1 is None,
            },
    {
        proof {
            use_type_invariant(&*self);
        }
        if self.completed >= self.projects.len() {
            return None;
        }
        match decide(self.step, reply) {
            Verdict::Unanswered => None,
            Verdict::Continue(next) => {
                self.step = next;
                None
            },
            Verdict::Finished(outcome) => {
                let project = self.projects[self.completed].clone();
                let line = outcome.log_line(&project);
                self.completed = self.completed + 1;
                self.step = SyncStep::OpenRepository;
                let progress = Progress { completed: self.completed, total: self.projects.len() };
                Some(SyncReport { project, outcome, line, progress })
            },
        }
    }
}

} // verus!
