use git2::build::CheckoutBuilder;
use git2::{AnnotatedCommit, Oid, Repository, Signature};
use github_project_manager::engine::{
    GitReply, SyncReport, SyncRun, SyncStep, FETCH_HEAD, REMOTE_NAME,
};
use github_project_manager::outcome::{MergeAnalysis, SyncOutcome};
use github_project_manager::project::ProjectRecord;

const MASTER: &str = "refs/heads/master";

/// A directory of its own for one repository of one test.
fn scratch_dir(label: &str) -> String {
    let stamp = std::time::SystemTime::now()
        .duration_since(std::time::UNIX_EPOCH)
        .unwrap()
        .as_nanos();
    format!("/tmp/project-sync-{}-{}", label, stamp)
}

/// Tells whether the working directory holds exactly what the checked-out commit holds.
fn working_directory_is_clean(repo: &Repository) -> bool {
    repo.statuses(None).unwrap().is_empty()
}

/// Adds a commit with one file to the master branch, without touching any working directory.
fn commit_on_master(repo: &Repository, file: &str, content: &str) -> Oid {
    let parent = repo.find_reference(MASTER).ok().map(|r| r.peel_to_commit().unwrap());
    let base = parent.as_ref().map(|p| p.tree().unwrap());
    let mut builder = repo.treebuilder(base.as_ref()).unwrap();
    builder.insert(file, repo.blob(content.as_bytes()).unwrap(), 0o100644).unwrap();
    let tree = repo.find_tree(builder.write().unwrap()).unwrap();
    let who = Signature::now("tester", "tester@example.com").unwrap();
    let parents: Vec<&git2::Commit<'_>> = parent.iter().collect();
    repo.commit(Some(MASTER), &who, &who, content, &tree, &parents).unwrap()
}

/// Fetches master from `upstream_dir` into `repo` and returns `commit`, which is then there.
fn first_in(repo: &Repository, upstream_dir: &str, commit: Oid) -> Oid {
    let mut remote = repo.remote_anonymous(upstream_dir).unwrap();
    remote.fetch(&["master"], None, None).unwrap();
    repo.find_commit(commit).unwrap().id()
}

/// An upstream repository with one commit, and a local repository that has it as `origin`
/// and stands at the same commit.
fn upstream_and_clone(label: &str) -> (String, Repository, String, Repository) {
    let upstream_dir = scratch_dir(&format!("{}-upstream", label));
    let upstream = Repository::init_bare(&upstream_dir).unwrap();
    let first = commit_on_master(&upstream, "a.txt", "first");
    let local_dir = scratch_dir(&format!("{}-local", label));
    let local = Repository::init(&local_dir).unwrap();
    local.remote(REMOTE_NAME, &upstream_dir).unwrap().fetch(&["master"], None, None).unwrap();
    local.reference(MASTER, first, true, "start").unwrap();
    local.set_head(MASTER).unwrap();
    local.checkout_head(Some(CheckoutBuilder::default().force())).unwrap();
    (upstream_dir, upstream, local_dir, local)
}

fn done_or_failed<T>(result: Result<T, git2::Error>) -> GitReply {
    match result {
        Ok(_) => GitReply::Done,
        Err(e) => GitReply::Failed(e.to_string()),
    }
}

fn fetched_commit(repo: &Repository) -> Result<AnnotatedCommit<'_>, git2::Error> {
    let head = repo.find_reference(FETCH_HEAD)?;
    repo.reference_to_annotated_commit(&head)
}

fn fetch(repo: &Repository, branch: &str) -> Result<(), git2::Error> {
    repo.find_remote(REMOTE_NAME)?.fetch(&[branch], None, None)
}

fn analyze(repo: &Repository) -> Result<MergeAnalysis, git2::Error> {
    let analysis = repo.merge_analysis(&[&fetched_commit(repo)?])?.0;
    Ok(MergeAnalysis {
        up_to_date: analysis.is_up_to_date(),
        fast_forward: analysis.is_fast_forward(),
    })
}

fn fast_forward(repo: &Repository, name: &str) -> Result<(), git2::Error> {
    let fetched = fetched_commit(repo)?;
    repo.find_reference(name)?.set_target(fetched.id(), "Fast-Forward")?;
    repo.set_head(name)?;
    repo.checkout_head(Some(CheckoutBuilder::default().force()))
}

fn inside(repo: &Repository, run: &mut SyncRun, asked: &mut Vec<SyncStep>) -> Option<SyncReport> {
    loop {
        let step = run.pending()?;
        if step == SyncStep::OpenRepository {
            return None;
        }
        asked.push(step);
        let reply = match step {
            SyncStep::OpenRepository => GitReply::Done,
            SyncStep::FindOrigin => done_or_failed(repo.find_remote(REMOTE_NAME)),
            SyncStep::FetchBranch => done_or_failed(fetch(repo, run.branch())),
            SyncStep::ResolveFetchHead => done_or_failed(fetched_commit(repo)),
            SyncStep::AnalyzeMerge => match analyze(repo) {
                Ok(analysis) => GitReply::Analysis(analysis),
                Err(e) => GitReply::Failed(e.to_string()),
            },
            SyncStep::FastForward => done_or_failed(fast_forward(repo, &run.branch_ref())),
        };
        if let Some(report) = run.advance(reply) {
            return Some(report);
        }
    }
}

/// Performs every step that a run over `paths` asks for on real repositories. Returns the
/// reports and the steps that were asked for.
fn synchronize(paths: &[&str]) -> (Vec<SyncReport>, Vec<SyncStep>) {
    let selected = paths
        .iter()
        .map(|p| ProjectRecord::new(p.to_string(), "demo".to_string(), String::new()))
        .collect();
    let mut run = SyncRun::start(selected);
    let mut reports = Vec::new();
    let mut asked = Vec::new();
    while let Some(project) = run.current_project() {
        asked.push(run.pending().unwrap());
        let report = match Repository::open(&project.path) {
            Ok(repo) => match run.advance(GitReply::Done) {
                Some(report) => Some(report),
                None => inside(&repo, &mut run, &mut asked),
            },
            Err(e) => run.advance(GitReply::Failed(e.to_string())),
        };
        reports.push(report.unwrap());
    }
    (reports, asked)
}

#[test]
fn an_ancestor_tip_is_fast_forwarded_and_a_second_sync_finds_it_up_to_date() {
    let (_upstream_dir, upstream, local_dir, local) = upstream_and_clone("forward");
    let second = commit_on_master(&upstream, "b.txt", "second");
    assert_ne!(local.refname_to_id(MASTER).unwrap(), second);

    let (reports, asked) = synchronize(&[&local_dir]);
    assert_eq!(reports.len(), 1);
    assert_eq!(reports[0].outcome, SyncOutcome::FastForwarded);
    assert_eq!(asked.last(), Some(&SyncStep::FastForward));
    assert_eq!(local.refname_to_id(MASTER).unwrap(), second);
    assert_eq!(local.head().unwrap().name(), Some(MASTER));
    assert!(std::path::Path::new(&local_dir).join("b.txt").exists());

    let (reports, asked) = synchronize(&[&local_dir]);
    assert_eq!(reports[0].outcome, SyncOutcome::UpToDate);
    assert!(!asked.contains(&SyncStep::FastForward));
    assert_eq!(local.refname_to_id(MASTER).unwrap(), second);
}

#[test]
fn no_upstream_change_is_up_to_date_and_moves_nothing() {
    let (_upstream_dir, upstream, local_dir, local) = upstream_and_clone("same");
    let tip = upstream.refname_to_id(MASTER).unwrap();
    let (reports, asked) = synchronize(&[&local_dir]);
    assert_eq!(reports[0].outcome, SyncOutcome::UpToDate);
    assert_eq!(reports[0].line, "[INFO] 项目 demo 已经是最新版本");
    assert!(!asked.contains(&SyncStep::FastForward));
    assert_eq!(local.refname_to_id(MASTER).unwrap(), tip);
}

#[test]
fn diverged_history_is_reported_and_moves_nothing() {
    let (_upstream_dir, upstream, local_dir, local) = upstream_and_clone("diverged");
    let ours = commit_on_master(&local, "ours.txt", "ours");
    let theirs = commit_on_master(&upstream, "theirs.txt", "theirs");
    let (reports, asked) = synchronize(&[&local_dir]);
    assert_eq!(reports[0].outcome, SyncOutcome::ConflictNeedsManualResolution);
    assert!(!asked.contains(&SyncStep::FastForward));
    assert_eq!(local.refname_to_id(MASTER).unwrap(), ours);
    assert_ne!(ours, theirs);
    assert!(!std::path::Path::new(&local_dir).join("theirs.txt").exists());
}

#[test]
fn local_work_ahead_of_upstream_is_up_to_date() {
    let (_upstream_dir, _upstream, local_dir, local) = upstream_and_clone("ahead");
    let ours = commit_on_master(&local, "ours.txt", "ours");
    let (reports, _) = synchronize(&[&local_dir]);
    assert_eq!(reports[0].outcome, SyncOutcome::UpToDate);
    assert_eq!(local.refname_to_id(MASTER).unwrap(), ours);
}

#[test]
fn a_batch_goes_through_every_repository_whatever_happens_to_the_others() {
    let (_upstream_dir, upstream, local_dir, _local) = upstream_and_clone("batch");
    commit_on_master(&upstream, "b.txt", "second");
    let nowhere = scratch_dir("batch-nowhere");
    let lonely_dir = scratch_dir("batch-lonely");
    let _lonely = Repository::init(&lonely_dir).unwrap();
    let orphan_dir = scratch_dir("batch-orphan");
    let orphan = Repository::init(&orphan_dir).unwrap();
    orphan.remote(REMOTE_NAME, &nowhere).unwrap();

    let (reports, _) = synchronize(&[&nowhere, &lonely_dir, &orphan_dir, &local_dir]);
    assert_eq!(reports.len(), 4);
    assert_eq!(reports[0].outcome, SyncOutcome::RepositoryOpenFailed);
    assert_eq!(reports[1].outcome, SyncOutcome::RemoteMissing);
    assert!(matches!(reports[2].outcome, SyncOutcome::FetchFailed(_)));
    assert!(reports[2].line.starts_with("[ERROR] 项目 demo 无法获取远程更新: "));
    assert!(reports[2].line.len() > "[ERROR] 项目 demo 无法获取远程更新: ".len());
    assert_eq!(reports[3].outcome, SyncOutcome::FastForwarded);
    let fractions: Vec<f32> =
        reports.iter().map(|r| r.progress.completed as f32 / r.progress.total as f32).collect();
    assert_eq!(fractions, vec![0.25, 0.5, 0.75, 1.0]);
}

#[test]
fn a_fast_forward_discards_uncommitted_changes_to_committed_files() {
    let (_upstream_dir, upstream, local_dir, local) = upstream_and_clone("force");
    // Put other content for a.txt into the working directory without committing it.
    let mut builder = local.treebuilder(None).unwrap();
    builder.insert("a.txt", local.blob(b"edited locally").unwrap(), 0o100644).unwrap();
    let edited = local.find_object(builder.write().unwrap(), None).unwrap();
    local.checkout_tree(&edited, Some(CheckoutBuilder::default().force())).unwrap();
    assert!(!working_directory_is_clean(&local));

    let second = commit_on_master(&upstream, "a.txt", "changed upstream");
    let (reports, _) = synchronize(&[&local_dir]);
    assert_eq!(reports[0].outcome, SyncOutcome::FastForwarded);
    assert_eq!(local.refname_to_id(MASTER).unwrap(), second);
    assert!(working_directory_is_clean(&local));
}

#[test]
fn a_fast_forward_that_cannot_be_applied_is_reported_and_the_batch_goes_on() {
    // The first repository stands on a branch of another name and has no local master
    // branch, so the fetched commit can be fast-forwarded to but the branch cannot be moved.
    let upstream_dir = scratch_dir("stuck-upstream");
    let upstream = Repository::init_bare(&upstream_dir).unwrap();
    let first = commit_on_master(&upstream, "a.txt", "first");
    let stuck_dir = scratch_dir("stuck-local");
    let stuck = Repository::init(&stuck_dir).unwrap();
    stuck.remote(REMOTE_NAME, &upstream_dir).unwrap();
    stuck.reference("refs/heads/work", first_in(&stuck, &upstream_dir, first), true, "start").unwrap();
    stuck.set_head("refs/heads/work").unwrap();
    commit_on_master(&upstream, "b.txt", "second");
    let (_other_upstream_dir, other_upstream, other_dir, other) = upstream_and_clone("after-stuck");
    let second = commit_on_master(&other_upstream, "b.txt", "second");

    let (reports, asked) = synchronize(&[&stuck_dir, &other_dir]);
    assert_eq!(reports.len(), 2);
    assert!(asked.contains(&SyncStep::FastForward));
    match &reports[0].outcome {
        SyncOutcome::FetchFailed(reason) => {
            assert!(!reason.is_empty());
            assert_eq!(reports[0].line, format!("[ERROR] 项目 demo 无法获取远程更新: {}", reason));
        }
        other => panic!("unexpected outcome {:?}", other),
    }
    assert_eq!(stuck.refname_to_id("refs/heads/work").unwrap(), first);
    assert!(stuck.find_reference(MASTER).is_err());
    assert_eq!(reports[1].outcome, SyncOutcome::FastForwarded);
    assert_eq!(other.refname_to_id(MASTER).unwrap(), second);
    let fractions: Vec<f32> =
        reports.iter().map(|r| r.progress.completed as f32 / r.progress.total as f32).collect();
    assert_eq!(fractions, vec![0.5, 1.0]);
}
