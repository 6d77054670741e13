//! What one synchronization attempt can end in, and the log line that reports it.

use vstd::prelude::*;
use vstd::string::StringExecFns;
use crate::log::{is_line, lines_put_together};
use crate::project::{ProjectRecord, ProjectView};

verus! {

/// How a log line is tagged.
#[derive(Debug, Clone, Copy, PartialEq, Eq, Structural)]
pub enum Severity {
    Info,
    Error,
}

impl Severity {
    /// The tag that opens every line of this severity, with its trailing blank.
    pub open spec fn tag(self) -> Seq<char> {
        match self {
            Severity::Info => "[INFO] "@,
            Severity::Error => "[ERROR] "@,
        }
    }

    /// The tag as text.
    pub fn tag_text(self) -> (text: &'static str)
        ensures
            text@ == self.tag(),
    {
        match self {
            Severity::Info => "[INFO] ",
            Severity::Error => "[ERROR] ",
        }
    }
}

/// The two facts of a merge analysis that the engine reads: whether the local tip already
/// contains the fetched commit, and whether it can be fast-forwarded to it.
#[derive(Debug, Clone, Copy, PartialEq, Eq, Structural)]
pub struct MergeAnalysis {
    pub up_to_date: bool,
    pub fast_forward: bool,
}

/// The three mutually exclusive readings of a merge analysis.
#[derive(Debug, Clone, Copy, PartialEq, Eq, Structural)]
pub enum MergeClass {
    UpToDate,
    FastForward,
    Diverged,
}

impl MergeAnalysis {
    /// Up-to-date takes precedence over fast-forward; anything else is a divergence.
    pub open spec fn class(self) -> MergeClass {
        if self.up_to_date {
            MergeClass::UpToDate
        } else if self.fast_forward {
            MergeClass::FastForward
        } else {
            MergeClass::Diverged
        }
    }

    /// Reads the analysis in the order of precedence.
    pub fn classify(self) -> (class: MergeClass)
        ensures
            class == self.class(),
    {
        if self.up_to_date {
            MergeClass::UpToDate
        } else if self.fast_forward {
            MergeClass::FastForward
        } else {
            MergeClass::Diverged
        }
    }
}

/// Result of one synchronization attempt on one project.
#[derive(Debug, PartialEq, Eq)]
pub enum SyncOutcome {
    /// The local tip already contains the fetched commit; nothing was changed.
    UpToDate,
    /// The local branch was moved up to the fetched commit.
    FastForwarded,
    /// The histories have diverged; nothing was changed.
    ConflictNeedsManualResolution,
    /// The project did not get the remote update: the fetch failed, or the fetched commit
    /// could not be analyzed against the local tip, or the fast-forward could not be applied.
    /// The text is the underlying error.
    FetchFailed(String),
    /// The repository has no remote named `origin`.
    RemoteMissing,
    /// The project's path does not open as a repository.
    RepositoryOpenFailed,
    /// `FETCH_HEAD` could not be read or resolved to a commit.
    CorruptFetchHead,
}

/// Mathematical value of a [`SyncOutcome`].
#[verifier::ext_equal]
pub enum SyncOutcomeView {
    UpToDate,
    FastForwarded,
    ConflictNeedsManualResolution,
    FetchFailed(Seq<char>),
    RemoteMissing,
    RepositoryOpenFailed,
    CorruptFetchHead,
}

impl View for SyncOutcome {
    type V = SyncOutcomeView;

    open spec fn view(&self) -> SyncOutcomeView {
        match self {
            SyncOutcome::UpToDate => SyncOutcomeView::UpToDate,
            SyncOutcome::FastForwarded => SyncOutcomeView::FastForwarded,
            SyncOutcome::ConflictNeedsManualResolution => SyncOutcomeView::ConflictNeedsManualResolution,
            SyncOutcome::FetchFailed(reason) => SyncOutcomeView::FetchFailed(reason@),
            SyncOutcome::RemoteMissing => SyncOutcomeView::RemoteMissing,
            SyncOutcome::RepositoryOpenFailed => SyncOutcomeView::RepositoryOpenFailed,
            SyncOutcome::CorruptFetchHead => SyncOutcomeView::CorruptFetchHead,
        }
    }
}

impl Clone for SyncOutcome {
    fn clone(&self) -> (copy: SyncOutcome)
        ensures
            copy@ == self@,
    {
        match self {
            SyncOutcome::UpToDate => SyncOutcome::UpToDate,
            SyncOutcome::FastForwarded => SyncOutcome::FastForwarded,
            SyncOutcome::ConflictNeedsManualResolution => SyncOutcome::ConflictNeedsManualResolution,
            SyncOutcome::FetchFailed(reason) => SyncOutcome::FetchFailed(reason.clone()),
            SyncOutcome::RemoteMissing => SyncOutcome::RemoteMissing,
            SyncOutcome::RepositoryOpenFailed => SyncOutcome::RepositoryOpenFailed,
            SyncOutcome::CorruptFetchHead => SyncOutcome::CorruptFetchHead,
        }
    }
}

impl SyncOutcomeView {
    /// The two successful outcomes are informational; every other one is an error.
    pub open spec fn severity(self) -> Severity {
        match self {
            SyncOutcomeView::UpToDate => Severity::Info,
            SyncOutcomeView::FastForwarded => Severity::Info,
            _ => Severity::Error,
        }
    }

    /// The text after the severity tag. It always names the project; `FetchFailed` also
    /// carries the error text, and a repository that did not open its path.
    pub open spec fn summary(self, project: ProjectView) -> Seq<char> {
        match self {
            SyncOutcomeView::UpToDate => "项目 "@ + project.name + " 已经是最新版本"@,
            SyncOutcomeView::FastForwarded => "项目 "@ + project.name + " 更新成功"@,
            SyncOutcomeView::ConflictNeedsManualResolution => "项目 "@ + project.name
                + " 存在冲突,需要手动解决"@,
            SyncOutcomeView::FetchFailed(reason) => "项目 "@ + project.name + " 无法获取远程更新: "@
                + reason,
            SyncOutcomeView::RemoteMissing => "无法找到远程仓库'origin': "@ + project.name,
            SyncOutcomeView::RepositoryOpenFailed => "项目 "@ + project.name + " 无法打开仓库: "@
                + project.path,
            SyncOutcomeView::CorruptFetchHead => "项目 "@ + project.name
                + " 的 FETCH_HEAD 文件损坏或不存在"@,
        }
    }

    /// The whole log line: severity tag, then summary.
    pub open spec fn line(self, project: ProjectView) -> Seq<char> {
        self.severity().tag() + self.summary(project)
    }
}

/// The log line of an outcome is one line, provided that what it quotes holds no line feed:
/// the project's name, its path, and the error text of a failure.
pub proof fn outcome_line_is_one_line(outcome: SyncOutcomeView, project: ProjectView)
    requires
        is_line(project.name),
        is_line(project.path),
        outcome matches SyncOutcomeView::FetchFailed(reason) ==> is_line(reason),
    ensures
        is_line(outcome.line(project)),
{
    reveal_strlit("[INFO] ");
    reveal_strlit("[ERROR] ");
    reveal_strlit("项目 ");
    reveal_strlit(" 已经是最新版本");
    reveal_strlit(" 更新成功");
    reveal_strlit(" 存在冲突,需要手动解决");
    reveal_strlit(" 无法获取远程更新: ");
    reveal_strlit("无法找到远程仓库'origin': ");
    reveal_strlit(" 无法打开仓库: ");
    reveal_strlit(" 的 FETCH_HEAD 文件损坏或不存在");
    let tag = outcome.severity().tag();
    assert(is_line(tag));
    assert(is_line("项目 "@));
    match outcome {
        SyncOutcomeView::UpToDate => {
            assert(is_line(" 已经是最新版本"@));
            lines_put_together("项目 "@, project.name);
            lines_put_together("项目 "@ + project.name, " 已经是最新版本"@);
        },
        SyncOutcomeView::FastForwarded => {
            assert(is_line(" 更新成功"@));
            lines_put_together("项目 "@, project.name);
            lines_put_together("项目 "@ + project.name, " 更新成功"@);
        },
        SyncOutcomeView::ConflictNeedsManualResolution => {
            assert(is_line(" 存在冲突,需要手动解决"@));
            lines_put_together("项目 "@, project.name);
            lines_put_together("项目 "@ + project.name, " 存在冲突,需要手动解决"@);
        },
        SyncOutcomeView::FetchFailed(reason) => {
            assert(is_line(" 无法获取远程更新: "@));
            lines_put_together("项目 "@, project.name);
            lines_put_together("项目 "@ + project.name, " 无法获取远程更新: "@);
            lines_put_together("项目 "@ + project.name + " 无法获取远程更新: "@, reason);
        },
        SyncOutcomeView::RemoteMissing => {
            assert(is_line("无法找到远程仓库'origin': "@));
            lines_put_together("无法找到远程仓库'origin': "@, project.name);
        },
        SyncOutcomeView::RepositoryOpenFailed => {
            assert(is_line(" 无法打开仓库: "@));
            lines_put_together("项目 "@, project.name);
            lines_put_together("项目 "@ + project.name, " 无法打开仓库: "@);
            lines_put_together("项目 "@ + project.name + " 无法打开仓库: "@, project.path);
        },
        SyncOutcomeView::CorruptFetchHead => {
            assert(is_line(" 的 FETCH_HEAD 文件损坏或不存在"@));
            lines_put_together("项目 "@, project.name);
            lines_put_together("项目 "@ + project.name, " 的 FETCH_HEAD 文件损坏或不存在"@);
        },
    }
    lines_put_together(tag, outcome.summary(project));
}

impl SyncOutcome {
    /// Severity under which the outcome is logged.
    pub fn severity(&self) -> (severity: Severity)
        ensures
            severity == self@.severity(),
    {
        match self {
            SyncOutcome::UpToDate => Severity::Info,
            SyncOutcome::FastForwarded => Severity::Info,
            _ => Severity::Error,
        }
    }

    /// The one log line that reports this outcome for `project`.
    pub fn log_line(&self, project: &ProjectRecord) -> (line: String)
        ensures
            line@ == self@.line(project@),
    {
        let mut line = String::from_str(self.severity().tag_text());
        match self {
            SyncOutcome::UpToDate => {
                line.append("项目 ");
                line.append(project.name.as_str());
                line.append(" 已经是最新版本");
            },
            SyncOutcome::FastForwarded => {
                line.append("项目 ");
                line.append(project.name.as_str());
                line.append(" 更新成功");
            },
            SyncOutcome::ConflictNeedsManualResolution => {
                line.append("项目 ");
                line.append(project.name.as_str());
                line.append(" 存在冲突,需要手动解决");
            },
            SyncOutcome::FetchFailed(reason) => {
                line.append("项目 ");
                line.append(project.name.as_str());
                line.append(" 无法获取远程更新: ");
                line.append(reason.as_str());
            },
            SyncOutcome::RemoteMissing => {
                line.append("无法找到远程仓库'origin': ");
                line.append(project.name.as_str());
            },
            SyncOutcome::RepositoryOpenFailed => {
                line.append("项目 ");
                line.append(project.name.as_str());
                line.append(" 无法打开仓库: ");
                line.append(project.path.as_str());
            },
            SyncOutcome::CorruptFetchHead => {
                line.append("项目 ");
                line.append(project.name.as_str());
                line.append(" 的 FETCH_HEAD 文件损坏或不存在");
            },
        }
        line
    }
}

} // verus!
