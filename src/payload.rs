use vstd::prelude::*;

verus! {

/// Lifecycle status of a run as reported to the service.
#[derive(Debug, Clone, Copy, PartialEq, Eq, Structural)]
pub enum RunStatus {
    Running,
    Completed,
}

impl RunStatus {
    /// The literal written on the wire for this status.
    pub open spec fn wire_name(self) -> Seq<char> {
        match self {
            RunStatus::Running => "running"@,
            RunStatus::Completed => "completed"@,
        }
    }

    pub fn as_str(&self) -> (r: &'static str)
        ensures
            r@ == self.wire_name(),
    {
        match self {
            RunStatus::Running => "running",
            RunStatus::Completed => "completed",
        }
    }
}

/// The kind of run; only one kind exists.
#[derive(Debug, Clone, Copy, PartialEq, Eq, Structural)]
pub enum SpaceRunType {
    Turbo,
}

impl SpaceRunType {
    pub open spec fn wire_name(self) -> Seq<char> {
        "TURBO"@
    }

    pub fn as_str(&self) -> (r: &'static str)
        ensures
            r@ == self.wire_name(),
    {
        "TURBO"
    }
}

/// Identifies the reporting client.
#[derive(Debug, Clone)]
pub struct SpaceClientSummary {
    pub id: String,
    pub name: String,
    pub version: String,
}

/// Cache outcome of one task.
#[derive(Debug, Clone, Default)]
pub struct SpacesCacheStatus {
    pub status: String,
    pub source: Option<String>,
    pub time_saved: u32,
}

/// Record of one completed task.
#[derive(Debug, Clone, Default)]
pub struct SpaceTaskSummary {
    pub key: String,
    pub name: String,
    pub workspace: String,
    pub hash: String,
    pub start_time: i64,
    pub end_time: i64,
    pub cache: SpacesCacheStatus,
    pub exit_code: u32,
    pub dependencies: Vec<String>,
    pub dependents: Vec<String>,
    pub logs: String,
}

/// Record sent when a run starts.
#[derive(Debug, Clone)]
pub struct CreateSpaceRunPayload {
    pub start_time: i64,
    pub status: RunStatus,
    pub ty: SpaceRunType,
    pub command: String,
    pub package_inference_root: String,
    pub run_context: String,
    pub git_branch: Option<String>,
    pub git_sha: Option<String>,
    pub user: String,
    pub client: SpaceClientSummary,
}

/// Maps an optional owned string to the view of its contents.
pub open spec fn opt_view(o: Option<String>) -> Option<Seq<char>> {
    match o {
        Some(s) => Some(s@),
        None => None,
    }
}

/// The run context recorded for a detected CI vendor constant, or "LOCAL".
pub open spec fn run_context_of(ci_vendor: Option<Seq<char>>) -> Seq<char> {
    match ci_vendor {
        Some(c) => c,
        None => "LOCAL"@,
    }
}

impl CreateSpaceRunPayload {
    /// Builds the run-start record. `start_time` is in epoch milliseconds;
    /// `ci_vendor` is the constant of the CI vendor the process runs under,
    /// if one was recognized.
    pub fn new(
        start_time: i64,
        synthesized_command: &str,
        package_inference_root: Option<&str>,
        git_branch: Option<String>,
        git_sha: Option<String>,
        version: String,
        user: String,
        ci_vendor: Option<&str>,
    ) -> (r: Self)
        ensures
            r.start_time == start_time,
            r.status == RunStatus::Running,
            r.ty == SpaceRunType::Turbo,
            r.command@ == synthesized_command@,
            r.package_inference_root@ == (match package_inference_root {
                Some(p) => p@,
                None => Seq::<char>::empty(),
            }),
            r.run_context@ == run_context_of(
                match ci_vendor {
                    Some(c) => Some(c@),
                    None => None,
                },
            ),
            opt_view(r.git_branch) == opt_view(git_branch),
            opt_view(r.git_sha) == opt_view(git_sha),
            r.user@ == user@,
            r.client.id@ == "turbo"@,
            r.client.name@ == "Turbo"@,
            r.client.version@ == version@,
    {
        let run_context = match ci_vendor {
            Some(c) => String::from_str(c),
            None => String::from_str("LOCAL"),
        };
        let root = match package_inference_root {
            Some(p) => String::from_str(p),
            None => String::new(),
        };
        CreateSpaceRunPayload {
            start_time,
            status: RunStatus::Running,
            ty: SpaceRunType::Turbo,
            command: String::from_str(synthesized_command),
            package_inference_root: root,
            run_context,
            git_branch,
            git_sha,
            user,
            client: SpaceClientSummary {
                id: String::from_str("turbo"),
                name: String::from_str("Turbo"),
                version,
            },
        }
    }
}

/// Record sent when a run ends.
#[derive(Debug, Clone, Copy, PartialEq, Eq, Structural)]
pub struct FinishSpaceRunPayload {
    pub status: RunStatus,
    pub end_time: i64,
    pub exit_code: i32,
}

impl FinishSpaceRunPayload {
    /// Builds the run-finish record; its status is always `Completed`,
    /// whatever the exit code, negative ones included.
    pub fn new(end_time: i64, exit_code: i32) -> (r: Self)
        ensures
            r.status == RunStatus::Completed,
            r.status.wire_name() == "completed"@,
            r.end_time == end_time,
            r.exit_code == exit_code,
    {
        FinishSpaceRunPayload { status: RunStatus::Completed, end_time, exit_code }
    }
}

} // verus!
