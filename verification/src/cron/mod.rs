//! Scheduled jobs: what a job is, and the state machine that says when a
//! job may run and what becomes of it.
//!
//! The scheduler keeps the jobs and decides. Timing is left to a timer of
//! the program around the library: the scheduler says what to register with
//! it, the program calls back when a job is due, runs the handler, and
//! reports how it went. What is to be written to durable storage is handed
//! out as rows.

use vstd::prelude::*;
use vstd::string::*;
use crate::clock::{fresh_id, now_millis};
use crate::error::{ErrorView, NanobotError};
use crate::json::{clone_opt_value, json_text, json_value, json_well_formed, parse_value};
use crate::json::value_text;
use crate::text::{clone_opt_string, contains_str, str_eq};

pub mod laws;

verus! {

/// When a job is due.
#[derive(Debug)]
pub enum JobType {
    /// Whenever the cron expression says.
    Cron { expression: String },
    /// Every `seconds` seconds.
    Interval { seconds: u64 },
    /// Once, at `run_at`, in milliseconds since the Unix epoch.
    Once { run_at: i64 },
}

/// `JobType` as contracts see it.
pub enum JobTypeView {
    Cron { expression: Seq<char> },
    Interval { seconds: u64 },
    Once { run_at: i64 },
}

impl DeepView for JobType {
    type V = JobTypeView;

    open spec fn deep_view(&self) -> JobTypeView {
        match self {
            JobType::Cron { expression } => JobTypeView::Cron { expression: expression@ },
            JobType::Interval { seconds } => JobTypeView::Interval { seconds: *seconds },
            JobType::Once { run_at } => JobTypeView::Once { run_at: *run_at },
        }
    }
}

impl View for JobType {
    type V = JobTypeView;

    open spec fn view(&self) -> JobTypeView {
        self.deep_view()
    }
}

impl Clone for JobType {
    fn clone(&self) -> (r: JobType)
        ensures
            r@ == self@,
    {
        match self {
            JobType::Cron { expression } => JobType::Cron { expression: expression.clone() },
            JobType::Interval { seconds } => JobType::Interval { seconds: *seconds },
            JobType::Once { run_at } => JobType::Once { run_at: *run_at },
        }
    }
}

impl JobType {
    /// The name of the kind of job in durable storage.
    pub fn kind(&self) -> (name: &'static str)
        ensures
            name@ == (match self {
                JobType::Cron { .. } => "cron"@,
                JobType::Interval { .. } => "interval"@,
                JobType::Once { .. } => "once"@,
            }),
    {
        match self {
            JobType::Cron { .. } => "cron",
            JobType::Interval { .. } => "interval",
            JobType::Once { .. } => "once",
        }
    }
}

/// Where a job stands.
#[derive(Debug, Clone, Copy, PartialEq, Eq, Structural)]
pub enum JobStatus {
    /// Waits for its time.
    Pending,
    /// Its handler runs.
    Running,
    /// A one-shot job that has run.
    Completed,
    /// Set aside by the operator.
    Paused,
    /// Its last run failed. It may run again.
    Failed,
}

impl JobStatus {
    /// The name of the status in durable storage.
    pub open spec fn spec_as_str(self) -> Seq<char> {
        match self {
            JobStatus::Pending => "pending"@,
            JobStatus::Running => "running"@,
            JobStatus::Completed => "completed"@,
            JobStatus::Paused => "paused"@,
            JobStatus::Failed => "failed"@,
        }
    }

    /// The name of the status in durable storage.
    pub fn as_str(self) -> (name: &'static str)
        ensures
            name@ == self.spec_as_str(),
    {
        match self {
            JobStatus::Pending => "pending",
            JobStatus::Running => "running",
            JobStatus::Completed => "completed",
            JobStatus::Paused => "paused",
            JobStatus::Failed => "failed",
        }
    }

    /// The status that durable storage names: an unknown name stands for a
    /// job that waits.
    pub open spec fn spec_from_stored(name: Seq<char>) -> JobStatus {
        if name == "running"@ {
            JobStatus::Running
        } else if name == "completed"@ {
            JobStatus::Completed
        } else if name == "paused"@ {
            JobStatus::Paused
        } else if name == "failed"@ {
            JobStatus::Failed
        } else {
            JobStatus::Pending
        }
    }

    /// The status that durable storage names.
    pub fn from_stored(name: &str) -> (status: JobStatus)
        ensures
            status == JobStatus::spec_from_stored(name@),
    {
        if str_eq(name, "running") {
            JobStatus::Running
        } else if str_eq(name, "completed") {
            JobStatus::Completed
        } else if str_eq(name, "paused") {
            JobStatus::Paused
        } else if str_eq(name, "failed") {
            JobStatus::Failed
        } else {
            JobStatus::Pending
        }
    }
}

/// A unit of scheduled work.
#[derive(Debug)]
pub struct Job {
    pub id: String,
    pub name: String,
    pub description: Option<String>,
    pub job_type: JobType,
    pub status: JobStatus,
    /// The name of the handler that does the work.
    pub handler: String,
    /// What the handler is called with.
    pub handler_args: Option<serde_json::Value>,
    /// In milliseconds since the Unix epoch, as are the times below.
    pub created_at: i64,
    pub last_run: Option<i64>,
    pub next_run: Option<i64>,
    /// How often the job has run.
    pub run_count: i64,
    /// How often the job may run; unbounded where unset.
    pub max_runs: Option<i64>,
    /// Whether the job is written to durable storage.
    pub persistent: bool,
}

/// `Job` as contracts see it.
pub struct JobView {
    pub id: Seq<char>,
    pub name: Seq<char>,
    pub description: Option<Seq<char>>,
    pub job_type: JobTypeView,
    pub status: JobStatus,
    pub handler: Seq<char>,
    pub handler_args: Option<serde_json::Value>,
    pub created_at: i64,
    pub last_run: Option<i64>,
    pub next_run: Option<i64>,
    pub run_count: i64,
    pub max_runs: Option<i64>,
    pub persistent: bool,
}

impl DeepView for Job {
    type V = JobView;

    open spec fn deep_view(&self) -> JobView {
        JobView {
            id: self.id@,
            name: self.name@,
            description: self.description.deep_view(),
            job_type: self.job_type@,
            status: self.status,
            handler: self.handler@,
            handler_args: self.handler_args,
            created_at: self.created_at,
            last_run: self.last_run,
            next_run: self.next_run,
            run_count: self.run_count,
            max_runs: self.max_runs,
            persistent: self.persistent,
        }
    }
}

impl View for Job {
    type V = JobView;

    open spec fn view(&self) -> JobView {
        self.deep_view()
    }
}

impl Clone for Job {
    fn clone(&self) -> (r: Job)
        ensures
            r@ == self@,
    {
        Job {
            id: self.id.clone(),
            name: self.name.clone(),
            description: clone_opt_string(&self.description),
            job_type: self.job_type.clone(),
            status: self.status,
            handler: self.handler.clone(),
            handler_args: clone_opt_value(&self.handler_args),
            created_at: self.created_at,
            last_run: self.last_run,
            next_run: self.next_run,
            run_count: self.run_count,
            max_runs: self.max_runs,
            persistent: self.persistent,
        }
    }
}

impl JobView {
    /// What holds of every job that the scheduler has counted: it has not
    /// run more often than it may, and a one-shot job may run once.
    pub open spec fn wf(self) -> bool {
        &&& self.run_count >= 0
        &&& self.max_runs matches Some(max) ==> self.run_count <= max
        &&& self.job_type is Once ==> self.max_runs == Some(1i64)
    }

    /// Whether the job may not run again: it has run as often as it may,
    /// or its counter is at its end.
    pub open spec fn exhausted(self) -> bool {
        ||| self.max_runs matches Some(max) && self.run_count >= max
        ||| self.run_count == i64::MAX
    }

    /// A job of `job_type` as it is when made: it waits, has not run, may
    /// run without bound and is written to durable storage.
    pub open spec fn fresh(
        id: Seq<char>,
        name: Seq<char>,
        job_type: JobTypeView,
        handler: Seq<char>,
        created_at: i64,
    ) -> JobView {
        JobView {
            id,
            name,
            description: None,
            job_type,
            status: JobStatus::Pending,
            handler,
            handler_args: None,
            created_at,
            last_run: None,
            next_run: None,
            run_count: 0,
            max_runs: None,
            persistent: true,
        }
    }
}

impl Job {
    /// A job called `name` that runs `handler` whenever the cron
    /// expression says, with the id `id`, made at `created_at`.
    pub fn cron_with(id: String, created_at: i64, name: &str, expression: &str, handler: &str) -> (job:
        Job)
        ensures
            job@ == JobView::fresh(
                id@,
                name@,
                JobTypeView::Cron { expression: expression@ },
                handler@,
                created_at,
            ),
            job@.wf(),
    {
        Job {
            id,
            name: name.to_owned(),
            description: None,
            job_type: JobType::Cron { expression: expression.to_owned() },
            status: JobStatus::Pending,
            handler: handler.to_owned(),
            handler_args: None,
            created_at,
            last_run: None,
            next_run: None,
            run_count: 0,
            max_runs: None,
            persistent: true,
        }
    }

    /// A job called `name` that runs `handler` whenever the cron
    /// expression says. Its id is fresh and it is made now.
    pub fn new_cron(name: &str, expression: &str, handler: &str) -> (job: Job)
        ensures
            job@ == JobView::fresh(
                job@.id,
                name@,
                JobTypeView::Cron { expression: expression@ },
                handler@,
                job@.created_at,
            ),
            job@.wf(),
            job@.id.len() == 36,
    {
        Job::cron_with(fresh_id(), now_millis(), name, expression, handler)
    }

    /// A job called `name` that runs `handler` every `seconds` seconds,
    /// with the id `id`, made at `created_at`.
    pub fn interval_with(id: String, created_at: i64, name: &str, seconds: u64, handler: &str) -> (job:
        Job)
        ensures
            job@ == JobView::fresh(
                id@,
                name@,
                JobTypeView::Interval { seconds },
                handler@,
                created_at,
            ),
            job@.wf(),
    {
        Job {
            id,
            name: name.to_owned(),
            description: None,
            job_type: JobType::Interval { seconds },
            status: JobStatus::Pending,
            handler: handler.to_owned(),
            handler_args: None,
            created_at,
            last_run: None,
            next_run: None,
            run_count: 0,
            max_runs: None,
            persistent: true,
        }
    }

    /// A job called `name` that runs `handler` every `seconds` seconds.
    /// Its id is fresh and it is made now.
    pub fn new_interval(name: &str, seconds: u64, handler: &str) -> (job: Job)
        ensures
            job@ == JobView::fresh(
                job@.id,
                name@,
                JobTypeView::Interval { seconds },
                handler@,
                job@.created_at,
            ),
            job@.wf(),
            job@.id.len() == 36,
    {
        Job::interval_with(fresh_id(), now_millis(), name, seconds, handler)
    }

    /// A job called `name` that runs `handler` once, at `run_at`, with the
    /// id `id`, made at `created_at`. It may run once.
    pub fn once_with(id: String, created_at: i64, name: &str, run_at: i64, handler: &str) -> (job:
        Job)
        ensures
            job@ == (JobView {
                next_run: Some(run_at),
                max_runs: Some(1i64),
                ..JobView::fresh(id@, name@, JobTypeView::Once { run_at }, handler@, created_at)
            }),
            job@.wf(),
    {
        Job {
            id,
            name: name.to_owned(),
            description: None,
            job_type: JobType::Once { run_at },
            status: JobStatus::Pending,
            handler: handler.to_owned(),
            handler_args: None,
            created_at,
            last_run: None,
            next_run: Some(run_at),
            run_count: 0,
            max_runs: Some(1),
            persistent: true,
        }
    }

    /// A job called `name` that runs `handler` once, at `run_at`. Its id is
    /// fresh and it is made now.
    pub fn new_once(name: &str, run_at: i64, handler: &str) -> (job: Job)
        ensures
            job@ == (JobView {
                next_run: Some(run_at),
                max_runs: Some(1i64),
                ..JobView::fresh(
                    job@.id,
                    name@,
                    JobTypeView::Once { run_at },
                    handler@,
                    job@.created_at,
                )
            }),
            job@.wf(),
            job@.id.len() == 36,
    {
        Job::once_with(fresh_id(), now_millis(), name, run_at, handler)
    }

    /// The same job, described by `desc`.
    pub fn with_description(self, desc: &str) -> (job: Job)
        ensures
            job@ == (JobView { description: Some(desc@), ..self@ }),
    {
        let mut job = self;
        job.description = Some(desc.to_owned());
        job
    }

    /// The same job, whose handler is called with `args`.
    pub fn with_args(self, args: serde_json::Value) -> (job: Job)
        ensures
            job@ == (JobView { handler_args: Some(args), ..self@ }),
    {
        let mut job = self;
        job.handler_args = Some(args);
        job
    }

    /// The same job, allowed to run `max` times. A one-shot job stays at
    /// one run.
    pub fn with_max_runs(self, max: i64) -> (job: Job)
        ensures
            job@ == (JobView {
                max_runs: if self.job_type is Once {
                    self.max_runs
                } else {
                    Some(max)
                },
                ..self@
            }),
            self@.wf() && max >= self.run_count ==> job@.wf(),
    {
        let mut job = self;
        match job.job_type {
            JobType::Once { .. } => {},
            _ => {
                job.max_runs = Some(max);
            },
        }
        job
    }

    /// The same job, kept in memory only.
    pub fn non_persistent(self) -> (job: Job)
        ensures
            job@ == (JobView { persistent: false, ..self@ }),
    {
        let mut job = self;
        job.persistent = false;
        job
    }

    /// Whether the job may not run again.
    pub fn exhausted(&self) -> (b: bool)
        ensures
            b == self@.exhausted(),
    {
        let reached = match self.max_runs {
            Some(max) => self.run_count >= max,
            None => false,
        };
        reached || self.run_count == i64::MAX
    }

    /// The job as a row of durable storage.
    pub fn to_row(&self) -> (row: JobRow)
        ensures
            row.holds(self@),
    {
        let handler_args = match &self.handler_args {
            Some(v) => Some(value_text(v)),
            None => None,
        };
        JobRow {
            id: self.id.clone(),
            name: self.name.clone(),
            description: clone_opt_string(&self.description),
            job_type: Some(self.job_type.clone()),
            status: self.status.as_str().to_owned(),
            handler: self.handler.clone(),
            handler_args,
            created_at: self.created_at,
            last_run: self.last_run,
            next_run: self.next_run,
            run_count: self.run_count,
            max_runs: self.max_runs,
            persistent: self.persistent,
        }
    }
}

/// A job as a row of durable storage.
#[derive(Debug)]
pub struct JobRow {
    pub id: String,
    pub name: String,
    pub description: Option<String>,
    /// When the job is due; `None` where what was stored cannot be read.
    pub job_type: Option<JobType>,
    /// The name of the status.
    pub status: String,
    pub handler: String,
    /// The arguments of the handler, as JSON text.
    pub handler_args: Option<String>,
    pub created_at: i64,
    pub last_run: Option<i64>,
    pub next_run: Option<i64>,
    pub run_count: i64,
    pub max_runs: Option<i64>,
    pub persistent: bool,
}

impl JobRow {
    /// The text that reports a row whose kind of job cannot be read.
    pub open spec fn unreadable_text() -> Seq<char> {
        "无法解析任务类型"@
    }

    /// Whether the row holds `job`, field by field, with the status by its
    /// name and the arguments of the handler as their JSON text.
    pub open spec fn holds(&self, job: JobView) -> bool {
        &&& self.id@ == job.id
        &&& self.name@ == job.name
        &&& self.description.deep_view() == job.description
        &&& self.job_type.deep_view() == Some(job.job_type)
        &&& self.status@ == job.status.spec_as_str()
        &&& self.handler@ == job.handler
        &&& self.handler_args.deep_view() == (match job.handler_args {
            Some(value) => Some(json_text(value)),
            None => None,
        })
        &&& self.created_at == job.created_at
        &&& self.last_run == job.last_run
        &&& self.next_run == job.next_run
        &&& self.run_count == job.run_count
        &&& self.max_runs == job.max_runs
        &&& self.persistent == job.persistent
    }

    /// Whether `job` is what the row is read as, field by field: a status
    /// of an unknown name is taken as pending, and the arguments are the
    /// value that their text is read as, or none where it is not JSON.
    pub open spec fn yields(&self, job: JobView) -> bool {
        &&& self.id@ == job.id
        &&& self.name@ == job.name
        &&& self.description.deep_view() == job.description
        &&& self.job_type.deep_view() == Some(job.job_type)
        &&& job.status == JobStatus::spec_from_stored(self.status@)
        &&& self.handler@ == job.handler
        &&& job.handler_args == (match self.handler_args {
            Some(text) => if json_well_formed(text@) {
                Some(json_value(text@))
            } else {
                None
            },
            None => None,
        })
        &&& self.created_at == job.created_at
        &&& self.last_run == job.last_run
        &&& self.next_run == job.next_run
        &&& self.run_count == job.run_count
        &&& self.max_runs == job.max_runs
        &&& self.persistent == job.persistent
    }

    /// Whether the row is loaded when the scheduler starts from durable
    /// storage: it is, unless its job is completed or not persistent.
    pub open spec fn spec_is_loaded(&self) -> bool {
        self.status@ != "completed"@ && self.persistent
    }

    /// The job that the row holds. A row whose kind of job cannot be read
    /// holds none.
    pub fn to_job(&self) -> (r: Result<Job, NanobotError>)
        ensures
            match r {
                Ok(job) => self.yields(job@),
                Err(e) => self.job_type is None && e@ == ErrorView::Unknown(
                    JobRow::unreadable_text(),
                ),
            },
    {
        let job_type = match &self.job_type {
            Some(t) => t.clone(),
            None => {
                return Err(NanobotError::Unknown("无法解析任务类型".to_owned()));
            },
        };
        let handler_args = match &self.handler_args {
            Some(text) => match parse_value(text.as_str()) {
                Ok(value) => Some(value),
                Err(_) => None,
            },
            None => None,
        };
        Ok(
            Job {
                id: self.id.clone(),
                name: self.name.clone(),
                description: clone_opt_string(&self.description),
                job_type,
                status: JobStatus::from_stored(self.status.as_str()),
                handler: self.handler.clone(),
                handler_args,
                created_at: self.created_at,
                last_run: self.last_run,
                next_run: self.next_run,
                run_count: self.run_count,
                max_runs: self.max_runs,
                persistent: self.persistent,
            },
        )
    }

    /// Whether the row is loaded when the scheduler starts from durable
    /// storage: it is, unless its job is completed or not persistent.
    pub fn is_loaded(&self) -> (b: bool)
        ensures
            b == self.spec_is_loaded(),
    {
        !str_eq(self.status.as_str(), "completed") && self.persistent
    }
}

/// Someone who does the work of the jobs that name it. Doing the work is
/// left to the program around the library.
pub trait JobHandler {
    /// The name that jobs call the handler by.
    fn name(&self) -> &str;
}

/// When the timer is to call back for a job.
#[derive(Debug)]
pub enum Trigger {
    /// Whenever the cron expression says.
    Cron { expression: String },
    /// Every `seconds` seconds.
    Every { seconds: u64 },
    /// Once, after `millis` milliseconds.
    After { millis: u64 },
}

/// `Trigger` as contracts see it.
pub enum TriggerView {
    Cron { expression: Seq<char> },
    Every { seconds: u64 },
    After { millis: u64 },
}

impl View for Trigger {
    type V = TriggerView;

    open spec fn view(&self) -> TriggerView {
        match self {
            Trigger::Cron { expression } => TriggerView::Cron { expression: expression@ },
            Trigger::Every { seconds } => TriggerView::Every { seconds: *seconds },
            Trigger::After { millis } => TriggerView::After { millis: *millis },
        }
    }
}

/// What is to be registered with the timer for a job.
#[derive(Debug)]
pub struct Registration {
    pub job_id: String,
    pub trigger: Trigger,
}

/// `Registration` as contracts see it.
pub struct RegistrationView {
    pub job_id: Seq<char>,
    pub trigger: TriggerView,
}

impl DeepView for Registration {
    type V = RegistrationView;

    open spec fn deep_view(&self) -> RegistrationView {
        RegistrationView { job_id: self.job_id@, trigger: self.trigger@ }
    }
}

impl View for Registration {
    type V = RegistrationView;

    open spec fn view(&self) -> RegistrationView {
        self.deep_view()
    }
}

/// The trigger of a job of `job_type` that is registered at `now`: a
/// one-shot job is due after what is left until its time, or at once where
/// its time has passed.
pub open spec fn trigger_at(job_type: JobTypeView, now: i64) -> TriggerView {
    match job_type {
        JobTypeView::Cron { expression } => TriggerView::Cron { expression },
        JobTypeView::Interval { seconds } => TriggerView::Every { seconds },
        JobTypeView::Once { run_at } => TriggerView::After {
            millis: if run_at > now {
                (run_at - now) as u64
            } else {
                0
            },
        },
    }
}

/// What is registered with the timer for `job` at `now`.
pub open spec fn registration_at(job: JobView, now: i64) -> RegistrationView {
    RegistrationView { job_id: job.id, trigger: trigger_at(job.job_type, now) }
}

/// What is written to durable storage after a run: the fields that a run
/// changes.
#[derive(Debug)]
pub struct StatusUpdate {
    pub job_id: String,
    pub status: JobStatus,
    pub last_run: Option<i64>,
    pub run_count: i64,
}

/// `StatusUpdate` as contracts see it.
pub struct StatusUpdateView {
    pub job_id: Seq<char>,
    pub status: JobStatus,
    pub last_run: Option<i64>,
    pub run_count: i64,
}

impl View for StatusUpdate {
    type V = StatusUpdateView;

    open spec fn view(&self) -> StatusUpdateView {
        StatusUpdateView {
            job_id: self.job_id@,
            status: self.status,
            last_run: self.last_run,
            run_count: self.run_count,
        }
    }
}

/// What the timer's callback is told.
#[derive(Debug)]
pub enum Execution {
    /// Nothing is to be done: the job is gone, or may not run again.
    Skip,
    /// The handler is to be run for the job, and `finish_execution` told
    /// how it went.
    Run(Job),
    /// The job's handler is not registered: the job has failed.
    Failed(Option<StatusUpdate>),
}

/// `Execution` as contracts see it.
pub enum ExecutionView {
    Skip,
    Run(JobView),
    Failed(Option<StatusUpdateView>),
}

impl View for Execution {
    type V = ExecutionView;

    open spec fn view(&self) -> ExecutionView {
        match self {
            Execution::Skip => ExecutionView::Skip,
            Execution::Run(job) => ExecutionView::Run(job@),
            Execution::Failed(update) => ExecutionView::Failed(
                match update {
                    Some(u) => Some(u@),
                    None => None,
                },
            ),
        }
    }
}

/// What adding a job asks of the program around the library.
#[derive(Debug)]
pub struct Added {
    pub job_id: String,
    /// The row to write to durable storage, if the job is kept there.
    pub save: Option<JobRow>,
    /// What to register with the timer, if the scheduler runs.
    pub register: Option<Registration>,
}

/// The scheduler as contracts see it.
pub struct SchedulerView {
    /// The jobs, no two with the same id.
    pub jobs: Seq<JobView>,
    /// The names of the registered handlers.
    pub handlers: Seq<Seq<char>>,
    pub running: bool,
    /// Whether jobs are written to durable storage.
    pub durable: bool,
}

/// `handlers` with the handler `name` among them.
pub open spec fn with_handler(handlers: Seq<Seq<char>>, name: Seq<char>) -> Seq<Seq<char>> {
    if handlers.contains(name) {
        handlers
    } else {
        handlers.push(name)
    }
}

/// The position of the job `id` in `jobs`, if it is among them.
pub open spec fn job_index(jobs: Seq<JobView>, id: Seq<char>) -> Option<int> {
    if exists|i: int| 0 <= i < jobs.len() && #[trigger] jobs[i].id == id {
        Some(choose|i: int| 0 <= i < jobs.len() && #[trigger] jobs[i].id == id)
    } else {
        None
    }
}

/// No two of `jobs` have the same id.
pub open spec fn distinct_ids(jobs: Seq<JobView>) -> bool {
    forall|i: int, j: int| 0 <= i < j < jobs.len() ==> #[trigger] jobs[i].id != #[trigger] jobs[j].id
}

/// Whether the job `id` is among `jobs` and is written to durable storage.
pub open spec fn kept_durably(jobs: Seq<JobView>, id: Seq<char>) -> bool {
    match job_index(jobs, id) {
        Some(i) => jobs[i].persistent,
        None => false,
    }
}

/// `jobs` with `job` put under its id: in the place of the job that had
/// the id, or last.
pub open spec fn put_job(jobs: Seq<JobView>, job: JobView) -> Seq<JobView> {
    match job_index(jobs, job.id) {
        Some(i) => jobs.update(i, job),
        None => jobs.push(job),
    }
}

/// `jobs` without the job `id`.
pub open spec fn without_job(jobs: Seq<JobView>, id: Seq<char>) -> Seq<JobView> {
    match job_index(jobs, id) {
        Some(i) => jobs.remove(i),
        None => jobs,
    }
}

/// Whether `read` is what the row `row` gives when the scheduler starts
/// from durable storage: its job, if the row is loaded and can be read, and
/// else nothing.
pub open spec fn read_as(row: JobRow, read: Option<JobView>) -> bool {
    match read {
        Some(job) => row.spec_is_loaded() && row.yields(job),
        None => !row.spec_is_loaded() || row.job_type is None,
    }
}

/// Whether `read` is what `rows` give, row by row.
pub open spec fn reads(rows: Seq<JobRow>, read: Seq<Option<JobView>>) -> bool {
    &&& read.len() == rows.len()
    &&& forall|i: int| 0 <= i < rows.len() ==> read_as(#[trigger] rows[i], read[i])
}

/// `jobs` with the jobs of `read` put under their ids, one after the
/// other.
pub open spec fn put_all(jobs: Seq<JobView>, read: Seq<Option<JobView>>) -> Seq<JobView>
    decreases read.len(),
{
    if read.len() == 0 {
        jobs
    } else {
        let before = put_all(jobs, read.drop_last());
        match read.last() {
            Some(job) => put_job(before, job),
            None => before,
        }
    }
}

/// `job` as a run leaves its timer: it runs, its last run was `now`, and
/// it has run once more.
pub open spec fn started(job: JobView, now: i64) -> JobView {
    JobView {
        status: JobStatus::Running,
        last_run: Some(now),
        run_count: (job.run_count + 1) as i64,
        ..job
    }
}

/// The status of a job whose handler has run: a failure leaves it failed;
/// after a success a one-shot job is completed and any other waits again.
pub open spec fn status_after(job_type: JobTypeView, success: bool) -> JobStatus {
    if !success {
        JobStatus::Failed
    } else if job_type is Once {
        JobStatus::Completed
    } else {
        JobStatus::Pending
    }
}

/// What the callback for the job `id` is told at `now`, and the jobs
/// afterwards. A job that is gone or exhausted is skipped, and nothing
/// changes. A job whose handler is not registered is counted as run and
/// left failed. Any other is to be run, counted as it will be when the run
/// is over; the jobs are not touched until then.
pub open spec fn begin_at(s: SchedulerView, id: Seq<char>, now: i64) -> (SchedulerView, ExecutionView) {
    match job_index(s.jobs, id) {
        None => (s, ExecutionView::Skip),
        Some(i) => {
            let job = s.jobs[i];
            if job.exhausted() {
                (s, ExecutionView::Skip)
            } else if !s.handlers.contains(job.handler) {
                let failed = JobView { status: JobStatus::Failed, ..started(job, now) };
                (
                    SchedulerView { jobs: s.jobs.update(i, failed), ..s },
                    ExecutionView::Failed(update_for(s, failed)),
                )
            } else {
                (s, ExecutionView::Run(started(job, now)))
            }
        },
    }
}

/// What is written to durable storage for `job` after a run.
pub open spec fn update_for(s: SchedulerView, job: JobView) -> Option<StatusUpdateView> {
    if s.durable {
        Some(
            StatusUpdateView {
                job_id: job.id,
                status: job.status,
                last_run: job.last_run,
                run_count: job.run_count,
            },
        )
    } else {
        None
    }
}

/// The jobs after the run of `job` is over, and what is written to durable
/// storage: the job takes its new status and is put under its id.
pub open spec fn finish(s: SchedulerView, job: JobView, success: bool) -> (
    SchedulerView,
    Option<StatusUpdateView>,
) {
    let done = JobView { status: status_after(job.job_type, success), ..job };
    (SchedulerView { jobs: put_job(s.jobs, done), ..s }, update_for(s, done))
}

/// The jobs that wait, as they are registered with the timer at `now`.
pub open spec fn pending_registrations(jobs: Seq<JobView>, now: i64) -> Seq<RegistrationView> {
    jobs.filter(|job: JobView| job.status == JobStatus::Pending).map_values(
        |job: JobView| registration_at(job, now),
    )
}

/// The jobs and handlers, and whether the timer runs.
#[derive(Debug)]
pub struct Scheduler {
    jobs: Vec<Job>,
    handlers: Vec<String>,
    running: bool,
    durable: bool,
}

impl View for Scheduler {
    type V = SchedulerView;

    closed spec fn view(&self) -> SchedulerView {
        SchedulerView {
            jobs: self.jobs.deep_view(),
            handlers: self.handlers.deep_view(),
            running: self.running,
            durable: self.durable,
        }
    }
}

impl Scheduler {
    /// What holds of every scheduler: no two jobs have the same id.
    pub open spec fn wf(&self) -> bool {
        distinct_ids(self@.jobs)
    }

    /// A scheduler without jobs that keeps them in memory only.
    pub fn new() -> (s: Scheduler)
        ensures
            s.wf(),
            s@ == (SchedulerView {
                jobs: Seq::empty(),
                handlers: Seq::empty(),
                running: false,
                durable: false,
            }),
    {
        let s = Scheduler { jobs: Vec::new(), handlers: Vec::new(), running: false, durable: false };
        assert(s.jobs.deep_view() =~= Seq::<JobView>::empty());
        assert(s.handlers.deep_view() =~= Seq::<Seq<char>>::empty());
        s
    }

    fn find(&self, id: &str) -> (r: Option<usize>)
        requires
            self.wf(),
        ensures
            match r {
                Some(i) => job_index(self@.jobs, id@) == Some(i as int) && i < self.jobs.len()
                    && self.jobs@[i as int]@ == self@.jobs[i as int],
                None => job_index(self@.jobs, id@) is None,
            },
    {
        let mut i: usize = 0;
        while i < self.jobs.len()
            invariant
                i <= self.jobs.len(),
                self.wf(),
                forall|k: int| 0 <= k < i ==> self.jobs@[k]@.id != id@,
            decreases self.jobs.len() - i,
        {
            if str_eq(self.jobs[i].id.as_str(), id) {
                proof {
                    let jobs = self@.jobs;
                    assert(jobs[i as int].id == id@);
                    let c = choose|c: int| 0 <= c < jobs.len() && #[trigger] jobs[c].id == id@;
                    assert(c == i);
                }
                return Some(i);
            }
            i += 1;
        }
        proof {
            let jobs = self@.jobs;
            assert forall|k: int| 0 <= k < jobs.len() implies #[trigger] jobs[k].id != id@ by {
                assert(jobs[k] == self.jobs@[k]@);
            }
        }
        None
    }

    fn put(&mut self, job: Job)
        requires
            old(self).wf(),
        ensures
            final(self).wf(),
            final(self)@ == (SchedulerView { jobs: put_job(old(self)@.jobs, job@), ..old(self)@ }),
    {
        let ghost before = self@.jobs;
        let ghost j = job@;
        match self.find(job.id.as_str()) {
            Some(i) => {
                self.jobs.set(i, job);
                assert(self.jobs.deep_view() =~= before.update(i as int, j));
            },
            None => {
                self.jobs.push(job);
                assert(self.jobs.deep_view() =~= before.push(j));
            },
        }
    }

    /// A scheduler that writes its jobs to durable storage, with the jobs
    /// that `rows` hold: the rows that are loaded and can be read give their
    /// jobs in order, a later row taking the place of an earlier one with
    /// the same id. Nothing is registered with the timer.
    pub fn with_db(rows: Vec<JobRow>) -> (s: Scheduler)
        ensures
            s.wf(),
            s@.durable,
            !s@.running,
            s@.handlers == Seq::<Seq<char>>::empty(),
            exists|read: Seq<Option<JobView>>|
                #[trigger] reads(rows@, read) && s@.jobs == put_all(Seq::empty(), read),
    {
        let mut s = Scheduler { jobs: Vec::new(), handlers: Vec::new(), running: false, durable: true };
        assert(s.jobs.deep_view() =~= Seq::<JobView>::empty());
        assert(s.handlers.deep_view() =~= Seq::<Seq<char>>::empty());
        let ghost mut read: Seq<Option<JobView>> = Seq::empty();
        let mut k: usize = 0;
        while k < rows.len()
            invariant
                k <= rows.len(),
                s.wf(),
                s@.durable,
                !s@.running,
                s@.handlers == Seq::<Seq<char>>::empty(),
                reads(rows@.take(k as int), read),
                s@.jobs == put_all(Seq::empty(), read),
            decreases rows.len() - k,
        {
            let ghost mut one: Option<JobView> = None;
            if rows[k].is_loaded() {
                match rows[k].to_job() {
                    Ok(job) => {
                        proof {
                            one = Some(job@);
                        }
                        s.put(job);
                    },
                    Err(_) => {},
                }
            }
            proof {
                let next = read.push(one);
                assert(next.drop_last() =~= read);
                assert(rows@.take(k + 1) =~= rows@.take(k as int).push(rows@[k as int]));
                assert forall|i: int| 0 <= i < next.len() implies read_as(
                    #[trigger] rows@.take(k + 1)[i],
                    next[i],
                ) by {
                    if i < k {
                        assert(rows@.take(k as int)[i] == rows@.take(k + 1)[i]);
                        assert(read_as(rows@.take(k as int)[i], read[i]));
                    }
                }
                read = next;
            }
            k += 1;
        }
        assert(rows@.take(rows@.len() as int) =~= rows@);
        s
    }

    /// Registers the handler called `name`.
    pub fn register_handler(&mut self, name: &str)
        requires
            old(self).wf(),
        ensures
            final(self).wf(),
            final(self)@ == (SchedulerView {
                handlers: with_handler(old(self)@.handlers, name@),
                ..old(self)@
            }),
            final(self)@.handlers.contains(name@),
    {
        if !contains_str(&self.handlers, name) {
            let ghost before = self.handlers.deep_view();
            self.handlers.push(name.to_owned());
            assert(self.handlers.deep_view() =~= before.push(name@));
            assert(self.handlers.deep_view()[before.len() as int] == name@);
        }
    }

    /// Registers `handler` under the name that it gives.
    pub fn register<H: JobHandler>(&mut self, handler: &H)
        requires
            old(self).wf(),
        ensures
            final(self).wf(),
            final(self)@.jobs == old(self)@.jobs,
            final(self)@.running == old(self)@.running,
            final(self)@.durable == old(self)@.durable,
            exists|name: Seq<char>|
                final(self)@.handlers == #[trigger] with_handler(old(self)@.handlers, name),
    {
        let name = handler.name();
        self.register_handler(name);
        assert(self@.handlers == with_handler(old(self)@.handlers, name@));
    }

    /// What is registered with the timer for `job`, as of now.
    pub fn schedule_job(job: &Job) -> (r: Registration)
        ensures
            exists|now: i64| r@ == registration_at(job@, now),
    {
        let now = now_millis();
        let r = Scheduler::schedule_job_at(job, now);
        assert(r@ == registration_at(job@, now));
        r
    }

    /// What is registered with the timer for `job` at `now`.
    pub fn schedule_job_at(job: &Job, now: i64) -> (r: Registration)
        ensures
            r@ == registration_at(job@, now),
    {
        let trigger = match &job.job_type {
            JobType::Cron { expression } => Trigger::Cron { expression: expression.clone() },
            JobType::Interval { seconds } => Trigger::Every { seconds: *seconds },
            JobType::Once { run_at } => {
                let millis: u64 = if *run_at > now {
                    (*run_at as i128 - now as i128) as u64
                } else {
                    0
                };
                Trigger::After { millis }
            },
        };
        Registration { job_id: job.id.clone(), trigger }
    }

    /// Adds `job` under its id, in place of a job that had the id. The job
    /// is written to durable storage if it and the scheduler are set up for
    /// that, and registered with the timer if the scheduler runs.
    pub fn add_job(&mut self, job: Job) -> (added: Added)
        requires
            old(self).wf(),
        ensures
            final(self).wf(),
            final(self)@ == (SchedulerView { jobs: put_job(old(self)@.jobs, job@), ..old(self)@ }),
            added.job_id@ == job@.id,
            added.save is Some == (old(self)@.durable && job.persistent),
            added.save matches Some(row) ==> row.holds(job@),
            added.register is Some == old(self)@.running,
            added.register matches Some(r) ==> exists|now: i64| r@ == registration_at(job@, now),
    {
        let job_id = job.id.clone();
        let save = if self.durable && job.persistent {
            Some(job.to_row())
        } else {
            None
        };
        let register = if self.running {
            Some(Scheduler::schedule_job(&job))
        } else {
            None
        };
        self.put(job);
        Added { job_id, save, register }
    }

    /// What the callback for the job `job_id` is told, as of now.
    pub fn execute_job(&mut self, job_id: &str) -> (execution: Execution)
        requires
            old(self).wf(),
        ensures
            final(self).wf(),
            exists|now: i64| (final(self)@, execution@) == begin_at(old(self)@, job_id@, now),
    {
        let now = now_millis();
        let execution = self.execute_job_at(job_id, now);
        assert((self@, execution@) == begin_at(old(self)@, job_id@, now));
        execution
    }

    /// What the callback for the job `job_id` is told at `now`.
    pub fn execute_job_at(&mut self, job_id: &str, now: i64) -> (execution: Execution)
        requires
            old(self).wf(),
        ensures
            final(self).wf(),
            (final(self)@, execution@) == begin_at(old(self)@, job_id@, now),
    {
        let i = match self.find(job_id) {
            Some(i) => i,
            None => {
                return Execution::Skip;
            },
        };
        if self.jobs[i].exhausted() {
            return Execution::Skip;
        }
        let mut job = self.jobs[i].clone();
        job.status = JobStatus::Running;
        job.last_run = Some(now);
        job.run_count = job.run_count + 1;
        if contains_str(&self.handlers, job.handler.as_str()) {
            return Execution::Run(job);
        }
        job.status = JobStatus::Failed;
        let update = if self.durable {
            Some(
                StatusUpdate {
                    job_id: job.id.clone(),
                    status: job.status,
                    last_run: job.last_run,
                    run_count: job.run_count,
                },
            )
        } else {
            None
        };
        let ghost before = self@.jobs;
        let ghost j = job@;
        self.jobs.set(i, job);
        assert(self.jobs.deep_view() =~= before.update(i as int, j));
        Execution::Failed(update)
    }

    /// Takes note that the run of `job` is over, with or without success.
    pub fn finish_execution(&mut self, job: Job, success: bool) -> (update: Option<StatusUpdate>)
        requires
            old(self).wf(),
        ensures
            final(self).wf(),
            (final(self)@, match update {
                Some(u) => Some(u@),
                None => None,
            }) == finish(old(self)@, job@, success),
    {
        let mut job = job;
        job.status = if !success {
            JobStatus::Failed
        } else {
            match job.job_type {
                JobType::Once { .. } => JobStatus::Completed,
                _ => JobStatus::Pending,
            }
        };
        let update = if self.durable {
            Some(
                StatusUpdate {
                    job_id: job.id.clone(),
                    status: job.status,
                    last_run: job.last_run,
                    run_count: job.run_count,
                },
            )
        } else {
            None
        };
        self.put(job);
        update
    }

    /// Starts the scheduler: gives what is to be registered with the timer
    /// for the jobs that wait, as of now, in the order of the jobs.
    pub fn start(&mut self) -> (registrations: Vec<Registration>)
        requires
            old(self).wf(),
        ensures
            final(self).wf(),
            final(self)@ == (SchedulerView { running: true, ..old(self)@ }),
            exists|now: i64|
                registrations.deep_view() == pending_registrations(old(self)@.jobs, now),
    {
        let now = now_millis();
        let registrations = self.start_at(now);
        assert(registrations.deep_view() == pending_registrations(old(self)@.jobs, now));
        registrations
    }

    /// Starts the scheduler at `now`.
    pub fn start_at(&mut self, now: i64) -> (registrations: Vec<Registration>)
        requires
            old(self).wf(),
        ensures
            final(self).wf(),
            final(self)@ == (SchedulerView { running: true, ..old(self)@ }),
            registrations.deep_view() == pending_registrations(old(self)@.jobs, now),
    {
        let mut registrations: Vec<Registration> = Vec::new();
        let ghost jobs = self.jobs.deep_view();
        let ghost waits = |job: JobView| job.status == JobStatus::Pending;
        let ghost reg = |job: JobView| registration_at(job, now);
        assert(jobs.subrange(0, 0) =~= Seq::<JobView>::empty());
        assert(registrations.deep_view() =~= jobs.subrange(0, 0).filter(waits).map_values(reg));
        let mut i: usize = 0;
        while i < self.jobs.len()
            invariant
                i <= self.jobs.len(),
                jobs == self.jobs.deep_view(),
                waits == (|job: JobView| job.status == JobStatus::Pending),
                reg == (|job: JobView| registration_at(job, now)),
                registrations.deep_view() == jobs.subrange(0, i as int).filter(waits).map_values(
                    reg,
                ),
            decreases self.jobs.len() - i,
        {
            proof {
                let done = jobs.subrange(0, i as int);
                let next = jobs.subrange(0, i + 1);
                assert(jobs[i as int] == self.jobs@[i as int]@);
                assert(next =~= done.push(jobs[i as int]));
                assert(next.drop_last() =~= done);
                reveal(Seq::filter);
                assert(next.filter(waits) == if waits(jobs[i as int]) {
                    done.filter(waits).push(jobs[i as int])
                } else {
                    done.filter(waits)
                });
            }
            match self.jobs[i].status {
                JobStatus::Pending => {
                    let ghost before = registrations.deep_view();
                    let r = Scheduler::schedule_job_at(&self.jobs[i], now);
                    registrations.push(r);
                    assert(registrations.deep_view() =~= before.push(reg(jobs[i as int])));
                    assert(jobs.subrange(0, i as int).filter(waits).push(jobs[i as int]).map_values(
                        reg,
                    ) =~= before.push(reg(jobs[i as int])));
                },
                _ => {},
            }
            i += 1;
        }
        assert(jobs.subrange(0, jobs.len() as int) =~= jobs);
        self.running = true;
        registrations
    }

    /// Stops the scheduler. The jobs stay as they are, so that a later
    /// start can register them again.
    pub fn stop(&mut self)
        ensures
            final(self)@ == (SchedulerView { running: false, ..old(self)@ }),
    {
        self.running = false;
    }

    /// Whether the scheduler runs.
    pub fn is_running(&self) -> (b: bool)
        ensures
            b == self@.running,
    {
        self.running
    }

    /// The job `job_id`, if there is one.
    pub fn get_job(&self, job_id: &str) -> (r: Option<Job>)
        requires
            self.wf(),
        ensures
            match r {
                Some(job) => job_index(self@.jobs, job_id@) matches Some(i) && self@.jobs[i]
                    == job@,
                None => job_index(self@.jobs, job_id@) is None,
            },
    {
        match self.find(job_id) {
            Some(i) => Some(self.jobs[i].clone()),
            None => None,
        }
    }

    /// The jobs.
    pub fn list_jobs(&self) -> (jobs: Vec<Job>)
        ensures
            jobs.deep_view() == self@.jobs,
    {
        let mut jobs: Vec<Job> = Vec::new();
        let mut i: usize = 0;
        while i < self.jobs.len()
            invariant
                i <= self.jobs.len(),
                jobs.len() == i,
                forall|k: int| 0 <= k < i ==> jobs@[k]@ == self.jobs@[k]@,
            decreases self.jobs.len() - i,
        {
            jobs.push(self.jobs[i].clone());
            i += 1;
        }
        assert(jobs.deep_view() =~= self.jobs.deep_view());
        jobs
    }

    /// Removes the job `job_id`. Tells whether its row is to be deleted
    /// from durable storage.
    pub fn remove_job(&mut self, job_id: &str) -> (delete_row: bool)
        requires
            old(self).wf(),
        ensures
            final(self).wf(),
            final(self)@ == (SchedulerView {
                jobs: without_job(old(self)@.jobs, job_id@),
                ..old(self)@
            }),
            delete_row == old(self)@.durable,
    {
        match self.find(job_id) {
            Some(i) => {
                let ghost before = self@.jobs;
                self.jobs.remove(i);
                assert(self.jobs.deep_view() =~= before.remove(i as int));
            },
            None => {},
        }
        self.durable
    }

    fn set_status(&mut self, job_id: &str, status: JobStatus) -> (save: Option<JobRow>)
        requires
            old(self).wf(),
        ensures
            final(self).wf(),
            final(self)@ == (SchedulerView {
                jobs: match job_index(old(self)@.jobs, job_id@) {
                    Some(i) => old(self)@.jobs.update(
                        i,
                        JobView { status, ..old(self)@.jobs[i] },
                    ),
                    None => old(self)@.jobs,
                },
                ..old(self)@
            }),
            save is Some == (old(self)@.durable && kept_durably(old(self)@.jobs, job_id@)),
            save matches Some(row) ==> row.holds(
                JobView { status, ..old(self)@.jobs[job_index(old(self)@.jobs, job_id@)->Some_0] },
            ),
    {
        match self.find(job_id) {
            Some(i) => {
                let ghost before = self@.jobs;
                let mut job = self.jobs[i].clone();
                job.status = status;
                let save = if self.durable && job.persistent {
                    Some(job.to_row())
                } else {
                    None
                };
                let ghost j = job@;
                self.jobs.set(i, job);
                assert(self.jobs.deep_view() =~= before.update(i as int, j));
                save
            },
            None => None,
        }
    }

    /// Sets the job `job_id` aside. Gives the row to write to durable
    /// storage, if the job is kept there.
    pub fn pause_job(&mut self, job_id: &str) -> (save: Option<JobRow>)
        requires
            old(self).wf(),
        ensures
            final(self).wf(),
            final(self)@ == (SchedulerView {
                jobs: match job_index(old(self)@.jobs, job_id@) {
                    Some(i) => old(self)@.jobs.update(
                        i,
                        JobView { status: JobStatus::Paused, ..old(self)@.jobs[i] },
                    ),
                    None => old(self)@.jobs,
                },
                ..old(self)@
            }),
            save is Some == (old(self)@.durable && kept_durably(old(self)@.jobs, job_id@)),
            save matches Some(row) ==> row.holds(
                JobView {
                    status: JobStatus::Paused,
                    ..old(self)@.jobs[job_index(old(self)@.jobs, job_id@)->Some_0]
                },
            ),
    {
        self.set_status(job_id, JobStatus::Paused)
    }

    /// Lets the job `job_id` wait for its time again. Gives the row to
    /// write to durable storage, if the job is kept there.
    pub fn resume_job(&mut self, job_id: &str) -> (save: Option<JobRow>)
        requires
            old(self).wf(),
        ensures
            final(self).wf(),
            final(self)@ == (SchedulerView {
                jobs: match job_index(old(self)@.jobs, job_id@) {
                    Some(i) => old(self)@.jobs.update(
                        i,
                        JobView { status: JobStatus::Pending, ..old(self)@.jobs[i] },
                    ),
                    None => old(self)@.jobs,
                },
                ..old(self)@
            }),
            save is Some == (old(self)@.durable && kept_durably(old(self)@.jobs, job_id@)),
            save matches Some(row) ==> row.holds(
                JobView {
                    status: JobStatus::Pending,
                    ..old(self)@.jobs[job_index(old(self)@.jobs, job_id@)->Some_0]
                },
            ),
    {
        self.set_status(job_id, JobStatus::Pending)
    }
}

} // verus!
