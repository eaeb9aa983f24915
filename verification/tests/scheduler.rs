use nanobot::cron::{Execution, Job, JobHandler, JobRow, JobStatus, JobType, Scheduler, Trigger};

struct Named(&'static str);

impl JobHandler for Named {
    fn name(&self) -> &str {
        self.0
    }
}

fn id_of(job: &Job) -> String {
    job.id.clone()
}

#[test]
fn test_job_creation() {
    let job = Job::new_cron("test", "0 * * * * *", "test_handler")
        .with_description("测试任务")
        .with_max_runs(10);

    assert_eq!(job.name, "test");
    assert_eq!(job.handler, "test_handler");
    assert_eq!(job.max_runs, Some(10));
    assert!(job.description.is_some());
}

#[test]
fn test_cron_module() {
    let _scheduler = Scheduler::new();

    let job = Job::new_cron("test_cron", "0 * * * * *", "test_handler")
        .with_description("测试 Cron 任务");

    assert_eq!(job.name, "test_cron");
    assert_eq!(job.handler, "test_handler");
    assert!(matches!(job.job_type, JobType::Cron { .. }));
    assert_eq!(job.status, JobStatus::Pending);

    let interval_job = Job::new_interval("test_interval", 60, "test_handler");
    assert!(matches!(interval_job.job_type, JobType::Interval { seconds: 60 }));

    let once_job = Job::new_once("test_once", 1_700_000_000_000, "test_handler");
    assert!(matches!(once_job.job_type, JobType::Once { .. }));
}

#[test]
fn new_jobs_have_fresh_ids_and_defaults() {
    let a = Job::new_interval("a", 5, "h");
    let b = Job::new_interval("b", 5, "h");
    assert_ne!(a.id, b.id);
    assert_eq!(a.id.len(), 36);
    assert_eq!(a.run_count, 0);
    assert_eq!(a.max_runs, None);
    assert!(a.persistent);
    assert!(a.created_at > 1_600_000_000_000);
    assert_eq!(a.last_run, None);
    let once = Job::new_once("o", 42, "h");
    assert_eq!(once.max_runs, Some(1));
    assert_eq!(once.next_run, Some(42));
    // A one-shot job stays at one run.
    assert_eq!(once.with_max_runs(10).max_runs, Some(1));
    assert!(!Job::new_cron("c", "* * * * * *", "h").non_persistent().persistent);
}

#[test]
fn once_job_is_registered_after_what_is_left_or_at_once() {
    let job = Job::once_with("id".to_string(), 0, "o", 10_000, "h");
    match Scheduler::schedule_job_at(&job, 4_000).trigger {
        Trigger::After { millis } => assert_eq!(millis, 6_000),
        other => panic!("unexpected {:?}", other),
    }
    match Scheduler::schedule_job_at(&job, 10_000).trigger {
        Trigger::After { millis } => assert_eq!(millis, 0),
        other => panic!("unexpected {:?}", other),
    }
    match Scheduler::schedule_job_at(&job, 99_000).trigger {
        Trigger::After { millis } => assert_eq!(millis, 0),
        other => panic!("unexpected {:?}", other),
    }
    let far = Job::once_with("id".to_string(), 0, "o", i64::MAX, "h");
    match Scheduler::schedule_job_at(&far, i64::MIN).trigger {
        Trigger::After { millis } => assert_eq!(millis, u64::MAX),
        other => panic!("unexpected {:?}", other),
    }
    let cron = Job::cron_with("c".to_string(), 0, "c", "0 * * * * *", "h");
    match Scheduler::schedule_job_at(&cron, 0).trigger {
        Trigger::Cron { expression } => assert_eq!(expression, "0 * * * * *"),
        other => panic!("unexpected {:?}", other),
    }
    let every = Job::interval_with("i".to_string(), 0, "i", 60, "h");
    match Scheduler::schedule_job_at(&every, 0).trigger {
        Trigger::Every { seconds } => assert_eq!(seconds, 60),
        other => panic!("unexpected {:?}", other),
    }
}

#[test]
fn add_registers_only_while_running_and_saves_only_when_durable() {
    let mut memory_only = Scheduler::new();
    let added = memory_only.add_job(Job::new_interval("a", 1, "h"));
    assert!(added.save.is_none());
    assert!(added.register.is_none());
    assert_eq!(memory_only.start().len(), 1);
    assert!(memory_only.is_running());
    let added = memory_only.add_job(Job::new_interval("b", 1, "h"));
    assert!(added.register.is_some());
    assert_eq!(added.register.unwrap().job_id, added.job_id);

    let mut durable = Scheduler::with_db(Vec::new());
    let added = durable.add_job(Job::new_interval("a", 1, "h"));
    let row = added.save.expect("a persistent job is written");
    assert_eq!(row.status, "pending");
    assert_eq!(row.id, added.job_id);
    let added = durable.add_job(Job::new_interval("b", 1, "h").non_persistent());
    assert!(added.save.is_none());
}

#[test]
fn run_goes_from_pending_to_pending_completed_or_failed() {
    let mut s = Scheduler::new();
    s.register_handler("h");
    let every = Job::new_interval("every", 1, "h");
    let once = Job::new_once("once", 0, "h");
    let (every_id, once_id) = (id_of(&every), id_of(&once));
    s.add_job(every);
    s.add_job(once);

    let ticket = match s.execute_job_at(&every_id, 500) {
        Execution::Run(job) => job,
        other => panic!("unexpected {:?}", other),
    };
    assert_eq!(ticket.status, JobStatus::Running);
    assert_eq!(ticket.last_run, Some(500));
    assert_eq!(ticket.run_count, 1);
    // The job in the scheduler is touched only when the run is over.
    assert_eq!(s.get_job(&every_id).unwrap().run_count, 0);
    assert!(s.finish_execution(ticket, true).is_none());
    let job = s.get_job(&every_id).unwrap();
    assert_eq!(job.status, JobStatus::Pending);
    assert_eq!(job.run_count, 1);
    assert_eq!(job.last_run, Some(500));

    let ticket = match s.execute_job_at(&every_id, 600) {
        Execution::Run(job) => job,
        other => panic!("unexpected {:?}", other),
    };
    s.finish_execution(ticket, false);
    let job = s.get_job(&every_id).unwrap();
    assert_eq!(job.status, JobStatus::Failed);
    assert_eq!(job.run_count, 2);
    // A failed job may run again.
    assert!(matches!(s.execute_job_at(&every_id, 700), Execution::Run(_)));

    let ticket = match s.execute_job_at(&once_id, 500) {
        Execution::Run(job) => job,
        other => panic!("unexpected {:?}", other),
    };
    s.finish_execution(ticket, true);
    assert_eq!(s.get_job(&once_id).unwrap().status, JobStatus::Completed);
}

#[test]
fn handler_is_registered_under_its_name_and_arguments_travel_with_the_job() {
    let mut s = Scheduler::new();
    s.register(&Named("worker"));
    let args = serde_json::Value::from(vec![1, 2, 3]);
    let job = Job::new_interval("j", 1, "worker").with_args(args.clone());
    let id = id_of(&job);
    s.add_job(job);
    assert_eq!(s.get_job(&id).unwrap().handler_args, Some(args.clone()));
    match s.execute_job(&id) {
        Execution::Run(ticket) => {
            assert_eq!(ticket.handler_args, Some(args));
            assert!(ticket.last_run.unwrap() > 1_600_000_000_000);
        },
        other => panic!("unexpected {:?}", other),
    }
}

#[test]
fn unregistered_handler_fails_the_job_without_running_it() {
    let mut s = Scheduler::with_db(Vec::new());
    let job = Job::new_interval("j", 1, "nobody");
    let id = id_of(&job);
    s.add_job(job);
    match s.execute_job_at(&id, 9) {
        Execution::Failed(Some(update)) => {
            assert_eq!(update.job_id, id);
            assert_eq!(update.status, JobStatus::Failed);
            assert_eq!(update.run_count, 1);
            assert_eq!(update.last_run, Some(9));
        },
        other => panic!("unexpected {:?}", other),
    }
    let job = s.get_job(&id).unwrap();
    assert_eq!(job.status, JobStatus::Failed);
    assert_eq!(job.run_count, 1);
}

#[test]
fn exhausted_or_missing_job_is_skipped() {
    let mut s = Scheduler::new();
    s.register_handler("h");
    assert!(matches!(s.execute_job_at("nowhere", 1), Execution::Skip));
    let job = Job::new_interval("j", 1, "h").with_max_runs(2);
    let id = id_of(&job);
    s.add_job(job);
    for now in 0..2 {
        match s.execute_job_at(&id, now) {
            Execution::Run(ticket) => {
                s.finish_execution(ticket, true);
            },
            other => panic!("unexpected {:?}", other),
        }
    }
    assert!(matches!(s.execute_job_at(&id, 3), Execution::Skip));
    assert_eq!(s.get_job(&id).unwrap().run_count, 2);
}

#[test]
fn once_job_fires_at_most_once_across_start_stop_and_restart() {
    let mut s = Scheduler::with_db(Vec::new());
    s.register_handler("h");
    let job = Job::new_once("once", 5_000, "h");
    let id = id_of(&job);
    let mut row: JobRow = s.add_job(job).save.unwrap();
    let mut runs = 0;
    for cycle in 0..3 {
        assert_eq!(s.start_at(cycle).len(), if runs == 0 { 1 } else { 0 });
        s.stop();
    }
    // The first firing fails.
    match s.execute_job_at(&id, 5_000) {
        Execution::Run(ticket) => {
            runs += 1;
            let update = s.finish_execution(ticket, false).unwrap();
            row.status = update.status.as_str().to_string();
            row.run_count = update.run_count;
            row.last_run = update.last_run;
        },
        other => panic!("unexpected {:?}", other),
    }
    assert!(matches!(s.execute_job_at(&id, 5_001), Execution::Skip));
    // The process starts again with what was stored.
    let mut restarted = Scheduler::with_db(vec![row]);
    restarted.register_handler("h");
    assert_eq!(restarted.list_jobs().len(), 1);
    assert_eq!(restarted.get_job(&id).unwrap().run_count, 1);
    restarted.start_at(6_000);
    restarted.stop();
    restarted.start_at(6_001);
    assert!(matches!(restarted.execute_job_at(&id, 6_002), Execution::Skip));
    assert_eq!(runs, 1);
}

#[test]
fn completed_and_transient_rows_are_not_loaded() {
    let done = {
        let mut row = Job::once_with("a".to_string(), 0, "a", 0, "h").to_row();
        row.status = "completed".to_string();
        row
    };
    let transient = Job::cron_with("b".to_string(), 0, "b", "* * * * * *", "h").non_persistent().to_row();
    let unreadable = {
        let mut row = Job::cron_with("c".to_string(), 0, "c", "* * * * * *", "h").to_row();
        row.job_type = None;
        row
    };
    let odd = {
        let mut row = Job::interval_with("d".to_string(), 0, "d", 7, "h").to_row();
        row.status = "whatever".to_string();
        row.handler_args = Some("{not json".to_string());
        row
    };
    assert!(unreadable.to_job().is_err());
    let s = Scheduler::with_db(vec![done, transient, unreadable, odd]);
    let jobs = s.list_jobs();
    assert_eq!(jobs.len(), 1);
    assert_eq!(jobs[0].id, "d");
    assert_eq!(jobs[0].status, JobStatus::Pending);
    assert!(jobs[0].handler_args.is_none());
    assert!(!s.is_running());
}

#[test]
fn row_round_trip_keeps_the_job() {
    let args = serde_json::Value::String("x".to_string());
    let mut job = Job::interval_with("id".to_string(), 11, "n", 3, "h")
        .with_description("d")
        .with_args(args.clone())
        .with_max_runs(4);
    job.status = JobStatus::Paused;
    job.run_count = 2;
    job.last_run = Some(99);
    let row = job.to_row();
    assert_eq!(row.status, "paused");
    assert_eq!(row.handler_args.as_deref(), Some("\"x\""));
    let back = row.to_job().unwrap();
    assert_eq!(back.id, "id");
    assert_eq!(back.name, "n");
    assert_eq!(back.description.as_deref(), Some("d"));
    assert_eq!(back.status, JobStatus::Paused);
    assert_eq!(back.handler_args, Some(args));
    assert_eq!(back.created_at, 11);
    assert_eq!(back.last_run, Some(99));
    assert_eq!(back.run_count, 2);
    assert_eq!(back.max_runs, Some(4));
    assert!(matches!(back.job_type, JobType::Interval { seconds: 3 }));
    assert_eq!(back.job_type.kind(), "interval");
    for status in [
        JobStatus::Pending,
        JobStatus::Running,
        JobStatus::Completed,
        JobStatus::Paused,
        JobStatus::Failed,
    ] {
        assert_eq!(JobStatus::from_stored(status.as_str()), status);
    }
}

#[test]
fn pause_resume_and_remove() {
    let mut s = Scheduler::with_db(Vec::new());
    let job = Job::new_interval("j", 1, "h");
    let id = id_of(&job);
    s.add_job(job);
    let row = s.pause_job(&id).unwrap();
    assert_eq!(row.status, "paused");
    assert_eq!(s.get_job(&id).unwrap().status, JobStatus::Paused);
    // A paused job is not registered on start.
    assert!(s.start_at(0).is_empty());
    let row = s.resume_job(&id).unwrap();
    assert_eq!(row.status, "pending");
    assert_eq!(s.start_at(0).len(), 1);
    assert!(s.pause_job("nowhere").is_none());
    assert!(s.remove_job(&id));
    assert!(s.get_job(&id).is_none());
    assert!(s.list_jobs().is_empty());
    assert!(!Scheduler::new().remove_job("x"));
}

#[test]
fn job_put_under_a_used_id_takes_its_place() {
    let mut s = Scheduler::new();
    s.add_job(Job::cron_with("same".to_string(), 0, "first", "* * * * * *", "h"));
    s.add_job(Job::cron_with("other".to_string(), 0, "other", "* * * * * *", "h"));
    s.add_job(Job::cron_with("same".to_string(), 0, "second", "* * * * * *", "h"));
    let jobs = s.list_jobs();
    assert_eq!(jobs.len(), 2);
    assert_eq!(s.get_job("same").unwrap().name, "second");
    assert_eq!(s.get_job("other").unwrap().name, "other");
}
