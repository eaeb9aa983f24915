//! What holds of the scheduler, whatever is asked of it.

use vstd::prelude::*;
use vstd::string::*;
use crate::cron::{begin_at, distinct_ids, finish, job_index, put_all, put_job, read_as, reads};
use crate::cron::{without_job, ExecutionView, JobRow, JobStatus, JobView, SchedulerView};

verus! {

/// The job `id` of `jobs`, if it is among them.
pub open spec fn lookup(jobs: Seq<JobView>, id: Seq<char>) -> Option<JobView> {
    match job_index(jobs, id) {
        Some(i) => Some(jobs[i]),
        None => None,
    }
}

/// Among jobs with distinct ids a job is found where it stands.
pub proof fn lemma_lookup_at(jobs: Seq<JobView>, i: int)
    requires
        distinct_ids(jobs),
        0 <= i < jobs.len(),
    ensures
        job_index(jobs, jobs[i].id) == Some(i),
        lookup(jobs, jobs[i].id) == Some(jobs[i]),
{
    let id = jobs[i].id;
    let c = choose|c: int| 0 <= c < jobs.len() && #[trigger] jobs[c].id == id;
    assert(c == i);
}

/// A job that is found has the id that was asked for, and a job that is
/// not found is not among the jobs.
pub proof fn lemma_lookup_sound(jobs: Seq<JobView>, id: Seq<char>)
    ensures
        match job_index(jobs, id) {
            Some(i) => 0 <= i < jobs.len() && jobs[i].id == id,
            None => forall|k: int| 0 <= k < jobs.len() ==> (#[trigger] jobs[k]).id != id,
        },
{
}

/// The jobs behave as a map from ids to jobs: a job that is put is found
/// under its id, and every other id finds what it found before.
pub proof fn law_put_then_lookup(jobs: Seq<JobView>, job: JobView, id: Seq<char>)
    requires
        distinct_ids(jobs),
    ensures
        distinct_ids(put_job(jobs, job)),
        lookup(put_job(jobs, job), id) == if id == job.id {
            Some(job)
        } else {
            lookup(jobs, id)
        },
{
    let after = put_job(jobs, job);
    lemma_lookup_sound(jobs, job.id);
    lemma_lookup_sound(jobs, id);
    let at = match job_index(jobs, job.id) {
        Some(i) => i,
        None => jobs.len() as int,
    };
    assert(after.len() > at && after[at] == job);
    assert forall|a: int, b: int| 0 <= a < b < after.len() implies #[trigger] after[a].id
        != #[trigger] after[b].id by {
        if a != at && b != at {
            assert(after[a] == jobs[a] && after[b] == jobs[b]);
        } else if a == at {
            assert(after[b] == jobs[b]);
        } else {
            assert(after[a] == jobs[a]);
        }
    }
    if id == job.id {
        lemma_lookup_at(after, at);
    } else {
        match job_index(jobs, id) {
            Some(i) => {
                assert(after[i] == jobs[i]);
                lemma_lookup_at(after, i);
            },
            None => {
                assert forall|k: int| 0 <= k < after.len() implies (#[trigger] after[k]).id
                    != id by {
                    if k != at {
                        assert(after[k] == jobs[k]);
                    }
                }
            },
        }
    }
}

/// A job that is removed is found no more, and every other id finds what
/// it found before.
pub proof fn law_remove_then_lookup(jobs: Seq<JobView>, removed: Seq<char>, id: Seq<char>)
    requires
        distinct_ids(jobs),
    ensures
        distinct_ids(without_job(jobs, removed)),
        lookup(without_job(jobs, removed), id) == if id == removed {
            None
        } else {
            lookup(jobs, id)
        },
{
    let after = without_job(jobs, removed);
    lemma_lookup_sound(jobs, removed);
    lemma_lookup_sound(jobs, id);
    match job_index(jobs, removed) {
        None => {},
        Some(at) => {
            assert forall|k: int| 0 <= k < after.len() implies #[trigger] after[k] == jobs[if k
                < at {
                k
            } else {
                k + 1
            }] by {}
            assert forall|a: int, b: int| 0 <= a < b < after.len() implies #[trigger] after[a].id
                != #[trigger] after[b].id by {
                let a0 = if a < at {
                    a
                } else {
                    a + 1
                };
                let b0 = if b < at {
                    b
                } else {
                    b + 1
                };
                assert(after[a] == jobs[a0] && after[b] == jobs[b0]);
            }
            if id == removed {
                assert forall|k: int| 0 <= k < after.len() implies (#[trigger] after[k]).id
                    != id by {
                    let k0 = if k < at {
                        k
                    } else {
                        k + 1
                    };
                    assert(after[k] == jobs[k0]);
                    assert(jobs[k0].id != jobs[at].id);
                }
            } else {
                match job_index(jobs, id) {
                    Some(i) => {
                        let i1 = if i < at {
                            i
                        } else {
                            i - 1
                        };
                        assert(after[i1] == jobs[i]);
                        lemma_lookup_at(after, i1);
                    },
                    None => {
                        assert forall|k: int| 0 <= k < after.len() implies (
                        #[trigger] after[k]).id != id by {
                            let k0 = if k < at {
                                k
                            } else {
                                k + 1
                            };
                            assert(after[k] == jobs[k0]);
                        }
                    },
                }
            }
        },
    }
}

/// A job that is changed where it stands, keeping its id, is found as it
/// was changed, and every other id finds what it found before.
pub proof fn lemma_update_then_lookup(jobs: Seq<JobView>, i: int, job: JobView, id: Seq<char>)
    requires
        distinct_ids(jobs),
        0 <= i < jobs.len(),
        jobs[i].id == job.id,
    ensures
        distinct_ids(jobs.update(i, job)),
        jobs.update(i, job) == put_job(jobs, job),
        lookup(jobs.update(i, job), id) == if id == job.id {
            Some(job)
        } else {
            lookup(jobs, id)
        },
{
    lemma_lookup_at(jobs, i);
    law_put_then_lookup(jobs, job, id);
}

/// What can be asked of a scheduler.
pub enum Op {
    Start,
    Stop,
    RegisterHandler(Seq<char>),
    Add(JobView),
    Remove(Seq<char>),
    Pause(Seq<char>),
    Resume(Seq<char>),
    /// The timer calls back for a job, and the run, if there is one, ends
    /// before anything else is asked.
    Fire { id: Seq<char>, now: i64, success: bool },
    /// The process starts again with the jobs that durable storage gives.
    Restart { jobs: Seq<JobView> },
}

/// Whether `loaded` can be what durable storage gives for the jobs `jobs`:
/// every loaded job is one of `jobs` that is persistent and not completed,
/// counted as it was.
pub open spec fn reload_of(jobs: Seq<JobView>, loaded: Seq<JobView>) -> bool {
    &&& distinct_ids(loaded)
    &&& forall|i: int|
        0 <= i < loaded.len() ==> exists|k: int|
            0 <= k < jobs.len() && (#[trigger] jobs[k]).id == (#[trigger] loaded[i]).id
                && jobs[k].persistent && jobs[k].status != JobStatus::Completed
                && jobs[k].run_count == loaded[i].run_count && jobs[k].max_runs
                == loaded[i].max_runs && jobs[k].job_type == loaded[i].job_type
}

/// Whether every one of `loaded` is one of the first `n` of `jobs` that is
/// persistent and not completed, counted as it was.
pub open spec fn reload_of_first(jobs: Seq<JobView>, n: int, loaded: Seq<JobView>) -> bool {
    &&& distinct_ids(loaded)
    &&& forall|i: int|
        0 <= i < loaded.len() ==> exists|k: int|
            0 <= k < n && k < jobs.len() && (#[trigger] jobs[k]).id == (#[trigger] loaded[i]).id
                && jobs[k].persistent && jobs[k].status != JobStatus::Completed
                && jobs[k].run_count == loaded[i].run_count && jobs[k].max_runs
                == loaded[i].max_runs && jobs[k].job_type == loaded[i].job_type
}

proof fn lemma_reload_first(
    jobs: Seq<JobView>,
    rows: Seq<JobRow>,
    read: Seq<Option<JobView>>,
    n: int,
)
    requires
        rows.len() == jobs.len(),
        forall|i: int| 0 <= i < jobs.len() ==> (#[trigger] rows[i]).holds(jobs[i]),
        reads(rows, read),
        0 <= n <= read.len(),
    ensures
        reload_of_first(jobs, n, put_all(Seq::empty(), read.take(n))),
    decreases n,
{
    let prefix = read.take(n);
    if n == 0 {
        assert(prefix.len() == 0);
    } else {
        lemma_reload_first(jobs, rows, read, n - 1);
        assert(prefix.drop_last() =~= read.take(n - 1));
        let before = put_all(Seq::empty(), read.take(n - 1));
        assert(prefix.last() == read[n - 1]);
        match read[n - 1] {
            None => {
                assert forall|i: int| 0 <= i < before.len() implies exists|k: int|
                    0 <= k < n && k < jobs.len() && (#[trigger] jobs[k]).id == (
                    #[trigger] before[i]).id && jobs[k].persistent && jobs[k].status
                        != JobStatus::Completed && jobs[k].run_count == before[i].run_count
                        && jobs[k].max_runs == before[i].max_runs && jobs[k].job_type
                        == before[i].job_type by {
                    let k = choose|k: int|
                        0 <= k < n - 1 && k < jobs.len() && (#[trigger] jobs[k]).id
                            == before[i].id && jobs[k].persistent && jobs[k].status
                            != JobStatus::Completed && jobs[k].run_count == before[i].run_count
                            && jobs[k].max_runs == before[i].max_runs && jobs[k].job_type
                            == before[i].job_type;
                    assert(jobs[k].id == before[i].id);
                }
            },
            Some(job) => {
                let after = put_job(before, job);
                law_put_then_lookup(before, job, job.id);
                lemma_lookup_sound(before, job.id);
                assert(rows[n - 1].holds(jobs[n - 1]));
                assert(crate::cron::read_as(rows[n - 1], read[n - 1]));
                assert forall|i: int| 0 <= i < after.len() implies exists|k: int|
                    0 <= k < n && k < jobs.len() && (#[trigger] jobs[k]).id == (
                    #[trigger] after[i]).id && jobs[k].persistent && jobs[k].status
                        != JobStatus::Completed && jobs[k].run_count == after[i].run_count
                        && jobs[k].max_runs == after[i].max_runs && jobs[k].job_type
                        == after[i].job_type by {
                    if after[i] == job {
                        assert(jobs[n - 1].id == after[i].id);
                    } else {
                        assert(i < before.len() && after[i] == before[i]);
                        let k = choose|k: int|
                            0 <= k < n - 1 && k < jobs.len() && (#[trigger] jobs[k]).id
                                == before[i].id && jobs[k].persistent && jobs[k].status
                                != JobStatus::Completed && jobs[k].run_count
                                == before[i].run_count && jobs[k].max_runs == before[i].max_runs
                                && jobs[k].job_type == before[i].job_type;
                        assert(jobs[k].id == after[i].id);
                    }
                }
            },
        }
    }
}

/// A restart loads what was stored: when every job is written to durable
/// storage as it is, the jobs that the scheduler starts with from that
/// storage are jobs that it held, persistent and not completed, and each is
/// counted as it was.
pub proof fn law_stored_jobs_are_reloaded(
    jobs: Seq<JobView>,
    rows: Seq<JobRow>,
    read: Seq<Option<JobView>>,
)
    requires
        rows.len() == jobs.len(),
        forall|i: int| 0 <= i < jobs.len() ==> (#[trigger] rows[i]).holds(jobs[i]),
        reads(rows, read),
    ensures
        reload_of(jobs, put_all(Seq::empty(), read)),
{
    lemma_reload_first(jobs, rows, read, read.len() as int);
    assert(read.take(read.len() as int) =~= read);
    let loaded = put_all(Seq::empty(), read);
    assert forall|i: int| 0 <= i < loaded.len() implies exists|k: int|
        0 <= k < jobs.len() && (#[trigger] jobs[k]).id == (#[trigger] loaded[i]).id
            && jobs[k].persistent && jobs[k].status != JobStatus::Completed && jobs[k].run_count
            == loaded[i].run_count && jobs[k].max_runs == loaded[i].max_runs && jobs[k].job_type
            == loaded[i].job_type by {
        let k = choose|k: int|
            0 <= k < read.len() && k < jobs.len() && (#[trigger] jobs[k]).id == loaded[i].id
                && jobs[k].persistent && jobs[k].status != JobStatus::Completed
                && jobs[k].run_count == loaded[i].run_count && jobs[k].max_runs
                == loaded[i].max_runs && jobs[k].job_type == loaded[i].job_type;
        assert(jobs[k].id == loaded[i].id);
    }
}

/// Whether no row after the row `k` gives a job with the id of the job
/// that the row `k` gives.
pub open spec fn is_last_of_its_id(read: Seq<Option<JobView>>, k: int) -> bool {
    forall|m: int|
        k < m < read.len() && (#[trigger] read[m]) is Some ==> read[m]->Some_0.id
            != read[k]->Some_0.id
}

/// Whether `jobs` list a job with the id of `job`, and list `job` itself
/// where `exact` is set.
pub open spec fn lists(jobs: Seq<JobView>, job: JobView, exact: bool) -> bool {
    exists|i: int|
        0 <= i < jobs.len() && (#[trigger] jobs[i]).id == job.id && (exact ==> jobs[i] == job)
}

/// A restart lists every row that is loaded: when the scheduler starts
/// from durable storage, every row that is loaded and can be read gives a
/// job that is listed under its id, and the job that is listed is the job
/// of the last such row with that id.
pub proof fn law_loaded_rows_are_listed(read: Seq<Option<JobView>>, k: int)
    requires
        0 <= k < read.len(),
        read[k] is Some,
    ensures
        lists(put_all(Seq::empty(), read), read[k]->Some_0, is_last_of_its_id(read, k)),
    decreases read.len(),
{
    let job = read[k]->Some_0;
    let earlier = read.drop_last();
    let before = put_all(Seq::empty(), earlier);
    let loaded = put_all(Seq::empty(), read);
    if k == read.len() - 1 {
        match job_index(before, job.id) {
            Some(i) => {
                assert(loaded[i] == job);
            },
            None => {
                assert(loaded[loaded.len() - 1] == job);
            },
        }
    } else {
        assert(earlier[k] == read[k]);
        law_loaded_rows_are_listed(earlier, k);
        let exact = is_last_of_its_id(read, k);
        if exact {
            assert forall|m: int| k < m < earlier.len() && (#[trigger] earlier[m]) is Some implies
                earlier[m]->Some_0.id != earlier[k]->Some_0.id by {
                assert(earlier[m] == read[m]);
            }
            assert(is_last_of_its_id(earlier, k));
        }
        let i = choose|i: int|
            0 <= i < before.len() && (#[trigger] before[i]).id == job.id && (is_last_of_its_id(
                earlier,
                k,
            ) ==> before[i] == job);
        match read.last() {
            Some(other) => {
                match job_index(before, other.id) {
                    Some(at) => {
                        if at == i {
                            assert(before[i].id == other.id);
                            if exact {
                                assert(read[read.len() - 1] is Some);
                                assert(false);
                            }
                        }
                        assert(loaded[i].id == job.id);
                        assert(exact ==> loaded[i] == job);
                    },
                    None => {
                        assert(loaded[i] == before[i]);
                    },
                }
            },
            None => {
                assert(loaded[i] == before[i]);
            },
        }
    }
}

/// Every status is read back from the name that it is stored under, and
/// only a completed job is stored as completed.
pub proof fn lemma_status_round_trip(status: JobStatus)
    ensures
        JobStatus::spec_from_stored(status.spec_as_str()) == status,
        (status.spec_as_str() == "completed"@) == (status == JobStatus::Completed),
{
    reveal_strlit("pending");
    reveal_strlit("running");
    reveal_strlit("completed");
    reveal_strlit("paused");
    reveal_strlit("failed");
    assert("pending"@.len() == 7 && "running"@.len() == 7 && "completed"@.len() == 9);
    assert("paused"@.len() == 6 && "failed"@.len() == 6);
    assert("pending"@[0] == 'p' && "running"@[0] == 'r');
    assert("paused"@[0] == 'p' && "failed"@[0] == 'f');
}

/// A stored job comes back: when every job is written to durable storage
/// as it is, under an id of its own, a job that is persistent and not
/// completed is listed when the scheduler starts from that storage, as it
/// was in every field; its arguments are those that their JSON text is
/// read as.
pub proof fn law_stored_job_is_listed_again(
    jobs: Seq<JobView>,
    rows: Seq<JobRow>,
    read: Seq<Option<JobView>>,
    k: int,
)
    requires
        rows.len() == jobs.len(),
        forall|i: int| 0 <= i < jobs.len() ==> (#[trigger] rows[i]).holds(jobs[i]),
        reads(rows, read),
        distinct_ids(jobs),
        0 <= k < jobs.len(),
        jobs[k].persistent,
        jobs[k].status != JobStatus::Completed,
    ensures
        exists|i: int|
            0 <= i < put_all(Seq::empty(), read).len() && #[trigger] put_all(
                Seq::empty(),
                read,
            )[i] == (JobView {
                handler_args: put_all(Seq::empty(), read)[i].handler_args,
                ..jobs[k]
            }) && (jobs[k].handler_args is None ==> put_all(Seq::empty(), read)[i] == jobs[k]),
{
    let row = rows[k];
    assert(row.holds(jobs[k]));
    lemma_status_round_trip(jobs[k].status);
    assert(row.spec_is_loaded());
    assert(row.job_type is Some);
    assert(read_as(row, read[k]));
    assert(read[k] is Some);
    let job = read[k]->Some_0;
    assert(row.yields(job));
    assert(job == (JobView { handler_args: job.handler_args, ..jobs[k] }));
    assert forall|m: int| k < m < read.len() && (#[trigger] read[m]) is Some implies read[m]->Some_0.id
        != job.id by {
        assert(rows[m].holds(jobs[m]));
        assert(read_as(rows[m], read[m]));
        assert(rows[m].yields(read[m]->Some_0));
        assert(jobs[m].id != jobs[k].id);
    }
    assert(is_last_of_its_id(read, k));
    law_loaded_rows_are_listed(read, k);
    let loaded = put_all(Seq::empty(), read);
    let i = choose|i: int| 0 <= i < loaded.len() && (#[trigger] loaded[i]).id == job.id && loaded[i] == job;
    assert(loaded[i] == job);
}

/// Whether `op` leaves the job `id` what it is: no other job is added
/// under its id, and a restart loads what durable storage can give.
pub open spec fn allowed(s: SchedulerView, op: Op, id: Seq<char>) -> bool {
    match op {
        Op::Add(job) => job.id != id,
        Op::Restart { jobs } => reload_of(s.jobs, jobs),
        _ => true,
    }
}

/// `jobs` with the status of the job `id` set to `status`.
pub open spec fn with_status(jobs: Seq<JobView>, id: Seq<char>, status: JobStatus) -> Seq<JobView> {
    match job_index(jobs, id) {
        Some(i) => jobs.update(i, JobView { status, ..jobs[i] }),
        None => jobs,
    }
}

/// The scheduler after `op`.
pub open spec fn apply(s: SchedulerView, op: Op) -> SchedulerView {
    match op {
        Op::Start => SchedulerView { running: true, ..s },
        Op::Stop => SchedulerView { running: false, ..s },
        Op::RegisterHandler(name) => SchedulerView {
            handlers: crate::cron::with_handler(s.handlers, name),
            ..s
        },
        Op::Add(job) => SchedulerView { jobs: put_job(s.jobs, job), ..s },
        Op::Remove(id) => SchedulerView { jobs: without_job(s.jobs, id), ..s },
        Op::Pause(id) => SchedulerView { jobs: with_status(s.jobs, id, JobStatus::Paused), ..s },
        Op::Resume(id) => SchedulerView { jobs: with_status(s.jobs, id, JobStatus::Pending), ..s },
        Op::Fire { id, now, success } => {
            let begun = begin_at(s, id, now);
            match begun.1 {
                ExecutionView::Run(job) => finish(begun.0, job, success).0,
                _ => begun.0,
            }
        },
        Op::Restart { jobs } => SchedulerView {
            jobs,
            handlers: Seq::empty(),
            running: false,
            durable: s.durable,
        },
    }
}

/// Whether `op` runs the handler of the job `id`.
pub open spec fn runs_handler(s: SchedulerView, op: Op, id: Seq<char>) -> bool {
    op matches Op::Fire { id: fired, now, success } && fired == id && begin_at(s, id, now).1 is Run
}

/// How often `ops`, asked in order, run the handler of the job `id`.
pub open spec fn runs(s: SchedulerView, ops: Seq<Op>, id: Seq<char>) -> nat
    decreases ops.len(),
{
    if ops.len() == 0 {
        0
    } else {
        (if runs_handler(s, ops[0], id) {
            1nat
        } else {
            0nat
        }) + runs(apply(s, ops[0]), ops.drop_first(), id)
    }
}

/// Whether each of `ops`, asked in order, leaves the job `id` what it is.
pub open spec fn all_allowed(s: SchedulerView, ops: Seq<Op>, id: Seq<char>) -> bool
    decreases ops.len(),
{
    ops.len() == 0 || (allowed(s, ops[0], id) && all_allowed(
        apply(s, ops[0]),
        ops.drop_first(),
        id,
    ))
}

/// How often the job `id` may still run, if it may run once in all.
pub open spec fn runs_left(s: SchedulerView, id: Seq<char>) -> nat {
    match lookup(s.jobs, id) {
        Some(job) => if job.run_count <= 0 {
            1
        } else {
            0
        },
        None => 0,
    }
}

/// The job `id`, if it is there, may run once and has not run a negative
/// number of times.
pub open spec fn once_only(s: SchedulerView, id: Seq<char>) -> bool {
    &&& distinct_ids(s.jobs)
    &&& lookup(s.jobs, id) matches Some(job) ==> job.max_runs == Some(1i64) && job.run_count >= 0
}

proof fn lemma_step(s: SchedulerView, op: Op, id: Seq<char>)
    requires
        once_only(s, id),
        allowed(s, op, id),
    ensures
        once_only(apply(s, op), id),
        (if runs_handler(s, op, id) {
            1nat
        } else {
            0nat
        }) + runs_left(apply(s, op), id) <= runs_left(s, id),
{
    let after = apply(s, op);
    lemma_lookup_sound(s.jobs, id);
    match op {
        Op::Start => {},
        Op::Stop => {},
        Op::RegisterHandler(_) => {},
        Op::Add(job) => {
            law_put_then_lookup(s.jobs, job, id);
        },
        Op::Remove(removed) => {
            law_remove_then_lookup(s.jobs, removed, id);
        },
        Op::Pause(paused) => {
            lemma_status(s.jobs, paused, JobStatus::Paused, id);
        },
        Op::Resume(resumed) => {
            lemma_status(s.jobs, resumed, JobStatus::Pending, id);
        },
        Op::Fire { id: fired, now, success } => {
            lemma_lookup_sound(s.jobs, fired);
            match job_index(s.jobs, fired) {
                None => {},
                Some(i) => {
                    let job = s.jobs[i];
                    lemma_lookup_at(s.jobs, i);
                    if job.exhausted() {
                    } else if !s.handlers.contains(job.handler) {
                        let failed = JobView {
                            status: JobStatus::Failed,
                            ..crate::cron::started(job, now)
                        };
                        lemma_update_then_lookup(s.jobs, i, failed, id);
                    } else {
                        let begun = begin_at(s, fired, now);
                        let ticket = crate::cron::started(job, now);
                        assert(begun.1 == ExecutionView::Run(ticket));
                        let done = JobView {
                            status: crate::cron::status_after(ticket.job_type, success),
                            ..ticket
                        };
                        law_put_then_lookup(s.jobs, done, id);
                    }
                },
            }
        },
        Op::Restart { jobs } => {
            lemma_lookup_sound(jobs, id);
            match job_index(jobs, id) {
                None => {},
                Some(i) => {
                    let k = choose|k: int|
                        0 <= k < s.jobs.len() && (#[trigger] s.jobs[k]).id == jobs[i].id
                            && s.jobs[k].persistent && s.jobs[k].status != JobStatus::Completed
                            && s.jobs[k].run_count == jobs[i].run_count && s.jobs[k].max_runs
                            == jobs[i].max_runs && s.jobs[k].job_type == jobs[i].job_type;
                    lemma_lookup_at(s.jobs, k);
                },
            }
        },
    }
}

proof fn lemma_status(jobs: Seq<JobView>, changed: Seq<char>, status: JobStatus, id: Seq<char>)
    requires
        distinct_ids(jobs),
    ensures
        distinct_ids(with_status(jobs, changed, status)),
        match lookup(jobs, id) {
            Some(job) => lookup(with_status(jobs, changed, status), id) == Some(
                if id == changed {
                    JobView { status, ..job }
                } else {
                    job
                },
            ),
            None => lookup(with_status(jobs, changed, status), id) is None,
        },
{
    lemma_lookup_sound(jobs, changed);
    lemma_lookup_sound(jobs, id);
    match job_index(jobs, changed) {
        Some(i) => {
            lemma_update_then_lookup(jobs, i, JobView { status, ..jobs[i] }, id);
            lemma_lookup_at(jobs, i);
        },
        None => {},
    }
}

proof fn lemma_runs_bounded(s: SchedulerView, ops: Seq<Op>, id: Seq<char>)
    requires
        once_only(s, id),
        all_allowed(s, ops, id),
    ensures
        runs(s, ops, id) <= runs_left(s, id),
    decreases ops.len(),
{
    if ops.len() > 0 {
        lemma_step(s, ops[0], id);
        lemma_runs_bounded(apply(s, ops[0]), ops.drop_first(), id);
    }
}

/// Whether every one of `jobs` has run no more often than it may.
pub open spec fn all_counted(jobs: Seq<JobView>) -> bool {
    forall|i: int| 0 <= i < jobs.len() ==> (#[trigger] jobs[i]).wf()
}

proof fn lemma_put_counted(jobs: Seq<JobView>, job: JobView)
    requires
        all_counted(jobs),
        job.wf(),
    ensures
        all_counted(put_job(jobs, job)),
{
    lemma_lookup_sound(jobs, job.id);
}

/// Whatever is asked of the scheduler, no job has run more often than it
/// may, and a one-shot job may run once: what holds of the jobs before
/// holds of them after, if a job that is added is counted so too and a
/// restart loads what durable storage can give.
pub proof fn law_counts_stay_within_bounds(s: SchedulerView, op: Op)
    requires
        distinct_ids(s.jobs),
        all_counted(s.jobs),
        op matches Op::Add(job) ==> job.wf(),
        op matches Op::Restart { jobs } ==> reload_of(s.jobs, jobs),
    ensures
        all_counted(apply(s, op).jobs),
        distinct_ids(apply(s, op).jobs),
{
    let after = apply(s, op).jobs;
    match op {
        Op::Start => {},
        Op::Stop => {},
        Op::RegisterHandler(_) => {},
        Op::Add(job) => {
            law_put_then_lookup(s.jobs, job, job.id);
            lemma_put_counted(s.jobs, job);
        },
        Op::Remove(removed) => {
            law_remove_then_lookup(s.jobs, removed, removed);
            lemma_lookup_sound(s.jobs, removed);
            match job_index(s.jobs, removed) {
                Some(at) => {
                    assert forall|i: int| 0 <= i < after.len() implies (
                    #[trigger] after[i]).wf() by {
                        let i0 = if i < at {
                            i
                        } else {
                            i + 1
                        };
                        assert(after[i] == s.jobs[i0]);
                    }
                },
                None => {},
            }
        },
        Op::Pause(id) => {
            lemma_status(s.jobs, id, JobStatus::Paused, id);
            lemma_lookup_sound(s.jobs, id);
        },
        Op::Resume(id) => {
            lemma_status(s.jobs, id, JobStatus::Pending, id);
            lemma_lookup_sound(s.jobs, id);
        },
        Op::Fire { id, now, success } => {
            lemma_lookup_sound(s.jobs, id);
            match job_index(s.jobs, id) {
                None => {},
                Some(i) => {
                    let job = s.jobs[i];
                    assert(job.wf());
                    if job.exhausted() {
                    } else if !s.handlers.contains(job.handler) {
                        let failed = JobView {
                            status: JobStatus::Failed,
                            ..crate::cron::started(job, now)
                        };
                        assert(failed.wf());
                        lemma_update_then_lookup(s.jobs, i, failed, id);
                    } else {
                        let ticket = crate::cron::started(job, now);
                        let done = JobView {
                            status: crate::cron::status_after(ticket.job_type, success),
                            ..ticket
                        };
                        assert(done.wf());
                        law_put_then_lookup(s.jobs, done, id);
                        lemma_put_counted(s.jobs, done);
                    }
                },
            }
        },
        Op::Restart { jobs } => {
            assert forall|i: int| 0 <= i < jobs.len() implies (#[trigger] jobs[i]).wf() by {
                let k = choose|k: int|
                    0 <= k < s.jobs.len() && (#[trigger] s.jobs[k]).id == jobs[i].id
                        && s.jobs[k].persistent && s.jobs[k].status != JobStatus::Completed
                        && s.jobs[k].run_count == jobs[i].run_count && s.jobs[k].max_runs
                        == jobs[i].max_runs && s.jobs[k].job_type == jobs[i].job_type;
                assert(s.jobs[k].wf());
            }
        },
    }
}

/// A job that may run once runs at most once, however often the scheduler
/// is started and stopped, whatever else is asked of it, and however often
/// the process starts again with what durable storage gives: the handler of
/// a one-shot job that has not run is run at most once, and that of one
/// that has run is not run again.
pub proof fn law_once_job_runs_at_most_once(s: SchedulerView, ops: Seq<Op>, id: Seq<char>)
    requires
        distinct_ids(s.jobs),
        lookup(s.jobs, id) matches Some(job) && job.job_type is Once && job.wf(),
        all_allowed(s, ops, id),
    ensures
        runs(s, ops, id) + lookup(s.jobs, id)->Some_0.run_count <= 1,
{
    lemma_runs_bounded(s, ops, id);
}

} // verus!
