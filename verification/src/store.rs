//! The runtime record store: runs and their tasks, kept in memory and
//! addressed by sequential ids. The embedder owns one manager per
//! process; the pipeline's records are written through it.
use vstd::prelude::*;

verus! {

/// A record identifier.
pub type Id = i64;

/// A Unix timestamp in microseconds.
pub type UnixTimeUs = i64;

/// Relies on `std::time::SystemTime::now`: the current time, as
/// microseconds since the Unix epoch (zero if the clock reads before
/// the epoch). The result depends on the clock; nothing is promised of
/// it.
#[verifier::external_body]
fn now_unix_time_us() -> UnixTimeUs {
    match std::time::SystemTime::now().duration_since(std::time::UNIX_EPOCH) {
        Ok(d) => d.as_micros() as i64,
        Err(_) => 0,
    }
}

/// Relies on `uuid::Uuid::new_v4`: a fresh random identifier, returned
/// as its 128-bit value. The result is random; nothing is promised of
/// it.
#[verifier::external_body]
fn new_uuid_v4() -> u128 {
    uuid::Uuid::new_v4().as_u128()
}

/// One task record.
#[derive(Debug)]
pub struct Task {
    pub id: Id,
    pub uid: u128,
    pub ctime: UnixTimeUs,
    pub mtime: UnixTimeUs,
    pub run_id: Id,
    pub num: Option<i64>,
    pub start: Option<UnixTimeUs>,
    pub end: Option<UnixTimeUs>,
    pub label: Option<String>,
}

impl Task {
    /// A task is done once its end time is set.
    pub fn is_done(&self) -> (r: bool)
        ensures
            r == (self.end is Some),
    {
        match self.end {
            Some(_) => true,
            None => false,
        }
    }
}

/// The fields a new task is created from.
#[derive(Debug)]
pub struct TaskForCreate {
    pub run_id: Id,
    pub num: Option<i64>,
    pub label: Option<String>,
}

/// The fields an update may set; unset fields are left alone.
#[derive(Debug)]
pub struct TaskForUpdate {
    pub start: Option<UnixTimeUs>,
    pub end: Option<UnixTimeUs>,
    pub label: Option<String>,
}

impl Default for TaskForUpdate {
    fn default() -> (r: TaskForUpdate)
        ensures
            r.start is None,
            r.end is None,
            r.label is None,
    {
        TaskForUpdate { start: None, end: None, label: None }
    }
}

/// One run record.
#[derive(Debug)]
pub struct Run {
    pub id: Id,
    pub uid: u128,
    pub ctime: UnixTimeUs,
    pub mtime: UnixTimeUs,
    pub agent_name: Option<String>,
    pub agent_path: Option<String>,
    pub start: Option<UnixTimeUs>,
}

/// The fields a new run is created from.
#[derive(Debug)]
pub struct RunForCreate {
    pub agent_name: Option<String>,
    pub agent_path: Option<String>,
    pub start: Option<UnixTimeUs>,
}

/// How a listing is ordered: by id ascending (the stored order), or
/// descending.
#[derive(Debug, Clone, Copy, PartialEq, Eq, Structural)]
pub enum ListOrder {
    IdAsc,
    IdDesc,
}

/// Listing options; the default lists in stored order.
#[derive(Debug, Clone, Copy, PartialEq, Eq, Structural)]
pub struct ListOptions {
    pub order: ListOrder,
}

/// A store failure.
#[derive(Debug, Clone, Copy, PartialEq, Eq, Structural)]
pub enum StoreError {
    EntityNotFound,
}

/// The in-memory record store.
pub struct ModelManager {
    tasks: Vec<Task>,
    runs: Vec<Run>,
    next_task_id: Id,
    next_run_id: Id,
}

/// Field-wise equality of task records, label by content.
pub open spec fn task_like(a: Task, b: Task) -> bool {
    &&& a.id == b.id
    &&& a.uid == b.uid
    &&& a.ctime == b.ctime
    &&& a.mtime == b.mtime
    &&& a.run_id == b.run_id
    &&& a.num == b.num
    &&& a.start == b.start
    &&& a.end == b.end
    &&& crate::agent::opt_str_view(a.label) == crate::agent::opt_str_view(b.label)
}

impl ModelManager {
    /// Task ids are the record's position plus one, so ids are unique
    /// and assigned in creation order; the next id is one past the end.
    pub closed spec fn wf(self) -> bool {
        &&& self.next_task_id == self.tasks@.len() + 1
        &&& forall|i: int| 0 <= i < self.tasks@.len() ==> (#[trigger] self.tasks@[i]).id == i + 1
        &&& self.next_run_id == self.runs@.len() + 1
        &&& forall|i: int| 0 <= i < self.runs@.len() ==> (#[trigger] self.runs@[i]).id == i + 1
        &&& self.tasks@.len() <= 0x4000_0000_0000_0000
        &&& self.runs@.len() <= 0x4000_0000_0000_0000
    }

    /// The stored task records, in creation order.
    pub closed spec fn tasks_view(self) -> Seq<Task> {
        self.tasks@
    }

    /// The stored run records, in creation order.
    pub closed spec fn runs_view(self) -> Seq<Run> {
        self.runs@
    }

    /// An empty store.
    pub fn new() -> (r: ModelManager)
        ensures
            r.wf(),
            r.tasks_view().len() == 0,
            r.runs_view().len() == 0,
    {
        ModelManager { tasks: Vec::new(), runs: Vec::new(), next_task_id: 1, next_run_id: 1 }
    }
}

fn duplicate_task(t: &Task) -> (r: Task)
    ensures
        task_like(r, *t),
{
    Task {
        id: t.id,
        uid: t.uid,
        ctime: t.ctime,
        mtime: t.mtime,
        run_id: t.run_id,
        num: t.num,
        start: t.start,
        end: t.end,
        label: match &t.label {
            Some(l) => Some(l.clone()),
            None => None,
        },
    }
}

/// The task store operations.
pub struct TaskBmc;

impl TaskBmc {
    /// Creates a task; its id is returned. Creation time, modification
    /// time and uid come from the clock and the id generator.
    pub fn create(mm: &mut ModelManager, task_c: TaskForCreate) -> (r: Result<Id, StoreError>)
        requires
            old(mm).wf(),
            old(mm).tasks_view().len() < 0x4000_0000_0000_0000,
        ensures
            final(mm).wf(),
            r is Ok,
            r->Ok_0 == old(mm).tasks_view().len() + 1,
            final(mm).tasks_view().len() == old(mm).tasks_view().len() + 1,
            forall|i: int|
                0 <= i < old(mm).tasks_view().len() ==> #[trigger] final(mm).tasks_view()[i]
                    == old(mm).tasks_view()[i],
            ({
                let t = final(mm).tasks_view().last();
                &&& t.id == r->Ok_0
                &&& t.run_id == task_c.run_id
                &&& t.num == task_c.num
                &&& crate::agent::opt_str_view(t.label) == crate::agent::opt_str_view(task_c.label)
                &&& t.start is None
                &&& t.end is None
            }),
            final(mm).runs_view() == old(mm).runs_view(),
    {
        let id = mm.next_task_id;
        let now = now_unix_time_us();
        let uid = new_uuid_v4();
        let TaskForCreate { run_id, num, label } = task_c;
        mm.tasks.push(
            Task { id, uid, ctime: now, mtime: now, run_id, num, start: None, end: None, label },
        );
        mm.next_task_id = id + 1;
        Ok(id)
    }

    /// Updates the set fields of the task with this id and refreshes
    /// its modification time; returns how many records matched (one or
    /// none).
    pub fn update(mm: &mut ModelManager, id: Id, task_u: TaskForUpdate) -> (r: Result<
        usize,
        StoreError,
    >)
        requires
            old(mm).wf(),
        ensures
            final(mm).wf(),
            r is Ok,
            final(mm).tasks_view().len() == old(mm).tasks_view().len(),
            final(mm).runs_view() == old(mm).runs_view(),
            if 1 <= id <= old(mm).tasks_view().len() {
                let i = id - 1;
                let t0 = old(mm).tasks_view()[i];
                let t1 = final(mm).tasks_view()[i];
                &&& r->Ok_0 == 1
                &&& forall|k: int|
                    0 <= k < old(mm).tasks_view().len() && k != i
                        ==> #[trigger] final(mm).tasks_view()[k] == old(mm).tasks_view()[k]
                &&& t1.id == t0.id
                &&& t1.uid == t0.uid
                &&& t1.ctime == t0.ctime
                &&& t1.run_id == t0.run_id
                &&& t1.num == t0.num
                &&& t1.start == (if task_u.start is Some {
                    task_u.start
                } else {
                    t0.start
                })
                &&& t1.end == (if task_u.end is Some {
                    task_u.end
                } else {
                    t0.end
                })
                &&& crate::agent::opt_str_view(t1.label) == (if task_u.label is Some {
                    crate::agent::opt_str_view(task_u.label)
                } else {
                    crate::agent::opt_str_view(t0.label)
                })
            } else {
                r->Ok_0 == 0 && final(mm).tasks_view() == old(mm).tasks_view()
            },
    {
        if id < 1 || id > mm.tasks.len() as i64 {
            return Ok(0);
        }
        let i = (id - 1) as usize;
        let now = now_unix_time_us();
        let old_task = mm.tasks.remove(i);
        let TaskForUpdate { start, end, label } = task_u;
        let updated = Task {
            id: old_task.id,
            uid: old_task.uid,
            ctime: old_task.ctime,
            mtime: now,
            run_id: old_task.run_id,
            num: old_task.num,
            start: match start {
                Some(s) => Some(s),
                None => old_task.start,
            },
            end: match end {
                Some(e) => Some(e),
                None => old_task.end,
            },
            label: match label {
                Some(l) => Some(l),
                None => old_task.label,
            },
        };
        mm.tasks.insert(i, updated);
        proof {
            assert(forall|k: int|
                0 <= k < old(mm).tasks_view().len() && k != i ==> #[trigger] mm.tasks@[k] == old(
                    mm,
                ).tasks_view()[k]);
        }
        Ok(1)
    }

    /// The task with this id.
    pub fn get(mm: &ModelManager, id: Id) -> (r: Result<Task, StoreError>)
        requires
            mm.wf(),
        ensures
            if 1 <= id <= mm.tasks_view().len() {
                r is Ok && task_like(r->Ok_0, mm.tasks_view()[id - 1])
            } else {
                r == Err::<Task, StoreError>(StoreError::EntityNotFound)
            },
    {
        if id < 1 || id > mm.tasks.len() as i64 {
            return Err(StoreError::EntityNotFound);
        }
        let i = (id - 1) as usize;
        Ok(duplicate_task(&mm.tasks[i]))
    }

    /// All tasks, in stored order or reversed by id.
    pub fn list(mm: &ModelManager, list_options: Option<ListOptions>) -> (r: Result<
        Vec<Task>,
        StoreError,
    >)
        requires
            mm.wf(),
        ensures
            r is Ok,
            r->Ok_0@.len() == mm.tasks_view().len(),
            ({
                let desc = match list_options {
                    Some(o) => o.order == ListOrder::IdDesc,
                    None => false,
                };
                if desc {
                    forall|i: int|
                        0 <= i < mm.tasks_view().len() ==> task_like(
                            #[trigger] r->Ok_0@[i],
                            mm.tasks_view()[mm.tasks_view().len() - 1 - i],
                        )
                } else {
                    forall|i: int|
                        0 <= i < mm.tasks_view().len() ==> task_like(
                            #[trigger] r->Ok_0@[i],
                            mm.tasks_view()[i],
                        )
                }
            }),
    {
        let desc = match list_options {
            Some(o) => matches!(o.order, ListOrder::IdDesc),
            None => false,
        };
        let n = mm.tasks.len();
        let mut out: Vec<Task> = Vec::new();
        let mut i: usize = 0;
        while i < n
            invariant
                0 <= i <= n == mm.tasks@.len(),
                out@.len() == i,
                desc ==> forall|k: int|
                    0 <= k < i ==> task_like(#[trigger] out@[k], mm.tasks@[n - 1 - k]),
                !desc ==> forall|k: int|
                    0 <= k < i ==> task_like(#[trigger] out@[k], mm.tasks@[k]),
            decreases n - i,
        {
            if desc {
                out.push(duplicate_task(&mm.tasks[n - 1 - i]));
            } else {
                out.push(duplicate_task(&mm.tasks[i]));
            }
            i = i + 1;
        }
        Ok(out)
    }
}

/// The run store operations.
pub struct RunBmc;

impl RunBmc {
    /// Creates a run; its id is returned.
    pub fn create(mm: &mut ModelManager, run_c: RunForCreate) -> (r: Result<Id, StoreError>)
        requires
            old(mm).wf(),
            old(mm).runs_view().len() < 0x4000_0000_0000_0000,
        ensures
            final(mm).wf(),
            r is Ok,
            r->Ok_0 == old(mm).runs_view().len() + 1,
            final(mm).runs_view().len() == old(mm).runs_view().len() + 1,
            final(mm).tasks_view() == old(mm).tasks_view(),
            ({
                let run = final(mm).runs_view().last();
                &&& run.id == r->Ok_0
                &&& crate::agent::opt_str_view(run.agent_name) == crate::agent::opt_str_view(
                    run_c.agent_name,
                )
                &&& crate::agent::opt_str_view(run.agent_path) == crate::agent::opt_str_view(
                    run_c.agent_path,
                )
                &&& run.start == run_c.start
            }),
    {
        let id = mm.next_run_id;
        let now = now_unix_time_us();
        let uid = new_uuid_v4();
        let RunForCreate { agent_name, agent_path, start } = run_c;
        mm.runs.push(Run { id, uid, ctime: now, mtime: now, agent_name, agent_path, start });
        mm.next_run_id = id + 1;
        Ok(id)
    }
}

} // verus!
