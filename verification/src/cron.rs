//! Cron adapter: an in-memory registry of recurring jobs.
//!
//! Tools: `cron_create` registers a job, `cron_list` lists the jobs,
//! `cron_delete` removes one by id and `cron_toggle` enables or disables
//! one.  The registry maps job ids to jobs; it is kept as a list in which no
//! id occurs twice, in the order the jobs were first registered.

use vstd::prelude::*;
use vstd::string::*;

use crate::error::{AdapterError, execution_failed, invalid_params, is_execution_failed, is_invalid_params, missing_field_reason};
use crate::json::{JsonNumber, JsonValue, bool_field, get_bool, keys_of, require_str, str_field, str_of, value_at};
use crate::text::same_text;
use crate::traits::{
    AdapterType, AuthRequirement, HealthStatus, ParamSchema, SchemaKind, ToolDefinition, bare_schema,
    basic_health, ensure_connected, is_not_connected_error, is_tool_not_found, params_of, strings_of,
    tool, tool_not_found, tool_shape, views, is_unknown_tool, lists_tool, ParamDoc, param_docs, tool_doc};

verus! {

/// A scheduled recurring job.
#[derive(Debug)]
pub struct CronJob {
    /// Unique job identifier.
    pub id: String,
    /// Human-readable name for the job.
    pub name: String,
    /// Cron expression (e.g. `"0 */5 * * *"`).
    pub schedule: String,
    /// The command or intent to execute when the job fires.
    pub command: String,
    /// Whether the job is active.
    pub enabled: bool,
    /// Unix epoch timestamp when the job was created.
    pub created_at: i64,
    /// Unix epoch timestamp of the most recent execution, if any.
    pub last_run: Option<i64>,
    /// Unix epoch timestamp of the next planned execution, if known.
    pub next_run: Option<i64>,
}

// ---------------------------------------------------------------------------
// The registry as a mathematical value
// ---------------------------------------------------------------------------

/// Whether no job id occurs twice.
pub open spec fn ids_unique(jobs: Seq<CronJob>) -> bool {
    forall|i: int, j: int| 0 <= i < j < jobs.len() ==> #[trigger] jobs[i].id@ != #[trigger] jobs[j].id@
}

/// Whether a job with id `id` is registered.
pub open spec fn has_job(jobs: Seq<CronJob>, id: Seq<char>) -> bool {
    exists|i: int| 0 <= i < jobs.len() && #[trigger] jobs[i].id@ == id
}

/// The position of the job with id `id` (meaningful when [`has_job`]).
pub open spec fn job_index(jobs: Seq<CronJob>, id: Seq<char>) -> int {
    choose|i: int| 0 <= i < jobs.len() && #[trigger] jobs[i].id@ == id
}

/// The registry after inserting `job` under its id: an existing job with
/// that id is replaced in place, otherwise the job is added at the end.
pub open spec fn with_job(jobs: Seq<CronJob>, job: CronJob) -> Seq<CronJob> {
    if has_job(jobs, job.id@) {
        jobs.update(job_index(jobs, job.id@), job)
    } else {
        jobs.push(job)
    }
}

/// The registry after removing the job with id `id`, if any.
pub open spec fn without_job(jobs: Seq<CronJob>, id: Seq<char>) -> Seq<CronJob> {
    if has_job(jobs, id) {
        jobs.remove(job_index(jobs, id))
    } else {
        jobs
    }
}

/// A job with its `enabled` flag set to `enabled`.
pub open spec fn set_enabled(job: CronJob, enabled: bool) -> CronJob {
    CronJob { enabled, ..job }
}

/// The registry after setting the `enabled` flag of job `id`, if any.
pub open spec fn with_enabled(jobs: Seq<CronJob>, id: Seq<char>, enabled: bool) -> Seq<CronJob> {
    if has_job(jobs, id) {
        let i = job_index(jobs, id);
        jobs.update(i, set_enabled(jobs[i], enabled))
    } else {
        jobs
    }
}

/// The job a successful `cron_create` registers.
pub open spec fn created_job(job: CronJob, id: Seq<char>, params: JsonValue, now: i64) -> bool {
    &&& job.id@ == id
    &&& Some(job.name@) == str_field(params, "name"@)
    &&& Some(job.schedule@) == str_field(params, "schedule"@)
    &&& Some(job.command@) == str_field(params, "command"@)
    &&& job.enabled
    &&& job.created_at == now
    &&& job.last_run is None
    &&& job.next_run is None
}

/// The reason given for an unknown job id.
pub open spec fn job_not_found_reason(id: Seq<char>) -> Seq<char> {
    "cron job `"@ + id + "` not found"@
}

/// What `cron_create` gives: the first missing string field is an error and
/// nothing changes; otherwise a new enabled job under a fresh 36-character
/// id is registered and the answer is `{id, created: true}`.
pub open spec fn create_outcome(before: Seq<CronJob>, after: Seq<CronJob>, params: JsonValue, r: Result<JsonValue, AdapterError>) -> bool {
    if str_field(params, "name"@) is None {
        r matches Err(e) && is_invalid_params(e, "cron_create"@, missing_field_reason("name"@)) && after == before
    } else if str_field(params, "schedule"@) is None {
        r matches Err(e) && is_invalid_params(e, "cron_create"@, missing_field_reason("schedule"@)) && after == before
    } else if str_field(params, "command"@) is None {
        r matches Err(e) && is_invalid_params(e, "cron_create"@, missing_field_reason("command"@)) && after == before
    } else {
        r matches Ok(j) && exists|job: CronJob| #[trigger] created_job(job, job.id@, params, job.created_at)
            && job.id@.len() == 36 && after == with_job(before, job) && keys_of(j) == seq!["id"@, "created"@]
            && str_of(value_at(j, 0)) == Some(job.id@) && value_at(j, 1) == JsonValue::Bool(true)
    }
}

/// The answer of `cron_list`: `{jobs: [...]}` with every job of the
/// registry, in order.
pub open spec fn list_answer(jobs: Seq<CronJob>, j: JsonValue) -> bool {
    &&& keys_of(j) == seq!["jobs"@]
    &&& value_at(j, 0) matches JsonValue::Array(a) && a@.len() == jobs.len() && forall|i: int|
        0 <= i < a@.len() ==> #[trigger] job_json(a@[i], jobs[i])
}

/// What `cron_delete` gives: the job named by `id` is removed and the
/// answer is `{deleted: true}`; a missing `id` or an unknown one is an
/// error.
pub open spec fn delete_outcome(before: Seq<CronJob>, after: Seq<CronJob>, params: JsonValue, r: Result<JsonValue, AdapterError>) -> bool {
    &&& after == match str_field(params, "id"@) {
        Some(id) => without_job(before, id),
        None => before,
    }
    &&& match str_field(params, "id"@) {
        None => r matches Err(e) && is_invalid_params(e, "cron_delete"@, missing_field_reason("id"@)),
        Some(id) => if has_job(before, id) {
            r matches Ok(j) && keys_of(j) == seq!["deleted"@] && value_at(j, 0) == JsonValue::Bool(true)
        } else {
            r matches Err(e) && is_execution_failed(e, "cron_delete"@, job_not_found_reason(id))
        },
    }
}

/// What `cron_toggle` gives: the `enabled` flag of the job named by `id` is
/// set and the answer is `{id, enabled}`; a missing field or an unknown id
/// is an error.
pub open spec fn toggle_outcome(before: Seq<CronJob>, after: Seq<CronJob>, params: JsonValue, r: Result<JsonValue, AdapterError>) -> bool {
    &&& after == match (str_field(params, "id"@), bool_field(params, "enabled"@)) {
        (Some(id), Some(b)) => with_enabled(before, id, b),
        _ => before,
    }
    &&& match str_field(params, "id"@) {
        None => r matches Err(e) && is_invalid_params(e, "cron_toggle"@, missing_field_reason("id"@)),
        Some(id) => match bool_field(params, "enabled"@) {
            None => r matches Err(e) && is_invalid_params(e, "cron_toggle"@, "missing required boolean field `enabled`"@),
            Some(b) => if has_job(before, id) {
                r matches Ok(j) && keys_of(j) == seq!["id"@, "enabled"@] && str_of(value_at(j, 0)) == Some(id)
                    && value_at(j, 1) == JsonValue::Bool(b)
            } else {
                r matches Err(e) && is_execution_failed(e, "cron_toggle"@, job_not_found_reason(id))
            },
        },
    }
}

/// The JSON form of an optional timestamp.
pub open spec fn timestamp_json(t: Option<i64>) -> JsonValue {
    match t {
        Some(n) => if n >= 0 {
            JsonValue::Number(JsonNumber::PosInt(n as u64))
        } else {
            JsonValue::Number(JsonNumber::NegInt(n))
        },
        None => JsonValue::Null,
    }
}

/// Whether `j` is the listed form of `job`.
pub open spec fn job_json(j: JsonValue, job: CronJob) -> bool {
    &&& keys_of(j) == seq!["id"@, "name"@, "schedule"@, "command"@, "enabled"@, "last_run"@, "next_run"@]
    &&& str_of(value_at(j, 0)) == Some(job.id@)
    &&& str_of(value_at(j, 1)) == Some(job.name@)
    &&& str_of(value_at(j, 2)) == Some(job.schedule@)
    &&& str_of(value_at(j, 3)) == Some(job.command@)
    &&& value_at(j, 4) == JsonValue::Bool(job.enabled)
    &&& value_at(j, 5) == timestamp_json(job.last_run)
    &&& value_at(j, 6) == timestamp_json(job.next_run)
}

// ---------------------------------------------------------------------------
// Laws of the registry
// ---------------------------------------------------------------------------

/// Inserting a job keeps ids unique, and the job is then registered.
pub proof fn law_insert_keeps_ids_unique(jobs: Seq<CronJob>, job: CronJob)
    requires
        ids_unique(jobs),
    ensures
        ids_unique(with_job(jobs, job)),
        has_job(with_job(jobs, job), job.id@),
        with_job(jobs, job)[job_index(with_job(jobs, job), job.id@)] == job,
{
    let r = with_job(jobs, job);
    if has_job(jobs, job.id@) {
        let k = job_index(jobs, job.id@);
        assert(r[k].id@ == job.id@);
        lemma_index_unique(r, job.id@, k);
    } else {
        let k = jobs.len() as int;
        assert(r[k].id@ == job.id@);
        assert(ids_unique(r));
        lemma_index_unique(r, job.id@, k);
    }
}

/// In a registry with unique ids, the job with a given id is at the one
/// position holding that id.
pub proof fn lemma_index_unique(jobs: Seq<CronJob>, id: Seq<char>, k: int)
    requires
        ids_unique(jobs),
        0 <= k < jobs.len(),
        jobs[k].id@ == id,
    ensures
        has_job(jobs, id),
        job_index(jobs, id) == k,
{
    assert(has_job(jobs, id));
    let c = job_index(jobs, id);
    if c != k {
        if c < k {
            assert(jobs[c].id@ != jobs[k].id@);
        } else {
            assert(jobs[k].id@ != jobs[c].id@);
        }
    }
}

/// Removing a job keeps ids unique, and no job with that id remains.
pub proof fn law_remove_forgets(jobs: Seq<CronJob>, id: Seq<char>)
    requires
        ids_unique(jobs),
    ensures
        ids_unique(without_job(jobs, id)),
        !has_job(without_job(jobs, id), id),
{
    let r = without_job(jobs, id);
    if has_job(jobs, id) {
        let k = job_index(jobs, id);
        assert forall|i: int, j: int| 0 <= i < j < r.len() implies #[trigger] r[i].id@ != #[trigger] r[j].id@ by {
            let a = if i < k { i } else { i + 1 };
            let b = if j < k { j } else { j + 1 };
            assert(r[i] == jobs[a] && r[j] == jobs[b]);
            assert(jobs[a].id@ != jobs[b].id@);
        }
        if has_job(r, id) {
            let w = choose|i: int| 0 <= i < r.len() && #[trigger] r[i].id@ == id;
            let a = if w < k { w } else { w + 1 };
            assert(r[w] == jobs[a]);
            if a < k {
                assert(jobs[a].id@ != jobs[k].id@);
            } else {
                assert(jobs[k].id@ != jobs[a].id@);
            }
        }
    }
}

/// Registering a job under a new id and then deleting that id gives back
/// the registry as it was.
pub proof fn law_create_then_delete(jobs: Seq<CronJob>, job: CronJob)
    requires
        ids_unique(jobs),
        !has_job(jobs, job.id@),
    ensures
        without_job(with_job(jobs, job), job.id@) == jobs,
{
    let r = with_job(jobs, job);
    assert(r == jobs.push(job));
    law_insert_keeps_ids_unique(jobs, job);
    lemma_index_unique(r, job.id@, jobs.len() as int);
    assert(r.remove(jobs.len() as int) =~= jobs);
}

/// A created job is registered as asked and leaves the others in place:
/// after a `cron_create` with string `name`, `schedule` and `command`, the
/// answer names an id under which the registry holds an enabled job with
/// that name, schedule and command, and every job that had another id is
/// still at its position.
pub proof fn law_create_registers_job(before: Seq<CronJob>, after: Seq<CronJob>, params: JsonValue, r: Result<JsonValue, AdapterError>)
    requires
        str_field(params, "name"@) is Some,
        str_field(params, "schedule"@) is Some,
        str_field(params, "command"@) is Some,
        create_outcome(before, after, params, r),
    ensures
        r matches Ok(j) && (str_of(value_at(j, 0)) matches Some(id) && (exists|k: int|
            0 <= k < after.len() && #[trigger] after[k].id@ == id && Some(after[k].name@) == str_field(params, "name"@)
                && Some(after[k].schedule@) == str_field(params, "schedule"@) && Some(after[k].command@)
                == str_field(params, "command"@) && after[k].enabled) && before.len() <= after.len() && forall|i: int|
            0 <= i < before.len() && before[i].id@ != id ==> #[trigger] after[i] == before[i]),
{
    let job = choose|job: CronJob| #[trigger] created_job(job, job.id@, params, job.created_at)
        && job.id@.len() == 36 && after == with_job(before, job) && keys_of(r->Ok_0) == seq!["id"@, "created"@]
        && str_of(value_at(r->Ok_0, 0)) == Some(job.id@) && value_at(r->Ok_0, 1) == JsonValue::Bool(true);
    if has_job(before, job.id@) {
        let k = job_index(before, job.id@);
        assert(after[k] == job);
    } else {
        let k = before.len() as int;
        assert(after[k] == job);
    }
}

/// Toggling changes only the flag of that job; a second toggle overrides
/// the first.
pub proof fn law_toggle(jobs: Seq<CronJob>, id: Seq<char>, a: bool, b: bool)
    requires
        ids_unique(jobs),
    ensures
        ids_unique(with_enabled(jobs, id, a)),
        has_job(with_enabled(jobs, id, a), id) == has_job(jobs, id),
        has_job(jobs, id) ==> with_enabled(jobs, id, a)[job_index(jobs, id)].enabled == a,
        with_enabled(with_enabled(jobs, id, a), id, b) == with_enabled(jobs, id, b),
{
    let r = with_enabled(jobs, id, a);
    if has_job(jobs, id) {
        let k = job_index(jobs, id);
        assert(r.len() == jobs.len());
        assert forall|i: int| 0 <= i < r.len() implies #[trigger] r[i].id@ == jobs[i].id@ by {}
        assert(ids_unique(r));
        assert(r[k].id@ == id);
        lemma_index_unique(r, id, k);
        let r2 = with_enabled(r, id, b);
        assert(r2 =~= with_enabled(jobs, id, b));
    }
}

// ---------------------------------------------------------------------------
// Trusted sources of ids and time
// ---------------------------------------------------------------------------

/// `uuid::Uuid::now_v7().to_string()`: a fresh time-ordered UUID in its
/// hyphenated form, which is 36 characters long.  Which UUID comes back
/// depends on the clock and on chance, so nothing else is stated.
#[verifier::external_body]
fn fresh_job_id() -> (r: String)
    ensures
        r@.len() == 36,
{
    uuid::Uuid::now_v7().to_string()
}

/// `chrono::Utc::now().timestamp()`: the current Unix time in seconds, as
/// the clock gives it; nothing is stated of it.
#[verifier::external_body]
pub(crate) fn unix_now() -> (r: i64) {
    chrono::Utc::now().timestamp()
}

// ---------------------------------------------------------------------------
// The adapter
// ---------------------------------------------------------------------------

/// Cron scheduling adapter backed by an in-memory registry.
#[derive(Debug)]
pub struct CronAdapter {
    id: String,
    connected: bool,
    jobs: Vec<CronJob>,
}

/// Whether `name` is one of the four cron tools.
pub open spec fn is_cron_tool(name: Seq<char>) -> bool {
    name == "cron_create"@ || name == "cron_list"@ || name == "cron_delete"@ || name == "cron_toggle"@
}

impl CronAdapter {
    #[verifier::type_invariant]
    spec fn registry_wf(self) -> bool {
        ids_unique(self.jobs@)
    }

    /// The registered jobs, in registration order.
    pub closed spec fn registry(&self) -> Seq<CronJob> {
        self.jobs@
    }

    /// The adapter's id.
    pub closed spec fn id_view(&self) -> Seq<char> {
        self.id@
    }

    /// Whether the adapter is connected.
    pub closed spec fn is_connected(&self) -> bool {
        self.connected
    }

    /// A new, disconnected adapter with an empty registry.
    pub fn new(id: &str) -> (r: Self)
        ensures
            r.id_view() == id@,
            !r.is_connected(),
            r.registry().len() == 0,
            ids_unique(r.registry()),
    {
        CronAdapter { id: String::from_str(id), connected: false, jobs: Vec::new() }
    }

    /// The adapter's id.
    pub fn id(&self) -> (r: &str)
        ensures
            r@ == self.id_view(),
    {
        self.id.as_str()
    }

    /// Whether the adapter is connected.
    pub fn connected(&self) -> (r: bool)
        ensures
            r == self.is_connected(),
    {
        self.connected
    }

    /// The adapter's category.
    pub fn adapter_type(&self) -> (r: AdapterType)
        ensures
            r == AdapterType::System,
    {
        AdapterType::System
    }

    /// The adapter needs no credential.
    pub fn required_auth(&self) -> (r: Option<AuthRequirement>)
        ensures
            r is None,
    {
        None
    }

    /// Marks the adapter connected; the registry is kept.
    pub fn connect(&mut self) -> (r: Result<(), AdapterError>)
        ensures
            r is Ok,
            final(self).is_connected(),
            final(self).id_view() == old(self).id_view(),
            final(self).registry() == old(self).registry(),
    {
        proof {
            use_type_invariant(&*self);
        }
        self.connected = true;
        Ok(())
    }

    /// Marks the adapter disconnected; the registry is kept.
    pub fn disconnect(&mut self) -> (r: Result<(), AdapterError>)
        ensures
            r is Ok,
            !final(self).is_connected(),
            final(self).id_view() == old(self).id_view(),
            final(self).registry() == old(self).registry(),
    {
        proof {
            use_type_invariant(&*self);
        }
        self.connected = false;
        Ok(())
    }

    /// Healthy when connected, unhealthy otherwise.
    pub fn health_check(&self) -> (r: Result<HealthStatus, AdapterError>)
        ensures
            r == Ok::<HealthStatus, AdapterError>(basic_health(self.is_connected())),
    {
        if self.connected {
            Ok(HealthStatus::Healthy)
        } else {
            Ok(HealthStatus::Unhealthy)
        }
    }

    /// The four cron tools.
    pub fn tools(&self) -> (r: Vec<ToolDefinition>)
        ensures
            cron_tool_shapes(r@),
    {
        cron_tool_definitions()
    }

    /// The position of the job with id `id`, if registered.
    fn position(&self, id: &str) -> (r: Option<usize>)
        ensures
            match r {
                Some(i) => i < self.registry().len() && has_job(self.registry(), id@) && job_index(
                    self.registry(),
                    id@,
                ) == i,
                None => !has_job(self.registry(), id@),
            },
    {
        proof {
            use_type_invariant(self);
        }
        let mut i: usize = 0;
        while i < self.jobs.len()
            invariant
                i <= self.jobs@.len(),
                ids_unique(self.jobs@),
                forall|k: int| 0 <= k < i ==> #[trigger] self.jobs@[k].id@ != id@,
            decreases self.jobs.len() - i,
        {
            if same_text(self.jobs[i].id.as_str(), id) {
                proof {
                    lemma_index_unique(self.jobs@, id@, i as int);
                }
                return Some(i);
            }
            i = i + 1;
        }
        None
    }

    /// Inserts a job under its id, replacing a job with the same id.
    pub fn insert_job(&mut self, job: CronJob)
        ensures
            final(self).registry() == with_job(old(self).registry(), job),
            ids_unique(final(self).registry()),
            final(self).id_view() == old(self).id_view(),
            final(self).is_connected() == old(self).is_connected(),
    {
        proof {
            use_type_invariant(&*self);
            law_insert_keeps_ids_unique(self.jobs@, job);
        }
        match self.position(job.id.as_str()) {
            Some(i) => {
                let ghost expected = with_job(self.jobs@, job);
                let mut v: Vec<CronJob> = Vec::new();
                std::mem::swap(&mut v, &mut self.jobs);
                v.set(i, job);
                assert(v@ == expected);
                self.jobs = v;
                proof {
                    use_type_invariant(&*self);
                }
            },
            None => {
                let ghost expected = with_job(self.jobs@, job);
                let mut v: Vec<CronJob> = Vec::new();
                std::mem::swap(&mut v, &mut self.jobs);
                v.push(job);
                assert(v@ == expected);
                self.jobs = v;
                proof {
                    use_type_invariant(&*self);
                }
            },
        }
    }

    /// `cron_create` with a given id and creation time: registers a new,
    /// enabled job from the `name`, `schedule` and `command` parameters and
    /// answers `{id, created: true}`.
    pub fn create_job(&mut self, params: &JsonValue, id: String, now: i64) -> (r: Result<JsonValue, AdapterError>)
        ensures
            final(self).id_view() == old(self).id_view(),
            final(self).is_connected() == old(self).is_connected(),
            str_field(*params, "name"@) is None ==> (r matches Err(e) && is_invalid_params(
                e,
                "cron_create"@,
                missing_field_reason("name"@),
            ) && final(self).registry() == old(self).registry()),
            str_field(*params, "name"@) is Some && str_field(*params, "schedule"@) is None ==> (r matches Err(e)
                && is_invalid_params(e, "cron_create"@, missing_field_reason("schedule"@)) && final(self).registry()
                == old(self).registry()),
            str_field(*params, "name"@) is Some && str_field(*params, "schedule"@) is Some && str_field(
                *params,
                "command"@,
            ) is None ==> (r matches Err(e) && is_invalid_params(e, "cron_create"@, missing_field_reason("command"@))
                && final(self).registry() == old(self).registry()),
            r is Ok <==> (str_field(*params, "name"@) is Some && str_field(*params, "schedule"@) is Some
                && str_field(*params, "command"@) is Some),
            r matches Ok(j) ==> {
                &&& exists|job: CronJob| #[trigger] created_job(job, id@, *params, now)
                    && final(self).registry() == with_job(old(self).registry(), job)
                &&& keys_of(j) == seq!["id"@, "created"@]
                &&& str_of(value_at(j, 0)) == Some(id@)
                &&& value_at(j, 1) == JsonValue::Bool(true)
            },
    {
        let name = match require_str(params, "name", "cron_create") {
            Ok(s) => s,
            Err(e) => {
                return Err(e);
            },
        };
        let schedule = match require_str(params, "schedule", "cron_create") {
            Ok(s) => s,
            Err(e) => {
                return Err(e);
            },
        };
        let command = match require_str(params, "command", "cron_create") {
            Ok(s) => s,
            Err(e) => {
                return Err(e);
            },
        };
        let answer_id = id.clone();
        let job = CronJob {
            id,
            name,
            schedule,
            command,
            enabled: true,
            created_at: now,
            last_run: None,
            next_run: None,
        };
        assert(created_job(job, answer_id@, *params, now));
        self.insert_job(job);
        let mut es: Vec<(String, JsonValue)> = Vec::new();
        es.push((String::from_str("id"), JsonValue::Str(answer_id)));
        es.push((String::from_str("created"), JsonValue::Bool(true)));
        let j = JsonValue::Object(es);
        assert(keys_of(j) =~= seq!["id"@, "created"@]);
        Ok(j)
    }

    /// `cron_create`: registers a job under a fresh id, created now.
    pub fn tool_cron_create(&mut self, params: &JsonValue) -> (r: Result<JsonValue, AdapterError>)
        ensures
            final(self).id_view() == old(self).id_view(),
            final(self).is_connected() == old(self).is_connected(),
            create_outcome(old(self).registry(), final(self).registry(), *params, r),
    {
        let id = fresh_job_id();
        let now = unix_now();
        self.create_job(params, id, now)
    }

    /// `cron_list`: `{jobs: [...]}` with every registered job, in registry
    /// order.
    pub fn list_jobs(&self) -> (j: JsonValue)
        ensures
            list_answer(self.registry(), j),
    {
        let mut out: Vec<JsonValue> = Vec::new();
        let mut i: usize = 0;
        while i < self.jobs.len()
            invariant
                i <= self.jobs@.len(),
                out@.len() == i,
                forall|k: int| 0 <= k < i ==> #[trigger] job_json(out@[k], self.jobs@[k]),
            decreases self.jobs.len() - i,
        {
            out.push(job_to_json(&self.jobs[i]));
            i = i + 1;
        }
        let mut es: Vec<(String, JsonValue)> = Vec::new();
        es.push((String::from_str("jobs"), JsonValue::Array(out)));
        let j = JsonValue::Object(es);
        assert(keys_of(j) =~= seq!["jobs"@]);
        j
    }

    /// `cron_delete`: removes the job named by the `id` parameter and
    /// answers `{deleted: true}`; an unknown id is an error.
    pub fn delete_job(&mut self, params: &JsonValue) -> (r: Result<JsonValue, AdapterError>)
        ensures
            final(self).id_view() == old(self).id_view(),
            final(self).is_connected() == old(self).is_connected(),
            delete_outcome(old(self).registry(), final(self).registry(), *params, r),
    {
        let id = match require_str(params, "id", "cron_delete") {
            Ok(s) => s,
            Err(e) => {
                return Err(e);
            },
        };
        match self.position(id.as_str()) {
            Some(i) => {
                proof {
                    use_type_invariant(&*self);
                    law_remove_forgets(self.jobs@, id@);
                }
                let ghost expected = without_job(self.jobs@, id@);
                let mut v: Vec<CronJob> = Vec::new();
                std::mem::swap(&mut v, &mut self.jobs);
                let _removed = v.remove(i);
                assert(v@ == expected);
                self.jobs = v;
                let mut es: Vec<(String, JsonValue)> = Vec::new();
                es.push((String::from_str("deleted"), JsonValue::Bool(true)));
                let j = JsonValue::Object(es);
                assert(keys_of(j) =~= seq!["deleted"@]);
                Ok(j)
            },
            None => {
                let mut reason = String::from_str("cron job `");
                reason.append(id.as_str());
                reason.append("` not found");
                Err(execution_failed("cron_delete", reason))
            },
        }
    }

    /// `cron_toggle`: sets the `enabled` flag of the job named by `id` and
    /// answers `{id, enabled}`; an unknown id is an error.
    pub fn toggle_job(&mut self, params: &JsonValue) -> (r: Result<JsonValue, AdapterError>)
        ensures
            final(self).id_view() == old(self).id_view(),
            final(self).is_connected() == old(self).is_connected(),
            toggle_outcome(old(self).registry(), final(self).registry(), *params, r),
    {
        let id = match require_str(params, "id", "cron_toggle") {
            Ok(s) => s,
            Err(e) => {
                return Err(e);
            },
        };
        let enabled = match get_bool(params, "enabled") {
            Some(b) => b,
            None => {
                return Err(
                    invalid_params("cron_toggle", String::from_str("missing required boolean field `enabled`")),
                );
            },
        };
        match self.position(id.as_str()) {
            Some(i) => {
                proof {
                    use_type_invariant(&*self);
                    law_toggle(self.jobs@, id@, enabled, enabled);
                }
                let ghost expected = with_enabled(self.jobs@, id@, enabled);
                let mut v: Vec<CronJob> = Vec::new();
                std::mem::swap(&mut v, &mut self.jobs);
                let mut job = v.remove(i);
                job.enabled = enabled;
                v.insert(i, job);
                assert(v@ =~= expected);
                self.jobs = v;
                let mut es: Vec<(String, JsonValue)> = Vec::new();
                es.push((String::from_str("id"), JsonValue::Str(id)));
                es.push((String::from_str("enabled"), JsonValue::Bool(enabled)));
                let j = JsonValue::Object(es);
                assert(keys_of(j) =~= seq!["id"@, "enabled"@]);
                Ok(j)
            },
            None => {
                let mut reason = String::from_str("cron job `");
                reason.append(id.as_str());
                reason.append("` not found");
                Err(execution_failed("cron_toggle", reason))
            },
        }
    }

    /// Runs a tool: rejected when disconnected or when the tool is unknown,
    /// otherwise the tool of that name.
    pub fn execute_tool(&mut self, name: &str, params: &JsonValue) -> (r: Result<JsonValue, AdapterError>)
        ensures
            final(self).id_view() == old(self).id_view(),
            !old(self).is_connected() ==> (r matches Err(e) && is_not_connected_error(e, old(self).id_view(), name@)
                && final(self).registry() == old(self).registry()),
            old(self).is_connected() && !is_cron_tool(name@) ==> (r matches Err(e) && is_tool_not_found(
                e,
                old(self).id_view(),
                name@,
            ) && final(self).registry() == old(self).registry()),
            old(self).is_connected() ==> (is_unknown_tool(r) <==> !is_cron_tool(name@)),
            old(self).is_connected() && name@ == "cron_create"@ ==> create_outcome(
                old(self).registry(),
                final(self).registry(),
                *params,
                r,
            ),
            old(self).is_connected() && name@ == "cron_list"@ ==> (r matches Ok(j) && list_answer(
                old(self).registry(),
                j,
            ) && final(self).registry() == old(self).registry()),
            old(self).is_connected() && name@ == "cron_delete"@ ==> delete_outcome(
                old(self).registry(),
                final(self).registry(),
                *params,
                r,
            ),
            old(self).is_connected() && name@ == "cron_toggle"@ ==> toggle_outcome(
                old(self).registry(),
                final(self).registry(),
                *params,
                r,
            ),
    {
        proof {
            reveal_strlit("cron_create");
            reveal_strlit("cron_list");
            reveal_strlit("cron_delete");
            reveal_strlit("cron_toggle");
            assert("cron_list"@.len() != "cron_create"@.len());
            assert("cron_delete"@[5] != "cron_create"@[5]);
            assert("cron_toggle"@[5] != "cron_create"@[5]);
            assert("cron_toggle"@[5] != "cron_delete"@[5]);
            assert("cron_list"@.len() != "cron_delete"@.len());
            assert("cron_list"@.len() != "cron_toggle"@.len());
        }
        match ensure_connected(self.connected, self.id.as_str(), name) {
            Ok(()) => {},
            Err(e) => {
                return Err(e);
            },
        }
        if same_text(name, "cron_create") {
            self.tool_cron_create(params)
        } else if same_text(name, "cron_list") {
            Ok(self.list_jobs())
        } else if same_text(name, "cron_delete") {
            self.delete_job(params)
        } else if same_text(name, "cron_toggle") {
            self.toggle_job(params)
        } else {
            Err(tool_not_found(self.id.as_str(), name))
        }
    }
}

/// The JSON form of an optional timestamp.
fn timestamp_to_json(t: Option<i64>) -> (j: JsonValue)
    ensures
        j == timestamp_json(t),
{
    match t {
        Some(n) => if n >= 0 {
            JsonValue::Number(JsonNumber::PosInt(n as u64))
        } else {
            JsonValue::Number(JsonNumber::NegInt(n))
        },
        None => JsonValue::Null,
    }
}

/// The listed form of a job.
pub fn job_to_json(job: &CronJob) -> (j: JsonValue)
    ensures
        job_json(j, *job),
{
    let mut es: Vec<(String, JsonValue)> = Vec::new();
    es.push((String::from_str("id"), JsonValue::Str(job.id.clone())));
    es.push((String::from_str("name"), JsonValue::Str(job.name.clone())));
    es.push((String::from_str("schedule"), JsonValue::Str(job.schedule.clone())));
    es.push((String::from_str("command"), JsonValue::Str(job.command.clone())));
    es.push((String::from_str("enabled"), JsonValue::Bool(job.enabled)));
    es.push((String::from_str("last_run"), timestamp_to_json(job.last_run)));
    es.push((String::from_str("next_run"), timestamp_to_json(job.next_run)));
    let j = JsonValue::Object(es);
    assert(keys_of(j) =~= seq!["id"@, "name"@, "schedule"@, "command"@, "enabled"@, "last_run"@, "next_run"@]);
    j
}

/// The four cron tools, in order: names, descriptions, parameters with JSON types
/// and documentation, and required parameters.
pub open spec fn cron_tool_shapes(ts: Seq<ToolDefinition>) -> bool {
    &&& ts.len() == 4
    &&& tool_shape(ts[0], "cron_create"@, seq![("name"@, SchemaKind::Str), ("schedule"@, SchemaKind::Str), ("command"@, SchemaKind::Str)], Some(seq!["name"@, "schedule"@, "command"@]))
    &&& tool_shape(ts[1], "cron_list"@, Seq::empty(), None)
    &&& tool_shape(ts[2], "cron_delete"@, seq![("id"@, SchemaKind::Str)], Some(seq!["id"@]))
    &&& tool_shape(ts[3], "cron_toggle"@, seq![("id"@, SchemaKind::Str), ("enabled"@, SchemaKind::Boolean)], Some(seq!["id"@, "enabled"@]))
    &&& tool_doc(ts[0], "Create a new recurring cron job"@, seq![(Some("Human-readable name for the job"@), Seq::<Seq<char>>::empty(), None, None), (Some("Cron expression (e.g. '0 */5 * * *')"@), Seq::<Seq<char>>::empty(), None, None), (Some("The command or intent to execute"@), Seq::<Seq<char>>::empty(), None, None)])
    &&& tool_doc(ts[1], "List all registered cron jobs"@, Seq::<ParamDoc>::empty())
    &&& tool_doc(ts[2], "Delete a cron job by ID"@, seq![(Some("The ID of the cron job to delete"@), Seq::<Seq<char>>::empty(), None, None)])
    &&& tool_doc(ts[3], "Enable or disable a cron job"@, seq![(Some("The ID of the cron job to toggle"@), Seq::<Seq<char>>::empty(), None, None), (Some("Whether to enable (true) or disable (false) the job"@), Seq::<Seq<char>>::empty(), None, None)])
}

/// Builds the definitions of the four cron tools.
pub fn cron_tool_definitions() -> (r: Vec<ToolDefinition>)
    ensures
        cron_tool_shapes(r@),
{
    let mut ts: Vec<ToolDefinition> = Vec::new();
    let mut s1 = bare_schema(SchemaKind::Object);
    let mut p1: Vec<(String, ParamSchema)> = Vec::new();
    let mut s2 = bare_schema(SchemaKind::Str);
    s2.description = Some(String::from_str("Human-readable name for the job"));
    p1.push((String::from_str("name"), s2));
    let mut s3 = bare_schema(SchemaKind::Str);
    s3.description = Some(String::from_str("Cron expression (e.g. '0 */5 * * *')"));
    p1.push((String::from_str("schedule"), s3));
    let mut s4 = bare_schema(SchemaKind::Str);
    s4.description = Some(String::from_str("The command or intent to execute"));
    p1.push((String::from_str("command"), s4));
    s1.properties = p1;
    s1.has_properties = true;
    s1.required = Some(strings_of(&["name", "schedule", "command"]));
    ts.push(tool("cron_create", "Create a new recurring cron job", s1));
    let mut s5 = bare_schema(SchemaKind::Object);
    let mut p5: Vec<(String, ParamSchema)> = Vec::new();
    s5.properties = p5;
    s5.has_properties = true;
    ts.push(tool("cron_list", "List all registered cron jobs", s5));
    let mut s6 = bare_schema(SchemaKind::Object);
    let mut p6: Vec<(String, ParamSchema)> = Vec::new();
    let mut s7 = bare_schema(SchemaKind::Str);
    s7.description = Some(String::from_str("The ID of the cron job to delete"));
    p6.push((String::from_str("id"), s7));
    s6.properties = p6;
    s6.has_properties = true;
    s6.required = Some(strings_of(&["id"]));
    ts.push(tool("cron_delete", "Delete a cron job by ID", s6));
    let mut s8 = bare_schema(SchemaKind::Object);
    let mut p8: Vec<(String, ParamSchema)> = Vec::new();
    let mut s9 = bare_schema(SchemaKind::Str);
    s9.description = Some(String::from_str("The ID of the cron job to toggle"));
    p8.push((String::from_str("id"), s9));
    let mut s10 = bare_schema(SchemaKind::Boolean);
    s10.description = Some(String::from_str("Whether to enable (true) or disable (false) the job"));
    p8.push((String::from_str("enabled"), s10));
    s8.properties = p8;
    s8.has_properties = true;
    s8.required = Some(strings_of(&["id", "enabled"]));
    ts.push(tool("cron_toggle", "Enable or disable a cron job", s8));
    proof {
        assert(param_docs(ts@[0]) =~~= seq![(Some("Human-readable name for the job"@), Seq::<Seq<char>>::empty(), None, None), (Some("Cron expression (e.g. '0 */5 * * *')"@), Seq::<Seq<char>>::empty(), None, None), (Some("The command or intent to execute"@), Seq::<Seq<char>>::empty(), None, None)]);
        assert(param_docs(ts@[1]) =~~= Seq::<ParamDoc>::empty());
        assert(param_docs(ts@[2]) =~~= seq![(Some("The ID of the cron job to delete"@), Seq::<Seq<char>>::empty(), None, None)]);
        assert(param_docs(ts@[3]) =~~= seq![(Some("The ID of the cron job to toggle"@), Seq::<Seq<char>>::empty(), None, None), (Some("Whether to enable (true) or disable (false) the job"@), Seq::<Seq<char>>::empty(), None, None)]);
        assert(params_of(ts@[0]) =~= seq![("name"@, SchemaKind::Str), ("schedule"@, SchemaKind::Str), ("command"@, SchemaKind::Str)]);
        assert(views(ts@[0].parameters.required->Some_0@) =~= seq!["name"@, "schedule"@, "command"@]);
        assert(params_of(ts@[1]) =~= Seq::<(Seq<char>, SchemaKind)>::empty());
        assert(params_of(ts@[2]) =~= seq![("id"@, SchemaKind::Str)]);
        assert(views(ts@[2].parameters.required->Some_0@) =~= seq!["id"@]);
        assert(params_of(ts@[3]) =~= seq![("id"@, SchemaKind::Str), ("enabled"@, SchemaKind::Boolean)]);
        assert(views(ts@[3].parameters.required->Some_0@) =~= seq!["id"@, "enabled"@]);
    }
    ts
}


/// The tools the adapter lists are exactly those it executes: a name is
/// listed by `tools` exactly when it is one of the cron tools, which
/// `execute_tool` answers with "tool not found" for no other name.
pub proof fn law_listed_tools_are_executed(ts: Seq<ToolDefinition>, name: Seq<char>)
    requires
        cron_tool_shapes(ts),
    ensures
        lists_tool(ts, name) <==> is_cron_tool(name),
{
    if name == "cron_create"@ {
        assert(ts[0].name@ == name);
    } else if name == "cron_list"@ {
        assert(ts[1].name@ == name);
    } else if name == "cron_delete"@ {
        assert(ts[2].name@ == name);
    } else if name == "cron_toggle"@ {
        assert(ts[3].name@ == name);
    }
}

} // verus!
