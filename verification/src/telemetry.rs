//! Structured telemetry events and the switch that turns their emission on
//! or off.
use vstd::prelude::*;
use crate::domain::MicroUsd;
use crate::ids::now_millis;
use crate::text::str_equal;

verus! {

/// Why emitting telemetry failed.
pub enum TelemetryError {
    EmissionFailed(String),
}

impl TelemetryError {
    /// The message of the error, as its `Display` prints it.
    pub fn to_string(&self) -> (s: String)
        ensures
            s@ == match self {
                TelemetryError::EmissionFailed(m) => "Telemetry emission failed: "@ + m@,
            },
    {
        match self {
            TelemetryError::EmissionFailed(m) => {
                let mut s = String::from_str("Telemetry emission failed: ");
                s.append(m.as_str());
                s
            },
        }
    }
}

/// A structured event for the observability pipeline: a timestamp, a type
/// and a status, optional correlation ids, a cost, and extra fields.
pub struct TelemetryEvent {
    /// Milliseconds since the epoch.
    pub timestamp: i64,
    pub tenant_id: Option<String>,
    pub mission_id: Option<String>,
    pub task_id: Option<String>,
    pub agent_id: Option<String>,
    pub parent_agent_id: Option<String>,
    pub lineage_id: Option<String>,
    pub worker_id: Option<String>,
    pub trace_id: Option<String>,
    pub event_type: String,
    pub lifecycle_mode: Option<String>,
    pub risk_level: Option<String>,
    pub status: String,
    pub cost_usd: MicroUsd,
    /// Extra fields, each key at most once.
    pub additional: Vec<(String, String)>,
}

/// The extra fields as key and value texts.
pub open spec fn pair_views(v: Seq<(String, String)>) -> Seq<(Seq<char>, Seq<char>)> {
    Seq::new(v.len(), |i: int| (v[i].0@, v[i].1@))
}

/// `new` is `old` with `key` set to `value`: the field with that key takes
/// the new value in place, or the field is added at the end.
pub open spec fn fields_after_set(
    old: Seq<(Seq<char>, Seq<char>)>,
    new: Seq<(Seq<char>, Seq<char>)>,
    key: Seq<char>,
    value: Seq<char>,
) -> bool {
    if exists|i: int| 0 <= i < old.len() && #[trigger] old[i].0 == key {
        exists|i: int|
            0 <= i < old.len() && #[trigger] old[i].0 == key && (forall|j: int| 0 <= j < i ==> old[j].0 != key)
                && new == old.update(i, (key, value))
    } else {
        new == old.push((key, value))
    }
}

/// The value of the first field with that key.
pub open spec fn field_value(fields: Seq<(Seq<char>, Seq<char>)>, key: Seq<char>) -> Option<Seq<char>> {
    if exists|i: int| 0 <= i < fields.len() && #[trigger] fields[i].0 == key {
        Some(
            fields[choose|i: int|
                0 <= i < fields.len() && #[trigger] fields[i].0 == key && forall|j: int|
                    0 <= j < i ==> fields[j].0 != key].1,
        )
    } else {
        None
    }
}

/// `b` is `a` with possibly other optional ids, cost and extra fields: the
/// timestamp, type and status are kept.
pub open spec fn same_core(a: TelemetryEvent, b: TelemetryEvent) -> bool {
    a.timestamp == b.timestamp && a.event_type@ == b.event_type@ && a.status@ == b.status@
}

/// `b` differs from `a` at most in the field that `which` names.
pub open spec fn same_but(a: TelemetryEvent, b: TelemetryEvent, which: int) -> bool {
    &&& same_core(a, b)
    &&& (which != 0 ==> b.tenant_id == a.tenant_id)
    &&& (which != 1 ==> b.mission_id == a.mission_id)
    &&& (which != 2 ==> b.task_id == a.task_id)
    &&& (which != 3 ==> b.agent_id == a.agent_id)
    &&& (which != 4 ==> b.parent_agent_id == a.parent_agent_id)
    &&& (which != 5 ==> b.lineage_id == a.lineage_id)
    &&& (which != 6 ==> b.worker_id == a.worker_id)
    &&& (which != 7 ==> b.trace_id == a.trace_id)
    &&& (which != 8 ==> b.lifecycle_mode == a.lifecycle_mode)
    &&& (which != 9 ==> b.risk_level == a.risk_level)
    &&& (which != 10 ==> b.cost_usd == a.cost_usd)
    &&& (which != 11 ==> pair_views(b.additional@) == pair_views(a.additional@))
}

impl TelemetryEvent {
    /// A fresh event of a type and a status, stamped with the current time,
    /// with no ids, no cost and no extra fields.
    pub fn new(event_type: &str, status: &str) -> (e: TelemetryEvent)
        ensures
            e.event_type@ == event_type@,
            e.status@ == status@,
            e.tenant_id is None && e.mission_id is None && e.task_id is None && e.agent_id is None,
            e.parent_agent_id is None && e.lineage_id is None && e.worker_id is None && e.trace_id is None,
            e.lifecycle_mode is None && e.risk_level is None,
            e.cost_usd == 0,
            e.additional@.len() == 0,
    {
        TelemetryEvent {
            timestamp: now_millis(),
            tenant_id: None,
            mission_id: None,
            task_id: None,
            agent_id: None,
            parent_agent_id: None,
            lineage_id: None,
            worker_id: None,
            trace_id: None,
            event_type: String::from_str(event_type),
            lifecycle_mode: None,
            risk_level: None,
            status: String::from_str(status),
            cost_usd: 0,
            additional: Vec::new(),
        }
    }

    /// Sets the tenant id.
    pub fn with_tenant_id(self, tenant_id: String) -> (e: TelemetryEvent)
        ensures
            e.tenant_id == Some(tenant_id),
            same_but(self, e, 0),
    {
        let mut e = self;
        e.tenant_id = Some(tenant_id);
        e
    }

    /// Sets the mission id.
    pub fn with_mission_id(self, mission_id: String) -> (e: TelemetryEvent)
        ensures
            e.mission_id == Some(mission_id),
            same_but(self, e, 1),
    {
        let mut e = self;
        e.mission_id = Some(mission_id);
        e
    }

    /// Sets the task id.
    pub fn with_task_id(self, task_id: String) -> (e: TelemetryEvent)
        ensures
            e.task_id == Some(task_id),
            same_but(self, e, 2),
    {
        let mut e = self;
        e.task_id = Some(task_id);
        e
    }

    /// Sets the agent id.
    pub fn with_agent_id(self, agent_id: String) -> (e: TelemetryEvent)
        ensures
            e.agent_id == Some(agent_id),
            same_but(self, e, 3),
    {
        let mut e = self;
        e.agent_id = Some(agent_id);
        e
    }

    /// Sets the parent agent id.
    pub fn with_parent_agent_id(self, parent_agent_id: String) -> (e: TelemetryEvent)
        ensures
            e.parent_agent_id == Some(parent_agent_id),
            same_but(self, e, 4),
    {
        let mut e = self;
        e.parent_agent_id = Some(parent_agent_id);
        e
    }

    /// Sets the lineage id.
    pub fn with_lineage_id(self, lineage_id: String) -> (e: TelemetryEvent)
        ensures
            e.lineage_id == Some(lineage_id),
            same_but(self, e, 5),
    {
        let mut e = self;
        e.lineage_id = Some(lineage_id);
        e
    }

    /// Sets the worker id.
    pub fn with_worker_id(self, worker_id: String) -> (e: TelemetryEvent)
        ensures
            e.worker_id == Some(worker_id),
            same_but(self, e, 6),
    {
        let mut e = self;
        e.worker_id = Some(worker_id);
        e
    }

    /// Sets the trace id.
    pub fn with_trace_id(self, trace_id: String) -> (e: TelemetryEvent)
        ensures
            e.trace_id == Some(trace_id),
            same_but(self, e, 7),
    {
        let mut e = self;
        e.trace_id = Some(trace_id);
        e
    }

    /// Sets the lifecycle mode.
    pub fn with_lifecycle_mode(self, lifecycle_mode: String) -> (e: TelemetryEvent)
        ensures
            e.lifecycle_mode == Some(lifecycle_mode),
            same_but(self, e, 8),
    {
        let mut e = self;
        e.lifecycle_mode = Some(lifecycle_mode);
        e
    }

    /// Sets the risk level.
    pub fn with_risk_level(self, risk_level: String) -> (e: TelemetryEvent)
        ensures
            e.risk_level == Some(risk_level),
            same_but(self, e, 9),
    {
        let mut e = self;
        e.risk_level = Some(risk_level);
        e
    }

    /// Sets the cost, in millionths of a dollar.
    pub fn with_cost(self, cost_usd: MicroUsd) -> (e: TelemetryEvent)
        ensures
            e.cost_usd == cost_usd,
            same_but(self, e, 10),
    {
        let mut e = self;
        e.cost_usd = cost_usd;
        e
    }

    /// Sets an extra field; a field with the same key takes the new value.
    pub fn with_additional(self, key: String, value: String) -> (e: TelemetryEvent)
        ensures
            fields_after_set(pair_views(self.additional@), pair_views(e.additional@), key@, value@),
            same_but(self, e, 11),
    {
        let mut e = self;
        let ghost orig = e;
        let ghost before = pair_views(e.additional@);
        let mut i: usize = 0;
        while i < e.additional.len()
            invariant
                e == orig,
                orig == self,
                i <= e.additional@.len(),
                before == pair_views(e.additional@),
                forall|j: int| 0 <= j < i ==> #[trigger] before[j].0 != key@,
            decreases e.additional.len() - i,
        {
            if str_equal(e.additional[i].0.as_str(), key.as_str()) {
                let ghost kv = (key@, value@);
                e.additional.set(i, (key, value));
                proof {
                    assert(pair_views(e.additional@) =~= before.update(i as int, kv));
                    assert(before[i as int].0 == key@);
                    assert(exists|k: int| 0 <= k < before.len() && #[trigger] before[k].0 == key@);
                }
                return e;
            }
            i = i + 1;
        }
        let ghost kv = (key@, value@);
        e.additional.push((key, value));
        proof {
            assert(pair_views(e.additional@) =~= before.push(kv));
            assert(!exists|k: int| 0 <= k < before.len() && #[trigger] before[k].0 == key@);
        }
        e
    }

    /// The value of the extra field with that key.
    pub fn additional_value(&self, key: &str) -> (r: Option<&String>)
        ensures
            match r {
                Some(v) => field_value(pair_views(self.additional@), key@) == Some(v@),
                None => field_value(pair_views(self.additional@), key@) is None,
            },
    {
        let ghost f = pair_views(self.additional@);
        let mut i: usize = 0;
        while i < self.additional.len()
            invariant
                i <= self.additional@.len(),
                f == pair_views(self.additional@),
                forall|j: int| 0 <= j < i ==> #[trigger] f[j].0 != key@,
            decreases self.additional.len() - i,
        {
            if str_equal(self.additional[i].0.as_str(), key) {
                proof {
                    assert(f[i as int].0 == key@);
                    let c = choose|c: int| 0 <= c < f.len() && #[trigger] f[c].0 == key@ && forall|j: int|
                        0 <= j < c ==> f[j].0 != key@;
                    assert(c == i) by {
                        if c < i {
                            assert(f[c].0 != key@);
                        } else if c > i {
                            assert(f[i as int].0 != key@);
                        }
                    }
                }
                return Some(&self.additional[i].1);
            }
            i = i + 1;
        }
        None
    }
}

/// The switch for emitting telemetry events as structured log lines.
pub struct TelemetryService {
    pub enabled: bool,
}

impl TelemetryService {
    /// A service that emits events when `enabled`.
    pub fn new(enabled: bool) -> (s: TelemetryService)
        ensures
            s.enabled == enabled,
    {
        TelemetryService { enabled }
    }
}

impl Default for TelemetryService {
    /// Emission is on by default.
    fn default() -> (s: TelemetryService)
        ensures
            s.enabled,
    {
        TelemetryService { enabled: true }
    }
}

} // verus!
