use vstd::prelude::*;
use candid::Principal;
use crate::records::{ActionValue, duplicate_optional, same_optional_value, same_value};

verus! {

/// The values of a setting before and after a change.
#[derive(Debug, Clone)]
pub struct Changevalues {
    pub initial: Option<ActionValue>,
    pub new: ActionValue,
}

/// One changed setting, as a caller sees it.
#[derive(Debug, Clone)]
pub struct Change {
    action: String,
    initial: Option<ActionValue>,
    new: ActionValue,
}

impl Change {
    pub closed spec fn spec_action(&self) -> Seq<char> {
        self.action@
    }

    pub closed spec fn spec_initial(&self) -> Option<ActionValue> {
        self.initial
    }

    pub closed spec fn spec_new(&self) -> ActionValue {
        self.new
    }

    pub fn action(&self) -> (r: &str)
        ensures
            r@ == self.spec_action(),
    {
        self.action.as_str()
    }

    pub fn initial(&self) -> (r: &Option<ActionValue>)
        ensures
            *r == self.spec_initial(),
    {
        &self.initial
    }

    pub fn new_value(&self) -> (r: &ActionValue)
        ensures
            *r == self.spec_new(),
    {
        &self.new
    }
}

/// A log entry as a caller sees it.
#[derive(Debug, Clone)]
pub struct LogResponse {
    pub id: u64,
    pub action: String,
    pub changes: Vec<Change>,
    pub initiated_by: Principal,
    pub created_at: u64,
}

/// A record of one action and the settings it changed, each setting once.
#[derive(Debug, Clone)]
pub struct Log {
    initial_value: ActionValue,
    action: String,
    changes: Vec<(String, Changevalues)>,
    initiated_by: Principal,
    created_at: u64,
}

/// Mathematical counterpart of [`Log`]: the changes keyed by setting name, in
/// the order the settings were first changed.
pub struct LogView {
    pub initial_value: ActionValue,
    pub action: Seq<char>,
    pub changes: Seq<(Seq<char>, Changevalues)>,
    pub initiated_by: Principal,
    pub created_at: u64,
}

/// No setting name occurs twice.
pub open spec fn distinct_keys(s: Seq<(Seq<char>, Changevalues)>) -> bool {
    forall|i: int, j: int| 0 <= i < j < s.len() ==> s[i].0 != s[j].0
}

/// `a` and `b` record the same values.
pub open spec fn same_changes(a: Changevalues, b: Changevalues) -> bool {
    same_optional_value(a.initial, b.initial) && same_value(a.new, b.new)
}

/// `a` and `b` are the same log, values compared by content.
pub open spec fn same_log(a: LogView, b: LogView) -> bool {
    &&& same_value(a.initial_value, b.initial_value)
    &&& a.action == b.action
    &&& a.initiated_by == b.initiated_by
    &&& a.created_at == b.created_at
    &&& a.changes.len() == b.changes.len()
    &&& forall|i: int| 0 <= i < a.changes.len() ==>
        (#[trigger] a.changes[i]).0 == b.changes[i].0 && same_changes(a.changes[i].1, b.changes[i].1)
}

impl Changevalues {
    /// A copy of the values.
    pub fn duplicate(&self) -> (r: Self)
        ensures
            same_changes(r, *self),
    {
        Changevalues { initial: duplicate_optional(&self.initial), new: self.new.duplicate() }
    }
}

/// `s` with `key` set to `v`: replaced in place when present, appended otherwise.
pub open spec fn set_change(s: Seq<(Seq<char>, Changevalues)>, key: Seq<char>, v: Changevalues) -> Seq<(Seq<char>, Changevalues)> {
    if exists|i: int| 0 <= i < s.len() && s[i].0 == key {
        let i = choose|i: int| 0 <= i < s.len() && s[i].0 == key;
        s.update(i, (key, v))
    } else {
        s.push((key, v))
    }
}

impl View for Log {
    type V = LogView;

    closed spec fn view(&self) -> LogView {
        LogView {
            initial_value: self.initial_value,
            action: self.action@,
            changes: self.changes@.map_values(|e: (String, Changevalues)| (e.0@, e.1)),
            initiated_by: self.initiated_by,
            created_at: self.created_at,
        }
    }
}

impl Log {
    /// Well-formed: each setting name appears once.
    pub open spec fn wf(&self) -> bool {
        distinct_keys(self@.changes)
    }

    /// A log of `action`, started by `initiated_by` at `now`, with no changes yet.
    pub fn new(action: &str, initiated_by: Principal, now: u64) -> (r: Self)
        ensures
            r.wf(),
            r@.initial_value is Unset,
            r@.action == action@,
            r@.changes == Seq::<(Seq<char>, Changevalues)>::empty(),
            r@.initiated_by == initiated_by,
            r@.created_at == now,
    {
        let r = Log { initial_value: ActionValue::Unset, changes: Vec::new(), action: String::from_str(action), initiated_by, created_at: now };
        proof {
            assert(r@.changes =~= Seq::<(Seq<char>, Changevalues)>::empty());
        }
        r
    }

    /// Records the values of setting `key`, replacing an earlier record of it.
    pub fn add_change(&mut self, key: &str, changes: Changevalues) -> (r: Self)
        requires
            old(self).wf(),
        ensures
            final(self).wf(),
            final(self)@.changes == set_change(old(self)@.changes, key@, changes),
            final(self)@.initial_value == old(self)@.initial_value,
            final(self)@.action == old(self)@.action,
            final(self)@.initiated_by == old(self)@.initiated_by,
            final(self)@.created_at == old(self)@.created_at,
            same_log(r@, final(self)@),
            r.wf(),
    {
        let ghost before = self@.changes;
        let mut i: usize = 0;
        let mut found = false;
        while i < self.changes.len() && !found
            invariant
                i <= self.changes@.len(),
                self@.changes == before,
                found ==> i < before.len() && before[i as int].0 == key@,
                !found ==> forall|j: int| 0 <= j < i ==> before[j].0 != key@,
            decreases self.changes@.len() - i + (if found { 0int } else { 1int }),
        {
            if self.changes[i].0 == String::from_str(key) {
                found = true;
            } else {
                i = i + 1;
            }
        }
        if found {
            proof {
                assert(before[i as int].0 == key@);
                let c = choose|c: int| 0 <= c < before.len() && before[c].0 == key@;
                assert(c == i);
            }
            self.changes.set(i, (String::from_str(key), changes));
            proof {
                assert(self@.changes =~= before.update(i as int, (key@, changes)));
            }
        } else {
            self.changes.push((String::from_str(key), changes));
            proof {
                assert(self@.changes =~= before.push((key@, changes)));
            }
        }
        self.duplicate()
    }

    /// Records the value the setting had before the action, and gives a copy
    /// of the log.
    pub fn set_initial_value(&mut self, value: ActionValue) -> (r: Self)
        requires
            old(self).wf(),
        ensures
            final(self).wf(),
            final(self)@ == (LogView { initial_value: value, ..old(self)@ }),
            same_log(r@, final(self)@),
            r.wf(),
    {
        self.initial_value = value;
        self.duplicate()
    }

    /// The value the setting had before the action.
    pub fn initial_value(&self) -> (r: &ActionValue)
        ensures
            *r == self@.initial_value,
    {
        &self.initial_value
    }

    /// A copy of the log.
    pub fn duplicate(&self) -> (r: Self)
        requires
            self.wf(),
        ensures
            same_log(r@, self@),
            r.wf(),
    {
        let mut changes: Vec<(String, Changevalues)> = Vec::new();
        let mut i: usize = 0;
        while i < self.changes.len()
            invariant
                i <= self.changes@.len(),
                changes@.len() == i,
                self.wf(),
                forall|j: int| 0 <= j < i ==> (#[trigger] changes@[j]).0@ == self.changes@[j].0@
                    && same_changes(changes@[j].1, self.changes@[j].1),
            decreases self.changes@.len() - i,
        {
            let entry = &self.changes[i];
            changes.push((entry.0.clone(), entry.1.duplicate()));
            i = i + 1;
        }
        let r = Log {
            initial_value: self.initial_value.duplicate(),
            action: self.action.clone(),
            changes,
            initiated_by: self.initiated_by,
            created_at: self.created_at,
        };
        proof {
            assert forall|a: int, b: int| 0 <= a < b < r@.changes.len() implies r@.changes[a].0 != r@.changes[b].0 by {
                assert(r@.changes[a].0 == self@.changes[a].0);
                assert(r@.changes[b].0 == self@.changes[b].0);
            }
        }
        r
    }

    /// The log as entry `id`, its changes in recorded order.
    pub fn to_response(&self, id: u64) -> (r: LogResponse)
        ensures
            r.id == id,
            r.action@ == self@.action,
            r.initiated_by == self@.initiated_by,
            r.created_at == self@.created_at,
            r.changes@.len() == self@.changes.len(),
            forall|i: int| 0 <= i < r.changes@.len() ==> {
                &&& #[trigger] r.changes@[i].spec_action() == self@.changes[i].0
                &&& same_optional_value(r.changes@[i].spec_initial(), self@.changes[i].1.initial)
                &&& same_value(r.changes@[i].spec_new(), self@.changes[i].1.new)
            },
    {
        let mut out: Vec<Change> = Vec::new();
        let mut i: usize = 0;
        while i < self.changes.len()
            invariant
                i <= self.changes@.len(),
                out@.len() == i,
                forall|j: int| 0 <= j < i ==> {
                    &&& #[trigger] out@[j].spec_action() == self@.changes[j].0
                    &&& same_optional_value(out@[j].spec_initial(), self@.changes[j].1.initial)
                    &&& same_value(out@[j].spec_new(), self@.changes[j].1.new)
                },
            decreases self.changes@.len() - i,
        {
            let entry = &self.changes[i];
            out.push(Change { action: entry.0.clone(), initial: duplicate_optional(&entry.1.initial), new: entry.1.new.duplicate() });
            i = i + 1;
        }
        LogResponse {
            id,
            changes: out,
            initiated_by: self.initiated_by,
            created_at: self.created_at,
            action: self.action.clone(),
        }
    }
}

} // verus!
