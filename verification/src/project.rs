//! The project record: a name, a filesystem path, and the moment it was last
//! opened.

use vstd::prelude::*;

verus! {

/// A point in time, measured as a duration since the epoch: whole seconds and
/// a nanosecond remainder. Ordered lexicographically, seconds first.
#[derive(Clone, Copy, Debug, PartialEq, Eq, Structural)]
pub struct Timestamp {
    pub secs: u64,
    pub nanos: u32,
}

impl Timestamp {
    /// `self` is at or before `other`.
    pub open spec fn spec_le(self, other: Timestamp) -> bool {
        self.secs < other.secs || (self.secs == other.secs && self.nanos <= other.nanos)
    }

    /// The epoch itself: the timestamp of a project that was never opened.
    pub fn epoch() -> (r: Timestamp)
        ensures
            r.secs == 0 && r.nanos == 0,
    {
        Timestamp { secs: 0, nanos: 0 }
    }

    pub fn new(secs: u64, nanos: u32) -> (r: Timestamp)
        ensures
            r.secs == secs,
            r.nanos == nanos,
    {
        Timestamp { secs, nanos }
    }

    /// `self` is at or before `other`.
    pub fn le(&self, other: &Timestamp) -> (r: bool)
        ensures
            r == self.spec_le(*other),
    {
        self.secs < other.secs || (self.secs == other.secs && self.nanos <= other.nanos)
    }
}

/// One managed project: a display name, the path of its directory, and when it
/// was last opened.
#[derive(Debug)]
pub struct Project {
    pub name: String,
    pub path: String,
    pub last_opened: Timestamp,
}

/// Structural equality of two records: every field matches exactly. Two
/// records count as the same entry only under this relation.
pub open spec fn same_record(a: Project, b: Project) -> bool {
    a.name@ == b.name@ && a.path@ == b.path@ && a.last_opened == b.last_opened
}

impl Project {
    pub fn new(name: String, path: String, last_opened: Timestamp) -> (r: Project)
        ensures
            r.name@ == name@,
            r.path@ == path@,
            r.last_opened == last_opened,
    {
        Project { name, path, last_opened }
    }

    /// Touch: record `now` as the moment the project was last opened.
    pub fn set_last_opened(&mut self, now: Timestamp)
        ensures
            final(self).name == old(self).name,
            final(self).path == old(self).path,
            final(self).last_opened == now,
    {
        self.last_opened = now;
    }

    /// The record shown as one line of text: `name (path)`.
    pub fn display_line(&self) -> (r: String)
        ensures
            r@ == self.name@ + " ("@ + self.path@ + ")"@,
    {
        let mut out = String::new();
        out.append(self.name.as_str());
        out.append(" (");
        out.append(self.path.as_str());
        out.append(")");
        proof {
            assert(out@ == self.name@ + " ("@ + self.path@ + ")"@);
        }
        out
    }
}

impl Clone for Project {
    fn clone(&self) -> (r: Self)
        ensures
            r == *self,
    {
        let r = Project {
            name: self.name.clone(),
            path: self.path.clone(),
            last_opened: self.last_opened,
        };
        proof {
            assert(r == *self);
        }
        r
    }
}

impl PartialEq for Project {
    fn eq(&self, other: &Project) -> (r: bool) {
        self.name == other.name && self.path == other.path
            && self.last_opened.secs == other.last_opened.secs
            && self.last_opened.nanos == other.last_opened.nanos
    }
}

impl vstd::std_specs::cmp::PartialEqSpecImpl for Project {
    open spec fn obeys_eq_spec() -> bool {
        true
    }

    open spec fn eq_spec(&self, other: &Project) -> bool {
        same_record(*self, *other)
    }
}

} // verus!
