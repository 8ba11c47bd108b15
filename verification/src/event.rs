//! Lease events as the coordination layer delivers them.

use vstd::prelude::*;

verus! {

/// One notification that a lease was applied: the lease's name and the
/// identity of the node that holds it. The event source may leave either out,
/// which the engine rejects.
#[derive(Debug, Clone, PartialEq, Eq)]
pub struct LeaseEvent {
    pub lease_name: Option<String>,
    pub holder_identity: Option<String>,
}

/// The mathematical content of a [`LeaseEvent`].
pub struct LeaseEventView {
    pub lease_name: Option<Seq<char>>,
    pub holder_identity: Option<Seq<char>>,
}

impl View for LeaseEvent {
    type V = LeaseEventView;

    open spec fn view(&self) -> LeaseEventView {
        LeaseEventView {
            lease_name: match self.lease_name {
                Some(name) => Some(name@),
                None => None,
            },
            holder_identity: match self.holder_identity {
                Some(holder) => Some(holder@),
                None => None,
            },
        }
    }
}

/// What an event lacks when the engine rejects it.
#[derive(Debug, Clone, Copy, PartialEq, Eq, Structural)]
pub enum EventDefect {
    /// The lease names no holder.
    MissingHolder,
    /// The lease has no name.
    MissingLeaseName,
}

impl LeaseEventView {
    /// The event that says `holder` holds the lease `lease_name`.
    pub open spec fn of(lease_name: Seq<char>, holder: Seq<char>) -> LeaseEventView {
        LeaseEventView { lease_name: Some(lease_name), holder_identity: Some(holder) }
    }

    /// What the event lacks, if anything. A missing holder is reported
    /// before a missing name.
    pub open spec fn defect(self) -> Option<EventDefect> {
        if self.holder_identity is None {
            Some(EventDefect::MissingHolder)
        } else if self.lease_name is None {
            Some(EventDefect::MissingLeaseName)
        } else {
            None
        }
    }
}

impl LeaseEvent {
    /// The event that says `holder` holds the lease `lease_name`.
    pub fn new(lease_name: &str, holder: &str) -> (event: Self)
        ensures
            event@ == LeaseEventView::of(lease_name@, holder@),
    {
        LeaseEvent {
            lease_name: Some(lease_name.to_owned()),
            holder_identity: Some(holder.to_owned()),
        }
    }

    /// What the event lacks, if anything.
    pub fn defect(&self) -> (defect: Option<EventDefect>)
        ensures
            defect == self@.defect(),
    {
        if self.holder_identity.is_none() {
            Some(EventDefect::MissingHolder)
        } else if self.lease_name.is_none() {
            Some(EventDefect::MissingLeaseName)
        } else {
            None
        }
    }
}

} // verus!
