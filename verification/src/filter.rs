//! The notification filter.
//!
//! A notification carries at most a package name. A notification without
//! one does not have the package-publish shape and is never accepted. When
//! a project configures a package-name filter, the filter's polarity
//! decides which names proceed: `AllowListed` lets exactly the listed
//! names through, while `RejectListed` reproduces the historical behaviour
//! of rejecting exactly the listed names. Without a filter every
//! well-formed notification is accepted.

use vstd::prelude::*;
use crate::config::Project;

verus! {

/// Which side of a project's package-name filter proceeds to action.
#[derive(Clone, Copy, PartialEq, Eq, Structural, Debug)]
pub enum FilterPolarity {
    /// Names on the list are rejected, all others proceed (the historical
    /// reading of the list).
    RejectListed,
    /// Only names on the list proceed (the list read as an allow-list).
    AllowListed,
}

/// One inbound package-publish notification: at most a package name.
pub struct Notification {
    pub package_name: Option<String>,
}

/// The package name a notification carries, if any.
pub open spec fn name_view(n: Notification) -> Option<Seq<char>> {
    match n.package_name {
        Some(s) => Some(s@),
        None => None,
    }
}

/// Membership of a name in a project's filter list.
pub open spec fn name_listed(names: Seq<String>, n: Seq<char>) -> bool {
    exists|i: int| 0 <= i < names.len() && names[i]@ == n
}

/// Whether a package name passes a project's filter under a polarity.
pub open spec fn name_allowed_view(p: Project, n: Seq<char>, pol: FilterPolarity) -> bool {
    match p.package_names {
        None => true,
        Some(names) => match pol {
            FilterPolarity::RejectListed => !name_listed(names@, n),
            FilterPolarity::AllowListed => name_listed(names@, n),
        },
    }
}

/// Whether a notification is accepted for a project: it must carry a
/// package name, and that name must pass the project's filter.
pub open spec fn accepts_view(p: Project, name: Option<Seq<char>>, pol: FilterPolarity) -> bool {
    name matches Some(n) && name_allowed_view(p, n, pol)
}

/// Membership test against a filter list.
pub fn is_name_listed(names: &Vec<String>, name: &String) -> (r: bool)
    ensures
        r == name_listed(names@, name@),
{
    let n = names.len();
    let mut i: usize = 0;
    while i < n
        invariant
            n == names@.len(),
            i <= n,
            forall|j: int| 0 <= j < i ==> names@[j]@ != name@,
        decreases n - i,
    {
        if names[i] == *name {
            proof {
                assert(name_listed(names@, name@)) by {
                    assert(names@[i as int]@ == name@);
                }
            }
            return true;
        }
        i += 1;
    }
    false
}

/// Whether `name` passes `project`'s filter under `polarity`.
pub fn name_allowed(project: &Project, name: &String, polarity: FilterPolarity) -> (r: bool)
    ensures
        r == name_allowed_view(*project, name@, polarity),
{
    match &project.package_names {
        None => true,
        Some(names) => {
            let listed = is_name_listed(names, name);
            match polarity {
                FilterPolarity::RejectListed => !listed,
                FilterPolarity::AllowListed => listed,
            }
        },
    }
}

/// Whether a notification is accepted for a project: well-formed, and its
/// package name passes the project's filter.
pub fn accepts(project: &Project, note: &Notification, polarity: FilterPolarity) -> (r: bool)
    ensures
        r == accepts_view(*project, name_view(*note), polarity),
{
    match &note.package_name {
        None => false,
        Some(name) => name_allowed(project, name, polarity),
    }
}

} // verus!
