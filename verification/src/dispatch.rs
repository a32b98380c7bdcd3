//! The dispatch state machine.
//!
//! A `Dispatcher` ties the registry, the filter and the debounce gates
//! together. For each inbound notification, `begin` resolves the token,
//! validates and filters the payload, and tries to take the project's
//! gate; a `Triggered` outcome carries the target path the actuator must
//! operate on, and obliges the caller to run the actuator sequence and
//! then call `finish`, which frees it again, on every exit path.
//!
//! The transition is pinned to the specification functions `step_outcome`
//! and `step_gates`, so that properties of whole bursts of notifications
//! can be stated and proved over them.

use vstd::prelude::*;
use crate::config::{compose_path_view, Project};
use crate::filter::{name_allowed, name_allowed_view, name_view, FilterPolarity, Notification};
use crate::gate::GateMap;
use crate::registry::{find_index, has_token, project_of, token_index, tokens_unique};

verus! {

/// Why building a dispatcher from a project list failed.
#[derive(Clone, Copy, PartialEq, Eq, Structural, Debug)]
pub enum ConfigError {
    /// Two projects share a token.
    DuplicateToken,
}

/// How handling one notification ended. Every variant but `Triggered`
/// ends handling with no action and no gate change.
pub enum Outcome {
    /// The token names no project.
    UnknownToken,
    /// The payload carries no package identity.
    MalformedPayload,
    /// The package name did not pass the project's filter.
    FilteredName,
    /// The project's gate is already held: a redeploy is in flight.
    AlreadyRunning,
    /// The notification took its project's gate; the actuator must run against the carried
    /// target path, and `finish` must follow.
    Triggered(String),
}

/// The shape of an `Outcome`, without the target path.
pub enum OutcomeKind {
    UnknownToken,
    MalformedPayload,
    FilteredName,
    AlreadyRunning,
    Triggered,
}

/// The shape of an outcome.
pub open spec fn outcome_kind(o: Outcome) -> OutcomeKind {
    match o {
        Outcome::UnknownToken => OutcomeKind::UnknownToken,
        Outcome::MalformedPayload => OutcomeKind::MalformedPayload,
        Outcome::FilteredName => OutcomeKind::FilteredName,
        Outcome::AlreadyRunning => OutcomeKind::AlreadyRunning,
        Outcome::Triggered(_) => OutcomeKind::Triggered,
    }
}

/// How one notification for token `t` carrying `name` ends, given the
/// project list, the per-project flags and the filter polarity.
pub open spec fn step_outcome(
    ps: Seq<Project>,
    gates: Seq<bool>,
    pol: FilterPolarity,
    t: Seq<char>,
    name: Option<Seq<char>>,
) -> OutcomeKind {
    if !has_token(ps, t) {
        OutcomeKind::UnknownToken
    } else if name is None {
        OutcomeKind::MalformedPayload
    } else if !name_allowed_view(project_of(ps, t), name->0, pol) {
        OutcomeKind::FilteredName
    } else if gates[token_index(ps, t)] {
        OutcomeKind::AlreadyRunning
    } else {
        OutcomeKind::Triggered
    }
}

/// The per-project flags after that notification: the project's gate is taken
/// exactly when the outcome is `Triggered`.
pub open spec fn step_gates(
    ps: Seq<Project>,
    gates: Seq<bool>,
    pol: FilterPolarity,
    t: Seq<char>,
    name: Option<Seq<char>>,
) -> Seq<bool> {
    if step_outcome(ps, gates, pol, t, name) is Triggered {
        gates.update(token_index(ps, t), true)
    } else {
        gates
    }
}

/// The request-handling entry point: registry, gates and filter polarity.
pub struct Dispatcher {
    pub projects: Vec<Project>,
    pub gates: GateMap,
    pub polarity: FilterPolarity,
}

impl Dispatcher {
    /// Tokens are pairwise distinct and each project has its own gate.
    pub open spec fn wf(self) -> bool {
        &&& self.gates.held@.len() == self.projects@.len()
        &&& tokens_unique(self.projects@)
    }

    /// Builds the registry and one free gate per project, rejecting a
    /// project list in which two projects share a token.
    pub fn new(projects: Vec<Project>, polarity: FilterPolarity) -> (r: Result<Dispatcher, ConfigError>)
        ensures
            match r {
                Ok(d) => {
                    &&& tokens_unique(projects@)
                    &&& d.wf()
                    &&& d.projects@ == projects@
                    &&& d.polarity == polarity
                    &&& forall|i: int| 0 <= i < d.gates.held@.len() ==> !d.gates.held@[i]
                },
                Err(e) => e == ConfigError::DuplicateToken && !tokens_unique(projects@),
            },
    {
        let n = projects.len();
        let mut i: usize = 0;
        while i < n
            invariant
                n == projects@.len(),
                i <= n,
                forall|a: int, b: int| 0 <= a < b < i ==> projects@[a].token@ != projects@[b].token@,
            decreases n - i,
        {
            let mut j: usize = 0;
            while j < i
                invariant
                    n == projects@.len(),
                    i < n,
                    j <= i,
                    forall|a: int| 0 <= a < j ==> projects@[a].token@ != projects@[i as int].token@,
                decreases i - j,
            {
                if projects[j].token == projects[i].token {
                    return Err(ConfigError::DuplicateToken);
                }
                j += 1;
            }
            i += 1;
        }
        let gates = GateMap::new(n);
        Ok(Dispatcher { projects, gates, polarity })
    }

    /// Handles one notification: resolve the token, check the payload
    /// shape, filter the package name, and try to take the project's
    /// gate. The outcome and the new gate flags are exactly those of
    /// `step_outcome` and `step_gates`; a `Triggered` outcome carries the
    /// resolved project's target path.
    pub fn begin(&mut self, token: &String, note: &Notification) -> (out: Outcome)
        requires
            old(self).wf(),
        ensures
            final(self).wf(),
            final(self).projects == old(self).projects,
            final(self).polarity == old(self).polarity,
            outcome_kind(out) == step_outcome(
                old(self).projects@,
                old(self).gates.held@,
                old(self).polarity,
                token@,
                name_view(*note),
            ),
            final(self).gates.held@ == step_gates(
                old(self).projects@,
                old(self).gates.held@,
                old(self).polarity,
                token@,
                name_view(*note),
            ),
            out matches Outcome::Triggered(target)
                ==> target@ == compose_path_view(project_of(old(self).projects@, token@)),
    {
        let found = find_index(&self.projects, token);
        match found {
            None => Outcome::UnknownToken,
            Some(i) => {
                match &note.package_name {
                    None => Outcome::MalformedPayload,
                    Some(name) => {
                        let allowed = name_allowed(&self.projects[i], name, self.polarity);
                        if !allowed {
                            Outcome::FilteredName
                        } else if !self.gates.try_acquire(i) {
                            Outcome::AlreadyRunning
                        } else {
                            let target = self.projects[i].compose_path();
                            Outcome::Triggered(target)
                        }
                    },
                }
            },
        }
    }

    /// Frees the debounce gate of the project carrying `token`, after the actuator
    /// sequence the matching `begin` obliged the caller to run has ended,
    /// in success or in failure.
    pub fn finish(&mut self, token: &String)
        requires
            old(self).wf(),
            has_token(old(self).projects@, token@),
            old(self).gates.held@[token_index(old(self).projects@, token@)],
        ensures
            final(self).wf(),
            final(self).projects == old(self).projects,
            final(self).polarity == old(self).polarity,
            final(self).gates.held@ == old(self).gates.held@.update(
                token_index(old(self).projects@, token@),
                false,
            ),
    {
        let found = find_index(&self.projects, token);
        match found {
            Some(i) => {
                self.gates.release(i);
            },
            None => {
                proof {
                    assert(false);
                }
            },
        }
    }
}

} // verus!
