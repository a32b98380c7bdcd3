//! Token-to-project resolution.
//!
//! The registry is a list of projects whose tokens are pairwise distinct.
//! Resolution finds the unique project carrying a given token, or reports
//! that the token is unknown.

use vstd::prelude::*;
use crate::config::Project;

verus! {

/// No two projects share a token.
pub open spec fn tokens_unique(ps: Seq<Project>) -> bool {
    forall|i: int, j: int|
        0 <= i < j < ps.len() ==> ps[i].token@ != ps[j].token@
}

/// Some project carries this token.
pub open spec fn has_token(ps: Seq<Project>, t: Seq<char>) -> bool {
    exists|i: int| 0 <= i < ps.len() && ps[i].token@ == t
}

/// The index of the project carrying this token (meaningful only when
/// `has_token` holds; unique when `tokens_unique` holds).
pub open spec fn token_index(ps: Seq<Project>, t: Seq<char>) -> int {
    choose|i: int| 0 <= i < ps.len() && ps[i].token@ == t
}

/// The project carrying this token.
pub open spec fn project_of(ps: Seq<Project>, t: Seq<char>) -> Project {
    ps[token_index(ps, t)]
}

/// Finds the project carrying `token`, returning its index, or `None` for
/// an unknown token.
pub fn find_index(projects: &Vec<Project>, token: &String) -> (r: Option<usize>)
    requires
        tokens_unique(projects@),
    ensures
        match r {
            Some(i) => {
                &&& has_token(projects@, token@)
                &&& i < projects@.len()
                &&& projects@[i as int].token@ == token@
                &&& i as int == token_index(projects@, token@)
            },
            None => !has_token(projects@, token@),
        },
{
    let n = projects.len();
    let mut i: usize = 0;
    while i < n
        invariant
            n == projects@.len(),
            i <= n,
            tokens_unique(projects@),
            forall|j: int| 0 <= j < i ==> projects@[j].token@ != token@,
        decreases n - i,
    {
        if projects[i].token == *token {
            proof {
                assert(has_token(projects@, token@)) by {
                    assert(projects@[i as int].token@ == token@);
                }
                let j = token_index(projects@, token@);
                assert(0 <= j < projects@.len() && projects@[j].token@ == token@);
                if j != i as int {
                    assert(projects@[j].token@ != projects@[i as int].token@);
                }
            }
            return Some(i);
        }
        i += 1;
    }
    None
}

} // verus!
