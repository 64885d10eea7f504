//! The worker pool: one supervisor for each worker, all with the same
//! configuration path and protocol version, and no two with the same name.

use vstd::prelude::*;
use vstd::string::*;
use crate::supervisor::{Stage, Supervisor, SupervisorView};
use crate::text::same_text;

verus! {

/// No name occurs twice.
pub open spec fn names_differ(names: Seq<String>) -> bool {
    forall|i: int, j: int| 0 <= i < j < names.len() ==> names[i]@ != names[j]@
}

/// The supervisor that a pool makes for a worker.
pub open spec fn pooled(
    worker: Seq<char>,
    config_path: Seq<char>,
    protocol_version: u16,
) -> SupervisorView {
    SupervisorView { worker, config_path, protocol_version, stage: Stage::Waiting }
}

/// Whether a name differs from every name of a list: whether a worker may
/// still take it.
pub fn is_fresh(names: &Vec<String>, name: &str) -> (fresh: bool)
    ensures
        fresh == forall|i: int| 0 <= i < names@.len() ==> names@[i]@ != name@,
{
    let mut i: usize = 0;
    while i < names.len()
        invariant
            i <= names@.len(),
            forall|k: int| 0 <= k < i ==> names@[k]@ != name@,
        decreases names@.len() - i,
    {
        if same_text(names[i].as_str(), name) {
            return false;
        }
        i += 1;
    }
    true
}

fn occurs_before(names: &Vec<String>, end: usize) -> (found: bool)
    requires
        end < names@.len(),
    ensures
        found == exists|i: int| 0 <= i < end && names@[i]@ == names@[end as int]@,
{
    let mut i: usize = 0;
    while i < end
        invariant
            i <= end < names@.len(),
            forall|k: int| 0 <= k < i ==> names@[k]@ != names@[end as int]@,
        decreases end - i,
    {
        if same_text(names[i].as_str(), names[end].as_str()) {
            return true;
        }
        i += 1;
    }
    false
}

/// Whether no name occurs twice.
pub fn all_different(names: &Vec<String>) -> (different: bool)
    ensures
        different == names_differ(names@),
{
    let mut j: usize = 0;
    while j < names.len()
        invariant
            j <= names@.len(),
            forall|a: int, b: int| 0 <= a < b < j ==> names@[a]@ != names@[b]@,
        decreases names@.len() - j,
    {
        if occurs_before(names, j) {
            return false;
        }
        j += 1;
    }
    true
}

/// The supervisors of a pool, one for each name and in the order of the
/// names, each with the given configuration path and protocol version and
/// none begun. There is no pool where a name occurs twice: a worker's name is
/// its identity.
pub fn worker_pool(names: Vec<String>, config_path: &str, protocol_version: u16) -> (pool: Option<
    Vec<Supervisor>,
>)
    ensures
        match pool {
            Some(workers) => {
                &&& names_differ(names@)
                &&& workers@.len() == names@.len()
                &&& forall|i: int|
                    0 <= i < workers@.len() ==> (#[trigger] workers@[i])@ == pooled(
                        names@[i]@,
                        config_path@,
                        protocol_version,
                    )
            },
            None => !names_differ(names@),
        },
{
    if !all_different(&names) {
        return None;
    }
    let mut workers: Vec<Supervisor> = Vec::new();
    let mut i: usize = 0;
    while i < names.len()
        invariant
            i <= names@.len(),
            workers@.len() == i,
            forall|k: int|
                0 <= k < i ==> (#[trigger] workers@[k])@ == pooled(
                    names@[k]@,
                    config_path@,
                    protocol_version,
                ),
        decreases names@.len() - i,
    {
        workers.push(Supervisor::new(names[i].clone(), config_path.to_owned(), protocol_version));
        i += 1;
    }
    Some(workers)
}

} // verus!
