//! The command resolver: what to launch, and from which directory.
//!
//! The launched tool is fixed. The working directory is found by walking
//! upward from the running program's own directory through its ancestors,
//! looking for the project marker file; the embedding program performs the
//! filesystem existence checks and hands the answers in, oldest directory
//! last. Absence of the marker is a normal outcome, not an error: the
//! working directory is then simply left unset.

use vstd::prelude::*;

verus! {

/// How many ancestor directories the marker search inspects at most.
pub const MAX_HOPS: usize = 10;

/// What to spawn: the executable, its arguments in order, and the chosen
/// working directory, if the marker search found one.
pub struct SpawnRequest {
    pub executable: String,
    pub args: Vec<String>,
    pub working_directory: Option<String>,
}

/// The rule of the marker search, of a candidate answer `r`: `Some(i)` must
/// point at the first directory within the hop bound whose marker check came
/// back true, and `None` is right exactly when no directory within the bound
/// has the marker.
pub open spec fn marker_choice_is(markers: Seq<bool>, r: Option<int>) -> bool {
    match r {
        Some(i) => {
            &&& 0 <= i < markers.len()
            &&& i < MAX_HOPS as int
            &&& markers[i]
            &&& forall|j: int| 0 <= j < i ==> !markers[j]
        },
        None => forall|j: int| 0 <= j < markers.len() && j < MAX_HOPS as int ==> !markers[j],
    }
}

/// Find the first directory holding the project marker, inspecting at most
/// `MAX_HOPS` of the given answers. `markers[k]` answers whether the marker
/// file exists in the k-th directory of the upward walk.
pub fn find_marker(markers: &Vec<bool>) -> (r: Option<usize>)
    ensures
        r matches Some(i) ==> marker_choice_is(markers@, Some(i as int)),
        r is None ==> marker_choice_is(markers@, None),
{
    let mut i: usize = 0;
    while i < markers.len() && i < MAX_HOPS
        invariant
            i <= markers@.len(),
            i <= MAX_HOPS,
            forall|j: int| 0 <= j < i ==> !markers@[j],
        decreases markers@.len() - i,
    {
        if markers[i] {
            return Some(i);
        }
        i = i + 1;
    }
    None
}

/// Build the spawn request: the fixed tool invocation `uv run docpack deck`,
/// with the working directory of the first marked ancestor, or none. The
/// search never fails; it only decides whether a directory is named.
pub fn resolve(dirs: &Vec<String>, markers: &Vec<bool>) -> (r: SpawnRequest)
    requires
        dirs@.len() == markers@.len(),
    ensures
        r.executable@ == "uv"@,
        r.args@.len() == 3,
        r.args@[0]@ == "run"@,
        r.args@[1]@ == "docpack"@,
        r.args@[2]@ == "deck"@,
        r.working_directory matches Some(d) ==> exists|i: int|
            marker_choice_is(markers@, Some(i)) && d@ == dirs@[i]@,
        r.working_directory is None ==> marker_choice_is(markers@, None),
{
    let mut args: Vec<String> = Vec::new();
    args.push("run".to_owned());
    args.push("docpack".to_owned());
    args.push("deck".to_owned());
    let working_directory = match find_marker(markers) {
        Some(i) => Some(dirs[i].clone()),
        None => None,
    };
    SpawnRequest { executable: "uv".to_owned(), args, working_directory }
}

} // verus!
