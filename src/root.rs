//! Locating the project root: the nearest directory, from the current one
//! upwards, that holds the marker file.
//!
//! A directory is given by its components below the filesystem root; the
//! directory at depth `d` is the one named by the first `d` components of
//! the current directory, depth 0 being the filesystem root itself.

use crate::error::ServiceError;
use vstd::prelude::*;

verus! {

/// The file whose presence marks the project root.
pub const MARKER_FILE: &'static str = "Makefile";

/// The deepest depth below `upto` whose directory holds the marker, if any.
pub open spec fn nearest_marked(marks: Seq<bool>, upto: nat) -> Option<nat>
    decreases upto,
{
    if upto == 0 {
        None
    } else if marks[upto - 1] {
        Some((upto - 1) as nat)
    } else {
        nearest_marked(marks, (upto - 1) as nat)
    }
}

/// The project root for the current directory `cwd`, where `marks[d]` tells
/// whether the directory at depth `d` holds the marker file. The walk goes
/// from `cwd` upwards and stops at the first marked directory; past the
/// filesystem root it fails with `RootNotFound`.
pub fn locate_root(cwd: Vec<String>, marks: &Vec<bool>) -> (r: Result<Vec<String>, ServiceError>)
    requires
        marks@.len() == cwd@.len() + 1,
    ensures
        match nearest_marked(marks@, marks@.len()) {
            Some(d) => r matches Ok(root) && root@ == cwd@.subrange(0, d as int),
            None => r == Err::<Vec<String>, ServiceError>(ServiceError::RootNotFound),
        },
{
    let mut dirs = cwd;
    let mut depth: usize = marks.len();
    while depth > 0
        invariant
            depth <= marks@.len(),
            marks@.len() == cwd@.len() + 1,
            dirs@ == cwd@,
            nearest_marked(marks@, marks@.len()) == nearest_marked(marks@, depth as nat),
        decreases depth,
    {
        if marks[depth - 1] {
            dirs.truncate(depth - 1);
            return Ok(dirs);
        }
        depth = depth - 1;
    }
    Err(ServiceError::RootNotFound)
}

/// Where the marker sits at depth `d` and no deeper directory up to the
/// current one holds it, the root is the directory at depth `d`; where no
/// directory holds it, there is no root.
pub proof fn lemma_root_is_nearest_marker(marks: Seq<bool>, d: nat)
    ensures
        d < marks.len() && marks[d as int] && (forall|e: int| d < e < marks.len() ==> !marks[e])
            ==> nearest_marked(marks, marks.len()) == Some(d),
        (forall|e: int| 0 <= e < marks.len() ==> !marks[e]) ==> nearest_marked(marks, marks.len())
            is None,
{
    lemma_nearest_marked_deepest(marks, marks.len(), d);
    lemma_nearest_marked_none(marks, marks.len());
}

proof fn lemma_nearest_marked_deepest(marks: Seq<bool>, upto: nat, d: nat)
    requires
        upto <= marks.len(),
    ensures
        d < upto && marks[d as int] && (forall|e: int| d < e < upto ==> !marks[e])
            ==> nearest_marked(marks, upto) == Some(d),
    decreases upto,
{
    if upto > 0 && upto - 1 != d {
        lemma_nearest_marked_deepest(marks, (upto - 1) as nat, d);
    }
}

proof fn lemma_nearest_marked_none(marks: Seq<bool>, upto: nat)
    requires
        upto <= marks.len(),
    ensures
        (forall|e: int| 0 <= e < upto ==> !marks[e]) ==> nearest_marked(marks, upto) is None,
    decreases upto,
{
    if upto > 0 {
        lemma_nearest_marked_none(marks, (upto - 1) as nat);
    }
}

} // verus!
