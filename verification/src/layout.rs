//! Where the store keeps what, relative to the working root.
//!
//! ```text
//! active-state/<dir>/            transient, being fuzzed or restored
//! active-state/<dir>/snapshot/   checkpoint image
//! active-state/<dir>/pipes       registry of open pipes
//! saved-states/<state>/          committed, written once
//! saved-states/<state>/snapshot/
//! saved-states/<state>/pipes
//! ```

use vstd::prelude::*;
use crate::naming::is_plain;

verus! {

/// The directory of the saved state named `state`.
pub open spec fn saved_dir_of(state: Seq<char>) -> Seq<char> {
    "./saved-states/"@ + state
}

/// The checkpoint image of the saved state named `state`.
pub open spec fn saved_snapshot_of(state: Seq<char>) -> Seq<char> {
    "./saved-states/"@ + state + "/snapshot"@
}

/// The pipe registry of the saved state named `state`.
pub open spec fn saved_pipes_of(state: Seq<char>) -> Seq<char> {
    "./saved-states/"@ + state + "/pipes"@
}

/// The active directory named `dir`.
pub open spec fn active_dir_of(dir: Seq<char>) -> Seq<char> {
    "./active-state/"@ + dir + "/"@
}

/// The checkpoint image inside the active directory named `dir`.
pub open spec fn active_snapshot_of(dir: Seq<char>) -> Seq<char> {
    "./active-state/"@ + dir + "/snapshot"@
}

/// The pipe registry inside the active directory named `dir`.
pub open spec fn active_pipes_of(dir: Seq<char>) -> Seq<char> {
    "./active-state/"@ + dir + "/pipes"@
}

/// Whether `path` lies below the active area.
pub open spec fn in_active_area(path: Seq<char>) -> bool {
    "./active-state/"@.is_prefix_of(path)
}

/// Whether `path` lies below the saved area.
pub open spec fn in_saved_area(path: Seq<char>) -> bool {
    "./saved-states/"@.is_prefix_of(path)
}

/// Whether the directory `outer` is the directory `inner` or holds it: the
/// path of `outer`, closed by a separator, begins the path of `inner`,
/// closed likewise.
pub open spec fn holds_directory(outer: Seq<char>, inner: Seq<char>) -> bool {
    (outer + seq!['/']).is_prefix_of(inner + seq!['/'])
}

/// The top-level directory of the active area.
pub fn active_area() -> (path: String)
    ensures
        path@ == "active-state"@,
{
    String::from_str("active-state")
}

/// The top-level directory of the saved area.
pub fn saved_area() -> (path: String)
    ensures
        path@ == "saved-states"@,
{
    String::from_str("saved-states")
}

/// The directory of the saved state named `state`.
pub fn saved_dir(state: &str) -> (path: String)
    ensures
        path@ == saved_dir_of(state@),
{
    let mut path = String::from_str("./saved-states/");
    path.append(state);
    path
}

/// The checkpoint image of the saved state named `state`.
pub fn saved_snapshot(state: &str) -> (path: String)
    ensures
        path@ == saved_snapshot_of(state@),
{
    let mut path = String::from_str("./saved-states/");
    path.append(state);
    path.append("/snapshot");
    path
}

/// The pipe registry of the saved state named `state`.
pub fn saved_pipes(state: &str) -> (path: String)
    ensures
        path@ == saved_pipes_of(state@),
{
    let mut path = String::from_str("./saved-states/");
    path.append(state);
    path.append("/pipes");
    path
}

/// The active directory named `dir`.
pub fn active_dir(dir: &str) -> (path: String)
    ensures
        path@ == active_dir_of(dir@),
{
    let mut path = String::from_str("./active-state/");
    path.append(dir);
    path.append("/");
    path
}

/// The checkpoint image inside the active directory named `dir`: where a
/// tree copy of a saved checkpoint image into that directory lands.
pub fn active_snapshot(dir: &str) -> (path: String)
    ensures
        path@ == active_snapshot_of(dir@),
{
    let mut path = String::from_str("./active-state/");
    path.append(dir);
    path.append("/snapshot");
    path
}

/// The pipe registry inside the active directory named `dir`.
pub fn active_pipes(dir: &str) -> (path: String)
    ensures
        path@ == active_pipes_of(dir@),
{
    let mut path = String::from_str("./active-state/");
    path.append(dir);
    path.append("/pipes");
    path
}

/// States of different names have different directories, in either area.
pub proof fn lemma_directories_follow_names(a: Seq<char>, b: Seq<char>)
    ensures
        saved_dir_of(a) == saved_dir_of(b) ==> a == b,
        active_dir_of(a) == active_dir_of(b) ==> a == b,
{
    let saved = "./saved-states/"@.len() as int;
    let active = "./active-state/"@.len() as int;
    if saved_dir_of(a) == saved_dir_of(b) {
        assert(a =~= saved_dir_of(a).subrange(saved, saved + a.len()));
        assert(b =~= saved_dir_of(b).subrange(saved, saved + b.len()));
    }
    if active_dir_of(a) == active_dir_of(b) {
        assert(active_dir_of(a).len() == active + a.len() + "/"@.len());
        assert(active_dir_of(b).len() == active + b.len() + "/"@.len());
        assert(a =~= active_dir_of(a).subrange(active, active + a.len()));
        assert(b =~= active_dir_of(b).subrange(active, active + b.len()));
    }
}

/// States of different names that hold no separator have directories that
/// do not overlap: in either area, neither directory is the other or lies
/// inside it.
pub proof fn lemma_directories_do_not_overlap(a: Seq<char>, b: Seq<char>)
    requires
        a != b,
        is_plain(a),
        is_plain(b),
    ensures
        !holds_directory(saved_dir_of(a), saved_dir_of(b)),
        !active_dir_of(a).is_prefix_of(active_dir_of(b)),
{
    let saved = "./saved-states/"@;
    let active = "./active-state/"@;
    reveal_strlit("/");
    let closed_a = a + seq!['/'];
    let closed_b = b + seq!['/'];
    assert(saved_dir_of(a) + seq!['/'] =~= saved + closed_a);
    assert(saved_dir_of(b) + seq!['/'] =~= saved + closed_b);
    assert(active_dir_of(a) =~= active + closed_a);
    assert(active_dir_of(b) =~= active + closed_b);
    if (saved + closed_a).is_prefix_of(saved + closed_b) || (active + closed_a).is_prefix_of(
        active + closed_b,
    ) {
        // Behind the area both paths go on with the closed names, so the
        // closed name of `a` begins the closed name of `b`.
        assert forall|i: int| 0 <= i < closed_a.len() implies closed_a[i] == closed_b[i] by {
            if (saved + closed_a).is_prefix_of(saved + closed_b) {
                assert((saved + closed_a)[saved.len() + i] == (saved + closed_b)[saved.len() + i]);
            } else {
                assert((active + closed_a)[active.len() + i] == (active + closed_b)[active.len()
                    + i]);
            }
        }
        // The separator that closes `a` is then a character of `b`, or
        // closes `b` too.
        assert(closed_a.len() <= closed_b.len());
        assert(closed_a[a.len() as int] == '/');
        if a.len() < b.len() {
            assert(b[a.len() as int] == closed_b[a.len() as int]);
        } else {
            assert forall|i: int| 0 <= i < a.len() implies a[i] == b[i] by {
                assert(a[i] == closed_a[i]);
                assert(b[i] == closed_b[i]);
            }
            assert(a =~= b);
        }
    }
}

/// Every path of the layout lies below its own area, and no path lies below
/// both: nothing in the active area is in the saved area.
pub proof fn lemma_areas_are_apart(name: Seq<char>, path: Seq<char>)
    ensures
        in_active_area(active_dir_of(name)),
        in_active_area(active_snapshot_of(name)),
        in_active_area(active_pipes_of(name)),
        in_saved_area(saved_dir_of(name)),
        in_saved_area(saved_snapshot_of(name)),
        in_saved_area(saved_pipes_of(name)),
        !(in_active_area(path) && in_saved_area(path)),
{
    reveal_strlit("./saved-states/");
    reveal_strlit("./active-state/");
    if in_active_area(path) && in_saved_area(path) {
        assert(path[2] == "./active-state/"@[2]);
        assert(path[2] == "./saved-states/"@[2]);
    }
}

/// A tree copy that places the saved checkpoint image inside the active
/// directory under its own name, `snapshot`, puts it where the layout has the
/// active checkpoint image.
pub proof fn lemma_snapshot_lands_in_layout(dir: Seq<char>)
    ensures
        active_snapshot_of(dir) == active_dir_of(dir) + "snapshot"@,
{
    reveal_strlit("/");
    reveal_strlit("snapshot");
    reveal_strlit("/snapshot");
}

} // verus!
