//! The topology of a rig: the rig entity and the one camera among its
//! children.

use vstd::prelude::*;

verus! {

/// What can be wrong with the way a rig is set up.
#[derive(Clone, Copy, Debug, PartialEq, Eq, Structural)]
pub enum RigError {
    /// None of the children of the rig is a camera.
    NoCameraChild,
}

impl RigError {
    /// A line for the diagnostics of the host.
    pub fn message(&self) -> (text: &'static str)
        ensures
            text@ == "the camera rig has no camera among its children"@,
    {
        "the camera rig has no camera among its children"
    }
}

/// Whether `entity` is one of `cameras`.
pub open spec fn is_camera(cameras: Seq<u64>, entity: u64) -> bool {
    cameras.contains(entity)
}

/// Whether `index` is the place of the first camera among `children`.
pub open spec fn first_camera_at(children: Seq<u64>, cameras: Seq<u64>, index: int) -> bool {
    &&& 0 <= index < children.len()
    &&& is_camera(cameras, children[index])
    &&& forall|j: int| 0 <= j < index ==> !is_camera(cameras, #[trigger] children[j])
}

/// Whether `entity` is among `entities`.
pub fn contains(entities: &Vec<u64>, entity: u64) -> (found: bool)
    ensures
        found == entities@.contains(entity),
{
    let mut i: usize = 0;
    while i < entities.len()
        invariant
            i <= entities.len(),
            forall|j: int| 0 <= j < i ==> entities[j] != entity,
        decreases entities.len() - i,
    {
        if entities[i] == entity {
            return true;
        }
        i += 1;
    }
    false
}

/// Locates the camera of a rig: the first of `children` that is one of
/// `cameras`. A rig without a camera child is set up wrongly, which the
/// error reports.
pub fn camera_child(children: &Vec<u64>, cameras: &Vec<u64>) -> (found: Result<usize, RigError>)
    ensures
        match found {
            Ok(index) => first_camera_at(children@, cameras@, index as int),
            Err(error) => error == RigError::NoCameraChild && forall|j: int|
                0 <= j < children.len() ==> !is_camera(cameras@, #[trigger] children[j]),
        },
{
    let mut i: usize = 0;
    while i < children.len()
        invariant
            i <= children.len(),
            forall|j: int| 0 <= j < i ==> !is_camera(cameras@, #[trigger] children[j]),
        decreases children.len() - i,
    {
        if contains(cameras, children[i]) {
            return Ok(i);
        }
        i += 1;
    }
    Err(RigError::NoCameraChild)
}

} // verus!
