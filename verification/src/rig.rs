//! The camera rig: its configuration, its pending targets, and the update
//! that a host runs once per frame.

use crate::config::{KeyboardConf, MouseConf};
use crate::follow::{all_released, drawn, follow_rig, leader, release_all, Followable};
use crate::input::InputSnapshot;
use crate::integrator::{integrate, smoothed};
use crate::laws::{law_idle_frame_keeps_targets, law_released_have_no_leader};
use crate::solver::{
    carried_pitch, orbit_angle, pitch_angle, pitch_input, solve_camera, solve_rig, solved_camera,
    solved_rig,
};
use crate::transform::{BearingAngles, Bearings, RigidTransform};
use crate::vector::Vec3;
use vstd::prelude::*;

verus! {

/// A rig and the targets that its transforms are on their way to.
///
/// `move_to` holds the pending target of the rig and that of its camera. A
/// target, once set, is only ever replaced as a whole, and each frame starts
/// from the target of the frame before.
#[derive(Debug)]
pub struct CameraRig {
    pub keyboard: KeyboardConf,
    pub mouse: MouseConf,
    pub move_to: (Option<RigidTransform>, Option<RigidTransform>),
}

/// Everything that a frame changes, as one value for contracts to speak of.
pub struct RigState {
    /// The pending targets of the rig and of its camera.
    pub move_to: (Option<RigidTransform>, Option<RigidTransform>),
    /// The live transform of the rig.
    pub rig: RigidTransform,
    /// The live transform of the camera, relative to the rig.
    pub camera: RigidTransform,
    pub followables: Seq<Followable>,
}

/// The pending target, or the live transform where there is none yet.
pub open spec fn starting_point(pending: Option<RigidTransform>, live: RigidTransform)
    -> RigidTransform {
    match pending {
        Some(target) => target,
        None => live,
    }
}

/// The followables after a frame with the given input: a move by hand ends
/// every follow.
pub open spec fn followables_after(followables: Seq<Followable>, input: InputSnapshot) -> Seq<
    Followable,
> {
    if input.translates() {
        all_released(followables)
    } else {
        followables
    }
}

/// The state after one frame of `elapsed` microseconds.
///
/// The rig and the camera are solved from their pending targets, the live
/// transforms are smoothed toward the new targets, and then a followable that
/// still leads puts the rig, live and target, where it is.
pub open spec fn after_frame(
    keyboard: KeyboardConf,
    mouse: MouseConf,
    before: RigState,
    input: InputSnapshot,
    bearings: Bearings,
    elapsed: u64,
) -> RigState {
    let rig_goal = solved_rig(
        keyboard,
        mouse,
        before.rig.translation.y,
        starting_point(before.move_to.0, before.rig),
        input,
        bearings,
    );
    let camera_goal = solved_camera(
        mouse,
        starting_point(before.move_to.1, before.camera),
        input,
        carried_pitch(input),
        bearings,
    );
    let followables = followables_after(before.followables, input);
    RigState {
        move_to: (Some(drawn(rig_goal, leader(followables))), Some(camera_goal)),
        rig: drawn(smoothed(before.rig, rig_goal, elapsed), leader(followables)),
        camera: smoothed(before.camera, camera_goal, elapsed),
        followables,
    }
}

impl CameraRig {
    /// A rig with the given bindings and no targets yet.
    pub fn new(keyboard: KeyboardConf, mouse: MouseConf) -> (rig: CameraRig)
        ensures
            rig.keyboard == keyboard,
            rig.mouse == mouse,
            rig.move_to == (None::<RigidTransform>, None::<RigidTransform>),
    {
        CameraRig { keyboard, mouse, move_to: (None, None) }
    }

    /// The angles at which the host evaluates the `Bearings` of the frame:
    /// the live angle of the rig, the angle of the pending target of the
    /// camera, or its live angle where there is no target yet, and the angle
    /// by which the input pitches the camera.
    pub fn bearing_angles(
        &self,
        rig: &RigidTransform,
        camera: &RigidTransform,
        input: &InputSnapshot,
    ) -> (angles: BearingAngles)
        ensures
            angles.rig == rig.rotation,
            angles.camera == starting_point(self.move_to.1, *camera).rotation,
            angles.orbit == pitch_angle(self.mouse.rotate_sensitivity, carried_pitch(*input)),
    {
        let camera_angle = match self.move_to.1 {
            Some(target) => target.rotation,
            None => camera.rotation,
        };
        BearingAngles {
            rig: rig.rotation,
            camera: camera_angle,
            orbit: orbit_angle(&self.mouse, pitch_input(input)),
        }
    }

    /// Runs one frame.
    ///
    /// In this order: the rig is solved, and if the user moved it by hand
    /// every follow ends; the camera is solved; both targets replace the
    /// pending ones; both live transforms move toward their targets for
    /// `elapsed` microseconds; at last a followable that still leads puts the
    /// rig, live and target, where it is.
    pub fn update(
        &mut self,
        rig: &mut RigidTransform,
        camera: &mut RigidTransform,
        input: &InputSnapshot,
        bearings: &Bearings,
        elapsed: u64,
        followables: &mut Vec<Followable>,
    )
        ensures
            final(self).keyboard == old(self).keyboard,
            final(self).mouse == old(self).mouse,
            (RigState {
                move_to: final(self).move_to,
                rig: *final(rig),
                camera: *final(camera),
                followables: final(followables)@,
            }) == after_frame(
                old(self).keyboard,
                old(self).mouse,
                (RigState {
                    move_to: old(self).move_to,
                    rig: *old(rig),
                    camera: *old(camera),
                    followables: old(followables)@,
                }),
                *input,
                *bearings,
                elapsed,
            ),
            // A move by hand ends every follow in the same frame, and the rig
            // is not drawn anywhere.
            input.translates() ==> leader(final(followables)@) == None::<Vec3> && forall|i: int|
                0 <= i < final(followables)@.len() ==> !(#[trigger] final(followables)@[i]).follow.0,
            // Otherwise a followable that leads has the rig exactly where it
            // is, without smoothing.
            !input.translates() ==> (leader(old(followables)@) matches Some(place)
                ==> final(rig).translation == place),
            // At rest, a frame without input changes nothing.
            input.idle() && old(self).move_to == (Some(*old(rig)), Some(*old(camera))) && leader(
                old(followables)@,
            ) == None::<Vec3> ==> *final(rig) == *old(rig) && *final(camera) == *old(camera)
                && final(self).move_to == old(self).move_to,
    {
        proof {
            law_released_have_no_leader(followables@);
            if input.idle() {
                law_idle_frame_keeps_targets(
                    self.keyboard,
                    self.mouse,
                    rig.translation.y,
                    starting_point(self.move_to.0, *rig),
                    starting_point(self.move_to.1, *camera),
                    *input,
                    *bearings,
                );
            }
        }
        let solution = solve_rig(&self.keyboard, &self.mouse, rig, self.move_to.0, input, bearings);
        if solution.translated {
            release_all(followables);
        }
        let camera_target = solve_camera(
            &self.mouse,
            camera,
            self.move_to.1,
            input,
            solution.pitch_input,
            bearings,
        );
        let mut rig_target = Some(solution.target);
        let mut rig_next = integrate(rig, &solution.target, elapsed);
        let camera_next = integrate(camera, &camera_target, elapsed);
        follow_rig(&mut rig_next, &mut rig_target, followables);
        self.move_to = (rig_target, Some(camera_target));
        *rig = rig_next;
        *camera = camera_next;
    }
}

impl Default for CameraRig {
    fn default() -> (rig: Self)
        ensures
            rig.keyboard.is_default(),
            rig.mouse.is_default(),
            rig.move_to == (None::<RigidTransform>, None::<RigidTransform>),
    {
        CameraRig { keyboard: KeyboardConf::default(), mouse: MouseConf::default(), move_to: (None, None) }
    }
}

} // verus!
