//! Hand-joint data: the published joint ordering and the per-tick hand pose
//! record.
//!
//! A hand that the runtime does not currently track has no joint array at
//! all, which callers must treat as "hand not visible" — distinct from a
//! present array whose entries carry invalid-pose flags.

use vstd::prelude::*;

use crate::math::Pose;

verus! {

/// Number of skeletal joints reported per hand.
pub const HAND_JOINT_COUNT: usize = 26;

/// A named skeletal point of one hand, in the fixed, published order:
/// palm, wrist, then metacarpal, proximal, (intermediate,) distal and tip of
/// each finger — the thumb has no intermediate joint.
#[derive(Clone, Copy, Debug, PartialEq, Eq, Structural)]
pub enum HandJoint {
    Palm,
    Wrist,
    ThumbMetacarpal,
    ThumbProximal,
    ThumbDistal,
    ThumbTip,
    IndexMetacarpal,
    IndexProximal,
    IndexIntermediate,
    IndexDistal,
    IndexTip,
    MiddleMetacarpal,
    MiddleProximal,
    MiddleIntermediate,
    MiddleDistal,
    MiddleTip,
    RingMetacarpal,
    RingProximal,
    RingIntermediate,
    RingDistal,
    RingTip,
    LittleMetacarpal,
    LittleProximal,
    LittleIntermediate,
    LittleDistal,
    LittleTip,
}

/// The published position of a joint inside a hand's joint array.
pub open spec fn hand_joint_position(j: HandJoint) -> int {
    match j {
        HandJoint::Palm => 0,
        HandJoint::Wrist => 1,
        HandJoint::ThumbMetacarpal => 2,
        HandJoint::ThumbProximal => 3,
        HandJoint::ThumbDistal => 4,
        HandJoint::ThumbTip => 5,
        HandJoint::IndexMetacarpal => 6,
        HandJoint::IndexProximal => 7,
        HandJoint::IndexIntermediate => 8,
        HandJoint::IndexDistal => 9,
        HandJoint::IndexTip => 10,
        HandJoint::MiddleMetacarpal => 11,
        HandJoint::MiddleProximal => 12,
        HandJoint::MiddleIntermediate => 13,
        HandJoint::MiddleDistal => 14,
        HandJoint::MiddleTip => 15,
        HandJoint::RingMetacarpal => 16,
        HandJoint::RingProximal => 17,
        HandJoint::RingIntermediate => 18,
        HandJoint::RingDistal => 19,
        HandJoint::RingTip => 20,
        HandJoint::LittleMetacarpal => 21,
        HandJoint::LittleProximal => 22,
        HandJoint::LittleIntermediate => 23,
        HandJoint::LittleDistal => 24,
        HandJoint::LittleTip => 25,
    }
}

/// Index of a joint inside a hand's joint array.
pub fn hand_joint_index(j: HandJoint) -> (i: usize)
    ensures
        i == hand_joint_position(j),
        i < HAND_JOINT_COUNT,
{
    match j {
        HandJoint::Palm => 0,
        HandJoint::Wrist => 1,
        HandJoint::ThumbMetacarpal => 2,
        HandJoint::ThumbProximal => 3,
        HandJoint::ThumbDistal => 4,
        HandJoint::ThumbTip => 5,
        HandJoint::IndexMetacarpal => 6,
        HandJoint::IndexProximal => 7,
        HandJoint::IndexIntermediate => 8,
        HandJoint::IndexDistal => 9,
        HandJoint::IndexTip => 10,
        HandJoint::MiddleMetacarpal => 11,
        HandJoint::MiddleProximal => 12,
        HandJoint::MiddleIntermediate => 13,
        HandJoint::MiddleDistal => 14,
        HandJoint::MiddleTip => 15,
        HandJoint::RingMetacarpal => 16,
        HandJoint::RingProximal => 17,
        HandJoint::RingIntermediate => 18,
        HandJoint::RingDistal => 19,
        HandJoint::RingTip => 20,
        HandJoint::LittleMetacarpal => 21,
        HandJoint::LittleProximal => 22,
        HandJoint::LittleIntermediate => 23,
        HandJoint::LittleDistal => 24,
        HandJoint::LittleTip => 25,
    }
}

/// The joint published at an index, the inverse of [`hand_joint_index`];
/// `None` for indices past the end of the array.
pub fn hand_joint_from_index(i: usize) -> (j: Option<HandJoint>)
    ensures
        i < HAND_JOINT_COUNT ==> (j matches Some(joint) && hand_joint_position(joint) == i),
        i >= HAND_JOINT_COUNT ==> j is None,
{
    if i == 0 { Some(HandJoint::Palm) }
    else if i == 1 { Some(HandJoint::Wrist) }
    else if i == 2 { Some(HandJoint::ThumbMetacarpal) }
    else if i == 3 { Some(HandJoint::ThumbProximal) }
    else if i == 4 { Some(HandJoint::ThumbDistal) }
    else if i == 5 { Some(HandJoint::ThumbTip) }
    else if i == 6 { Some(HandJoint::IndexMetacarpal) }
    else if i == 7 { Some(HandJoint::IndexProximal) }
    else if i == 8 { Some(HandJoint::IndexIntermediate) }
    else if i == 9 { Some(HandJoint::IndexDistal) }
    else if i == 10 { Some(HandJoint::IndexTip) }
    else if i == 11 { Some(HandJoint::MiddleMetacarpal) }
    else if i == 12 { Some(HandJoint::MiddleProximal) }
    else if i == 13 { Some(HandJoint::MiddleIntermediate) }
    else if i == 14 { Some(HandJoint::MiddleDistal) }
    else if i == 15 { Some(HandJoint::MiddleTip) }
    else if i == 16 { Some(HandJoint::RingMetacarpal) }
    else if i == 17 { Some(HandJoint::RingProximal) }
    else if i == 18 { Some(HandJoint::RingIntermediate) }
    else if i == 19 { Some(HandJoint::RingDistal) }
    else if i == 20 { Some(HandJoint::RingTip) }
    else if i == 21 { Some(HandJoint::LittleMetacarpal) }
    else if i == 22 { Some(HandJoint::LittleProximal) }
    else if i == 23 { Some(HandJoint::LittleIntermediate) }
    else if i == 24 { Some(HandJoint::LittleDistal) }
    else if i == 25 { Some(HandJoint::LittleTip) }
    else { None }
}

/// One joint of one hand for one frame: the runtime's validity flags, the
/// joint's pose, and its radius (a raw 32-bit scalar pattern).
#[derive(Clone, Copy, Debug, PartialEq, Eq, Structural)]
pub struct HandJointLocation {
    pub location_flags: u64,
    pub pose: Pose,
    pub radius: u32,
}

/// The full joint array of one hand for one frame, in the published order.
pub type HandJointLocations = [HandJointLocation; 26];

/// The hand poses published for one tick. A `None` hand is not currently
/// tracked; this is distinct from a present array with invalid entries.
#[derive(Clone, Copy, Debug)]
pub struct HandPoseState {
    pub left: Option<HandJointLocations>,
    pub right: Option<HandJointLocations>,
}

} // verus!
