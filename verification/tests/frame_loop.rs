use openxr_core::event::XRState;
use openxr_core::format::negotiate_swapchain_format;
use openxr_core::frame::{
    swapchain_create_info, FinalizeDirective, FrameDirective, FrameState, ViewConfigurationView,
    XRSwapchain, VIEW_COUNT,
};
use openxr_core::hand::{HandJointLocation, HandJointLocations};
use openxr_core::math::{Fov, Pose, QuatBits, Vec3Bits, ViewPose};

fn stereo_views(width: u32, height: u32) -> Vec<ViewConfigurationView> {
    let view = ViewConfigurationView {
        recommended_image_rect_width: width,
        recommended_image_rect_height: height,
    };
    vec![view, view]
}

fn ring(image_count: usize, hand_trackers: bool) -> XRSwapchain {
    let codes: Vec<i64> = vec![43];
    let format = negotiate_swapchain_format(&codes).unwrap();
    let blend_modes: Vec<i64> = vec![1, 2];
    XRSwapchain::new(&stereo_views(800, 600), format, image_count, &blend_modes, hand_trackers)
}

fn pose(seed: u32) -> Pose {
    Pose {
        position: Vec3Bits { x: seed, y: seed + 1, z: seed + 2 },
        orientation: QuatBits { x: seed + 3, y: seed + 4, z: seed + 5, w: seed + 6 },
    }
}

fn view_pose(seed: u32) -> ViewPose {
    ViewPose {
        pose: pose(seed),
        fov: Fov {
            angle_left: seed + 7,
            angle_right: seed + 8,
            angle_up: seed + 9,
            angle_down: seed + 10,
        },
    }
}

fn joints(flag: u64) -> HandJointLocations {
    [HandJointLocation { location_flags: flag, pose: pose(90), radius: 17 }; 26]
}

#[test]
fn construction_fixes_extent_format_and_blend() {
    let sc = ring(3, false);
    assert_eq!(sc.get_resolution(), (800, 600));
    assert_eq!(sc.buffer_count(), 3);
    assert_eq!(sc.environment_blend_mode(), 1); // the first advertised mode
    assert_eq!(sc.format().runtime_code, 43);
    assert_eq!(sc.predicted_display_time(), None);
}

#[test]
fn create_info_is_stereo_single_sample() {
    let codes: Vec<i64> = vec![43];
    let format = negotiate_swapchain_format(&codes).unwrap();
    let info = swapchain_create_info(&format, 800, 600);
    assert_eq!(info.format_code, 43);
    assert_eq!(info.width, 800);
    assert_eq!(info.height, 600);
    assert_eq!(info.array_size, VIEW_COUNT);
    assert_eq!(info.array_size, 2);
    assert_eq!(info.sample_count, 1);
    assert_eq!(info.face_count, 1);
    assert_eq!(info.mip_count, 1);
}

#[test]
fn one_frame_in_flight_protocol() {
    let mut sc = ring(3, false);
    let fs = FrameState { predicted_display_time: 100, should_render: true };

    // Prepare opens the one frame.
    let (state, directive) = sc.prepare_update(Some(fs));
    assert_eq!(state, XRState::Running);
    assert_eq!(directive, FrameDirective::BeginFrame { predicted_display_time: 100 });
    assert_eq!(sc.predicted_display_time(), Some(100));

    // A second prepare is a no-op reporting Running; no second frame opens.
    let (state, directive) = sc.prepare_update(
        Some(FrameState { predicted_display_time: 999, should_render: true }),
    );
    assert_eq!(state, XRState::Running);
    assert_eq!(directive, FrameDirective::AlreadyPrepared);
    assert_eq!(sc.predicted_display_time(), Some(100));

    // Acquire, then exactly one finalize submits and closes the frame.
    let index = sc.get_next_swapchain_image_index(1);
    assert_eq!(index, 1);
    let directive = sc.finalize_update();
    assert_eq!(
        directive,
        FinalizeDirective::Submit { predicted_display_time: 100, released_index: 1 },
    );
    assert_eq!(sc.predicted_display_time(), None);

    // A further finalize has no frame to close.
    assert_eq!(sc.finalize_update(), FinalizeDirective::NoFrame);

    // And the next prepare can open a frame again.
    let (state, directive) = sc.prepare_update(
        Some(FrameState { predicted_display_time: 200, should_render: true }),
    );
    assert_eq!(state, XRState::Running);
    assert_eq!(directive, FrameDirective::BeginFrame { predicted_display_time: 200 });
}

#[test]
fn failed_wait_pauses_the_tick() {
    let mut sc = ring(2, false);
    let (state, directive) = sc.prepare_update(None);
    assert_eq!(state, XRState::Paused);
    assert_eq!(directive, FrameDirective::WaitFailed);
    assert_eq!(sc.predicted_display_time(), None);
}

#[test]
fn should_render_false_skips_the_frame() {
    let mut sc = ring(2, false);
    let fs = FrameState { predicted_display_time: 55, should_render: false };
    let (state, directive) = sc.prepare_update(Some(fs));
    assert_eq!(state, XRState::Paused);
    assert_eq!(directive, FrameDirective::SkipFrame { predicted_display_time: 55 });
    // No frame was opened, so nothing is owed.
    assert_eq!(sc.finalize_update(), FinalizeDirective::NoFrame);
}

#[test]
fn unacquired_frame_is_abandoned() {
    let mut sc = ring(2, false);
    let fs = FrameState { predicted_display_time: 77, should_render: true };
    sc.prepare_update(Some(fs));
    assert_eq!(sc.finalize_update(), FinalizeDirective::AbandonFrame);
    assert_eq!(sc.predicted_display_time(), None);
}

#[test]
fn view_handles_are_single_use() {
    let mut sc = ring(3, false);
    let first = sc.take_view_handle(0);
    assert!(first.is_some());
    assert_eq!(first.unwrap().id, 0);
    // Every further take of the same slot returns nothing.
    assert_eq!(sc.take_view_handle(0), None);
    assert_eq!(sc.take_view_handle(0), None);
    // The slot itself (and its texture) is still there.
    assert_eq!(sc.buffer_count(), 3);
    // Other slots are untouched.
    assert_eq!(sc.take_view_handle(2).unwrap().id, 2);
}

#[test]
fn take_texture_views_hands_out_the_whole_ring_once() {
    let mut sc = ring(3, false);
    let handles = sc.take_texture_views();
    assert_eq!(handles.len(), 3);
    for (i, handle) in handles.iter().enumerate() {
        assert_eq!(handle.id, i as u64);
    }
    assert_eq!(sc.take_view_handle(0), None);
    assert_eq!(sc.take_view_handle(1), None);
    assert_eq!(sc.take_view_handle(2), None);
}

#[test]
fn composition_layer_differs_only_by_array_index() {
    let sc = ring(2, false);
    let views = vec![view_pose(10), view_pose(50)];
    let layer = sc.composition_layer_views(&views);
    assert_eq!(layer.len(), 2);
    assert_eq!(layer[0].image_array_index, 0);
    assert_eq!(layer[1].image_array_index, 1);
    assert_eq!(layer[0].image_rect, layer[1].image_rect);
    assert_eq!(layer[0].image_rect.x, 0);
    assert_eq!(layer[0].image_rect.y, 0);
    assert_eq!(layer[0].image_rect.width, 800);
    assert_eq!(layer[0].image_rect.height, 600);
    assert_eq!(layer[0].pose, views[0].pose);
    assert_eq!(layer[0].fov, views[0].fov);
    assert_eq!(layer[1].pose, views[1].pose);
    assert_eq!(layer[1].fov, views[1].fov);
}

#[test]
fn view_positions_copy_poses_only_inside_a_frame() {
    let mut sc = ring(2, false);
    let views = vec![view_pose(10), view_pose(50)];
    assert!(sc.get_view_positions(&views).is_none());

    sc.prepare_update(Some(FrameState { predicted_display_time: 5, should_render: true }));
    let transforms = sc.get_view_positions(&views).unwrap();
    assert_eq!(transforms.len(), 2);
    assert_eq!(transforms[0].translation, views[0].pose.position);
    assert_eq!(transforms[0].rotation, views[0].pose.orientation);
    assert_eq!(transforms[1].translation, views[1].pose.position);
    assert_eq!(transforms[1].rotation, views[1].pose.orientation);
}

#[test]
fn untracked_left_hand_stays_absent() {
    let mut sc = ring(2, true);
    sc.prepare_update(Some(FrameState { predicted_display_time: 5, should_render: true }));

    // The sampler saw nothing for the left hand this tick; the published
    // record keeps it absent rather than zeroed, while the right hand's
    // samples pass through unchanged.
    let right = joints(3);
    let published = sc.get_hand_positions(None, Some(right)).unwrap();
    assert!(published.left.is_none());
    let published_right = published.right.unwrap();
    assert_eq!(published_right[0].location_flags, 3);
    assert_eq!(published_right[25].radius, 17);
}

#[test]
fn hand_positions_need_a_frame_and_trackers() {
    let mut without_trackers = ring(2, false);
    without_trackers
        .prepare_update(Some(FrameState { predicted_display_time: 5, should_render: true }));
    assert!(without_trackers.get_hand_positions(Some(joints(1)), Some(joints(2))).is_none());
    assert_eq!(without_trackers.hand_sampling_time(), None);

    let mut with_trackers = ring(2, true);
    assert!(with_trackers.get_hand_positions(Some(joints(1)), Some(joints(2))).is_none());
    assert_eq!(with_trackers.hand_sampling_time(), None);
    with_trackers
        .prepare_update(Some(FrameState { predicted_display_time: 5, should_render: true }));
    assert_eq!(with_trackers.hand_sampling_time(), Some(5));
    let published = with_trackers.get_hand_positions(Some(joints(1)), Some(joints(2))).unwrap();
    assert_eq!(published.left.unwrap()[0].location_flags, 1);
    assert_eq!(published.right.unwrap()[0].location_flags, 2);
}
