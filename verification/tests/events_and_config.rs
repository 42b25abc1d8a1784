use openxr_core::config::{process_structural_events, XRConfigurationState};
use openxr_core::event::{EventQueue, XREvent, XRViewSurfaceCreated, XRViewsCreated};
use openxr_core::frame::TextureViewHandle;
use openxr_core::hand::{hand_joint_from_index, hand_joint_index, HandJoint, HAND_JOINT_COUNT};

fn surface_event(width: u32, height: u32) -> XREvent {
    XREvent::ViewSurfaceCreated(XRViewSurfaceCreated { width, height })
}

#[test]
fn queue_drains_in_arrival_order() {
    let mut q = EventQueue::new();
    assert_eq!(q.len(), 0);
    q.push(surface_event(1, 2));
    q.push(XREvent::ViewsCreated(XRViewsCreated { views: Vec::new() }));
    q.push(surface_event(3, 4));
    assert_eq!(q.len(), 3);

    let drained = q.drain();
    assert_eq!(drained.len(), 3);
    assert!(matches!(
        drained[0],
        XREvent::ViewSurfaceCreated(XRViewSurfaceCreated { width: 1, height: 2 })
    ));
    assert!(matches!(drained[1], XREvent::ViewsCreated(_)));
    assert!(matches!(
        drained[2],
        XREvent::ViewSurfaceCreated(XRViewSurfaceCreated { width: 3, height: 4 })
    ));
    assert_eq!(q.len(), 0);
    assert!(q.drain().is_empty());
}

#[test]
fn structural_drain_splits_by_kind_and_keeps_order() {
    let mut config = XRConfigurationState::default();
    let drained = vec![
        surface_event(800, 600),
        XREvent::ViewsCreated(XRViewsCreated { views: Vec::new() }),
        surface_event(1024, 1024),
    ];
    let (surfaces, views) = process_structural_events(&mut config, drained);
    assert_eq!(surfaces.len(), 2);
    assert_eq!(surfaces[0], XRViewSurfaceCreated { width: 800, height: 600 });
    assert_eq!(surfaces[1], XRViewSurfaceCreated { width: 1024, height: 1024 });
    assert_eq!(views.len(), 1);
    // The configuration remembers the last reported extent.
    assert_eq!(config.last_view_surface, Some(XRViewSurfaceCreated { width: 1024, height: 1024 }));
}

#[test]
fn structural_drain_without_surfaces_keeps_the_stored_extent() {
    let mut config = XRConfigurationState::default();
    process_structural_events(&mut config, vec![surface_event(1, 1)]);
    let (surfaces, views) = process_structural_events(
        &mut config,
        vec![XREvent::ViewsCreated(XRViewsCreated { views: Vec::new() })],
    );
    assert!(surfaces.is_empty());
    assert_eq!(views.len(), 1);
    assert_eq!(config.last_view_surface, Some(XRViewSurfaceCreated { width: 1, height: 1 }));
}

#[test]
fn configuration_state_starts_empty() {
    let config = XRConfigurationState::default();
    assert!(config.texture_view_ids.is_none());
    assert_eq!(config.next_swap_chain_index, 0);
    assert!(config.last_view_surface.is_none());
    assert_eq!(config.current_texture_view(), None);
}

#[test]
fn current_texture_view_follows_the_acquired_slot() {
    let mut config = XRConfigurationState::default();
    config.texture_view_ids = Some(vec![
        TextureViewHandle { id: 10 },
        TextureViewHandle { id: 11 },
        TextureViewHandle { id: 12 },
    ]);
    assert_eq!(config.current_texture_view(), Some(TextureViewHandle { id: 10 }));
    config.next_swap_chain_index = 2;
    assert_eq!(config.current_texture_view(), Some(TextureViewHandle { id: 12 }));
}

#[test]
fn joint_order_round_trips() {
    assert_eq!(HAND_JOINT_COUNT, 26);
    for i in 0..HAND_JOINT_COUNT {
        let joint = hand_joint_from_index(i).unwrap();
        assert_eq!(hand_joint_index(joint), i);
    }
    assert!(hand_joint_from_index(HAND_JOINT_COUNT).is_none());
    assert!(hand_joint_from_index(usize::MAX).is_none());
}

#[test]
fn joint_order_matches_the_published_table() {
    assert_eq!(hand_joint_index(HandJoint::Palm), 0);
    assert_eq!(hand_joint_index(HandJoint::Wrist), 1);
    assert_eq!(hand_joint_index(HandJoint::ThumbMetacarpal), 2);
    assert_eq!(hand_joint_index(HandJoint::ThumbTip), 5);
    assert_eq!(hand_joint_index(HandJoint::IndexMetacarpal), 6);
    assert_eq!(hand_joint_index(HandJoint::IndexIntermediate), 8);
    assert_eq!(hand_joint_index(HandJoint::IndexTip), 10);
    assert_eq!(hand_joint_index(HandJoint::MiddleTip), 15);
    assert_eq!(hand_joint_index(HandJoint::RingTip), 20);
    assert_eq!(hand_joint_index(HandJoint::LittleMetacarpal), 21);
    assert_eq!(hand_joint_index(HandJoint::LittleTip), 25);
}
