use openxr_core::event::XRViewSurfaceCreated;
use openxr_core::surface::{TextureAction, XRWindowTextureNode};

fn surface(width: u32, height: u32) -> Option<XRViewSurfaceCreated> {
    Some(XRViewSurfaceCreated { width, height })
}

#[test]
fn first_report_creates_without_destroying() {
    let mut node = XRWindowTextureNode::new();
    let actions = node.update(&surface(800, 600));
    assert_eq!(actions.len(), 1);
    match actions[0] {
        TextureAction::Create { texture, width, height, array_layers } => {
            assert_eq!(texture.id, 0);
            assert_eq!(width, 800);
            assert_eq!(height, 600);
            assert_eq!(array_layers, 2); // stereo
        },
        TextureAction::Destroy { .. } => panic!("nothing existed to destroy"),
    }
}

#[test]
fn resize_destroys_the_old_texture_before_creating_the_new() {
    let mut node = XRWindowTextureNode::new();
    node.update(&surface(800, 600));

    let actions = node.update(&surface(1024, 1024));
    assert_eq!(actions.len(), 2);
    let destroyed = match actions[0] {
        TextureAction::Destroy { texture } => texture,
        TextureAction::Create { .. } => panic!("the old texture must be destroyed first"),
    };
    let created = match actions[1] {
        TextureAction::Create { texture, width, height, array_layers } => {
            assert_eq!(width, 1024);
            assert_eq!(height, 1024);
            assert_eq!(array_layers, 2);
            texture
        },
        TextureAction::Destroy { .. } => panic!("the replacement must be created second"),
    };
    assert_eq!(destroyed.id, 0);
    assert_eq!(created.id, 1);
    assert_ne!(destroyed, created);
}

#[test]
fn repeating_the_same_extent_obliges_nothing() {
    // Resizing from (800,600) to (1024,1024) twice in a row: the second
    // report matches the stored descriptor, so no texture is touched.
    let mut node = XRWindowTextureNode::new();
    node.update(&surface(800, 600));
    let first = node.update(&surface(1024, 1024));
    assert_eq!(first.len(), 2);
    let second = node.update(&surface(1024, 1024));
    assert!(second.is_empty());
}

#[test]
fn absent_report_obliges_nothing() {
    let mut node = XRWindowTextureNode::new();
    assert!(node.update(&None).is_empty());
    node.update(&surface(800, 600));
    assert!(node.update(&None).is_empty());
}

#[test]
fn every_resize_uses_a_fresh_handle() {
    let mut node = XRWindowTextureNode::new();
    node.update(&surface(800, 600));
    node.update(&surface(1024, 1024));
    let actions = node.update(&surface(800, 600));
    assert_eq!(actions.len(), 2);
    match (actions[0], actions[1]) {
        (TextureAction::Destroy { texture: old }, TextureAction::Create { texture: new, .. }) => {
            assert_eq!(old.id, 1);
            assert_eq!(new.id, 2);
        },
        _ => panic!("a resize is destroy-then-create"),
    }
}
