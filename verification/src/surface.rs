//! The window-sized render texture and its resize handling.
//!
//! The render-target surface is sized by the runtime, not the host window:
//! whenever the reported surface descriptor differs from the stored one, the
//! existing texture must be destroyed before a replacement is created at the
//! new dimensions, with the depth fixed at two array layers (stereo). At no
//! point do two live textures exist for this slot.

use vstd::prelude::*;

use crate::event::XRViewSurfaceCreated;
use crate::frame::{TextureHandle, VIEW_COUNT};

verus! {

/// A GPU resource action the embedding must perform, in the order returned.
#[derive(Clone, Copy, Debug, PartialEq, Eq, Structural)]
pub enum TextureAction {
    /// Free this texture's GPU resource.
    Destroy { texture: TextureHandle },
    /// Allocate a texture of this extent for the handle; two array layers,
    /// one per eye.
    Create { texture: TextureHandle, width: u32, height: u32, array_layers: u32 },
}

/// The actions one resize obliges: destroy whatever texture is live, then
/// create the replacement under the next fresh handle at the reported
/// extent.
pub open spec fn resize_actions(
    live: Option<TextureHandle>,
    next_id: u64,
    surface: XRViewSurfaceCreated,
) -> Seq<TextureAction> {
    let create = TextureAction::Create {
        texture: TextureHandle { id: next_id },
        width: surface.width,
        height: surface.height,
        array_layers: VIEW_COUNT,
    };
    match live {
        Some(t) => seq![TextureAction::Destroy { texture: t }, create],
        None => seq![create],
    }
}

/// The textures left live after a stream of actions, starting from `live`.
pub open spec fn live_after(
    live: Set<TextureHandle>,
    actions: Seq<TextureAction>,
) -> Set<TextureHandle>
    decreases actions.len(),
{
    if actions.len() == 0 {
        live
    } else {
        let next = match actions[0] {
            TextureAction::Destroy { texture } => live.remove(texture),
            TextureAction::Create { texture, .. } => live.insert(texture),
        };
        live_after(next, actions.subrange(1, actions.len() as int))
    }
}

pub open spec fn live_set(live: Option<TextureHandle>) -> Set<TextureHandle> {
    match live {
        Some(t) => Set::empty().insert(t),
        None => Set::empty(),
    }
}

/// Owns the window-sized render texture and recreates it when the runtime
/// reports a new surface extent.
#[derive(Clone, Copy, Debug)]
pub struct XRWindowTextureNode {
    /// The descriptor of the last surface the texture was created for.
    last_view_surface: Option<XRViewSurfaceCreated>,
    /// The one live texture, if any.
    texture: Option<TextureHandle>,
    /// The next fresh texture id; every id ever handed out is below it.
    next_texture_id: u64,
}

impl XRWindowTextureNode {
    pub closed spec fn last_surface(&self) -> Option<XRViewSurfaceCreated> {
        self.last_view_surface
    }

    pub closed spec fn live_texture(&self) -> Option<TextureHandle> {
        self.texture
    }

    pub closed spec fn id_counter(&self) -> u64 {
        self.next_texture_id
    }

    /// The live texture, if any, was handed out earlier: its id is below the
    /// counter, so the next creation cannot collide with it.
    pub open spec fn wf(&self) -> bool {
        match self.live_texture() {
            Some(t) => t.id < self.id_counter(),
            None => true,
        }
    }

    pub fn new() -> (node: XRWindowTextureNode)
        ensures
            node.last_surface() is None,
            node.live_texture() is None,
            node.id_counter() == 0,
            node.wf(),
    {
        XRWindowTextureNode { last_view_surface: None, texture: None, next_texture_id: 0 }
    }

    /// How many texture ids have been handed out so far; ids are never
    /// reused, so a resize is possible only while this is below `u64::MAX`.
    pub fn texture_id_counter(&self) -> (n: u64)
        ensures
            n == self.id_counter(),
    {
        self.next_texture_id
    }

    /// React to the surface descriptor the runtime currently reports. A
    /// report that differs from the stored descriptor obliges a resize:
    /// destroy the live texture first, then create the replacement at the
    /// new extent. An unchanged or absent report obliges nothing.
    pub fn update(&mut self, reported: &Option<XRViewSurfaceCreated>) -> (actions: Vec<
        TextureAction,
    >)
        requires
            old(self).wf(),
            old(self).id_counter() < u64::MAX,
        ensures
            final(self).wf(),
            ({
                match *reported {
                    Some(surface) => if old(self).last_surface() != Some(surface) {
                        &&& actions@ =~= resize_actions(
                            old(self).live_texture(),
                            old(self).id_counter(),
                            surface,
                        )
                        &&& final(self).live_texture() == Some(
                            TextureHandle { id: old(self).id_counter() },
                        )
                        &&& final(self).last_surface() == Some(surface)
                        &&& final(self).id_counter() == old(self).id_counter() + 1
                    } else {
                        &&& actions@ =~= Seq::<TextureAction>::empty()
                        &&& *final(self) == *old(self)
                    },
                    None => {
                        &&& actions@ =~= Seq::<TextureAction>::empty()
                        &&& *final(self) == *old(self)
                    },
                }
            }),
    {
        let mut actions: Vec<TextureAction> = Vec::new();
        let differs = match (reported, &self.last_view_surface) {
            (Some(r), Some(s)) => r.width != s.width || r.height != s.height,
            (Some(_), None) => true,
            (None, _) => false,
        };
        if differs {
            if let Some(r) = reported {
                if let Some(t) = self.texture {
                    actions.push(TextureAction::Destroy { texture: t });
                }
                let fresh = TextureHandle { id: self.next_texture_id };
                actions.push(
                    TextureAction::Create {
                        texture: fresh,
                        width: r.width,
                        height: r.height,
                        array_layers: VIEW_COUNT,
                    },
                );
                self.texture = Some(fresh);
                self.last_view_surface = Some(*r);
                self.next_texture_id = self.next_texture_id + 1;
            }
        }
        actions
    }
}

/// A resize never has two textures live at once: after every prefix of the
/// obliged actions, at most one texture exists, because the live texture is
/// destroyed before its fresh-id replacement is created.
pub proof fn lemma_resize_destroys_before_create(
    live: Option<TextureHandle>,
    next_id: u64,
    surface: XRViewSurfaceCreated,
)
    requires
        live matches Some(t) ==> t.id < next_id,
    ensures
        forall|k: int|
            0 <= k <= resize_actions(live, next_id, surface).len() ==> live_after(
                live_set(live),
                #[trigger] resize_actions(live, next_id, surface).subrange(0, k),
            ).len() <= 1,
        live_after(live_set(live), resize_actions(live, next_id, surface)) =~= live_set(
            Some(TextureHandle { id: next_id }),
        ),
{
    reveal_with_fuel(live_after, 4);
    let actions = resize_actions(live, next_id, surface);
    let fresh = TextureHandle { id: next_id };
    match live {
        Some(t) => {
            assert(actions.len() == 2);
            let s0 = live_set(live);
            assert(s0.len() == 1);
            assert forall|k: int| 0 <= k <= actions.len() implies live_after(
                s0,
                #[trigger] actions.subrange(0, k),
            ).len() <= 1 by {
                reveal_with_fuel(live_after, 4);
                let prefix = actions.subrange(0, k);
                if k == 0 {
                    assert(prefix.len() == 0);
                    assert(live_after(s0, prefix) == s0);
                } else if k == 1 {
                    assert(prefix[0] == (TextureAction::Destroy { texture: t }));
                    assert(prefix.subrange(1, 1) =~= Seq::<TextureAction>::empty());
                    assert(live_after(s0, prefix) == s0.remove(t));
                    assert(s0.remove(t).len() == 0);
                } else {
                    assert(k == 2);
                    assert(prefix =~= actions);
                    lemma_resize_full(live, next_id, surface);
                }
            }
            lemma_resize_full(live, next_id, surface);
        },
        None => {
            assert(actions.len() == 1);
            let s0 = live_set(live);
            assert(s0.len() == 0);
            assert forall|k: int| 0 <= k <= actions.len() implies live_after(
                s0,
                #[trigger] actions.subrange(0, k),
            ).len() <= 1 by {
                reveal_with_fuel(live_after, 4);
                let prefix = actions.subrange(0, k);
                if k == 0 {
                    assert(prefix.len() == 0);
                    assert(live_after(s0, prefix) == s0);
                } else {
                    assert(k == 1);
                    assert(prefix =~= actions);
                    lemma_resize_full(live, next_id, surface);
                }
            }
            lemma_resize_full(live, next_id, surface);
        },
    }
}

/// Running the whole resize action stream leaves exactly the fresh texture
/// live.
proof fn lemma_resize_full(live: Option<TextureHandle>, next_id: u64, surface: XRViewSurfaceCreated)
    requires
        live matches Some(t) ==> t.id < next_id,
    ensures
        live_after(live_set(live), resize_actions(live, next_id, surface)) =~= live_set(
            Some(TextureHandle { id: next_id }),
        ),
        live_after(live_set(live), resize_actions(live, next_id, surface)).len() == 1,
{
    reveal_with_fuel(live_after, 4);
    let actions = resize_actions(live, next_id, surface);
    let fresh = TextureHandle { id: next_id };
    match live {
        Some(t) => {
            let s0 = live_set(live);
            let s1 = s0.remove(t);
            assert(actions[0] == (TextureAction::Destroy { texture: t }));
            let tail = actions.subrange(1, 2);
            assert(tail.len() == 1);
            assert(tail[0] == (TextureAction::Create {
                texture: fresh,
                width: surface.width,
                height: surface.height,
                array_layers: VIEW_COUNT,
            }));
            assert(tail.subrange(1, 1) =~= Seq::<TextureAction>::empty());
            assert(live_after(s0, actions) == live_after(s1.insert(fresh), tail.subrange(1, 1)));
            assert(s1 =~= Set::<TextureHandle>::empty());
            assert(s1.insert(fresh) =~= live_set(Some(fresh)));
            assert(s1.insert(fresh).len() == 1);
        },
        None => {
            let s0 = live_set(live);
            assert(actions.subrange(1, 1) =~= Seq::<TextureAction>::empty());
            assert(live_after(s0, actions) == s0.insert(fresh));
            assert(s0.insert(fresh) =~= live_set(Some(fresh)));
            assert(s0.insert(fresh).len() == 1);
        },
    }
}

} // verus!
