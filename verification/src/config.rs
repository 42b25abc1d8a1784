//! Per-tick wiring state: what the structural event drain left behind, and
//! which render target the current tick writes.

use vstd::prelude::*;

use crate::event::{XREvent, XRViewSurfaceCreated, XRViewsCreated};
use crate::frame::TextureViewHandle;

verus! {

/// Shared configuration the render wiring reads each tick: the view handles
/// the ring handed out, the ring slot acquired for this tick, and the last
/// reported surface extent.
#[derive(Debug)]
pub struct XRConfigurationState {
    /// The ring's view handles, once taken; absent until the ring exists.
    pub texture_view_ids: Option<Vec<TextureViewHandle>>,
    /// The ring slot the current tick renders into.
    pub next_swap_chain_index: usize,
    /// The most recently reported render-surface extent.
    pub last_view_surface: Option<XRViewSurfaceCreated>,
}

impl Default for XRConfigurationState {
    /// Before the ring exists: no handles, slot zero, no surface reported.
    fn default() -> (state: XRConfigurationState)
        ensures
            state.texture_view_ids is None,
            state.next_swap_chain_index == 0,
            state.last_view_surface is None,
    {
        XRConfigurationState {
            texture_view_ids: None,
            next_swap_chain_index: 0,
            last_view_surface: None,
        }
    }
}

impl XRConfigurationState {
    /// The render target of the current tick: the view handle at the
    /// acquired ring slot, once the handles exist.
    pub fn current_texture_view(&self) -> (r: Option<TextureViewHandle>)
        requires
            self.texture_view_ids matches Some(ids) ==> self.next_swap_chain_index < ids@.len(),
        ensures
            r == match self.texture_view_ids {
                Some(ids) => Some(ids@[self.next_swap_chain_index as int]),
                None => None::<TextureViewHandle>,
            },
    {
        match &self.texture_view_ids {
            Some(ids) => Some(ids[self.next_swap_chain_index]),
            None => None,
        }
    }
}

/// The surface events among a drained batch, oldest first.
pub open spec fn surface_events_of(events: Seq<XREvent>) -> Seq<XRViewSurfaceCreated>
    decreases events.len(),
{
    if events.len() == 0 {
        Seq::empty()
    } else {
        let init = surface_events_of(events.drop_last());
        match events.last() {
            XREvent::ViewSurfaceCreated(s) => init.push(s),
            _ => init,
        }
    }
}

/// The views-created events among a drained batch, oldest first.
pub open spec fn views_events_of(events: Seq<XREvent>) -> Seq<XRViewsCreated>
    decreases events.len(),
{
    if events.len() == 0 {
        Seq::empty()
    } else {
        let init = views_events_of(events.drop_last());
        match events.last() {
            XREvent::ViewsCreated(v) => init.push(v),
            _ => init,
        }
    }
}

/// Split one tick's drained structural events into the two per-kind streams
/// their consumers read, in arrival order, and remember the last reported
/// surface extent in the configuration state.
pub fn process_structural_events(config: &mut XRConfigurationState, drained: Vec<XREvent>) -> (r: (
    Vec<XRViewSurfaceCreated>,
    Vec<XRViewsCreated>,
))
    ensures
        r.0@ =~= surface_events_of(drained@),
        r.1@ =~= views_events_of(drained@),
        final(config).last_view_surface == if surface_events_of(drained@).len() > 0 {
            Some(surface_events_of(drained@).last())
        } else {
            old(config).last_view_surface
        },
        final(config).texture_view_ids == old(config).texture_view_ids,
        final(config).next_swap_chain_index == old(config).next_swap_chain_index,
{
    let ghost orig = drained@;
    let mut rest = drained;
    let mut surfaces: Vec<XRViewSurfaceCreated> = Vec::new();
    let mut views: Vec<XRViewsCreated> = Vec::new();
    proof {
        assert(orig.subrange(0, 0).len() == 0);
        assert(surfaces@ =~= surface_events_of(orig.subrange(0, 0)));
        assert(views@ =~= views_events_of(orig.subrange(0, 0)));
    }
    while rest.len() > 0
        invariant
            rest@.len() <= orig.len(),
            rest@ =~= orig.subrange(orig.len() - rest@.len(), orig.len() as int),
            surfaces@ =~= surface_events_of(orig.subrange(0, orig.len() - rest@.len())),
            views@ =~= views_events_of(orig.subrange(0, orig.len() - rest@.len())),
            config.last_view_surface == if surface_events_of(
                orig.subrange(0, orig.len() - rest@.len()),
            ).len() > 0 {
                Some(surface_events_of(orig.subrange(0, orig.len() - rest@.len())).last())
            } else {
                old(config).last_view_surface
            },
            config.texture_view_ids == old(config).texture_view_ids,
            config.next_swap_chain_index == old(config).next_swap_chain_index,
        decreases rest@.len(),
    {
        let ghost i = orig.len() - rest@.len();
        proof {
            assert(rest@[0] == orig[i]);
            assert(orig.subrange(0, i + 1).drop_last() =~= orig.subrange(0, i));
            assert(orig.subrange(0, i + 1).last() == orig[i]);
        }
        let e = rest.remove(0);
        match e {
            XREvent::ViewSurfaceCreated(s) => {
                config.last_view_surface = Some(s);
                surfaces.push(s);
            },
            XREvent::ViewsCreated(v) => {
                views.push(v);
            },
        }
        proof {
            assert(rest@ =~= orig.subrange(orig.len() - rest@.len(), orig.len() as int));
        }
    }
    proof {
        assert(orig.subrange(0, orig.len() as int) =~= orig);
    }
    (surfaces, views)
}

} // verus!
