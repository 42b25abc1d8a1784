//! The frame loop: the swap ring of render targets and the ordered
//! wait-frame / acquire / render / release / end-frame protocol.
//!
//! The blocking runtime primitives (waiting for the next predicted frame,
//! acquiring and waiting on a swapchain image, locating views, ending the
//! frame) are performed by the caller; [`XRSwapchain`] owns every decision:
//! whether this tick renders, which buffer is written, what composition
//! layer is submitted, and when the one live frame is opened and closed.

use vstd::prelude::*;
use vstd::pervasive::VecAdditionalExecFns;

use crate::event::XRState;
use crate::format::SelectedFormat;
use crate::hand::{HandJointLocations, HandPoseState};
use crate::math::{Fov, Pose, ViewPose, ViewTransform};

verus! {

/// Render targets are stereo: one texture array layer per eye.
pub const VIEW_COUNT: u32 = 2;

/// Rendering and prediction information for one frame, as the runtime's
/// wait-frame primitive reports it. Valid only between a successful prepare
/// and the matching finalize.
#[derive(Clone, Copy, Debug, PartialEq, Eq, Structural)]
pub struct FrameState {
    /// Monotonic runtime timestamp (nanoseconds) of when this frame's photons
    /// reach the display; poses are sampled against it as late as possible.
    pub predicted_display_time: i64,
    /// Whether the runtime wants this frame rendered at all.
    pub should_render: bool,
}

/// One of the per-eye view configurations the runtime recommends; only the
/// render-target extent is read by this core.
#[derive(Clone, Copy, Debug, PartialEq, Eq, Structural)]
pub struct ViewConfigurationView {
    pub recommended_image_rect_width: u32,
    pub recommended_image_rect_height: u32,
}

/// An opaque handle standing for one GPU texture owned by the ring; the
/// embedding maps it to the real resource.
#[derive(Clone, Copy, Debug, PartialEq, Eq, Structural)]
pub struct TextureHandle {
    pub id: u64,
}

/// An opaque handle standing for the render-target view of one texture;
/// detachable exactly once by the rendering consumer.
#[derive(Clone, Copy, Debug, PartialEq, Eq, Structural)]
pub struct TextureViewHandle {
    pub id: u64,
}

/// One slot of the swap ring: exactly one texture, and at most one view
/// handle that the rendering consumer may take. After the take, the texture
/// stays (for release and reuse bookkeeping) but the slot has no view until
/// the ring is recreated.
#[derive(Clone, Copy, Debug, PartialEq, Eq, Structural)]
pub struct Framebuffer {
    pub texture: TextureHandle,
    pub texture_view: Option<TextureViewHandle>,
}

/// Everything the runtime needs to create the swapchain this ring mirrors.
#[derive(Clone, Copy, Debug, PartialEq, Eq, Structural)]
pub struct SwapchainCreateInfo {
    /// The negotiated format, as the runtime's own code.
    pub format_code: i64,
    pub sample_count: u32,
    pub width: u32,
    pub height: u32,
    pub face_count: u32,
    /// Stereo: one array layer per eye.
    pub array_size: u32,
    pub mip_count: u32,
}

/// The creation request for the negotiated format at the recommended extent:
/// a single-sample, single-face, single-mip color target with one array
/// layer per eye.
pub fn swapchain_create_info(format: &SelectedFormat, width: u32, height: u32) -> (info:
    SwapchainCreateInfo)
    ensures
        info.format_code == format.runtime_code,
        info.sample_count == 1,
        info.width == width,
        info.height == height,
        info.face_count == 1,
        info.array_size == VIEW_COUNT,
        info.mip_count == 1,
{
    SwapchainCreateInfo {
        format_code: format.runtime_code,
        sample_count: 1,
        width,
        height,
        face_count: 1,
        array_size: VIEW_COUNT,
        mip_count: 1,
    }
}

/// What the caller must do after a prepare call.
#[derive(Clone, Copy, Debug, PartialEq, Eq, Structural)]
pub enum FrameDirective {
    /// A frame is already open: no runtime call may be made. Reported as
    /// Running regardless of the true session state, which can mask a
    /// pause that happened between the two calls; kept for loop resilience.
    AlreadyPrepared,
    /// Waiting for the next frame failed: treat this tick as paused and try
    /// again next tick; no frame was opened.
    WaitFailed,
    /// The runtime wants no rendering: begin the frame, then end it at once
    /// with an empty layer list and this predicted display time.
    SkipFrame { predicted_display_time: i64 },
    /// Render: begin the frame; acquire, render and finalize follow.
    BeginFrame { predicted_display_time: i64 },
}

/// What the caller must do after a finalize call.
#[derive(Clone, Copy, Debug, PartialEq, Eq, Structural)]
pub enum FinalizeDirective {
    /// No frame was open (finalize without prepare): log and do nothing.
    NoFrame,
    /// A frame was open but no image was ever acquired: the frame is dropped
    /// without a release.
    AbandonFrame,
    /// Release the written buffer, relocate the views as late as possible,
    /// and end the frame at this predicted display time.
    Submit { predicted_display_time: i64, released_index: usize },
}

/// Which directive a prepare call gives, from the live frame and the
/// wait-frame outcome alone.
pub open spec fn prepare_directive(
    frame: Option<FrameState>,
    wait_result: Option<FrameState>,
) -> FrameDirective {
    if frame is Some {
        FrameDirective::AlreadyPrepared
    } else {
        match wait_result {
            None => FrameDirective::WaitFailed,
            Some(fs) => if !fs.should_render {
                FrameDirective::SkipFrame { predicted_display_time: fs.predicted_display_time }
            } else {
                FrameDirective::BeginFrame { predicted_display_time: fs.predicted_display_time }
            },
        }
    }
}

/// The frame left live by a prepare call: a new frame opens only on a
/// render-worthy wait result, and an already-open frame stays.
pub open spec fn prepare_next_frame(
    frame: Option<FrameState>,
    wait_result: Option<FrameState>,
) -> Option<FrameState> {
    if frame is Some {
        frame
    } else {
        match wait_result {
            Some(fs) => if fs.should_render {
                Some(fs)
            } else {
                None
            },
            None => None,
        }
    }
}

/// The state a prepare call reports: Running when a frame is (or stays)
/// open, Paused when this tick is skipped.
pub open spec fn prepare_state(
    frame: Option<FrameState>,
    wait_result: Option<FrameState>,
) -> XRState {
    match prepare_directive(frame, wait_result) {
        FrameDirective::AlreadyPrepared => XRState::Running,
        FrameDirective::WaitFailed => XRState::Paused,
        FrameDirective::SkipFrame { .. } => XRState::Paused,
        FrameDirective::BeginFrame { .. } => XRState::Running,
    }
}

/// Which directive a finalize call gives, from the live frame and the
/// acquired buffer alone.
pub open spec fn finalize_directive(
    frame: Option<FrameState>,
    acquired: Option<usize>,
) -> FinalizeDirective {
    match frame {
        None => FinalizeDirective::NoFrame,
        Some(fs) => match acquired {
            None => FinalizeDirective::AbandonFrame,
            Some(index) => FinalizeDirective::Submit {
                predicted_display_time: fs.predicted_display_time,
                released_index: index,
            },
        },
    }
}

/// Taking the view handle of one slot empties that slot's view and touches
/// nothing else.
pub open spec fn take_view_next(buffers: Seq<Framebuffer>, index: int) -> Seq<Framebuffer> {
    buffers.update(
        index,
        Framebuffer { texture: buffers[index].texture, texture_view: None },
    )
}

/// What taking the view handle of one slot returns.
pub open spec fn take_view_result(buffers: Seq<Framebuffer>, index: int) -> Option<
    TextureViewHandle,
> {
    buffers[index].texture_view
}

/// An integer sub-image rectangle of the render target.
#[derive(Clone, Copy, Debug, PartialEq, Eq, Structural)]
pub struct RectI {
    pub x: i32,
    pub y: i32,
    pub width: i32,
    pub height: i32,
}

/// One view of the projection composition layer handed back to the runtime:
/// the view's freshly located pose and field of view, and the sub-image it
/// was rendered into — the same rectangle for both eyes, differentiated only
/// by the texture array index (stereo via an array texture).
#[derive(Clone, Copy, Debug, PartialEq, Eq, Structural)]
pub struct CompositionLayerView {
    pub pose: Pose,
    pub fov: Fov,
    pub image_array_index: u32,
    pub image_rect: RectI,
}

/// Owns the swap ring and the at-most-one live frame, and drives the ordered
/// wait / acquire / render / release / end protocol against the caller's
/// runtime primitives.
#[derive(Debug)]
pub struct XRSwapchain {
    /// The swap ring, indexed by the runtime's acquisition index.
    buffers: Vec<Framebuffer>,
    /// Render-target extent, from the recommended view configuration.
    width: u32,
    height: u32,
    /// The format negotiation's outcome, fixed at construction.
    format: SelectedFormat,
    /// The runtime's preferred environment blend mode, fixed at construction.
    environment_blend_mode: i64,
    /// The live frame, if one is open; at most one frame is ever in flight.
    next_frame_state: Option<FrameState>,
    /// The ring slot acquired (and waited on) for the live frame, if any.
    acquired: Option<usize>,
    /// Whether hand trackers were requested and created for this session.
    hand_trackers: bool,
}

impl XRSwapchain {
    pub closed spec fn buffers_view(&self) -> Seq<Framebuffer> {
        self.buffers@
    }

    pub closed spec fn width_spec(&self) -> u32 {
        self.width
    }

    pub closed spec fn height_spec(&self) -> u32 {
        self.height
    }

    pub closed spec fn format_spec(&self) -> SelectedFormat {
        self.format
    }

    pub closed spec fn blend_mode_spec(&self) -> i64 {
        self.environment_blend_mode
    }

    /// The live frame, if one is open.
    pub closed spec fn frame(&self) -> Option<FrameState> {
        self.next_frame_state
    }

    /// The acquired ring slot of the live frame, if any.
    pub closed spec fn acquired_index(&self) -> Option<usize> {
        self.acquired
    }

    pub closed spec fn hand_trackers_enabled(&self) -> bool {
        self.hand_trackers
    }

    /// Build the ring over the images the runtime enumerated for the created
    /// swapchain: one fresh texture and one fresh view handle per image, the
    /// handle of slot `i` carrying id `i`. Requires the stereo view pair the
    /// runtime recommended (both eyes identical) and at least one advertised
    /// blend mode; the first blend mode is kept.
    pub fn new(
        views: &Vec<ViewConfigurationView>,
        format: SelectedFormat,
        image_count: usize,
        blend_modes: &Vec<i64>,
        enable_hand_trackers: bool,
    ) -> (sc: XRSwapchain)
        requires
            views@.len() == VIEW_COUNT,
            views@[0] == views@[1],
            blend_modes@.len() >= 1,
        ensures
            sc.width_spec() == views@[0].recommended_image_rect_width,
            sc.height_spec() == views@[0].recommended_image_rect_height,
            sc.format_spec() == format,
            sc.blend_mode_spec() == blend_modes@[0],
            sc.buffers_view().len() == image_count,
            forall|i: int|
                0 <= i < image_count ==> #[trigger] sc.buffers_view()[i] == (Framebuffer {
                    texture: TextureHandle { id: i as u64 },
                    texture_view: Some(TextureViewHandle { id: i as u64 }),
                }),
            sc.frame() is None,
            sc.acquired_index() is None,
            sc.hand_trackers_enabled() == enable_hand_trackers,
    {
        let mut buffers: Vec<Framebuffer> = Vec::new();
        let mut i: usize = 0;
        while i < image_count
            invariant
                0 <= i <= image_count,
                buffers@.len() == i,
                forall|j: int|
                    0 <= j < i ==> #[trigger] buffers@[j] == (Framebuffer {
                        texture: TextureHandle { id: j as u64 },
                        texture_view: Some(TextureViewHandle { id: j as u64 }),
                    }),
            decreases image_count - i,
        {
            buffers.push(
                Framebuffer {
                    texture: TextureHandle { id: i as u64 },
                    texture_view: Some(TextureViewHandle { id: i as u64 }),
                },
            );
            i = i + 1;
        }
        XRSwapchain {
            buffers,
            width: views[0].recommended_image_rect_width,
            height: views[0].recommended_image_rect_height,
            format,
            environment_blend_mode: blend_modes[0],
            next_frame_state: None,
            acquired: None,
            hand_trackers: enable_hand_trackers,
        }
    }

    pub fn get_resolution(&self) -> (r: (u32, u32))
        ensures
            r.0 == self.width_spec(),
            r.1 == self.height_spec(),
    {
        (self.width, self.height)
    }

    /// The format negotiation's outcome this ring was built for.
    pub fn format(&self) -> (f: SelectedFormat)
        ensures
            f == self.format_spec(),
    {
        self.format
    }

    /// The blend mode every ended frame uses.
    pub fn environment_blend_mode(&self) -> (b: i64)
        ensures
            b == self.blend_mode_spec(),
    {
        self.environment_blend_mode
    }

    /// How many ring slots (runtime swapchain images) exist.
    pub fn buffer_count(&self) -> (n: usize)
        ensures
            n == self.buffers_view().len(),
    {
        self.buffers.len()
    }

    /// The predicted display time of the live frame, if one is open: the
    /// timestamp all of this tick's pose sampling must use.
    pub fn predicted_display_time(&self) -> (t: Option<i64>)
        ensures
            t == match self.frame() {
                Some(fs) => Some(fs.predicted_display_time),
                None => None::<i64>,
            },
    {
        match &self.next_frame_state {
            Some(fs) => Some(fs.predicted_display_time),
            None => None,
        }
    }

    /// Everything fixed at construction is untouched by a call.
    pub open spec fn same_configuration(&self, other: &XRSwapchain) -> bool {
        &&& self.width_spec() == other.width_spec()
        &&& self.height_spec() == other.height_spec()
        &&& self.format_spec() == other.format_spec()
        &&& self.blend_mode_spec() == other.blend_mode_spec()
        &&& self.hand_trackers_enabled() == other.hand_trackers_enabled()
    }

    /// Open this tick's frame from the runtime's wait-frame outcome (`None`
    /// when the wait failed). Returns the state this tick runs under and the
    /// runtime calls now owed: begin-and-render, begin-and-end-empty, or
    /// nothing. Calling again while a frame is open performs no runtime call
    /// and reports Running.
    pub fn prepare_update(&mut self, wait_result: Option<FrameState>) -> (r: (
        XRState,
        FrameDirective,
    ))
        ensures
            r.1 == prepare_directive(old(self).frame(), wait_result),
            r.0 == prepare_state(old(self).frame(), wait_result),
            final(self).frame() == prepare_next_frame(old(self).frame(), wait_result),
            final(self).acquired_index() == old(self).acquired_index(),
            final(self).buffers_view() == old(self).buffers_view(),
            final(self).same_configuration(old(self)),
    {
        if self.next_frame_state.is_some() {
            return (XRState::Running, FrameDirective::AlreadyPrepared);
        }
        match wait_result {
            None => (XRState::Paused, FrameDirective::WaitFailed),
            Some(fs) => {
                if !fs.should_render {
                    (
                        XRState::Paused,
                        FrameDirective::SkipFrame {
                            predicted_display_time: fs.predicted_display_time,
                        },
                    )
                } else {
                    self.next_frame_state = Some(fs);
                    (
                        XRState::Running,
                        FrameDirective::BeginFrame {
                            predicted_display_time: fs.predicted_display_time,
                        },
                    )
                }
            },
        }
    }

    /// Record which ring slot the runtime's blocking acquire-and-wait handed
    /// out: from here to the finalize, slot `image_index` is the one being
    /// written.
    pub fn get_next_swapchain_image_index(&mut self, image_index: u32) -> (index: usize)
        requires
            image_index < old(self).buffers_view().len(),
        ensures
            index == image_index as usize,
            final(self).acquired_index() == Some(image_index as usize),
            final(self).frame() == old(self).frame(),
            final(self).buffers_view() == old(self).buffers_view(),
            final(self).same_configuration(old(self)),
    {
        self.acquired = Some(image_index as usize);
        image_index as usize
    }

    /// Close the live frame. On a rendered frame the caller must release the
    /// acquired buffer, relocate the views as late as possible, and end the
    /// frame at the stored predicted display time; without a prepared frame
    /// this is a logged no-op, and a prepared frame whose buffer was never
    /// acquired is dropped.
    pub fn finalize_update(&mut self) -> (d: FinalizeDirective)
        ensures
            d == finalize_directive(old(self).frame(), old(self).acquired_index()),
            final(self).frame() is None,
            final(self).acquired_index() == if d is Submit {
                None::<usize>
            } else {
                old(self).acquired_index()
            },
            final(self).buffers_view() == old(self).buffers_view(),
            final(self).same_configuration(old(self)),
    {
        let frame = self.next_frame_state.take();
        match frame {
            None => FinalizeDirective::NoFrame,
            Some(fs) => {
                match self.acquired {
                    None => FinalizeDirective::AbandonFrame,
                    Some(index) => {
                        self.acquired = None;
                        FinalizeDirective::Submit {
                            predicted_display_time: fs.predicted_display_time,
                            released_index: index,
                        }
                    },
                }
            },
        }
    }

    /// The timestamp hand sampling must use this tick, if sampling is
    /// meaningful at all: a frame must be open and trackers must exist.
    pub fn hand_sampling_time(&self) -> (t: Option<i64>)
        ensures
            t == match self.frame() {
                Some(fs) => if self.hand_trackers_enabled() {
                    Some(fs.predicted_display_time)
                } else {
                    None::<i64>
                },
                None => None::<i64>,
            },
    {
        if !self.hand_trackers {
            return None;
        }
        match &self.next_frame_state {
            Some(fs) => Some(fs.predicted_display_time),
            None => None,
        }
    }

    /// Publish this tick's hand poses from the runtime's per-hand samples.
    /// Outside a prepared frame, or without trackers, there is no record at
    /// all; otherwise each hand is passed through unchanged, an untracked
    /// hand staying absent rather than zeroed.
    pub fn get_hand_positions(
        &self,
        left: Option<HandJointLocations>,
        right: Option<HandJointLocations>,
    ) -> (r: Option<HandPoseState>)
        ensures
            r is Some <==> (self.frame() is Some && self.hand_trackers_enabled()),
            r matches Some(hp) ==> hp.left == left && hp.right == right,
    {
        if self.next_frame_state.is_none() {
            return None;
        }
        if !self.hand_trackers {
            return None;
        }
        Some(HandPoseState { left, right })
    }

    /// Publish the camera transforms for this tick's located views: each
    /// view's pose copied unchanged. Outside a prepared frame there is
    /// nothing to publish.
    pub fn get_view_positions(&self, views: &Vec<ViewPose>) -> (r: Option<Vec<ViewTransform>>)
        ensures
            r is Some <==> self.frame() is Some,
            r matches Some(transforms) ==> {
                &&& transforms@.len() == views@.len()
                &&& forall|i: int|
                    0 <= i < views@.len() ==> #[trigger] transforms@[i] == (ViewTransform {
                        translation: views@[i].pose.position,
                        rotation: views@[i].pose.orientation,
                    })
            },
    {
        if self.next_frame_state.is_none() {
            return None;
        }
        let mut transforms: Vec<ViewTransform> = Vec::new();
        let n = views.len();
        let mut i: usize = 0;
        while i < n
            invariant
                n == views@.len(),
                0 <= i <= n,
                transforms@.len() == i,
                forall|j: int|
                    0 <= j < i ==> #[trigger] transforms@[j] == (ViewTransform {
                        translation: views@[j].pose.position,
                        rotation: views@[j].pose.orientation,
                    }),
            decreases n - i,
        {
            let view = &views[i];
            transforms.push(
                ViewTransform {
                    translation: view.pose.position,
                    rotation: view.pose.orientation,
                },
            );
            i = i + 1;
        }
        Some(transforms)
    }

    /// The sub-image rectangle every layer view uses: the full render-target
    /// extent at the origin, read as signed values.
    pub open spec fn layer_rect_spec(&self) -> RectI {
        RectI {
            x: 0,
            y: 0,
            width: self.width_spec() as i32,
            height: self.height_spec() as i32,
        }
    }

    pub fn layer_rect(&self) -> (rect: RectI)
        ensures
            rect == self.layer_rect_spec(),
    {
        RectI {
            x: 0,
            y: 0,
            width: #[verifier::truncate] (self.width as i32),
            height: #[verifier::truncate] (self.height as i32),
        }
    }

    /// Build the projection layer for the two freshly located views: view `i`
    /// keeps its pose and field of view and renders from texture array layer
    /// `i`, both views sharing the full render-target rectangle.
    pub fn composition_layer_views(&self, views: &Vec<ViewPose>) -> (layer: Vec<
        CompositionLayerView,
    >)
        requires
            views@.len() == VIEW_COUNT,
        ensures
            layer@.len() == views@.len(),
            forall|i: int|
                0 <= i < views@.len() ==> #[trigger] layer@[i] == (CompositionLayerView {
                    pose: views@[i].pose,
                    fov: views@[i].fov,
                    image_array_index: i as u32,
                    image_rect: self.layer_rect_spec(),
                }),
    {
        let rect = self.layer_rect();
        let mut layer: Vec<CompositionLayerView> = Vec::new();
        let n = views.len();
        let mut i: usize = 0;
        while i < n
            invariant
                n == views@.len(),
                n == VIEW_COUNT,
                0 <= i <= n,
                rect == self.layer_rect_spec(),
                layer@.len() == i,
                forall|j: int|
                    0 <= j < i ==> #[trigger] layer@[j] == (CompositionLayerView {
                        pose: views@[j].pose,
                        fov: views@[j].fov,
                        image_array_index: j as u32,
                        image_rect: self.layer_rect_spec(),
                    }),
            decreases n - i,
        {
            let view = &views[i];
            layer.push(
                CompositionLayerView {
                    pose: view.pose,
                    fov: view.fov,
                    image_array_index: #[verifier::truncate] (i as u32),
                    image_rect: rect,
                },
            );
            i = i + 1;
        }
        layer
    }

    /// Hand the view handle of one ring slot to the rendering consumer. The
    /// first call returns it; the slot then has no view until the ring is
    /// recreated, so every later call returns nothing. The slot's texture is
    /// untouched either way.
    pub fn take_view_handle(&mut self, index: usize) -> (handle: Option<TextureViewHandle>)
        requires
            index < old(self).buffers_view().len(),
        ensures
            handle == take_view_result(old(self).buffers_view(), index as int),
            final(self).buffers_view() =~= take_view_next(old(self).buffers_view(), index as int),
            final(self).frame() == old(self).frame(),
            final(self).acquired_index() == old(self).acquired_index(),
            final(self).same_configuration(old(self)),
    {
        let texture = self.buffers[index].texture;
        let handle = self.buffers[index].texture_view;
        self.buffers.set(index, Framebuffer { texture, texture_view: None });
        handle
    }

    /// Whether every ring slot still holds its view handle (true until the
    /// first take): the condition under which the whole ring can be handed
    /// out at once.
    pub fn all_views_available(&self) -> (r: bool)
        ensures
            r == forall|i: int|
                0 <= i < self.buffers_view().len() ==> #[trigger] self.buffers_view()[i].texture_view is Some,
    {
        let n = self.buffers.len();
        let mut i: usize = 0;
        while i < n
            invariant
                n == self.buffers_view().len(),
                0 <= i <= n,
                forall|j: int| 0 <= j < i ==> #[trigger] self.buffers_view()[j].texture_view is Some,
            decreases n - i,
        {
            if self.buffers[i].texture_view.is_none() {
                return false;
            }
            i = i + 1;
        }
        true
    }

    /// Hand every slot's view handle out at once, in ring order. Meant to be
    /// called exactly once, by the consumer wiring the render targets up:
    /// every slot must still hold its view.
    pub fn take_texture_views(&mut self) -> (handles: Vec<TextureViewHandle>)
        requires
            forall|i: int|
                0 <= i < old(self).buffers_view().len() ==> #[trigger] old(
                    self,
                ).buffers_view()[i].texture_view is Some,
        ensures
            handles@.len() == old(self).buffers_view().len(),
            forall|i: int|
                0 <= i < handles@.len() ==> Some(#[trigger] handles@[i]) == old(
                    self,
                ).buffers_view()[i].texture_view,
            final(self).buffers_view().len() == old(self).buffers_view().len(),
            forall|i: int|
                0 <= i < handles@.len() ==> #[trigger] final(self).buffers_view()[i] == (Framebuffer {
                    texture: old(self).buffers_view()[i].texture,
                    texture_view: None,
                }),
            final(self).frame() == old(self).frame(),
            final(self).acquired_index() == old(self).acquired_index(),
            final(self).same_configuration(old(self)),
    {
        let mut handles: Vec<TextureViewHandle> = Vec::new();
        let n = self.buffers.len();
        let mut i: usize = 0;
        while i < n
            invariant
                n == old(self).buffers_view().len(),
                0 <= i <= n,
                self.buffers_view().len() == n,
                forall|j: int|
                    0 <= j < n ==> #[trigger] old(self).buffers_view()[j].texture_view is Some,
                handles@.len() == i,
                forall|j: int|
                    0 <= j < i ==> Some(#[trigger] handles@[j]) == old(
                        self,
                    ).buffers_view()[j].texture_view,
                forall|j: int|
                    0 <= j < i ==> #[trigger] self.buffers_view()[j] == (Framebuffer {
                        texture: old(self).buffers_view()[j].texture,
                        texture_view: None,
                    }),
                forall|j: int|
                    i <= j < n ==> #[trigger] self.buffers_view()[j] == old(
                        self,
                    ).buffers_view()[j],
                self.frame() == old(self).frame(),
                self.acquired_index() == old(self).acquired_index(),
                self.same_configuration(old(self)),
            decreases n - i,
        {
            let texture = self.buffers[i].texture;
            match self.buffers[i].texture_view {
                Some(handle) => {
                    handles.push(handle);
                },
                None => {
                    proof {
                        assert(old(self).buffers_view()[i as int].texture_view is Some);
                        assert(false);
                    }
                },
            }
            self.buffers.set(i, Framebuffer { texture, texture_view: None });
            i = i + 1;
        }
        handles
    }
}

/// At most one frame is ever in flight: a prepare that opens a frame leaves
/// every further prepare a no-op (no second frame, no runtime call) until
/// exactly one finalize closes the frame, after which a prepare can open the
/// next one.
pub proof fn lemma_one_frame_in_flight(
    frame0: Option<FrameState>,
    wait1: Option<FrameState>,
    wait2: Option<FrameState>,
    acquired: Option<usize>,
)
    requires
        prepare_directive(frame0, wait1) is BeginFrame,
    ensures
        prepare_next_frame(frame0, wait1) is Some,
        prepare_directive(prepare_next_frame(frame0, wait1), wait2)
            == FrameDirective::AlreadyPrepared,
        prepare_next_frame(prepare_next_frame(frame0, wait1), wait2) == prepare_next_frame(
            frame0,
            wait1,
        ),
        !(finalize_directive(prepare_next_frame(frame0, wait1), acquired) is NoFrame),
        !(prepare_directive(None, wait2) is AlreadyPrepared),
{
}

/// A view handle is single-use: after the slot's handle is taken once, any
/// further take of the same slot returns nothing and changes nothing, while
/// the slot's texture remains what it was.
pub proof fn lemma_take_view_handle_single_use(buffers: Seq<Framebuffer>, index: int)
    requires
        0 <= index < buffers.len(),
    ensures
        take_view_result(take_view_next(buffers, index), index) is None,
        take_view_next(buffers, index)[index].texture == buffers[index].texture,
        take_view_next(buffers, index).len() == buffers.len(),
        forall|j: int|
            0 <= j < buffers.len() && j != index ==> #[trigger] take_view_next(buffers, index)[j]
                == buffers[j],
        take_view_next(take_view_next(buffers, index), index) =~= take_view_next(buffers, index),
{
}

} // verus!
