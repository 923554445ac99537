use vstd::prelude::*;

use crate::camera::{angles_at, frame_angles, FrameAngles, FRAME_LIMIT, FRAME_START};
use crate::fps::{accumulate, FpsCounter, FpsReport, NANOS_PER_SECOND};

verus! {

/// The keys the scene reacts to.
#[derive(Clone, Copy, Debug, PartialEq, Eq, Structural)]
pub enum Key {
    Escape,
    Space,
    Other,
}

/// What the surface answered when asked for the texture of the next frame.
#[derive(Clone, Copy, Debug, PartialEq, Eq, Structural)]
pub enum SurfaceStatus {
    /// A texture that matches the surface.
    Success,
    /// A texture, but the surface has changed since it was configured.
    Suboptimal,
    /// No texture in time.
    Timeout,
    /// No texture: the window is hidden.
    Occluded,
    /// No texture: the surface configuration is out of date.
    Outdated,
    /// No texture: the surface is gone.
    Lost,
    /// No texture: a validation error was raised.
    Validation,
}

/// What to do with the frame once the surface has answered.
#[derive(Clone, Copy, Debug, PartialEq, Eq, Structural)]
pub enum RenderStep {
    /// Draw both triangles and present; configure the surface again first
    /// when `reconfigure` is set.
    Draw { reconfigure: bool },
    /// Draw nothing this frame; configure the surface again when
    /// `reconfigure` is set.
    Skip { reconfigure: bool },
    /// Stop: the surface is lost.
    Fail,
}

/// What one update of the scene produced: the frame rate to show, when a
/// second has gone by, and the rotation angles of the triangles, when the
/// scene is animated.
#[derive(Clone, Copy, Debug, PartialEq, Eq, Structural)]
pub struct FrameUpdate {
    pub fps: Option<FpsReport>,
    pub angles: Option<FrameAngles>,
}

/// The plain state of the scene: the part of the task shown, the size of the
/// surface, whether the surface is configured, the animation frame and the
/// frame-rate window.
pub struct State {
    config_zad1: bool,
    fps: FpsCounter,
    width: u32,
    height: u32,
    is_surface_configured: bool,
    frame_index: u32,
}

/// The abstract state of the scene.
#[derive(Clone, Copy, Debug, PartialEq, Eq, Structural)]
pub struct StateView {
    /// Part one of the task (a static scene) rather than part two (animated).
    pub config_zad1: bool,
    pub width: u32,
    pub height: u32,
    pub surface_configured: bool,
    /// The next animation frame.
    pub frame_index: u32,
    /// Frames counted in the frame-rate window.
    pub frames: u32,
    /// Nanoseconds accumulated in the frame-rate window.
    pub nanos: u64,
}

impl View for State {
    type V = StateView;

    closed spec fn view(&self) -> StateView {
        StateView {
            config_zad1: self.config_zad1,
            width: self.width,
            height: self.height,
            surface_configured: self.is_surface_configured,
            frame_index: self.frame_index,
            frames: self.fps.frames(),
            nanos: self.fps.nanos(),
        }
    }
}

/// A fresh scene on a surface of `width` by `height` pixels that is not yet
/// configured.
pub open spec fn initial_state(config_zad1: bool, width: u32, height: u32) -> StateView {
    StateView {
        config_zad1,
        width,
        height,
        surface_configured: false,
        frame_index: FRAME_START,
        frames: 0,
        nanos: 0,
    }
}

/// The state after a resize to `width` by `height`: a size with a zero side
/// is ignored; any other configures the surface at that size.
pub open spec fn resized(s: StateView, width: u32, height: u32) -> StateView {
    if width > 0 && height > 0 {
        StateView { width, height, surface_configured: true, ..s }
    } else {
        s
    }
}

/// The scene stops when Escape or Space is pressed.
pub open spec fn key_exits(key: Key, is_pressed: bool) -> bool {
    is_pressed && (key == Key::Escape || key == Key::Space)
}

/// An update can count one more frame.
pub open spec fn can_update(s: StateView) -> bool {
    s.frames < u32::MAX
}

/// The scene is animated and the animation has frames left to show.
pub open spec fn animating(s: StateView) -> bool {
    !s.config_zad1 && s.frame_index < FRAME_LIMIT
}

/// The state after one update that took `elapsed` nanoseconds, and what the
/// update produced: the frame is counted in the frame-rate window, which is
/// reported and emptied once it holds a second; in the animated part, until
/// the last frame has been shown, the angles of the current frame are
/// produced and the frame advances.
pub open spec fn updated(s: StateView, elapsed: u64) -> (StateView, FrameUpdate) {
    let total = accumulate(s.nanos, elapsed);
    let (frames, nanos, fps) = if total >= NANOS_PER_SECOND {
        (0u32, 0u64, Some(FpsReport { frames: (s.frames + 1) as u32, nanos: total }))
    } else {
        ((s.frames + 1) as u32, total, None)
    };
    if !animating(s) {
        (StateView { frames, nanos, ..s }, FrameUpdate { fps, angles: None })
    } else {
        (
            StateView { frames, nanos, frame_index: (s.frame_index + 1) as u32, ..s },
            FrameUpdate { fps, angles: Some(angles_at(s.frame_index)) },
        )
    }
}

/// What to do with a frame given the answer of the surface: nothing is drawn
/// while the surface is not configured; a suboptimal texture is drawn after
/// configuring the surface again; an outdated surface is configured again and
/// the frame skipped; a lost surface stops the scene; other failures skip the
/// frame.
pub open spec fn render_step(configured: bool, status: SurfaceStatus) -> RenderStep {
    if !configured {
        RenderStep::Skip { reconfigure: false }
    } else {
        match status {
            SurfaceStatus::Success => RenderStep::Draw { reconfigure: false },
            SurfaceStatus::Suboptimal => RenderStep::Draw { reconfigure: true },
            SurfaceStatus::Timeout => RenderStep::Skip { reconfigure: false },
            SurfaceStatus::Occluded => RenderStep::Skip { reconfigure: false },
            SurfaceStatus::Validation => RenderStep::Skip { reconfigure: false },
            SurfaceStatus::Outdated => RenderStep::Skip { reconfigure: true },
            SurfaceStatus::Lost => RenderStep::Fail,
        }
    }
}

impl State {
    /// A fresh scene for part one (`config_zad1`) or part two of the task, on
    /// a window of `width` by `height` pixels; the surface is configured by
    /// the first resize.
    pub fn new(config_zad1: bool, width: u32, height: u32) -> (s: State)
        ensures
            s@ == initial_state(config_zad1, width, height),
    {
        State {
            config_zad1,
            fps: FpsCounter::new(),
            width,
            height,
            is_surface_configured: false,
            frame_index: FRAME_START,
        }
    }

    /// Whether part one of the task is shown.
    pub fn config_zad1(&self) -> (b: bool)
        ensures
            b == self@.config_zad1,
    {
        self.config_zad1
    }

    /// Width of the surface, in pixels.
    pub fn width(&self) -> (w: u32)
        ensures
            w == self@.width,
    {
        self.width
    }

    /// Height of the surface, in pixels.
    pub fn height(&self) -> (h: u32)
        ensures
            h == self@.height,
    {
        self.height
    }

    /// Whether the surface is configured, so that frames can be drawn.
    pub fn is_surface_configured(&self) -> (b: bool)
        ensures
            b == self@.surface_configured,
    {
        self.is_surface_configured
    }

    /// The next animation frame.
    pub fn frame_index(&self) -> (n: u32)
        ensures
            n == self@.frame_index,
    {
        self.frame_index
    }

    /// Frames counted in the frame-rate window.
    pub fn frame_count(&self) -> (n: u32)
        ensures
            n == self@.frames,
    {
        self.fps.frame_count()
    }

    /// Whether `update` may run: the counters have room for one more frame.
    pub fn can_update(&self) -> (b: bool)
        ensures
            b == can_update(self@),
    {
        self.fps.frame_count() < u32::MAX
    }

    /// Takes a new size of the window. Returns whether the surface is to be
    /// configured at that size (and the depth buffer and projection rebuilt):
    /// exactly when neither side is zero.
    pub fn resize(&mut self, width: u32, height: u32) -> (reconfigure: bool)
        ensures
            reconfigure == (width > 0 && height > 0),
            final(self)@ == resized(old(self)@, width, height),
    {
        if width > 0 && height > 0 {
            self.width = width;
            self.height = height;
            self.is_surface_configured = true;
            true
        } else {
            false
        }
    }

    /// Whether a key event stops the scene.
    pub fn handle_key(&self, key: Key, is_pressed: bool) -> (exit: bool)
        ensures
            exit == key_exits(key, is_pressed),
    {
        is_pressed && (key == Key::Escape || key == Key::Space)
    }

    /// Advances the scene by one frame that took `elapsed_nanos`: counts it
    /// for the frame rate and, in part two, moves the animation one frame on
    /// until its last frame has been shown, after which the last pose stays.
    pub fn update(&mut self, elapsed_nanos: u64) -> (u: FrameUpdate)
        requires
            can_update(old(self)@),
        ensures
            (final(self)@, u) == updated(old(self)@, elapsed_nanos),
    {
        let fps = self.fps.tick(elapsed_nanos);
        if self.config_zad1 || self.frame_index >= FRAME_LIMIT {
            return FrameUpdate { fps, angles: None };
        }
        let angles = frame_angles(self.frame_index);
        self.frame_index = self.frame_index + 1;
        FrameUpdate { fps, angles: Some(angles) }
    }

    /// What to do with the frame, given the answer of the surface.
    pub fn render(&self, status: SurfaceStatus) -> (step: RenderStep)
        ensures
            step == render_step(self@.surface_configured, status),
    {
        if !self.is_surface_configured {
            return RenderStep::Skip { reconfigure: false };
        }
        match status {
            SurfaceStatus::Success => RenderStep::Draw { reconfigure: false },
            SurfaceStatus::Suboptimal => RenderStep::Draw { reconfigure: true },
            SurfaceStatus::Timeout | SurfaceStatus::Occluded | SurfaceStatus::Validation => {
                RenderStep::Skip { reconfigure: false }
            },
            SurfaceStatus::Outdated => RenderStep::Skip { reconfigure: true },
            SurfaceStatus::Lost => RenderStep::Fail,
        }
    }
}

/// Replays `update` over the frame times `elapsed`, from state `s`.
pub open spec fn replay_updates(s: StateView, elapsed: Seq<u64>) -> StateView
    decreases elapsed.len(),
{
    if elapsed.len() == 0 {
        s
    } else {
        replay_updates(updated(s, elapsed[0]).0, elapsed.drop_first())
    }
}

/// The frame the animation has reached after `k` more updates from frame
/// `frame`: one frame per update, up to the end of the animation.
pub open spec fn frame_after(frame: u32, k: int) -> int {
    if frame + k <= FRAME_LIMIT {
        frame + k
    } else {
        FRAME_LIMIT as int
    }
}

/// Updates move only the animation and the frame-rate window: the part of
/// the task, the size and the configuration of the surface stay as they are.
/// In part one the scene stays still: the animation frame never moves and no
/// angles are produced. In part two every update shows the next frame of the
/// animation, in order and each once, until the last frame before
/// `FRAME_LIMIT`; after that no angles are produced and the pose stays.
pub proof fn lemma_updates_advance_animation(s: StateView, elapsed: Seq<u64>)
    requires
        s.frame_index <= FRAME_LIMIT,
    ensures
        replay_updates(s, elapsed).config_zad1 == s.config_zad1,
        replay_updates(s, elapsed).width == s.width,
        replay_updates(s, elapsed).height == s.height,
        replay_updates(s, elapsed).surface_configured == s.surface_configured,
        s.config_zad1 ==> replay_updates(s, elapsed).frame_index == s.frame_index,
        !s.config_zad1 ==> replay_updates(s, elapsed).frame_index == frame_after(
            s.frame_index,
            elapsed.len() as int,
        ),
        elapsed.len() > 0 ==> updated(s, elapsed[0]).1.angles == (if animating(s) {
            Some(angles_at(s.frame_index))
        } else {
            None
        }),
    decreases elapsed.len(),
{
    if elapsed.len() > 0 {
        lemma_updates_advance_animation(updated(s, elapsed[0]).0, elapsed.drop_first());
    }
}

/// Resizing configures the surface for good: a resize never unconfigures
/// it, a size with a zero side changes nothing, and repeating a resize
/// changes nothing more.
pub proof fn lemma_resize_settles(s: StateView, width: u32, height: u32)
    ensures
        s.surface_configured ==> resized(s, width, height).surface_configured,
        (width == 0 || height == 0) ==> resized(s, width, height) == s,
        resized(resized(s, width, height), width, height) == resized(s, width, height),
{
}

/// Nothing is drawn before the first resize with a non-zero size: a fresh
/// scene skips every frame whatever the surface answers, and keeps doing so
/// through resizes with a zero side.
pub proof fn lemma_nothing_drawn_before_configured(
    config_zad1: bool,
    width: u32,
    height: u32,
    new_width: u32,
    new_height: u32,
    status: SurfaceStatus,
)
    ensures
        render_step(initial_state(config_zad1, width, height).surface_configured, status)
            == (RenderStep::Skip { reconfigure: false }),
        (new_width == 0 || new_height == 0) ==> render_step(
            resized(initial_state(config_zad1, width, height), new_width, new_height).surface_configured,
            status,
        ) == (RenderStep::Skip { reconfigure: false }),
{
}

/// Whatever the part of the task and whether the animation has ended, an
/// update counts its frame: it reports the frame rate exactly when the
/// window's time plus the frame's time reaches a second, with every frame of
/// the window including this one and the whole time (saturated at the
/// largest duration), and empties the window; otherwise it reports nothing
/// and the window gains the frame and its time.
pub proof fn lemma_update_counts_frame(s: StateView, elapsed: u64)
    requires
        s.nanos < NANOS_PER_SECOND,
        s.frames < u32::MAX,
    ensures
        s.nanos + elapsed >= NANOS_PER_SECOND ==> {
            &&& updated(s, elapsed).1.fps == Some(
                FpsReport {
                    frames: (s.frames + 1) as u32,
                    nanos: if s.nanos + elapsed <= u64::MAX {
                        (s.nanos + elapsed) as u64
                    } else {
                        u64::MAX
                    },
                },
            )
            &&& updated(s, elapsed).0.frames == 0
            &&& updated(s, elapsed).0.nanos == 0
        },
        s.nanos + elapsed < NANOS_PER_SECOND ==> {
            &&& updated(s, elapsed).1.fps.is_none()
            &&& updated(s, elapsed).0.frames == s.frames + 1
            &&& updated(s, elapsed).0.nanos == s.nanos + elapsed
        },
{
}

/// A resize with both sides non-zero configures the surface at exactly the
/// given size, width as width and height as height, and changes nothing
/// else; a resize with a zero side changes nothing at all.
pub proof fn lemma_resize_takes_given_size(s: StateView, width: u32, height: u32)
    ensures
        width > 0 && height > 0 ==> {
            &&& resized(s, width, height).width == width
            &&& resized(s, width, height).height == height
            &&& resized(s, width, height).surface_configured
            &&& resized(s, width, height).config_zad1 == s.config_zad1
            &&& resized(s, width, height).frame_index == s.frame_index
            &&& resized(s, width, height).frames == s.frames
            &&& resized(s, width, height).nanos == s.nanos
        },
        !(width > 0 && height > 0) ==> resized(s, width, height) == s,
{
}

/// Only a press of Escape or of Space stops the scene: every such press
/// does, and no other key, and no release of any key, ever does.
pub proof fn lemma_only_escape_or_space_exit(key: Key, is_pressed: bool)
    ensures
        key_exits(Key::Escape, true),
        key_exits(Key::Space, true),
        !key_exits(key, false),
        !key_exits(Key::Other, is_pressed),
        key_exits(key, is_pressed) <==> (is_pressed && (key == Key::Escape || key == Key::Space)),
{
}

/// A frame is drawn only on a configured surface that handed out a texture;
/// the surface is configured again exactly when its texture was suboptimal
/// or its configuration outdated; the scene stops exactly when the surface
/// is lost on a configured surface.
pub proof fn lemma_render_decisions(configured: bool, status: SurfaceStatus)
    ensures
        (render_step(configured, status) is Draw) <==> (configured && (status
            == SurfaceStatus::Success || status == SurfaceStatus::Suboptimal)),
        (render_step(configured, status) == RenderStep::Draw { reconfigure: true } || render_step(
            configured,
            status,
        ) == RenderStep::Skip { reconfigure: true }) <==> (configured && (status
            == SurfaceStatus::Suboptimal || status == SurfaceStatus::Outdated)),
        (render_step(configured, status) == RenderStep::Fail) <==> (configured && status
            == SurfaceStatus::Lost),
{
}

/// An update produces angles exactly in part two while the frame is below
/// `FRAME_LIMIT`, and then the angles of that very frame, and moves to the
/// following frame; otherwise the frame stays where it is.
pub proof fn lemma_update_steps_animation(s: StateView, elapsed: u64)
    ensures
        (updated(s, elapsed).1.angles is Some) <==> (!s.config_zad1 && s.frame_index
            < FRAME_LIMIT),
        !s.config_zad1 && s.frame_index < FRAME_LIMIT ==> {
            &&& updated(s, elapsed).1.angles == Some(angles_at(s.frame_index))
            &&& updated(s, elapsed).0.frame_index == s.frame_index + 1
        },
        !(!s.config_zad1 && s.frame_index < FRAME_LIMIT) ==> updated(s, elapsed).0.frame_index
            == s.frame_index,
        updated(s, elapsed).0.width == s.width,
        updated(s, elapsed).0.height == s.height,
        updated(s, elapsed).0.surface_configured == s.surface_configured,
        updated(s, elapsed).0.config_zad1 == s.config_zad1,
{
}

/// A fresh scene shows the chosen part at the window's size, with an
/// unconfigured surface, the animation at its first frame and an empty
/// frame-rate window.
pub proof fn lemma_fresh_scene(config_zad1: bool, width: u32, height: u32)
    ensures
        initial_state(config_zad1, width, height).config_zad1 == config_zad1,
        initial_state(config_zad1, width, height).width == width,
        initial_state(config_zad1, width, height).height == height,
        !initial_state(config_zad1, width, height).surface_configured,
        initial_state(config_zad1, width, height).frame_index == 0,
        initial_state(config_zad1, width, height).frames == 0,
        initial_state(config_zad1, width, height).nanos == 0,
{
}

} // verus!
