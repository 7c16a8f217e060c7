use vstd::prelude::*;

use crate::config::{
    adjusted_height_spec, adjusted_width_spec, same_info, same_u32, same_u64, DisplayInfo,
    Transform, WallpaperInfo,
};
use crate::timing::{
    remaining_duration, remaining_spec, timer_decision, timer_decision_spec, EventSource,
    TimerDecision,
};

verus! {

/// Consecutive decode failures after which a load attempt is abandoned.
pub const MAX_LOAD_TRIES: u8 = 5;

/// Everything a surface holds, as a value.
pub struct SurfaceView {
    pub info: DisplayInfo,
    pub config: WallpaperInfo,
    pub event_source: EventSource,
    pub window_drawn: bool,
    pub loading_image: Option<(String, usize)>,
    pub loading_image_tries: u8,
    pub skip_next_transition: bool,
    pub should_pause: bool,
}

impl SurfaceView {
    /// A load in flight has failed fewer times than the limit.
    pub open spec fn wf(self) -> bool {
        self.loading_image_tries < MAX_LOAD_TRIES
    }
}

/// The per-output controller.
pub struct Surface {
    info: DisplayInfo,
    wallpaper_info: WallpaperInfo,
    event_source: EventSource,
    window_drawn: bool,
    loading_image: Option<(String, usize)>,
    loading_image_tries: u8,
    skip_next_transition: bool,
    should_pause: bool,
}

impl View for Surface {
    type V = SurfaceView;

    closed spec fn view(&self) -> SurfaceView {
        SurfaceView {
            info: self.info,
            config: self.wallpaper_info,
            event_source: self.event_source,
            window_drawn: self.window_drawn,
            loading_image: self.loading_image,
            loading_image_tries: self.loading_image_tries,
            skip_next_transition: self.skip_next_transition,
            should_pause: self.should_pause,
        }
    }
}

/// A surface just attached to an output: nothing loading, no timer, and the
/// first transition skipped unless the configuration asks for it.
pub open spec fn initial_spec(info: DisplayInfo, config: WallpaperInfo) -> SurfaceView {
    SurfaceView {
        info,
        config,
        event_source: EventSource::NotSet,
        window_drawn: false,
        loading_image: None,
        loading_image_tries: 0,
        skip_next_transition: !config.initial_transition,
        should_pause: false,
    }
}

// ---------------------------------------------------------------------------
// Image loading
/// What the background decoder reports for an image.
#[derive(Clone, Copy, Debug, PartialEq, Eq, Structural)]
pub enum DecodeStatus {
    Loaded,
    Waiting,
    Error,
}

/// What the caller learned while serving the previous [`LoadAction`].
#[derive(Clone, Debug, PartialEq, Eq)]
pub enum LoadEvent {
    /// A new call of the load loop.
    Start,
    /// The picker's answer: the image it wants shown (path and index), the
    /// path of the image currently shown, and whether it is reloading.
    Picked { image: Option<(String, usize)>, current: String, reloading: bool },
    /// Whether the renderer is animating a transition.
    TransitionRunning(bool),
    /// The decoder's status for the image being loaded.
    Decoded(DecodeStatus),
    /// The decoded image was handed to the renderer; whether the picker is
    /// reloading.
    Uploaded { reloading: bool },
}

/// What the load loop asks of the caller next.
#[derive(Clone, Debug, PartialEq, Eq)]
pub enum LoadAction {
    /// Ask the picker which image to show; answer with `Picked`.
    PickImage,
    /// Ask the renderer whether a transition runs; answer with
    /// `TransitionRunning`.
    CheckTransition,
    /// Poll the decoder for this path; answer with `Decoded`.
    Decode(String),
    /// Make the context current and hand the decoded image to the renderer
    /// with this mode and offset; answer with `Uploaded`.
    Upload { mode: u32, offset: Option<u32> },
    /// Tell the picker that its reload is done. The loop ends with `true`.
    AcknowledgeReload,
    /// Record this image as the picker's current one and start a transition
    /// of this many milliseconds. The loop ends with `true`.
    Commit { path: String, index: usize, transition_time: u32 },
    /// The loop ends: `true` when the surface has an image to show, `false`
    /// when a decode is still pending.
    Done(bool),
}

/// One step of the load loop.
pub open spec fn load_step_spec(s: SurfaceView, ev: LoadEvent) -> (SurfaceView, LoadAction) {
    match ev {
        LoadEvent::Start => if s.loading_image is None {
            (s, LoadAction::PickImage)
        } else {
            (s, LoadAction::CheckTransition)
        },
        LoadEvent::Picked { image, current, reloading } => match image {
            None => (s, LoadAction::Done(true)),
            Some(item) => if item.0@ == current@ && !reloading {
                (s, LoadAction::Done(true))
            } else {
                (SurfaceView { loading_image: Some(item), ..s }, LoadAction::CheckTransition)
            },
        },
        LoadEvent::TransitionRunning(running) => if running {
            (s, LoadAction::Done(true))
        } else {
            match s.loading_image {
                None => (s, LoadAction::PickImage),
                Some(item) => (s, LoadAction::Decode(item.0)),
            }
        },
        LoadEvent::Decoded(status) => match status {
            DecodeStatus::Loaded => (
                s,
                LoadAction::Upload { mode: s.config.mode, offset: s.config.offset },
            ),
            DecodeStatus::Waiting => (s, LoadAction::Done(false)),
            DecodeStatus::Error => if s.loading_image_tries + 1 >= MAX_LOAD_TRIES {
                (
                    SurfaceView { loading_image: None, loading_image_tries: 0, ..s },
                    LoadAction::Done(true),
                )
            } else {
                (
                    SurfaceView {
                        loading_image: None,
                        loading_image_tries: (s.loading_image_tries + 1) as u8,
                        ..s
                    },
                    LoadAction::PickImage,
                )
            },
        },
        LoadEvent::Uploaded { reloading } => match s.loading_image {
            None => (s, LoadAction::Done(true)),
            Some(item) => {
                let next = SurfaceView {
                    loading_image: None,
                    loading_image_tries: 0,
                    skip_next_transition: false,
                    ..s
                };
                if reloading {
                    (next, LoadAction::AcknowledgeReload)
                } else {
                    (
                        next,
                        LoadAction::Commit {
                            path: item.0,
                            index: item.1,
                            transition_time: if s.skip_next_transition {
                                0
                            } else {
                                s.config.transition_time
                            },
                        },
                    )
                }
            },
        },
    }
}

// ---------------------------------------------------------------------------
// Drawing
/// Where the renderer's transition stands after it was given the frame time.
#[derive(Clone, Copy, Debug, PartialEq, Eq, Structural)]
pub enum TransitionProgress {
    /// No transition was running.
    Idle,
    /// A transition runs and goes on after this frame.
    Continuing,
    /// A transition ran and has just completed.
    Ended,
}

/// How one frame is produced.
#[derive(Clone, Copy, Debug, PartialEq, Eq, Structural)]
pub struct DrawPlan {
    /// Register a frame callback with the compositor.
    pub request_frame: bool,
    /// Finalize the transition that has just ended.
    pub finish_transition: bool,
    /// Draw, present, release the context, damage `width` by `height` and
    /// commit; when false, only commit.
    pub render: bool,
    pub width: i32,
    pub height: i32,
}

pub open spec fn draw_plan_spec(
    s: SurfaceView,
    wallpaper_loaded: bool,
    progress: TransitionProgress,
) -> DrawPlan {
    let width = adjusted_width_spec(s.info);
    let height = adjusted_height_spec(s.info);
    match progress {
        TransitionProgress::Continuing => DrawPlan {
            request_frame: true,
            finish_transition: false,
            render: true,
            width,
            height,
        },
        TransitionProgress::Ended => DrawPlan {
            request_frame: false,
            finish_transition: true,
            render: true,
            width,
            height,
        },
        TransitionProgress::Idle => DrawPlan {
            request_frame: !wallpaper_loaded,
            finish_transition: false,
            render: wallpaper_loaded || s.window_drawn,
            width,
            height,
        },
    }
}

// ---------------------------------------------------------------------------
// Geometry changes
/// One piece of work after the output's geometry changed. The caller runs
/// the steps in order and stops at the first one that fails.
#[derive(Clone, Copy, Debug, PartialEq, Eq, Structural)]
pub enum GeometryStep {
    SetBufferTransform(Transform),
    SetBufferScale(i32),
    /// Resize the drawable of the render context.
    ResizeContext { width: i32, height: i32 },
    MakeCurrent,
    /// Rebind the renderer's viewport.
    ResizeRenderer,
    ForceTransitionEnd,
    /// Start loading the next image, register a frame callback and commit.
    QueueDraw,
    SetMode { mode: u32, offset: Option<u32> },
    SetProjection(Transform),
}

/// The resize sequence for the geometry in `s`.
pub open spec fn resize_steps(s: SurfaceView) -> Seq<GeometryStep> {
    seq![
        GeometryStep::ResizeContext {
            width: adjusted_width_spec(s.info),
            height: adjusted_height_spec(s.info),
        },
        GeometryStep::MakeCurrent,
        GeometryStep::ResizeRenderer,
        GeometryStep::ForceTransitionEnd,
        GeometryStep::QueueDraw,
    ]
}

pub open spec fn change_size_spec(s: SurfaceView, width: i32, height: i32) -> (
    SurfaceView,
    Seq<GeometryStep>,
) {
    if s.info.width == width && s.info.height == height {
        (s, seq![])
    } else {
        let next = SurfaceView { info: DisplayInfo { width, height, ..s.info }, ..s };
        (next, resize_steps(next))
    }
}

pub open spec fn change_transform_spec(s: SurfaceView, transform: Transform) -> (
    SurfaceView,
    Seq<GeometryStep>,
) {
    if s.info.transform == transform {
        (s, seq![])
    } else {
        let next = SurfaceView { info: DisplayInfo { transform, ..s.info }, ..s };
        (
            next,
            seq![GeometryStep::SetBufferTransform(transform)] + resize_steps(next) + seq![
                GeometryStep::SetMode { mode: s.config.mode, offset: s.config.offset },
                GeometryStep::SetProjection(transform),
            ],
        )
    }
}

pub open spec fn change_scale_spec(s: SurfaceView, scale: i32) -> (
    SurfaceView,
    Seq<GeometryStep>,
) {
    if s.info.scale == scale {
        (s, seq![])
    } else {
        let next = SurfaceView { info: DisplayInfo { scale, ..s.info }, ..s };
        (next, seq![GeometryStep::SetBufferScale(scale)] + resize_steps(next))
    }
}

// ---------------------------------------------------------------------------
// Rotation timer
/// What the caller does to the event loop after the pause state was
/// reconciled.
#[derive(Clone, Copy, Debug, PartialEq, Eq, Structural)]
pub enum PauseAction {
    Nothing,
    /// Remove the timer registered under this token.
    Cancel(u64),
    /// Register a timer firing after this many milliseconds, then report its
    /// token with [`Surface::timer_registered`].
    Register(u64),
}

/// Delay of the timer to register, or `None` when no timer is to be added:
/// one already runs, or the surface does not rotate.
pub open spec fn add_timer_spec(s: SurfaceView, timer: Option<u64>) -> Option<u64> {
    if s.event_source is Running {
        None
    } else {
        match s.config.duration {
            None => None,
            Some(d) => match timer {
                Some(t) => Some(t),
                None => Some(d),
            },
        }
    }
}

/// Time left before the next rotation, `elapsed` milliseconds after the
/// current image was set.
pub open spec fn remaining_of(s: SurfaceView, elapsed: u64) -> Option<u64> {
    match s.config.duration {
        None => None,
        Some(d) => remaining_spec(d, elapsed),
    }
}

pub open spec fn handle_pause_spec(s: SurfaceView, elapsed: u64) -> (SurfaceView, PauseAction) {
    match s.event_source {
        EventSource::Running(token) => if s.should_pause {
            let left = match remaining_of(s, elapsed) {
                Some(r) => r,
                None => 0,
            };
            (SurfaceView { event_source: EventSource::Paused(left), ..s }, PauseAction::Cancel(token))
        } else {
            (s, PauseAction::Nothing)
        },
        EventSource::Paused(left) => if !s.should_pause {
            match add_timer_spec(s, Some(left)) {
                Some(delay) => (s, PauseAction::Register(delay)),
                None => (s, PauseAction::Nothing),
            }
        } else {
            (s, PauseAction::Nothing)
        },
        EventSource::NotSet => (s, PauseAction::Nothing),
    }
}

/// The state once a timer was registered under `token`.
pub open spec fn registered_spec(s: SurfaceView, token: u64) -> SurfaceView {
    SurfaceView { event_source: EventSource::Running(token), ..s }
}

// ---------------------------------------------------------------------------
// Configuration reload
/// One consequence of a configuration reload, in the order the caller runs
/// them. A failing step is logged and does not stop the ones after it.
#[derive(Clone, Copy, Debug, PartialEq, Eq, Structural)]
pub enum ConfigStep {
    /// Pass the new sorting policy and path to the picker.
    UpdateSorting { path_changed: bool, previous_queue_size: usize },
    /// Ask the picker for the next image.
    NextImage,
    /// Start loading the next image, register a frame callback and commit.
    QueueDraw,
    /// Remove the timer registered under this token.
    CancelTimer(u64),
    /// Register a timer firing after this many milliseconds (zero: at once),
    /// then report its token with [`Surface::timer_registered`].
    RegisterTimer(u64),
    /// Make the context current and give the renderer this mode and offset.
    SetMode { mode: u32, offset: Option<u32> },
    /// Draw a frame now.
    Draw,
    /// Give the renderer this transition effect.
    UpdateTransition(u32),
    UpdateQueueSize(usize),
    UpdateTransitionTime(u32),
}

/// The timer state and steps that follow from a change of rotation period.
pub open spec fn duration_part(
    s: SurfaceView,
    new: WallpaperInfo,
    path_changed: bool,
    elapsed: u64,
) -> (EventSource, Seq<ConfigStep>) {
    if new.duration == s.config.duration {
        (s.event_source, seq![])
    } else {
        let cancel = match s.event_source {
            EventSource::Running(token) => seq![ConfigStep::CancelTimer(token)],
            _ => seq![],
        };
        match new.duration {
            None => match s.event_source {
                EventSource::Running(_) => (EventSource::NotSet, cancel),
                _ => (s.event_source, cancel),
            },
            Some(d) => {
                let delay: u64 = if !path_changed && remaining_spec(d, elapsed) is Some {
                    remaining_spec(d, elapsed)->0
                } else {
                    0
                };
                (EventSource::NotSet, cancel + seq![ConfigStep::RegisterTimer(delay)])
            },
        }
    }
}

pub open spec fn mode_part(s: SurfaceView, new: WallpaperInfo, path_changed: bool) -> Seq<
    ConfigStep,
> {
    if new.mode != s.config.mode || new.offset != s.config.offset {
        seq![ConfigStep::SetMode { mode: new.mode, offset: new.offset }] + if path_changed {
            Seq::<ConfigStep>::empty()
        } else {
            seq![ConfigStep::Draw]
        }
    } else {
        seq![]
    }
}

pub open spec fn tail_part(s: SurfaceView, new: WallpaperInfo) -> Seq<ConfigStep> {
    (if new.transition != s.config.transition {
        seq![ConfigStep::UpdateTransition(new.transition)]
    } else {
        Seq::<ConfigStep>::empty()
    }) + (if new.drawn_images_queue_size != s.config.drawn_images_queue_size {
        seq![ConfigStep::UpdateQueueSize(new.drawn_images_queue_size)]
    } else {
        Seq::<ConfigStep>::empty()
    }) + (if new.transition_time != s.config.transition_time {
        seq![ConfigStep::UpdateTransitionTime(new.transition_time)]
    } else {
        Seq::<ConfigStep>::empty()
    })
}

/// A configuration reload, `elapsed` milliseconds after the current image
/// was set.
pub open spec fn update_info_spec(s: SurfaceView, new: WallpaperInfo, elapsed: u64) -> (
    SurfaceView,
    Seq<ConfigStep>,
) {
    if same_info(s.config, new) {
        (s, seq![])
    } else {
        let path_changed = s.config.path@ != new.path@;
        let (event_source, timer_steps) = duration_part(s, new, path_changed, elapsed);
        (
            SurfaceView { config: new, event_source, ..s },
            seq![
                ConfigStep::UpdateSorting {
                    path_changed,
                    previous_queue_size: s.config.drawn_images_queue_size,
                },
            ] + (if path_changed {
                seq![ConfigStep::NextImage, ConfigStep::QueueDraw]
            } else {
                Seq::<ConfigStep>::empty()
            }) + timer_steps + mode_part(s, new, path_changed) + tail_part(s, new),
        )
    }
}

// ---------------------------------------------------------------------------
impl Surface {
    /// The steps of a change of rotation period, appended to `steps`.
    fn duration_steps(
        &self,
        new: &WallpaperInfo,
        path_changed: bool,
        elapsed: u64,
        steps: &mut Vec<ConfigStep>,
    ) -> (r: EventSource)
        ensures
            r == duration_part(self@, *new, path_changed, elapsed).0,
            final(steps)@ == old(steps)@ + duration_part(self@, *new, path_changed, elapsed).1,
    {
        let ghost cancel: Seq<ConfigStep> = match self.event_source {
            EventSource::Running(token) => seq![ConfigStep::CancelTimer(token)],
            _ => seq![],
        };
        if same_u64(new.duration, self.wallpaper_info.duration) {
            assert(steps@ =~= old(steps)@ + Seq::<ConfigStep>::empty());
            return self.event_source;
        }
        if let EventSource::Running(token) = self.event_source {
            steps.push(ConfigStep::CancelTimer(token));
        }
        assert(steps@ =~= old(steps)@ + cancel);
        match new.duration {
            None => {
                match self.event_source {
                    EventSource::Running(_) => EventSource::NotSet,
                    _ => self.event_source,
                }
            },
            Some(d) => {
                let delay: u64 = if path_changed {
                    0
                } else {
                    match remaining_duration(d, elapsed) {
                        Some(r) => r,
                        None => 0,
                    }
                };
                steps.push(ConfigStep::RegisterTimer(delay));
                assert(steps@ =~= old(steps)@ + (cancel + seq![ConfigStep::RegisterTimer(delay)]));
                EventSource::NotSet
            },
        }
    }

    /// The steps of a change of mode or offset, appended to `steps`.
    fn mode_steps(&self, new: &WallpaperInfo, path_changed: bool, steps: &mut Vec<ConfigStep>)
        ensures
            final(steps)@ == old(steps)@ + mode_part(self@, *new, path_changed),
    {
        if new.mode != self.wallpaper_info.mode || !same_u32(new.offset, self.wallpaper_info.offset) {
            steps.push(ConfigStep::SetMode { mode: new.mode, offset: new.offset });
            if !path_changed {
                steps.push(ConfigStep::Draw);
            }
        }
        assert(steps@ =~= old(steps)@ + mode_part(self@, *new, path_changed));
    }

    /// The steps of changes to the transition and the history, appended to
    /// `steps`.
    fn tail_steps(&self, new: &WallpaperInfo, steps: &mut Vec<ConfigStep>)
        ensures
            final(steps)@ == old(steps)@ + tail_part(self@, *new),
    {
        if new.transition != self.wallpaper_info.transition {
            steps.push(ConfigStep::UpdateTransition(new.transition));
        }
        if new.drawn_images_queue_size != self.wallpaper_info.drawn_images_queue_size {
            steps.push(ConfigStep::UpdateQueueSize(new.drawn_images_queue_size));
        }
        if new.transition_time != self.wallpaper_info.transition_time {
            steps.push(ConfigStep::UpdateTransitionTime(new.transition_time));
        }
        assert(steps@ =~= old(steps)@ + tail_part(self@, *new));
    }

    /// Applies a reloaded configuration, `elapsed` milliseconds after the
    /// current image was set, and returns its consequences in order. An
    /// unchanged configuration changes nothing.
    pub fn update_wallpaper_info(&mut self, wallpaper_info: WallpaperInfo, elapsed: u64) -> (steps:
        Vec<ConfigStep>)
        requires
            old(self)@.wf(),
        ensures
            final(self)@.wf(),
            (final(self)@, steps@) == update_info_spec(old(self)@, wallpaper_info, elapsed),
    {
        if self.wallpaper_info.same_as(&wallpaper_info) {
            return Vec::new();
        }
        let ghost s0 = self@;
        let path_changed = !(self.wallpaper_info.path == wallpaper_info.path);
        let mut steps: Vec<ConfigStep> = Vec::new();
        steps.push(
            ConfigStep::UpdateSorting {
                path_changed,
                previous_queue_size: self.wallpaper_info.drawn_images_queue_size,
            },
        );
        if path_changed {
            steps.push(ConfigStep::NextImage);
            steps.push(ConfigStep::QueueDraw);
        }
        let ghost head = steps@;
        let event_source = self.duration_steps(&wallpaper_info, path_changed, elapsed, &mut steps);
        self.mode_steps(&wallpaper_info, path_changed, &mut steps);
        self.tail_steps(&wallpaper_info, &mut steps);
        self.event_source = event_source;
        self.wallpaper_info = wallpaper_info;
        proof {
            let spec = update_info_spec(s0, wallpaper_info, elapsed);
            assert(head =~= seq![
                ConfigStep::UpdateSorting {
                    path_changed,
                    previous_queue_size: s0.config.drawn_images_queue_size,
                },
            ] + (if path_changed {
                seq![ConfigStep::NextImage, ConfigStep::QueueDraw]
            } else {
                Seq::<ConfigStep>::empty()
            }));
            assert(steps@ =~= spec.1);
        }
        steps
    }
}

impl Surface {
    /// A surface for an output just attached, with `info` as its geometry and
    /// `wallpaper_info` as its configuration.
    pub fn new(info: DisplayInfo, wallpaper_info: WallpaperInfo) -> (r: Surface)
        ensures
            r@ == initial_spec(info, wallpaper_info),
            r@.wf(),
    {
        let skip_next_transition = !wallpaper_info.initial_transition;
        Surface {
            info,
            wallpaper_info,
            event_source: EventSource::NotSet,
            window_drawn: false,
            loading_image: None,
            loading_image_tries: 0,
            skip_next_transition,
            should_pause: false,
        }
    }

    /// One step of the load loop: takes what the caller learned while serving
    /// the previous action (`Start` on a new call) and returns the next
    /// action. The loop ends at `Done`, `AcknowledgeReload` or `Commit`.
    /// Should the renderer refuse an `Upload`, the caller ends the loop with
    /// that error and the surface keeps the load in flight.
    pub fn load_wallpaper(&mut self, event: LoadEvent) -> (r: LoadAction)
        requires
            old(self)@.wf(),
        ensures
            final(self)@.wf(),
            (final(self)@, r) == load_step_spec(old(self)@, event),
    {
        match event {
            LoadEvent::Start => {
                if self.loading_image.is_none() {
                    LoadAction::PickImage
                } else {
                    LoadAction::CheckTransition
                }
            },
            LoadEvent::Picked { image, current, reloading } => {
                match image {
                    None => LoadAction::Done(true),
                    Some(item) => {
                        if item.0 == current && !reloading {
                            LoadAction::Done(true)
                        } else {
                            self.loading_image = Some(item);
                            LoadAction::CheckTransition
                        }
                    },
                }
            },
            LoadEvent::TransitionRunning(running) => {
                if running {
                    LoadAction::Done(true)
                } else {
                    match &self.loading_image {
                        None => LoadAction::PickImage,
                        Some(item) => LoadAction::Decode(item.0.clone()),
                    }
                }
            },
            LoadEvent::Decoded(status) => {
                match status {
                    DecodeStatus::Loaded => LoadAction::Upload {
                        mode: self.wallpaper_info.mode,
                        offset: self.wallpaper_info.offset,
                    },
                    DecodeStatus::Waiting => LoadAction::Done(false),
                    DecodeStatus::Error => {
                        self.loading_image = None;
                        if self.loading_image_tries + 1 >= MAX_LOAD_TRIES {
                            self.loading_image_tries = 0;
                            LoadAction::Done(true)
                        } else {
                            self.loading_image_tries = self.loading_image_tries + 1;
                            LoadAction::PickImage
                        }
                    },
                }
            },
            LoadEvent::Uploaded { reloading } => {
                match self.loading_image.take() {
                    None => LoadAction::Done(true),
                    Some(item) => {
                        let transition_time = if self.skip_next_transition {
                            0
                        } else {
                            self.wallpaper_info.transition_time
                        };
                        self.skip_next_transition = false;
                        self.loading_image_tries = 0;
                        if reloading {
                            LoadAction::AcknowledgeReload
                        } else {
                            LoadAction::Commit { path: item.0, index: item.1, transition_time }
                        }
                    },
                }
            },
        }
    }

    /// How to produce a frame, once the load loop returned `wallpaper_loaded`
    /// and the renderer's transition was advanced to the frame time.
    pub fn draw(&self, wallpaper_loaded: bool, progress: TransitionProgress) -> (r: DrawPlan)
        ensures
            r == draw_plan_spec(self@, wallpaper_loaded, progress),
    {
        let width = self.info.adjusted_width();
        let height = self.info.adjusted_height();
        match progress {
            TransitionProgress::Continuing => DrawPlan {
                request_frame: true,
                finish_transition: false,
                render: true,
                width,
                height,
            },
            TransitionProgress::Ended => DrawPlan {
                request_frame: false,
                finish_transition: true,
                render: true,
                width,
                height,
            },
            TransitionProgress::Idle => DrawPlan {
                request_frame: !wallpaper_loaded,
                finish_transition: false,
                render: wallpaper_loaded || self.window_drawn,
                width,
                height,
            },
        }
    }

    /// The resize sequence for the current geometry: the drawable and the
    /// viewport follow the new size, any transition ends at once, and a
    /// redraw is queued.
    pub fn resize(&self) -> (r: Vec<GeometryStep>)
        ensures
            r@ == resize_steps(self@),
    {
        let mut r: Vec<GeometryStep> = Vec::new();
        self.push_resize(&mut r);
        assert(r@ =~= resize_steps(self@));
        r
    }

    fn push_resize(&self, steps: &mut Vec<GeometryStep>)
        ensures
            final(steps)@ == old(steps)@ + resize_steps(self@),
    {
        let width = self.info.adjusted_width();
        let height = self.info.adjusted_height();
        steps.push(GeometryStep::ResizeContext { width, height });
        steps.push(GeometryStep::MakeCurrent);
        steps.push(GeometryStep::ResizeRenderer);
        steps.push(GeometryStep::ForceTransitionEnd);
        steps.push(GeometryStep::QueueDraw);
        assert(steps@ =~= old(steps)@ + resize_steps(self@));
    }

    /// Records a new logical size; a real change returns the resize
    /// sequence, no change returns no step.
    pub fn change_size(&mut self, width: i32, height: i32) -> (r: Vec<GeometryStep>)
        requires
            old(self)@.wf(),
        ensures
            final(self)@.wf(),
            (final(self)@, r@) == change_size_spec(old(self)@, width, height),
    {
        let mut r: Vec<GeometryStep> = Vec::new();
        if self.info.width == width && self.info.height == height {
            assert(r@ =~= seq![]);
            return r;
        }
        self.info.width = width;
        self.info.height = height;
        self.push_resize(&mut r);
        assert(r@ =~= resize_steps(self@));
        r
    }

    /// Records a new buffer transform; a real change applies it to the
    /// surface, resizes, and reapplies the mode and the projection.
    pub fn change_transform(&mut self, transform: Transform) -> (r: Vec<GeometryStep>)
        requires
            old(self)@.wf(),
        ensures
            final(self)@.wf(),
            (final(self)@, r@) == change_transform_spec(old(self)@, transform),
    {
        let mut r: Vec<GeometryStep> = Vec::new();
        if self.info.transform == transform {
            assert(r@ =~= seq![]);
            return r;
        }
        self.info.transform = transform;
        r.push(GeometryStep::SetBufferTransform(transform));
        self.push_resize(&mut r);
        r.push(
            GeometryStep::SetMode { mode: self.wallpaper_info.mode, offset: self.wallpaper_info.offset },
        );
        r.push(GeometryStep::SetProjection(transform));
        assert(r@ =~= change_transform_spec(old(self)@, transform).1);
        r
    }

    /// Records a new scale factor; a real change applies it to the surface
    /// and resizes.
    pub fn change_scale_factor(&mut self, scale_factor: i32) -> (r: Vec<GeometryStep>)
        requires
            old(self)@.wf(),
        ensures
            final(self)@.wf(),
            (final(self)@, r@) == change_scale_spec(old(self)@, scale_factor),
    {
        let mut r: Vec<GeometryStep> = Vec::new();
        if self.info.scale == scale_factor {
            assert(r@ =~= seq![]);
            return r;
        }
        self.info.scale = scale_factor;
        r.push(GeometryStep::SetBufferScale(scale_factor));
        self.push_resize(&mut r);
        assert(r@ =~= change_scale_spec(old(self)@, scale_factor).1);
        r
    }
}

impl Surface {
    /// The delay of the rotation timer to register: `timer` when given, else
    /// the full period. `None` when a timer already runs or the surface does
    /// not rotate. Once registered, the caller reports the token with
    /// [`Surface::timer_registered`].
    pub fn add_timer(&self, timer: Option<u64>) -> (r: Option<u64>)
        ensures
            r == add_timer_spec(self@, timer),
    {
        if let EventSource::Running(_) = self.event_source {
            return None;
        }
        match self.wallpaper_info.duration {
            None => None,
            Some(d) => match timer {
                Some(t) => Some(t),
                None => Some(d),
            },
        }
    }

    /// Detaches the surface from its output: the token of the live timer,
    /// if any, is returned for the caller to remove, and no timer is left.
    pub fn detach(&mut self) -> (r: Option<u64>)
        requires
            old(self)@.wf(),
        ensures
            final(self)@.wf(),
            final(self)@ == (SurfaceView { event_source: EventSource::NotSet, ..old(self)@ }),
            r == (match old(self)@.event_source {
                EventSource::Running(token) => Some(token),
                _ => None,
            }),
    {
        let r = match self.event_source {
            EventSource::Running(token) => Some(token),
            _ => None,
        };
        self.event_source = EventSource::NotSet;
        r
    }

    /// Records that the rotation timer was registered under `token`.
    pub fn timer_registered(&mut self, token: u64)
        requires
            old(self)@.wf(),
        ensures
            final(self)@.wf(),
            final(self)@ == registered_spec(old(self)@, token),
    {
        self.event_source = EventSource::Running(token);
    }

    /// What the rotation timer does when it fires `elapsed` milliseconds
    /// after the current image was set.
    pub fn timer_fired(&self, elapsed: u64) -> (r: TimerDecision)
        ensures
            r == timer_decision_spec(self@.config.duration, elapsed),
    {
        timer_decision(self.wallpaper_info.duration, elapsed)
    }

    /// Time left before the next rotation, `elapsed` milliseconds after the
    /// current image was set.
    pub fn get_remaining_duration(&self, elapsed: u64) -> (r: Option<u64>)
        ensures
            r == remaining_of(self@, elapsed),
    {
        match self.wallpaper_info.duration {
            None => None,
            Some(d) => remaining_duration(d, elapsed),
        }
    }

    /// Brings the timer in line with the pause intent, `elapsed` milliseconds
    /// after the current image was set: a running timer is removed and its
    /// remaining time kept when pausing; a paused one is armed again for
    /// that remaining time when resuming.
    pub fn handle_pause_state(&mut self, elapsed: u64) -> (r: PauseAction)
        requires
            old(self)@.wf(),
        ensures
            final(self)@.wf(),
            (final(self)@, r) == handle_pause_spec(old(self)@, elapsed),
    {
        match self.event_source {
            EventSource::Running(token) => {
                if self.should_pause {
                    let left = match self.get_remaining_duration(elapsed) {
                        Some(r) => r,
                        None => 0,
                    };
                    self.event_source = EventSource::Paused(left);
                    PauseAction::Cancel(token)
                } else {
                    PauseAction::Nothing
                }
            },
            EventSource::Paused(left) => {
                if !self.should_pause {
                    match self.add_timer(Some(left)) {
                        Some(delay) => PauseAction::Register(delay),
                        None => PauseAction::Nothing,
                    }
                } else {
                    PauseAction::Nothing
                }
            },
            EventSource::NotSet => PauseAction::Nothing,
        }
    }

    /// Asks for the rotation to pause; [`Surface::handle_pause_state`] acts on it.
    pub fn pause(&mut self)
        requires
            old(self)@.wf(),
        ensures
            final(self)@.wf(),
            final(self)@ == (SurfaceView { should_pause: true, ..old(self)@ }),
    {
        self.should_pause = true;
    }

    /// Asks for the rotation to resume; [`Surface::handle_pause_state`] acts on it.
    pub fn resume(&mut self)
        requires
            old(self)@.wf(),
        ensures
            final(self)@.wf(),
            final(self)@ == (SurfaceView { should_pause: false, ..old(self)@ }),
    {
        self.should_pause = false;
    }

    /// Flips the pause intent.
    pub fn toggle_pause(&mut self)
        requires
            old(self)@.wf(),
        ensures
            final(self)@.wf(),
            final(self)@ == (SurfaceView { should_pause: !old(self)@.should_pause, ..old(self)@ }),
    {
        if self.should_pause() {
            self.resume();
        } else {
            self.pause();
        }
    }

    pub fn should_pause(&self) -> (r: bool)
        ensures
            r == self@.should_pause,
    {
        self.should_pause
    }

    /// Name of the output.
    pub fn name(&self) -> (r: String)
        ensures
            r@ == self@.info.name@,
    {
        self.info.name.clone()
    }

    /// Description of the output.
    pub fn description(&self) -> (r: String)
        ensures
            r@ == self@.info.description@,
    {
        self.info.description.clone()
    }

    /// Whether the output has a size yet.
    pub fn is_configured(&self) -> (r: bool)
        ensures
            r == (self@.info.width != 0 && self@.info.height != 0),
    {
        self.info.width != 0 && self.info.height != 0
    }

    pub fn has_been_drawn(&self) -> (r: bool)
        ensures
            r == self@.window_drawn,
    {
        self.window_drawn
    }

    /// Records that a frame has been drawn.
    pub fn drawn(&mut self)
        requires
            old(self)@.wf(),
        ensures
            final(self)@.wf(),
            final(self)@ == (SurfaceView { window_drawn: true, ..old(self)@ }),
    {
        self.window_drawn = true;
    }

    pub fn wallpaper_info(&self) -> (r: &WallpaperInfo)
        ensures
            *r == self@.config,
    {
        &self.wallpaper_info
    }

    pub fn display_info(&self) -> (r: &DisplayInfo)
        ensures
            *r == self@.info,
    {
        &self.info
    }

    pub fn event_source(&self) -> (r: EventSource)
        ensures
            r == self@.event_source,
    {
        self.event_source
    }

    /// The image being loaded, as path and index, if any.
    pub fn loading_image(&self) -> (r: &Option<(String, usize)>)
        ensures
            *r == self@.loading_image,
    {
        &self.loading_image
    }

    /// Consecutive decode failures of the current load attempt.
    pub fn loading_image_tries(&self) -> (r: u8)
        ensures
            r == self@.loading_image_tries,
    {
        self.loading_image_tries
    }

    /// Whether the next image is shown without a transition.
    pub fn skip_next_transition(&self) -> (r: bool)
        ensures
            r == self@.skip_next_transition,
    {
        self.skip_next_transition
    }
}

/// Pixels of the placeholder shown before the first image is decoded: one
/// opaque black pixel, in RGBA order.
pub fn black_image() -> (r: Vec<u8>)
    ensures
        r@ == seq![0u8, 0u8, 0u8, 255u8],
{
    let mut r: Vec<u8> = Vec::new();
    r.push(0);
    r.push(0);
    r.push(0);
    r.push(255);
    assert(r@ =~= seq![0u8, 0u8, 0u8, 255u8]);
    r
}

} // verus!
