use wpaperd::config::{DisplayInfo, Transform, WallpaperInfo};
use wpaperd::surface::{
    black_image, ConfigStep, DecodeStatus, DrawPlan, GeometryStep, LoadAction, LoadEvent,
    PauseAction, Surface, TransitionProgress,
};
use wpaperd::timing::{remaining_duration, timer_decision, EventSource, TimerDecision};

fn display() -> DisplayInfo {
    DisplayInfo {
        name: String::from("DP-1"),
        description: String::from("Main monitor"),
        width: 1920,
        height: 1080,
        scale: 1,
        transform: Transform::Normal,
    }
}

fn config(path: &str, duration: Option<u64>) -> WallpaperInfo {
    WallpaperInfo {
        path: String::from(path),
        mode: 0,
        offset: None,
        transition: 0,
        transition_time: 300,
        duration,
        sorting: None,
        drawn_images_queue_size: 10,
        initial_transition: true,
    }
}

fn picked(path: &str, index: usize, current: &str, reloading: bool) -> LoadEvent {
    LoadEvent::Picked {
        image: Some((String::from(path), index)),
        current: String::from(current),
        reloading,
    }
}

/// Runs a load that succeeds for `path` and returns the final action.
fn load_ok(s: &mut Surface, path: &str, index: usize, current: &str) -> LoadAction {
    assert_eq!(s.load_wallpaper(LoadEvent::Start), LoadAction::PickImage);
    assert_eq!(
        s.load_wallpaper(picked(path, index, current, false)),
        LoadAction::CheckTransition
    );
    assert_eq!(
        s.load_wallpaper(LoadEvent::TransitionRunning(false)),
        LoadAction::Decode(String::from(path))
    );
    assert_eq!(
        s.load_wallpaper(LoadEvent::Decoded(DecodeStatus::Loaded)),
        LoadAction::Upload { mode: 0, offset: None }
    );
    s.load_wallpaper(LoadEvent::Uploaded { reloading: false })
}

#[test]
fn remaining_duration_values() {
    assert_eq!(remaining_duration(5000, 3000), Some(2000));
    assert_eq!(remaining_duration(5000, 0), Some(5000));
    assert_eq!(remaining_duration(5000, 5000), None);
    assert_eq!(remaining_duration(5000, 7000), None);
    assert_eq!(remaining_duration(0, 0), None);
}

#[test]
fn manual_change_reschedules_rotation() {
    // Period 5 s, armed at 0 s, image changed by hand at 3 s.
    let s = Surface::new(display(), config("/img", Some(5000)));
    let fire_at: u64 = 5000;
    let changed_at: u64 = 3000;
    let decision = s.timer_fired(fire_at - changed_at);
    assert_eq!(decision, TimerDecision::Reschedule(3000));
    if let TimerDecision::Reschedule(delay) = decision {
        assert_eq!(fire_at + delay, 8000);
        // At 8 s the full period has elapsed since the change.
        assert_eq!(s.timer_fired(fire_at + delay - changed_at), TimerDecision::Advance(5000));
    }
}

#[test]
fn timer_decisions() {
    assert_eq!(timer_decision(None, 100), TimerDecision::Drop);
    assert_eq!(timer_decision(Some(1000), 1000), TimerDecision::Advance(1000));
    assert_eq!(timer_decision(Some(1000), 250), TimerDecision::Reschedule(750));
    let s = Surface::new(display(), config("/img", None));
    assert_eq!(s.timer_fired(0), TimerDecision::Drop);
}

#[test]
fn five_decode_errors_abandon_load() {
    let mut info = config("/img", None);
    info.initial_transition = false;
    let mut s = Surface::new(display(), info);
    assert_eq!(s.load_wallpaper(LoadEvent::Start), LoadAction::PickImage);
    for round in 0..5 {
        assert_eq!(
            s.load_wallpaper(picked("/img/a.png", 0, "", false)),
            LoadAction::CheckTransition
        );
        assert_eq!(
            s.load_wallpaper(LoadEvent::TransitionRunning(false)),
            LoadAction::Decode(String::from("/img/a.png"))
        );
        let action = s.load_wallpaper(LoadEvent::Decoded(DecodeStatus::Error));
        if round < 4 {
            assert_eq!(action, LoadAction::PickImage);
            assert_eq!(s.loading_image_tries(), round + 1);
        } else {
            assert_eq!(action, LoadAction::Done(true));
        }
    }
    assert_eq!(*s.loading_image(), None);
    assert_eq!(s.loading_image_tries(), 0);
    // No image was shown: the skip flag still waits for a first load.
    assert!(s.skip_next_transition());
}

#[test]
fn failure_count_never_reaches_limit() {
    let mut s = Surface::new(display(), config("/img", None));
    for _ in 0..12 {
        s.load_wallpaper(picked("/img/b.png", 1, "", false));
        s.load_wallpaper(LoadEvent::Decoded(DecodeStatus::Error));
        assert!(s.loading_image_tries() < 5);
    }
}

#[test]
fn first_load_skips_transition_once() {
    let mut info = config("/img", None);
    info.initial_transition = false;
    let mut s = Surface::new(display(), info);
    assert!(s.skip_next_transition());
    assert_eq!(
        load_ok(&mut s, "/img/a.png", 0, ""),
        LoadAction::Commit { path: String::from("/img/a.png"), index: 0, transition_time: 0 }
    );
    assert!(!s.skip_next_transition());
    assert_eq!(*s.loading_image(), None);
    assert_eq!(
        load_ok(&mut s, "/img/b.png", 1, "/img/a.png"),
        LoadAction::Commit { path: String::from("/img/b.png"), index: 1, transition_time: 300 }
    );
    assert!(!s.skip_next_transition());
}

#[test]
fn initial_transition_kept_when_configured() {
    let mut s = Surface::new(display(), config("/img", None));
    assert!(!s.skip_next_transition());
    assert_eq!(
        load_ok(&mut s, "/img/a.png", 2, ""),
        LoadAction::Commit { path: String::from("/img/a.png"), index: 2, transition_time: 300 }
    );
}

#[test]
fn up_to_date_image_needs_no_load() {
    let mut s = Surface::new(display(), config("/img", None));
    assert_eq!(
        s.load_wallpaper(picked("/img/a.png", 0, "/img/a.png", false)),
        LoadAction::Done(true)
    );
    assert_eq!(*s.loading_image(), None);
    let nothing = LoadEvent::Picked { image: None, current: String::new(), reloading: false };
    assert_eq!(s.load_wallpaper(nothing), LoadAction::Done(true));
}

#[test]
fn reload_of_current_image_is_acknowledged() {
    let mut s = Surface::new(display(), config("/img", None));
    assert_eq!(
        s.load_wallpaper(picked("/img/a.png", 0, "/img/a.png", true)),
        LoadAction::CheckTransition
    );
    s.load_wallpaper(LoadEvent::TransitionRunning(false));
    s.load_wallpaper(LoadEvent::Decoded(DecodeStatus::Loaded));
    assert_eq!(
        s.load_wallpaper(LoadEvent::Uploaded { reloading: true }),
        LoadAction::AcknowledgeReload
    );
    assert_eq!(*s.loading_image(), None);
}

#[test]
fn waiting_decoder_keeps_load_in_flight() {
    let mut s = Surface::new(display(), config("/img", None));
    s.load_wallpaper(picked("/img/a.png", 3, "", false));
    s.load_wallpaper(LoadEvent::TransitionRunning(false));
    assert_eq!(s.load_wallpaper(LoadEvent::Decoded(DecodeStatus::Waiting)), LoadAction::Done(false));
    assert_eq!(*s.loading_image(), Some((String::from("/img/a.png"), 3)));
    // The next call goes straight to the in-flight image.
    assert_eq!(s.load_wallpaper(LoadEvent::Start), LoadAction::CheckTransition);
}

#[test]
fn running_transition_defers_load() {
    let mut s = Surface::new(display(), config("/img", None));
    s.load_wallpaper(picked("/img/a.png", 0, "", false));
    assert_eq!(s.load_wallpaper(LoadEvent::TransitionRunning(true)), LoadAction::Done(true));
    assert_eq!(*s.loading_image(), Some((String::from("/img/a.png"), 0)));
}

#[test]
fn mode_only_change_redraws_at_once() {
    let mut s = Surface::new(display(), config("/img", None));
    let mut info = config("/img", None);
    info.mode = 2;
    let steps = s.update_wallpaper_info(info, 0);
    assert_eq!(
        steps,
        vec![
            ConfigStep::UpdateSorting { path_changed: false, previous_queue_size: 10 },
            ConfigStep::SetMode { mode: 2, offset: None },
            ConfigStep::Draw,
        ]
    );
    assert_eq!(s.wallpaper_info().mode, 2);
}

#[test]
fn mode_and_path_change_waits_for_path_redraw() {
    let mut s = Surface::new(display(), config("/img", None));
    let mut info = config("/other", None);
    info.offset = Some(7);
    let steps = s.update_wallpaper_info(info, 0);
    assert_eq!(
        steps,
        vec![
            ConfigStep::UpdateSorting { path_changed: true, previous_queue_size: 10 },
            ConfigStep::NextImage,
            ConfigStep::QueueDraw,
            ConfigStep::SetMode { mode: 0, offset: Some(7) },
        ]
    );
}

#[test]
fn removing_duration_cancels_running_timer() {
    let mut s = Surface::new(display(), config("/img", Some(10000)));
    assert_eq!(s.add_timer(None), Some(10000));
    s.timer_registered(7);
    assert_eq!(s.event_source(), EventSource::Running(7));
    let steps = s.update_wallpaper_info(config("/img", None), 2000);
    assert_eq!(
        steps,
        vec![
            ConfigStep::UpdateSorting { path_changed: false, previous_queue_size: 10 },
            ConfigStep::CancelTimer(7),
        ]
    );
    assert_eq!(s.event_source(), EventSource::NotSet);
    assert_eq!(s.add_timer(None), None);
}

#[test]
fn changed_duration_rearms_with_remaining_time() {
    let mut s = Surface::new(display(), config("/img", Some(10000)));
    s.timer_registered(1);
    let steps = s.update_wallpaper_info(config("/img", Some(20000)), 4000);
    assert_eq!(
        steps,
        vec![
            ConfigStep::UpdateSorting { path_changed: false, previous_queue_size: 10 },
            ConfigStep::CancelTimer(1),
            ConfigStep::RegisterTimer(16000),
        ]
    );
    assert_eq!(s.event_source(), EventSource::NotSet);
    // Period already over: fire at once.
    let steps = s.update_wallpaper_info(config("/img", Some(3000)), 4000);
    assert_eq!(
        steps,
        vec![
            ConfigStep::UpdateSorting { path_changed: false, previous_queue_size: 10 },
            ConfigStep::RegisterTimer(0),
        ]
    );
}

#[test]
fn added_duration_with_new_path_fires_at_once() {
    let mut s = Surface::new(display(), config("/img", None));
    let steps = s.update_wallpaper_info(config("/new", Some(60000)), 10);
    assert_eq!(
        steps,
        vec![
            ConfigStep::UpdateSorting { path_changed: true, previous_queue_size: 10 },
            ConfigStep::NextImage,
            ConfigStep::QueueDraw,
            ConfigStep::RegisterTimer(0),
        ]
    );
}

#[test]
fn other_fields_propagate() {
    let mut s = Surface::new(display(), config("/img", None));
    let mut info = config("/img", None);
    info.transition = 4;
    info.drawn_images_queue_size = 3;
    info.transition_time = 900;
    let steps = s.update_wallpaper_info(info, 0);
    assert_eq!(
        steps,
        vec![
            ConfigStep::UpdateSorting { path_changed: false, previous_queue_size: 10 },
            ConfigStep::UpdateTransition(4),
            ConfigStep::UpdateQueueSize(3),
            ConfigStep::UpdateTransitionTime(900),
        ]
    );
}

#[test]
fn unchanged_config_is_ignored() {
    let mut s = Surface::new(display(), config("/img", Some(5)));
    s.timer_registered(2);
    assert!(s.update_wallpaper_info(config("/img", Some(5)), 0).is_empty());
    assert_eq!(s.event_source(), EventSource::Running(2));
    assert!(config("/a", None).same_as(&config("/a", None)));
    assert!(!config("/a", None).same_as(&config("/b", None)));
}

#[test]
fn pause_and_resume_timer() {
    let mut s = Surface::new(display(), config("/img", Some(10000)));
    s.timer_registered(3);
    // No intent to pause: nothing to do.
    assert_eq!(s.handle_pause_state(4000), PauseAction::Nothing);
    s.pause();
    assert!(s.should_pause());
    assert_eq!(s.handle_pause_state(4000), PauseAction::Cancel(3));
    assert_eq!(s.event_source(), EventSource::Paused(6000));
    // A second reconciliation changes nothing.
    assert_eq!(s.handle_pause_state(5000), PauseAction::Nothing);
    assert_eq!(s.event_source(), EventSource::Paused(6000));
    s.resume();
    assert_eq!(s.handle_pause_state(9000), PauseAction::Register(6000));
    s.timer_registered(9);
    assert_eq!(s.event_source(), EventSource::Running(9));
    assert_eq!(s.handle_pause_state(9000), PauseAction::Nothing);
}

#[test]
fn pause_after_period_keeps_nothing() {
    let mut s = Surface::new(display(), config("/img", Some(1000)));
    s.timer_registered(4);
    s.toggle_pause();
    assert!(s.should_pause());
    assert_eq!(s.handle_pause_state(2500), PauseAction::Cancel(4));
    assert_eq!(s.event_source(), EventSource::Paused(0));
    s.toggle_pause();
    assert!(!s.should_pause());
}

#[test]
fn resume_without_duration_does_nothing() {
    let mut s = Surface::new(display(), config("/img", Some(1000)));
    s.timer_registered(4);
    s.pause();
    s.handle_pause_state(200);
    s.update_wallpaper_info(config("/img", None), 0);
    s.resume();
    assert_eq!(s.handle_pause_state(0), PauseAction::Nothing);
    assert_eq!(s.handle_pause_state(0), PauseAction::Nothing);
}

#[test]
fn add_timer_rules() {
    let mut s = Surface::new(display(), config("/img", Some(1000)));
    assert_eq!(s.add_timer(None), Some(1000));
    assert_eq!(s.add_timer(Some(250)), Some(250));
    s.timer_registered(5);
    assert_eq!(s.add_timer(None), None);
    let t = Surface::new(display(), config("/img", None));
    assert_eq!(t.add_timer(Some(250)), None);
    assert_eq!(s.get_remaining_duration(400), Some(600));
    assert_eq!(s.get_remaining_duration(1400), None);
    assert_eq!(t.get_remaining_duration(0), None);
}

#[test]
fn resize_ends_transition_before_redraw() {
    let s = Surface::new(display(), config("/img", None));
    let steps = s.resize();
    assert_eq!(
        steps,
        vec![
            GeometryStep::ResizeContext { width: 1920, height: 1080 },
            GeometryStep::MakeCurrent,
            GeometryStep::ResizeRenderer,
            GeometryStep::ForceTransitionEnd,
            GeometryStep::QueueDraw,
        ]
    );
}

#[test]
fn change_size_only_on_real_change() {
    let mut s = Surface::new(display(), config("/img", None));
    assert!(s.change_size(1920, 1080).is_empty());
    let steps = s.change_size(2560, 1440);
    assert_eq!(steps[0], GeometryStep::ResizeContext { width: 2560, height: 1440 });
    assert_eq!(steps[3], GeometryStep::ForceTransitionEnd);
    assert_eq!(steps[4], GeometryStep::QueueDraw);
    assert_eq!(s.display_info().width, 2560);
}

#[test]
fn change_transform_swaps_axes() {
    let mut s = Surface::new(display(), config("/img", None));
    assert!(s.change_transform(Transform::Normal).is_empty());
    let steps = s.change_transform(Transform::Rotated90);
    assert_eq!(
        steps,
        vec![
            GeometryStep::SetBufferTransform(Transform::Rotated90),
            GeometryStep::ResizeContext { width: 1080, height: 1920 },
            GeometryStep::MakeCurrent,
            GeometryStep::ResizeRenderer,
            GeometryStep::ForceTransitionEnd,
            GeometryStep::QueueDraw,
            GeometryStep::SetMode { mode: 0, offset: None },
            GeometryStep::SetProjection(Transform::Rotated90),
        ]
    );
}

#[test]
fn change_scale_scales_buffer() {
    let mut s = Surface::new(display(), config("/img", None));
    assert!(s.change_scale_factor(1).is_empty());
    let steps = s.change_scale_factor(2);
    assert_eq!(steps[0], GeometryStep::SetBufferScale(2));
    assert_eq!(steps[1], GeometryStep::ResizeContext { width: 3840, height: 2160 });
    assert_eq!(steps[4], GeometryStep::ForceTransitionEnd);
    assert_eq!(steps[5], GeometryStep::QueueDraw);
}

#[test]
fn adjusted_size_saturates() {
    let mut d = display();
    d.width = i32::MAX;
    d.scale = 2;
    assert_eq!(d.adjusted_width(), i32::MAX);
    d.width = -5;
    d.scale = i32::MAX;
    assert_eq!(d.adjusted_width(), i32::MIN);
    assert_eq!(d.adjusted_height(), i32::MAX);
}

#[test]
fn draw_plans() {
    let mut s = Surface::new(display(), config("/img", None));
    let plan = |render, request_frame, finish_transition| DrawPlan {
        request_frame,
        finish_transition,
        render,
        width: 1920,
        height: 1080,
    };
    assert_eq!(s.draw(false, TransitionProgress::Idle), plan(false, true, false));
    assert_eq!(s.draw(true, TransitionProgress::Idle), plan(true, false, false));
    assert_eq!(s.draw(true, TransitionProgress::Continuing), plan(true, true, false));
    assert_eq!(s.draw(false, TransitionProgress::Ended), plan(true, false, true));
    s.drawn();
    assert!(s.has_been_drawn());
    assert_eq!(s.draw(false, TransitionProgress::Idle), plan(true, true, false));
}

#[test]
fn surface_identity_and_configuration() {
    let s = Surface::new(display(), config("/img", None));
    assert_eq!(s.name(), "DP-1");
    assert_eq!(s.description(), "Main monitor");
    assert!(s.is_configured());
    assert!(!s.has_been_drawn());
    assert_eq!(s.event_source(), EventSource::NotSet);
    let mut d = display();
    d.height = 0;
    assert!(!Surface::new(d, config("/img", None)).is_configured());
}

#[test]
fn placeholder_is_one_black_pixel() {
    assert_eq!(black_image(), vec![0u8, 0, 0, 255]);
}

#[test]
fn detach_returns_live_timer() {
    let mut s = Surface::new(display(), config("/img", Some(1000)));
    assert_eq!(s.detach(), None);
    s.timer_registered(11);
    assert_eq!(s.detach(), Some(11));
    assert_eq!(s.event_source(), EventSource::NotSet);
}
