use webauth::art::ArtParams;
use webauth::profile::{profile_update_outcome, ProfileUpdate};
use webauth::reaper::{reaper_step, ReaperAction, ReaperEvent, ReaperState};

#[test]
fn reaper_runs_pass_on_tick() {
    assert_eq!(
        reaper_step(ReaperState::Idle, ReaperEvent::Tick),
        (ReaperState::Reaping, ReaperAction::RunPass)
    );
    assert_eq!(
        reaper_step(ReaperState::Reaping, ReaperEvent::PassDone),
        (ReaperState::Idle, ReaperAction::Sleep)
    );
}

#[test]
fn reaper_survives_failed_pass() {
    assert_eq!(
        reaper_step(ReaperState::Reaping, ReaperEvent::PassFailed),
        (ReaperState::Idle, ReaperAction::LogFailure)
    );
}

#[test]
fn reaper_drains_on_shutdown() {
    assert_eq!(
        reaper_step(ReaperState::Reaping, ReaperEvent::Shutdown),
        (ReaperState::Draining, ReaperAction::AwaitPass)
    );
    assert_eq!(
        reaper_step(ReaperState::Draining, ReaperEvent::Tick),
        (ReaperState::Draining, ReaperAction::AwaitPass)
    );
    assert_eq!(
        reaper_step(ReaperState::Draining, ReaperEvent::PassDone),
        (ReaperState::Stopped, ReaperAction::Exit)
    );
    assert_eq!(
        reaper_step(ReaperState::Idle, ReaperEvent::Shutdown),
        (ReaperState::Stopped, ReaperAction::Exit)
    );
    assert_eq!(
        reaper_step(ReaperState::Stopped, ReaperEvent::Tick),
        (ReaperState::Stopped, ReaperAction::Exit)
    );
}

#[test]
fn profile_outcomes() {
    assert_eq!(profile_update_outcome(4, 1), ProfileUpdate::Updated { user_id: 4 });
    assert_eq!(profile_update_outcome(4, 0), ProfileUpdate::NotFound { user_id: 4 });
}

#[test]
fn art_sizes_default() {
    let p = ArtParams { width: None, height: Some(20), seed: None };
    assert_eq!(p.art_size(), (400, 20));
    assert_eq!(p.fractal_size(), (800, 20));
    let q = ArtParams { width: Some(3), height: None, seed: Some(1) };
    assert_eq!(q.art_size(), (3, 400));
}
