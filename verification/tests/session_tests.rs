use igrok::error::PlaybackError;
use igrok::media::MediaFile;
use igrok::process::ExitStatus;
use igrok::session::{
    companion_invocation, player_invocation, PlaybackSession, SessionAction, SessionEvent,
    SessionState, COMPANION_DELAY_MS,
};

fn session_for(path: &str, enable_companion: bool) -> PlaybackSession {
    PlaybackSession::new(MediaFile { path: path.to_string(), modified: 1 }, enable_companion)
}

fn exited(code: i32) -> SessionEvent {
    SessionEvent::PrimaryExited(ExitStatus { code: Some(code) })
}

const EVERY_EVENT: [SessionEvent; 7] = [
    SessionEvent::PrimaryLaunched,
    SessionEvent::PrimaryLaunchFailed,
    SessionEvent::CompanionLaunched,
    SessionEvent::CompanionLaunchFailed,
    SessionEvent::PrimaryExited(ExitStatus { code: Some(0) }),
    SessionEvent::PrimaryExited(ExitStatus { code: Some(2) }),
    SessionEvent::CompanionTerminated,
];

#[test]
fn fresh_session_is_idle_and_wants_the_player() {
    let session = session_for("/m/a.mp3", true);
    assert_eq!(session.state(), SessionState::Idle);
    assert_eq!(session.pending(), SessionAction::LaunchPrimary);
    assert_eq!(session.outcome(), None);
    assert!(session.companion_enabled());
    assert_eq!(session.file().path, "/m/a.mp3");
}

#[test]
fn player_command_line_is_quiet_audio_only_full_volume() {
    let invocation = session_for("/m/my song.mp3", true).primary_invocation();
    assert_eq!(invocation.program, "mpv");
    assert_eq!(
        invocation.args,
        vec!["--really-quiet", "--no-video", "--volume=100", "/m/my song.mp3"]
    );
    let direct = player_invocation("x.opus");
    assert_eq!(direct.args.last().unwrap(), "x.opus");
}

#[test]
fn companion_command_line_has_no_arguments() {
    let invocation = companion_invocation();
    assert_eq!(invocation.program, "cava");
    assert!(invocation.args.is_empty());
}

#[test]
fn player_that_cannot_start_ends_the_session_at_once() {
    let session = session_for("/m/a.mp3", true).advance(SessionEvent::PrimaryLaunchFailed);
    assert_eq!(session.state(), SessionState::Failed(PlaybackError::PrimaryLaunchFailed));
    assert_eq!(
        session.pending(),
        SessionAction::Finish(Err(PlaybackError::PrimaryLaunchFailed))
    );
    assert_eq!(session.outcome(), Some(Err(PlaybackError::PrimaryLaunchFailed)));
}

#[test]
fn full_session_with_companion_succeeds() {
    let mut session = session_for("/m/a.mp3", true);
    session = session.advance(SessionEvent::PrimaryLaunched);
    assert_eq!(session.state(), SessionState::PrimaryStarted);
    assert_eq!(session.pending(), SessionAction::LaunchCompanion { delay_ms: 500 });
    assert_eq!(COMPANION_DELAY_MS, 500);
    session = session.advance(SessionEvent::CompanionLaunched);
    assert_eq!(session.state(), SessionState::CompanionAttempted { companion_running: true });
    assert_eq!(session.pending(), SessionAction::AwaitPrimary);
    session = session.advance(exited(0));
    assert_eq!(session.state(), SessionState::PrimaryAwaited { primary_ok: true });
    assert_eq!(session.pending(), SessionAction::TerminateCompanion);
    assert_eq!(session.outcome(), None);
    session = session.advance(SessionEvent::CompanionTerminated);
    assert_eq!(session.state(), SessionState::Succeeded);
    assert_eq!(session.pending(), SessionAction::Finish(Ok(())));
    assert_eq!(session.outcome(), Some(Ok(())));
}

#[test]
fn disabled_companion_is_never_launched() {
    for code in [0, 1, 130] {
        let mut session = session_for("/m/a.mp3", false);
        let mut asked = Vec::new();
        asked.push(session.pending());
        session = session.advance(SessionEvent::PrimaryLaunched);
        asked.push(session.pending());
        assert_eq!(session.pending(), SessionAction::AwaitPrimary);
        session = session.advance(SessionEvent::CompanionLaunched);
        asked.push(session.pending());
        assert_eq!(session.state(), SessionState::PrimaryStarted);
        session = session.advance(exited(code));
        asked.push(session.pending());
        assert!(session.outcome().is_some());
        for action in asked {
            assert!(!matches!(action, SessionAction::LaunchCompanion { .. }));
            assert_ne!(action, SessionAction::TerminateCompanion);
        }
    }
}

#[test]
fn disabled_companion_never_launched_on_any_short_trace() {
    for a in EVERY_EVENT {
        for b in EVERY_EVENT {
            for c in EVERY_EVENT {
                let mut session = session_for("/m/a.mp3", false);
                for event in [a, b, c] {
                    assert!(!matches!(session.pending(), SessionAction::LaunchCompanion { .. }));
                    session = session.advance(event);
                    assert!(!matches!(
                        session.state(),
                        SessionState::CompanionAttempted { .. } | SessionState::PrimaryAwaited { .. }
                    ));
                }
                assert!(!matches!(session.pending(), SessionAction::LaunchCompanion { .. }));
            }
        }
    }
}

#[test]
fn failed_companion_launch_still_plays_to_the_end() {
    let mut session = session_for("/m/a.mp3", true);
    session = session.advance(SessionEvent::PrimaryLaunched);
    session = session.advance(SessionEvent::CompanionLaunchFailed);
    assert_eq!(session.state(), SessionState::CompanionAttempted { companion_running: false });
    assert_eq!(session.pending(), SessionAction::AwaitPrimary);
    session = session.advance(exited(0));
    assert_eq!(session.state(), SessionState::Succeeded);
    assert_eq!(session.outcome(), Some(Ok(())));
}

#[test]
fn failed_companion_launch_returns_the_players_failure() {
    let mut session = session_for("/m/a.mp3", true);
    session = session.advance(SessionEvent::PrimaryLaunched);
    session = session.advance(SessionEvent::CompanionLaunchFailed);
    session = session.advance(exited(3));
    assert_eq!(session.state(), SessionState::Failed(PlaybackError::Interrupted));
    assert_eq!(session.outcome(), Some(Err(PlaybackError::Interrupted)));
}

#[test]
fn running_companion_is_stopped_even_when_the_player_fails() {
    let mut session = session_for("/m/a.mp3", true);
    session = session.advance(SessionEvent::PrimaryLaunched);
    session = session.advance(SessionEvent::CompanionLaunched);
    session = session.advance(exited(1));
    assert_eq!(session.state(), SessionState::PrimaryAwaited { primary_ok: false });
    assert_eq!(session.outcome(), None);
    assert_eq!(session.pending(), SessionAction::TerminateCompanion);
    session = session.advance(SessionEvent::CompanionTerminated);
    assert_eq!(session.state(), SessionState::Failed(PlaybackError::Interrupted));
    assert_eq!(session.pending(), SessionAction::Finish(Err(PlaybackError::Interrupted)));
}

#[test]
fn companion_is_stopped_before_any_terminal_state() {
    for a in EVERY_EVENT {
        for b in EVERY_EVENT {
            for c in EVERY_EVENT {
                for d in EVERY_EVENT {
                    let mut session = session_for("/m/a.mp3", true);
                    let mut alive = false;
                    for event in [a, b, c, d] {
                        let due = session.pending();
                        if matches!(due, SessionAction::LaunchCompanion { .. })
                            && event == SessionEvent::CompanionLaunched
                        {
                            alive = true;
                        }
                        if due == SessionAction::TerminateCompanion
                            && event == SessionEvent::CompanionTerminated
                        {
                            alive = false;
                        }
                        session = session.advance(event);
                        if session.outcome().is_some() {
                            assert!(!alive);
                        }
                    }
                }
            }
        }
    }
}

#[test]
fn player_ending_without_exit_code_is_a_failure() {
    let mut session = session_for("/m/a.mp3", false);
    session = session.advance(SessionEvent::PrimaryLaunched);
    session = session.advance(SessionEvent::PrimaryExited(ExitStatus { code: None }));
    assert_eq!(session.outcome(), Some(Err(PlaybackError::Interrupted)));
}

#[test]
fn reports_on_steps_that_are_not_due_change_nothing() {
    let mut session = session_for("/m/a.mp3", true);
    for event in [
        SessionEvent::CompanionLaunched,
        SessionEvent::CompanionLaunchFailed,
        exited(0),
        SessionEvent::CompanionTerminated,
    ] {
        session = session.advance(event);
        assert_eq!(session.state(), SessionState::Idle);
    }
    session = session.advance(SessionEvent::PrimaryLaunched);
    session = session.advance(exited(0));
    assert_eq!(session.state(), SessionState::PrimaryStarted);
    session = session.advance(SessionEvent::PrimaryLaunched);
    assert_eq!(session.state(), SessionState::PrimaryStarted);
}

#[test]
fn terminal_states_are_never_left() {
    for start in [SessionState::Succeeded, SessionState::Failed(PlaybackError::Interrupted)] {
        for enable in [false, true] {
            for event in EVERY_EVENT {
                assert_eq!(start.advance(enable, event), start);
            }
        }
    }
}

#[test]
fn state_level_functions_agree_with_the_session() {
    let state = SessionState::PrimaryStarted;
    assert_eq!(state.pending_action(true), SessionAction::LaunchCompanion { delay_ms: 500 });
    assert_eq!(state.pending_action(false), SessionAction::AwaitPrimary);
    assert_eq!(
        state.advance(true, SessionEvent::CompanionLaunched),
        SessionState::CompanionAttempted { companion_running: true }
    );
    assert_eq!(state.advance(false, exited(0)), SessionState::Succeeded);
    assert_eq!(state.advance(true, exited(0)), SessionState::PrimaryStarted);
    assert_eq!(igrok::session::conclude(true), SessionState::Succeeded);
    assert_eq!(igrok::session::conclude(false), SessionState::Failed(PlaybackError::Interrupted));
}

#[test]
fn exit_status_success_is_code_zero_only() {
    assert!(ExitStatus::exited(0).success());
    assert!(!ExitStatus::exited(1).success());
    assert!(!ExitStatus::exited(-1).success());
    assert!(!ExitStatus::without_code().success());
    assert_eq!(ExitStatus::exited(7).code, Some(7));
    assert_eq!(ExitStatus::without_code().code, None);
}
