use igrok::discovery::{discover, DiscoveredFileSet};
use igrok::error::PlaybackError;
use igrok::media::{MediaFile, ScannedEntry};
use igrok::orchestrator::Orchestrator;
use igrok::process::ExitStatus;
use igrok::session::{SessionAction, SessionEvent};

fn three_files() -> DiscoveredFileSet {
    DiscoveredFileSet::from_files(vec![
        MediaFile { path: "/m/A.mp3".to_string(), modified: 30 },
        MediaFile { path: "/m/B.mp3".to_string(), modified: 20 },
        MediaFile { path: "/m/C.mp3".to_string(), modified: 10 },
    ])
    .unwrap()
}

/// Plays the run to its end with a player that exits with `codes[i]` for the
/// i-th file, and returns the paths the player was started on.
fn play_through(mut run: Orchestrator, codes: &[i32]) -> (Vec<String>, Result<(), PlaybackError>) {
    let mut started = Vec::new();
    loop {
        let event = match run.pending() {
            SessionAction::LaunchPrimary => {
                let invocation = run.primary_invocation();
                assert_eq!(invocation.program, "mpv");
                started.push(invocation.args.last().unwrap().clone());
                assert_eq!(run.current_file().path, *started.last().unwrap());
                assert_eq!(run.current_index(), started.len() - 1);
                SessionEvent::PrimaryLaunched
            }
            SessionAction::LaunchCompanion { .. } => SessionEvent::CompanionLaunched,
            SessionAction::AwaitPrimary => SessionEvent::PrimaryExited(ExitStatus {
                code: Some(codes[started.len() - 1]),
            }),
            SessionAction::TerminateCompanion => SessionEvent::CompanionTerminated,
            SessionAction::Finish(result) => {
                assert_eq!(run.result(), Some(result));
                return (started, result);
            }
        };
        assert_eq!(run.result(), None);
        run = run.advance(event);
    }
}

#[test]
fn failure_of_second_file_stops_before_third() {
    let run = Orchestrator::new(three_files(), false);
    let (started, result) = play_through(run, &[0, 1, 0]);
    assert_eq!(started, vec!["/m/A.mp3", "/m/B.mp3"]);
    assert_eq!(result, Err(PlaybackError::Interrupted));
}

#[test]
fn failure_of_second_file_stops_before_third_with_companion() {
    let run = Orchestrator::new(three_files(), true);
    let (started, result) = play_through(run, &[0, 9, 0]);
    assert_eq!(started, vec!["/m/A.mp3", "/m/B.mp3"]);
    assert_eq!(result, Err(PlaybackError::Interrupted));
}

#[test]
fn all_files_succeeding_play_in_order() {
    for enable in [false, true] {
        let run = Orchestrator::new(three_files(), enable);
        assert_eq!(run.total(), 3);
        let (started, result) = play_through(run, &[0, 0, 0]);
        assert_eq!(started, vec!["/m/A.mp3", "/m/B.mp3", "/m/C.mp3"]);
        assert_eq!(result, Ok(()));
    }
}

#[test]
fn failure_of_first_file_plays_nothing_else() {
    let run = Orchestrator::new(three_files(), false);
    let (started, result) = play_through(run, &[2, 0, 0]);
    assert_eq!(started, vec!["/m/A.mp3"]);
    assert_eq!(result, Err(PlaybackError::Interrupted));
}

#[test]
fn player_that_cannot_start_ends_the_run() {
    let mut run = Orchestrator::new(three_files(), true);
    assert_eq!(run.pending(), SessionAction::LaunchPrimary);
    run = run.advance(SessionEvent::PrimaryLaunched);
    run = run.advance(SessionEvent::CompanionLaunchFailed);
    run = run.advance(SessionEvent::PrimaryExited(ExitStatus { code: Some(0) }));
    assert_eq!(run.current_index(), 1);
    assert_eq!(run.current_file().path, "/m/B.mp3");
    assert_eq!(run.pending(), SessionAction::LaunchPrimary);
    run = run.advance(SessionEvent::PrimaryLaunchFailed);
    assert_eq!(run.pending(), SessionAction::Finish(Err(PlaybackError::PrimaryLaunchFailed)));
    assert_eq!(run.result(), Some(Err(PlaybackError::PrimaryLaunchFailed)));
    assert_eq!(run.current_index(), 1);
}

#[test]
fn finished_run_ignores_later_reports() {
    let mut run = Orchestrator::new(three_files(), false);
    run = run.advance(SessionEvent::PrimaryLaunched);
    run = run.advance(SessionEvent::PrimaryExited(ExitStatus { code: Some(1) }));
    assert_eq!(run.result(), Some(Err(PlaybackError::Interrupted)));
    for event in [
        SessionEvent::PrimaryLaunched,
        SessionEvent::PrimaryExited(ExitStatus { code: Some(0) }),
        SessionEvent::CompanionTerminated,
    ] {
        run = run.advance(event);
        assert_eq!(run.pending(), SessionAction::Finish(Err(PlaybackError::Interrupted)));
        assert_eq!(run.current_index(), 0);
    }
}

#[test]
fn single_file_run_ends_with_its_session() {
    let set = DiscoveredFileSet::from_files(vec![MediaFile {
        path: "/m/only.opus".to_string(),
        modified: 1,
    }])
    .unwrap();
    let (started, result) = play_through(Orchestrator::new(set, true), &[0]);
    assert_eq!(started, vec!["/m/only.opus"]);
    assert_eq!(result, Ok(()));
}

#[test]
fn discovered_order_is_the_playing_order() {
    let entries = vec![
        ScannedEntry { path: "/m/C.mp3".to_string(), is_file: true, modified: Some(1) },
        ScannedEntry { path: "/m/A.mp3".to_string(), is_file: true, modified: Some(3) },
        ScannedEntry { path: "/m/B.mp3".to_string(), is_file: true, modified: Some(2) },
    ];
    let set = discover(&entries).ok().unwrap();
    let run = Orchestrator::new(set, false);
    assert_eq!(run.files().len(), 3);
    let (started, result) = play_through(run, &[0, 0, 0]);
    assert_eq!(started, vec!["/m/A.mp3", "/m/B.mp3", "/m/C.mp3"]);
    assert_eq!(result, Ok(()));
}
