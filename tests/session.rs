use art_exposure::resize::PipelineError;
use art_exposure::selector::{ArtworkRecord, LookupError};
use art_exposure::session::{Action, Phase, Run, RunError};

fn record(artist: &str, title: &str, url: &str) -> ArtworkRecord {
    ArtworkRecord { title: title.to_string(), artist: artist.to_string(), url: url.to_string() }
}

#[test]
fn failed_search_is_fatal_before_any_lookup() {
    let mut run = Run::new(20);
    let mut lookups = 0;
    let mut action = run.searched(None);
    while let Action::LookUp(_) = action {
        lookups += 1;
        action = run.looked_up(Err(LookupError::Network));
    }
    assert!(matches!(action, Action::Stop(Some(RunError::SearchFailed))));
    assert_eq!(lookups, 0);
    assert_eq!(run.selector.attempts, 0);
    assert_eq!(run.phase, Phase::Finished);
}

#[test]
fn empty_search_result_is_exhausted() {
    let mut run = Run::new(20);
    let action = run.searched(Some(vec![]));
    assert!(matches!(action, Action::Stop(Some(RunError::Exhausted))));
    assert_eq!(run.selector.attempts, 0);
}

#[test]
fn full_run_reaches_saved_wallpaper() {
    let mut run = Run::new(20);
    let id = match run.searched(Some(vec![436535])) {
        Action::LookUp(id) => id,
        _ => panic!("expected a lookup"),
    };
    assert_eq!(id, 436535);
    let action = run.looked_up(Ok(record("Vincent van Gogh", "Wheat Field: Cypresses", "https://img/1.jpg")));
    match action {
        Action::Download(url) => assert_eq!(url, "https://img/1.jpg"),
        _ => panic!("expected a download"),
    }
    assert!(matches!(run.downloaded(true), Action::Process));
    match run.processed(Ok(())) {
        Action::Save(name) => assert_eq!(name, "Vincent_van_Gogh_-_Wheat_Field__Cypresses.png"),
        _ => panic!("expected a save"),
    }
    match run.saved(true) {
        Action::Apply(name) => assert_eq!(name, "Vincent_van_Gogh_-_Wheat_Field__Cypresses.png"),
        _ => panic!("expected the wallpaper to be applied"),
    }
    assert!(matches!(run.applied(), Action::Stop(None)));
    assert_eq!(run.phase, Phase::Finished);
}

#[test]
fn unusable_records_end_run_exhausted() {
    let mut run = Run::new(3);
    let mut action = run.searched(Some(vec![1, 2, 3]));
    let mut lookups = 0;
    while let Action::LookUp(_) = action {
        lookups += 1;
        action = run.looked_up(Ok(record("Anonymous", "Untitled", "")));
    }
    assert!(matches!(action, Action::Stop(Some(RunError::Exhausted))));
    assert_eq!(lookups, 3);
}

#[test]
fn later_failures_are_fatal() {
    let chosen = || {
        let mut run = Run::new(5);
        run.searched(Some(vec![9]));
        run.looked_up(Ok(record("A", "B", "https://img/9.jpg")));
        run
    };
    let mut run = chosen();
    assert!(matches!(run.downloaded(false), Action::Stop(Some(RunError::DownloadFailed))));
    let mut run = chosen();
    run.downloaded(true);
    assert!(matches!(
        run.processed(Err(PipelineError::Decode)),
        Action::Stop(Some(RunError::Pipeline(PipelineError::Decode)))
    ));
    let mut run = chosen();
    run.downloaded(true);
    run.processed(Ok(()));
    assert!(matches!(run.saved(false), Action::Stop(Some(RunError::SaveFailed))));
}
