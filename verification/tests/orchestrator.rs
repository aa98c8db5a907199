use swapeme::cli::{
    action_picked, after_command, error, first_command, labelled, skip_dialog, start_cmd, success,
    wait_for_user, Invocation,
};
use swapeme::error::{
    Error, HandledErrorKind, Remedy, StepEvent, StepState, UnhandledError, HandledError,
};
use swapeme::theme::include_prompt;
use swapeme::theme::spicetify::error::SpicetifyNotInstalledError;
use swapeme::theme::wallpaper_engine::error::InstallationNotFoundError;

fn handled() -> Error {
    Error::HandledError(HandledErrorKind::SpicetifyNotInstalled(SpicetifyNotInstalledError {}))
}

fn advance<R>(state: StepState<R>, event: StepEvent<R>) -> StepState<R> {
    Error::error_prone_step(state, event)
}

#[test]
fn a_step_that_returns_has_succeeded() {
    let state = advance(Error::start_step::<u32>(), StepEvent::Returned(Ok(7)));
    assert!(state.is_over());
    assert!(state.dialog().is_none());
    assert!(state.remedy().is_none());
    assert!(state.banner(None).is_none());
    let line = state.banner(Some("done")).unwrap();
    assert!(line.ends_with(" done"));
    assert!(line.contains(" SUCCESS "));
    assert_eq!(state.finish().ok(), Some(Some(7)));
}

#[test]
fn an_unhandled_failure_is_fatal() {
    let failure = Error::UnhandledError(UnhandledError::FailedToDownloadTheme);
    let state = advance(Error::start_step::<u32>(), StepEvent::Returned(Err(failure)));
    assert!(matches!(state, StepState::Fatal(UnhandledError::FailedToDownloadTheme)));
    assert!(state.is_over());
    assert!(state.banner(Some("done")).is_none());
    assert!(matches!(state.finish(), Err(StepState::Fatal(_))));
}

#[test]
fn skipping_abandons_the_step() {
    for picked in [None, Some(0), Some(2), Some(usize::MAX)] {
        let state = advance(Error::start_step::<u32>(), StepEvent::Returned(Err(handled())));
        assert!(!state.is_over());
        let state = advance(state, StepEvent::Picked(picked));
        assert!(matches!(state, StepState::Abandoned));
        assert!(state.banner(Some("done")).is_none());
        assert_eq!(state.finish().ok(), Some(None));
    }
}

#[test]
fn the_remedy_leads_to_another_run() {
    let mut state = Error::start_step::<u32>();
    for _ in 0..5 {
        state = advance(state, StepEvent::Returned(Err(handled())));
        assert!(matches!(state, StepState::Offered(_)));
        state = advance(state, StepEvent::Picked(Some(1)));
        assert!(matches!(state.remedy(), Some(Remedy::OpenAndWait { .. })));
        state = advance(state, StepEvent::Remedied);
        assert!(matches!(state, StepState::Pending));
    }
    state = advance(state, StepEvent::Returned(Ok(3)));
    assert_eq!(state.finish().ok(), Some(Some(3)));
}

#[test]
fn events_that_are_not_waited_for_change_nothing() {
    let state = advance(Error::start_step::<u32>(), StepEvent::Picked(Some(1)));
    assert!(matches!(state, StepState::Pending));
    let state = advance(state, StepEvent::Remedied);
    assert!(matches!(state, StepState::Pending));
    let state = advance(state, StepEvent::Returned(Err(handled())));
    let state = advance(state, StepEvent::Remedied);
    assert!(matches!(state, StepState::Offered(_)));
    let state = advance(state, StepEvent::Returned(Ok(1)));
    assert!(matches!(state, StepState::Offered(_)));
    let state = advance(state, StepEvent::Picked(Some(1)));
    let state = advance(state, StepEvent::Picked(Some(0)));
    assert!(matches!(state, StepState::Remedying(_)));
    let state = advance(state, StepEvent::Returned(Ok(1)));
    assert!(matches!(state, StepState::Remedying(_)));
    assert!(matches!(state.finish(), Err(StepState::Remedying(_))));
}

#[test]
fn a_step_that_is_over_stays_over() {
    let done = advance(Error::start_step::<u32>(), StepEvent::Returned(Ok(1)));
    let done = advance(done, StepEvent::Returned(Ok(2)));
    let done = advance(done, StepEvent::Picked(Some(1)));
    let done = advance(done, StepEvent::Remedied);
    assert_eq!(done.finish().ok(), Some(Some(1)));
    let abandoned: StepState<u32> = StepState::Abandoned;
    assert!(matches!(advance(abandoned, StepEvent::Returned(Ok(2))), StepState::Abandoned));
    let fatal: StepState<u32> = StepState::Fatal(UnhandledError::FailedToDownloadTheme);
    assert!(matches!(advance(fatal, StepEvent::Remedied), StepState::Fatal(_)));
}

#[test]
fn a_missing_installation_has_no_remedy_yet() {
    let e = InstallationNotFoundError();
    assert!(matches!(e.handle(), Remedy::Unavailable));
    let kind = HandledErrorKind::InstallationNotFound(e);
    assert_eq!(kind.item(), "wallpaper engine step");
    assert_eq!(kind.action(), "Set wallpaper engine's path");
    assert_eq!(
        kind.to_string(),
        "Couldn't find steam or wallpaper engine installation on your system"
    );
    assert!(matches!(kind.handle(), Remedy::Unavailable));
}

#[test]
fn lines_and_prompts() {
    assert_eq!(labelled("[x]", "text"), "[x] text");
    let line = error("boom");
    assert!(line.ends_with(" boom"));
    assert!(line.contains(" ERR "));
    assert_ne!(line, "boom");
    let line = success("fine");
    assert!(line.ends_with(" fine"));
    assert!(line.contains(" SUCCESS "));
    assert_eq!(wait_for_user("x"), "Waiting for x press enter when done");
    assert_eq!(include_prompt("Windows"), "Include Windows theme ?");
    let dialog = skip_dialog("It broke", "this", "Mend it");
    assert!(dialog.prompt.ends_with(" It broke\nWhat would you like to do"));
    assert_eq!(dialog.items, ["Skip this", "Mend it"]);
    assert_eq!(dialog.default, 0);
    assert!(action_picked(Some(1)));
    assert!(!action_picked(Some(0)));
    assert!(!action_picked(None));
}

#[test]
fn commands_as_values() {
    let c = start_cmd("https://example.org");
    assert_eq!(c.program, "cmd");
    assert_eq!(c.args, ["/C", "start", "https://example.org"]);
    let c = Invocation::new("p".to_string()).arg("a").arg("b");
    assert_eq!(c.args, ["a", "b"]);
    let d = c.clone();
    assert_eq!((d.program, d.args), (c.program, c.args));
}

#[test]
fn failures_are_classed_on_conversion() {
    let fatal: Error = UnhandledError::FailedToDownloadTheme.into();
    assert!(matches!(fatal, Error::UnhandledError(UnhandledError::FailedToDownloadTheme)));
    let refused = std::io::Error::new(std::io::ErrorKind::NotFound, "no such file");
    assert!(matches!(Error::from(refused), Error::UnhandledError(UnhandledError::IOError(_))));
    let lacking = swapeme::vdf::VdfError::ValueNotFound("apps".to_string(), "0".to_string());
    assert!(matches!(Error::from(lacking), Error::UnhandledError(UnhandledError::VdfError(_))));
    assert!(matches!(
        Error::from(SpicetifyNotInstalledError {}),
        Error::HandledError(HandledErrorKind::SpicetifyNotInstalled(_))
    ));
    assert!(matches!(
        Error::from(InstallationNotFoundError()),
        Error::HandledError(HandledErrorKind::InstallationNotFound(_))
    ));
    assert!(matches!(
        Error::from(HandledErrorKind::InstallationNotFound(InstallationNotFoundError())),
        Error::HandledError(HandledErrorKind::InstallationNotFound(_))
    ));
}

#[test]
fn a_remedy_that_fails_is_fatal() {
    let state = advance(Error::start_step::<u32>(), StepEvent::Returned(Err(handled())));
    let state = advance(state, StepEvent::Picked(Some(1)));
    assert!(matches!(state, StepState::Remedying(_)));
    let failure = Error::UnhandledError(UnhandledError::FailedToDownloadTheme);
    let state = advance(state, StepEvent::RemedyFailed(failure));
    assert!(matches!(state, StepState::Fatal(UnhandledError::FailedToDownloadTheme)));
    assert!(state.is_over());
    // nothing is run again
    let state = advance(state, StepEvent::Returned(Ok(7)));
    assert!(matches!(state, StepState::Fatal(UnhandledError::FailedToDownloadTheme)));
    assert!(matches!(state.finish(), Err(StepState::Fatal(_))));
}

#[test]
fn a_remedy_that_fails_in_a_way_that_can_be_mended_is_offered() {
    let state = advance(Error::start_step::<u32>(), StepEvent::Returned(Err(handled())));
    let state = advance(state, StepEvent::Picked(Some(1)));
    let again = Error::from(InstallationNotFoundError());
    let state = advance(state, StepEvent::RemedyFailed(again));
    assert!(matches!(state, StepState::Offered(HandledErrorKind::InstallationNotFound(_))));
    // a failed remedy is waited for only while a remedy is under way
    let failure = Error::UnhandledError(UnhandledError::FailedToDownloadTheme);
    let state = advance(state, StepEvent::RemedyFailed(failure));
    assert!(matches!(state, StepState::Offered(_)));
    let failure = Error::UnhandledError(UnhandledError::FailedToDownloadTheme);
    let state = advance(Error::start_step::<u32>(), StepEvent::RemedyFailed(failure));
    assert!(matches!(state, StepState::Pending));
}

#[test]
fn commands_are_run_in_turn_until_one_is_refused() {
    assert_eq!(first_command(0), None);
    assert_eq!(first_command(3), Some(0));
    assert_eq!(after_command(3, 0, Ok(())).ok(), Some(Some(1)));
    assert_eq!(after_command(3, 1, Ok(())).ok(), Some(Some(2)));
    assert_eq!(after_command(3, 2, Ok(())).ok(), Some(None));
    assert_eq!(after_command(3, usize::MAX, Ok(())).ok(), Some(None));
    assert_eq!(after_command(0, 0, Ok(())).ok(), Some(None));
    let refusal = std::io::Error::new(std::io::ErrorKind::NotFound, "no such program");
    assert!(matches!(
        after_command(3, 0, Err(refusal)),
        Err(Error::UnhandledError(UnhandledError::IOError(_)))
    ));
}
