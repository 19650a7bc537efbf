use pantheon::{conclude, AppConfig, IOError, JoinOutcome, PantheonError, StartFailure};

#[test]
fn second_platform_loop_is_a_duplicate_application() {
    let failure = StartFailure::Build {
        recreation: true,
        detail: String::from("EventLoop can't be recreated"),
    };
    assert_eq!(IOError::classify(failure), IOError::DuplicateApplicationNotAllowed);
}

#[test]
fn other_build_failure_keeps_its_description() {
    let failure = StartFailure::Build { recreation: false, detail: String::from("no display") };
    assert_eq!(IOError::classify(failure), IOError::EventLoopError(String::from("no display")));
}

#[test]
fn run_failure_keeps_its_description() {
    let failure = StartFailure::Run { detail: String::from("Exit Failure: 3") };
    assert_eq!(
        IOError::classify(failure),
        IOError::EventLoopError(String::from("Exit Failure: 3"))
    );
}

#[test]
fn start_result_is_ok_without_a_failure() {
    assert_eq!(IOError::start_result(None), Ok(()));
    assert_eq!(
        IOError::start_result(Some(StartFailure::Build {
            recreation: true,
            detail: String::new()
        })),
        Err(IOError::DuplicateApplicationNotAllowed)
    );
    assert_eq!(
        IOError::start_result(Some(StartFailure::Run { detail: String::from("x") })),
        Err(IOError::EventLoopError(String::from("x")))
    );
}

#[test]
fn clean_run_succeeds() {
    assert_eq!(conclude(Ok(()), JoinOutcome::Joined), Ok(()));
    assert_eq!(conclude(Ok(()), JoinOutcome::NoHandle), Ok(()));
}

#[test]
fn platform_errors_are_passed_on() {
    assert_eq!(
        conclude(Err(IOError::DuplicateApplicationNotAllowed), JoinOutcome::Joined),
        Err(PantheonError::DuplicateApplicationNotAllowed)
    );
    assert_eq!(
        conclude(Err(IOError::EventLoopError(String::from("boom"))), JoinOutcome::NoHandle),
        Err(PantheonError::PlatformError(String::from("boom")))
    );
    assert_eq!(
        PantheonError::from_io(IOError::EventLoopError(String::from("boom"))),
        PantheonError::PlatformError(String::from("boom"))
    );
}

#[test]
fn panicked_logic_thread_goes_before_a_platform_error() {
    assert_eq!(conclude(Ok(()), JoinOutcome::Panicked), Err(PantheonError::LogicThreadPanicked));
    assert_eq!(
        conclude(Err(IOError::EventLoopError(String::from("boom"))), JoinOutcome::Panicked),
        Err(PantheonError::LogicThreadPanicked)
    );
    assert_eq!(
        conclude(Err(IOError::DuplicateApplicationNotAllowed), JoinOutcome::Panicked),
        Err(PantheonError::LogicThreadPanicked)
    );
}

#[test]
fn new_config_names_nothing() {
    let config = AppConfig::new();
    assert_eq!(config.name, "Unkown");
    assert_eq!(config.version, "0.1.0");
    assert_eq!(config.author, "Unkown");
}

#[test]
fn builders_set_one_field_each() {
    let config = AppConfig::new().name("Sandbox").author("ssnoer").version("0.3.1-abc");
    assert_eq!(config.name, "Sandbox");
    assert_eq!(config.author, "ssnoer");
    assert_eq!(config.version, "0.3.1-abc");
    let renamed = config.clone().name("Other");
    assert_eq!(renamed.name, "Other");
    assert_eq!(renamed.author, "ssnoer");
    assert_eq!(renamed.version, "0.3.1-abc");
    let versioned = config.clone().version("2");
    assert_eq!(versioned.name, "Sandbox");
    assert_eq!(versioned.author, "ssnoer");
    let authored = config.author("x");
    assert_eq!(authored.name, "Sandbox");
    assert_eq!(authored.version, "0.3.1-abc");
}
