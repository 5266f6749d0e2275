use xbox11::{Action, BootConfig, Bootstrap, Event, Exit, InitError, Phase};

fn boot(logging: bool, debug: bool, plugins: usize) -> Bootstrap {
    Bootstrap::new(BootConfig { logging, debug, plugins }, vec!["greet".to_string()])
}

#[test]
fn debug_startup_runs_to_normal_exit() {
    let mut b = boot(true, true, 2);
    assert_eq!(b.step(Event::Launch), Action::StartLogger);
    assert_eq!(b.step(Event::LoggerStarted), Action::Announce);
    assert_eq!(b.step(Event::Announced), Action::AttachPlugin(0));
    assert_eq!(b.step(Event::PluginAttached), Action::AttachPlugin(1));
    assert!(!b.is_invokable("greet"));
    assert_eq!(b.step(Event::PluginAttached), Action::RunLoop);
    assert!(b.is_invokable("greet"));
    assert_eq!(b.phase(), Phase::SettingUp);
    assert_eq!(b.step(Event::WindowFound), Action::OpenDevtools);
    assert_eq!(b.phase(), Phase::Running);
    assert_eq!(b.step(Event::WindowClosed), Action::Exit);
    assert_eq!(b.phase(), Phase::Terminated(Exit::Normal));
}

#[test]
fn release_startup_skips_window_lookup() {
    let mut b = boot(true, false, 1);
    b.step(Event::Launch);
    b.step(Event::LoggerStarted);
    assert_eq!(b.step(Event::Announced), Action::AttachPlugin(0));
    assert_eq!(b.step(Event::PluginAttached), Action::RunLoop);
    assert_eq!(b.phase(), Phase::Running);
}

#[test]
fn without_logging_plugins_come_first() {
    let mut b = boot(false, false, 1);
    assert_eq!(b.step(Event::Launch), Action::AttachPlugin(0));
}

#[test]
fn no_plugins_goes_straight_to_loop() {
    let mut b = boot(false, false, 0);
    assert_eq!(b.step(Event::Launch), Action::RunLoop);
    assert!(b.is_invokable("greet"));
}

#[test]
fn plugin_failure_aborts_before_loop() {
    let mut b = boot(true, false, 2);
    b.step(Event::Launch);
    b.step(Event::LoggerStarted);
    b.step(Event::Announced);
    assert_eq!(
        b.step(Event::PluginFailed),
        Action::Abort { error: InitError::PluginInit, to_log: true }
    );
    assert_eq!(b.phase(), Phase::Terminated(Exit::Fatal(InitError::PluginInit)));
    assert!(!b.is_invokable("greet"));
    assert_eq!(b.step(Event::PluginAttached), Action::Ignore);
}

#[test]
fn debug_missing_window_aborts() {
    let mut b = boot(true, true, 0);
    b.step(Event::Launch);
    b.step(Event::LoggerStarted);
    assert_eq!(b.step(Event::Announced), Action::RunLoop);
    assert_eq!(
        b.step(Event::WindowMissing),
        Action::Abort { error: InitError::WindowLookup, to_log: true }
    );
    assert_eq!(b.phase(), Phase::Terminated(Exit::Fatal(InitError::WindowLookup)));
}

#[test]
fn logger_failure_reports_on_console() {
    let mut b = boot(true, false, 1);
    b.step(Event::Launch);
    assert_eq!(
        b.step(Event::LoggerFailed),
        Action::Abort { error: InitError::LoggerInit, to_log: false }
    );
}

#[test]
fn nothing_logged_before_logger_starts() {
    let mut b = boot(false, false, 1);
    b.step(Event::Launch);
    assert_eq!(
        b.step(Event::PluginFailed),
        Action::Abort { error: InitError::PluginInit, to_log: false }
    );
}

#[test]
fn duplicate_command_aborts() {
    let mut b = Bootstrap::new(
        BootConfig { logging: false, debug: false, plugins: 0 },
        vec!["greet".to_string(), "greet".to_string()],
    );
    assert_eq!(
        b.step(Event::Launch),
        Action::Abort { error: InitError::DuplicateCommand, to_log: false }
    );
    assert!(!b.is_invokable("greet"));
}

#[test]
fn loop_failure_is_fatal() {
    let mut b = boot(false, false, 0);
    b.step(Event::Launch);
    assert_eq!(
        b.step(Event::LoopFailed),
        Action::Abort { error: InitError::EventLoopFatal, to_log: false }
    );
}

#[test]
fn unexpected_event_is_ignored() {
    let mut b = boot(true, false, 0);
    assert_eq!(b.step(Event::WindowClosed), Action::Ignore);
    assert_eq!(b.phase(), Phase::Uninitialized);
    b.step(Event::Launch);
    assert_eq!(b.step(Event::Launch), Action::Ignore);
    assert_eq!(b.phase(), Phase::StartingLogger);
}
