use vstd::prelude::*;
use crate::commands::{all_distinct, name_views, CommandTable};

verus! {

/// The ways in which starting the application can fail. Each one ends the
/// process.
#[derive(Debug, Clone, Copy, PartialEq, Eq, Structural)]
pub enum InitError {
    /// The logger could not be configured or started.
    LoggerInit,
    /// A plugin failed to initialise.
    PluginInit,
    /// Two commands were registered under one name.
    DuplicateCommand,
    /// The main window could not be found to attach the inspection panel.
    WindowLookup,
    /// The event loop stopped on an error.
    EventLoopFatal,
}

/// How the process ends.
#[derive(Debug, Clone, Copy, PartialEq, Eq, Structural)]
pub enum Exit {
    /// The user closed the window.
    Normal,
    /// Startup or the event loop failed.
    Fatal(InitError),
}

/// Where the startup sequence stands. Logging, when configured, is started
/// and announced first; then the plugins are attached one by one in order;
/// then the command table is filled; then the event loop runs.
#[derive(Debug, Clone, Copy, PartialEq, Eq, Structural)]
pub enum Phase {
    Uninitialized,
    /// Waiting for the logger to start.
    StartingLogger,
    /// The logger is up; waiting for the startup line to be written.
    Announcing,
    /// Waiting for the plugin at this index; those before it are attached.
    AttachingPlugin(usize),
    /// Debug build: the event loop was entered with every command in the
    /// table; waiting for the main window to be looked up.
    SettingUp,
    Running,
    Terminated(Exit),
}

/// What the host reports back after carrying out an action, or what
/// happened while the event loop ran.
#[derive(Debug, Clone, Copy, PartialEq, Eq, Structural)]
pub enum Event {
    Launch,
    LoggerStarted,
    LoggerFailed,
    Announced,
    PluginAttached,
    PluginFailed,
    WindowFound,
    WindowMissing,
    WindowClosed,
    LoopFailed,
}

/// What the host is to do next.
#[derive(Debug, Clone, Copy, PartialEq, Eq, Structural)]
pub enum Action {
    /// Configure and start the process-wide logger.
    StartLogger,
    /// Write the startup line to the log.
    Announce,
    /// Attach the plugin at this index.
    AttachPlugin(usize),
    /// Enter the event loop, offering the commands of the table.
    RunLoop,
    /// Open the inspection panel on the main window.
    OpenDevtools,
    /// End the process with a non-zero status, reporting `error` in the log
    /// when `to_log` holds and on the console otherwise.
    Abort { error: InitError, to_log: bool },
    /// End the process normally.
    Exit,
    /// The event was not expected here: nothing changes.
    Ignore,
}

/// What the startup sequence is built with.
#[derive(Debug, Clone, Copy, PartialEq, Eq, Structural)]
pub struct BootConfig {
    /// Whether a logger is set up before anything else.
    pub logging: bool,
    /// Whether this is a debug build, which opens the inspection panel.
    pub debug: bool,
    /// How many plugins are attached.
    pub plugins: usize,
}

/// The startup sequence as a value: its configuration, the names of the
/// commands to offer, the commands offered so far, the phase, and whether
/// the logger is up.
pub struct BootView {
    pub config: BootConfig,
    pub commands: Seq<Seq<char>>,
    pub table: Seq<Seq<char>>,
    pub phase: Phase,
    pub logger_ready: bool,
}

pub open spec fn initial_view(config: BootConfig, commands: Seq<Seq<char>>) -> BootView {
    BootView {
        config,
        commands,
        table: Seq::empty(),
        phase: Phase::Uninitialized,
        logger_ready: false,
    }
}

/// Whether carrying out `a` writes to the log.
pub open spec fn writes_log(a: Action) -> bool {
    match a {
        Action::Announce => true,
        Action::Abort { to_log, .. } => to_log,
        _ => false,
    }
}

/// The fatal end of the sequence with `error`.
pub open spec fn fail_with(v: BootView, error: InitError) -> (BootView, Action) {
    (
        BootView { phase: Phase::Terminated(Exit::Fatal(error)), ..v },
        Action::Abort { error, to_log: v.logger_ready },
    )
}

/// Fills the command table and enters the event loop, or fails when a
/// command name occurs twice.
pub open spec fn register_commands(v: BootView) -> (BootView, Action) {
    if all_distinct(v.commands) {
        (
            BootView {
                table: v.commands,
                phase: if v.config.debug {
                    Phase::SettingUp
                } else {
                    Phase::Running
                },
                ..v
            },
            Action::RunLoop,
        )
    } else {
        fail_with(v, InitError::DuplicateCommand)
    }
}

/// Goes on with the plugin at index `k`, or with the commands after the
/// last plugin.
pub open spec fn attach_from(v: BootView, k: nat) -> (BootView, Action) {
    if k < v.config.plugins {
        (BootView { phase: Phase::AttachingPlugin(k as usize), ..v }, Action::AttachPlugin(k as usize))
    } else {
        register_commands(v)
    }
}

/// One step of the startup sequence: the state after `e`, and the action
/// that the host is to carry out.
pub open spec fn next(v: BootView, e: Event) -> (BootView, Action) {
    match (v.phase, e) {
        (Phase::Uninitialized, Event::Launch) => if v.config.logging {
            (BootView { phase: Phase::StartingLogger, ..v }, Action::StartLogger)
        } else {
            attach_from(v, 0)
        },
        (Phase::StartingLogger, Event::LoggerStarted) => (
            BootView { phase: Phase::Announcing, logger_ready: true, ..v },
            Action::Announce,
        ),
        (Phase::StartingLogger, Event::LoggerFailed) => fail_with(v, InitError::LoggerInit),
        (Phase::Announcing, Event::Announced) => attach_from(v, 0),
        (Phase::AttachingPlugin(k), Event::PluginAttached) => attach_from(v, (k + 1) as nat),
        (Phase::AttachingPlugin(_), Event::PluginFailed) => fail_with(v, InitError::PluginInit),
        (Phase::SettingUp, Event::WindowFound) => (
            BootView { phase: Phase::Running, ..v },
            Action::OpenDevtools,
        ),
        (Phase::SettingUp, Event::WindowMissing) => fail_with(v, InitError::WindowLookup),
        (Phase::SettingUp, Event::LoopFailed) => fail_with(v, InitError::EventLoopFatal),
        (Phase::Running, Event::LoopFailed) => fail_with(v, InitError::EventLoopFatal),
        (Phase::Running, Event::WindowClosed) => (
            BootView { phase: Phase::Terminated(Exit::Normal), ..v },
            Action::Exit,
        ),
        _ => (v, Action::Ignore),
    }
}

/// Whether the sequence in phase `p` has not yet entered the event loop
/// nor ended.
pub open spec fn before_loop(p: Phase) -> bool {
    match p {
        Phase::Uninitialized | Phase::StartingLogger | Phase::Announcing
        | Phase::AttachingPlugin(_) => true,
        _ => false,
    }
}

/// What holds in every state that the sequence reaches.
pub open spec fn consistent(v: BootView) -> bool {
    &&& v.logger_ready ==> v.config.logging
    &&& v.phase == Phase::StartingLogger ==> v.config.logging
    &&& v.phase is Announcing ==> v.logger_ready
    &&& v.phase matches Phase::AttachingPlugin(k) ==> k < v.config.plugins
    &&& v.table.len() > 0 ==> v.table == v.commands
    &&& !before_loop(v.phase) || v.table.len() == 0
    &&& all_distinct(v.table)
}

/// Drives the startup sequence of the application.
pub struct Bootstrap {
    config: BootConfig,
    commands: Vec<String>,
    table: CommandTable,
    phase: Phase,
    logger_ready: bool,
}

impl View for Bootstrap {
    type V = BootView;

    closed spec fn view(&self) -> BootView {
        BootView {
            config: self.config,
            commands: name_views(self.commands@),
            table: self.table@,
            phase: self.phase,
            logger_ready: self.logger_ready,
        }
    }
}

impl Bootstrap {
    pub closed spec fn wf(&self) -> bool {
        self.table.wf() && consistent(self@)
    }

    /// A sequence that has not started, which will offer `commands`.
    pub fn new(config: BootConfig, commands: Vec<String>) -> (b: Bootstrap)
        ensures
            b.wf(),
            b@ == initial_view(config, name_views(commands@)),
    {
        Bootstrap {
            config,
            commands,
            table: CommandTable::new(),
            phase: Phase::Uninitialized,
            logger_ready: false,
        }
    }

    /// The phase that the sequence is in.
    pub fn phase(&self) -> (p: Phase)
        ensures
            p == self@.phase,
    {
        self.phase
    }

    /// Whether the front end may invoke the command `name` now.
    pub fn is_invokable(&self, name: &str) -> (r: bool)
        ensures
            r == self@.table.contains(name@),
    {
        self.table.contains(name)
    }

    fn fail(&mut self, error: InitError) -> (a: Action)
        requires
            old(self).wf(),
        ensures
            final(self).wf(),
            (final(self)@, a) == fail_with(old(self)@, error),
    {
        self.phase = Phase::Terminated(Exit::Fatal(error));
        Action::Abort { error, to_log: self.logger_ready }
    }

    fn register(&mut self) -> (a: Action)
        requires
            old(self).wf(),
            old(self)@.table.len() == 0,
        ensures
            final(self).wf(),
            (final(self)@, a) == register_commands(old(self)@),
    {
        match CommandTable::build(&self.commands) {
            Ok(t) => {
                self.table = t;
                self.phase = if self.config.debug {
                    Phase::SettingUp
                } else {
                    Phase::Running
                };
                Action::RunLoop
            },
            Err(_) => self.fail(InitError::DuplicateCommand),
        }
    }

    fn attach_from(&mut self, k: usize) -> (a: Action)
        requires
            old(self).wf(),
            old(self)@.table.len() == 0,
        ensures
            final(self).wf(),
            (final(self)@, a) == attach_from(old(self)@, k as nat),
    {
        if k < self.config.plugins {
            self.phase = Phase::AttachingPlugin(k);
            Action::AttachPlugin(k)
        } else {
            self.register()
        }
    }

    /// Takes in what the host reports and says what it is to do next.
    pub fn step(&mut self, event: Event) -> (a: Action)
        requires
            old(self).wf(),
        ensures
            final(self).wf(),
            (final(self)@, a) == next(old(self)@, event),
    {
        match self.phase {
            Phase::Uninitialized => match event {
                Event::Launch => if self.config.logging {
                    self.phase = Phase::StartingLogger;
                    Action::StartLogger
                } else {
                    self.attach_from(0)
                },
                _ => Action::Ignore,
            },
            Phase::StartingLogger => match event {
                Event::LoggerStarted => {
                    self.phase = Phase::Announcing;
                    self.logger_ready = true;
                    Action::Announce
                },
                Event::LoggerFailed => self.fail(InitError::LoggerInit),
                _ => Action::Ignore,
            },
            Phase::Announcing => match event {
                Event::Announced => self.attach_from(0),
                _ => Action::Ignore,
            },
            Phase::AttachingPlugin(k) => match event {
                Event::PluginAttached => self.attach_from(k + 1),
                Event::PluginFailed => self.fail(InitError::PluginInit),
                _ => Action::Ignore,
            },
            Phase::SettingUp => match event {
                Event::WindowFound => {
                    self.phase = Phase::Running;
                    Action::OpenDevtools
                },
                Event::WindowMissing => self.fail(InitError::WindowLookup),
                Event::LoopFailed => self.fail(InitError::EventLoopFatal),
                _ => Action::Ignore,
            },
            Phase::Running => match event {
                Event::LoopFailed => self.fail(InitError::EventLoopFatal),
                Event::WindowClosed => {
                    self.phase = Phase::Terminated(Exit::Normal);
                    Action::Exit
                },
                _ => Action::Ignore,
            },
            Phase::Terminated(_) => Action::Ignore,
        }
    }
}


/// The state reached from `v` after the events `evs`, in order.
pub open spec fn run_events(v: BootView, evs: Seq<Event>) -> BootView
    decreases evs.len(),
{
    if evs.len() == 0 {
        v
    } else {
        next(run_events(v, evs.drop_last()), evs.last()).0
    }
}

/// The action asked for on the event at index `i` of `evs`, starting at `v`.
pub open spec fn action_at(v: BootView, evs: Seq<Event>, i: int) -> Action {
    next(run_events(v, evs.take(i)), evs[i]).1
}

proof fn next_keeps_consistent(v: BootView, e: Event)
    requires
        consistent(v),
    ensures
        consistent(next(v, e).0),
        next(v, e).0.config == v.config,
        next(v, e).0.commands == v.commands,
        next(v, e).0.logger_ready ==> v.logger_ready || e == Event::LoggerStarted,
        writes_log(next(v, e).1) ==> v.logger_ready || (e == Event::LoggerStarted
            && v.phase == Phase::StartingLogger),
{
}

proof fn logger_ready_only_after_start(v: BootView, evs: Seq<Event>)
    requires
        consistent(v),
        !v.logger_ready,
    ensures
        consistent(run_events(v, evs)),
        run_events(v, evs).config == v.config,
        run_events(v, evs).logger_ready ==> exists|j: int|
            0 <= j < evs.len() && evs[j] == Event::LoggerStarted,
    decreases evs.len(),
{
    if evs.len() > 0 {
        let prefix = evs.drop_last();
        logger_ready_only_after_start(v, prefix);
        let s = run_events(v, prefix);
        next_keeps_consistent(s, evs.last());
        if run_events(v, evs).logger_ready {
            if s.logger_ready {
                let j = choose|j: int| 0 <= j < prefix.len() && prefix[j] == Event::LoggerStarted;
                assert(evs[j] == Event::LoggerStarted);
            } else {
                assert(evs[evs.len() - 1] == Event::LoggerStarted);
            }
        }
    }
}

/// Nothing is written to the log before the logger is up: from the start,
/// whatever the host reports, an action that writes to the log comes only
/// in a sequence configured with logging, at or after the report that the
/// logger started.
pub proof fn log_written_only_after_start(
    config: BootConfig,
    commands: Seq<Seq<char>>,
    evs: Seq<Event>,
    i: int,
)
    requires
        0 <= i < evs.len(),
    ensures
        writes_log(action_at(initial_view(config, commands), evs, i)) ==> config.logging
            && exists|j: int| 0 <= j <= i && evs[j] == Event::LoggerStarted,
{
    let v = initial_view(config, commands);
    let prefix = evs.take(i);
    logger_ready_only_after_start(v, prefix);
    let s = run_events(v, prefix);
    next_keeps_consistent(s, evs[i]);
    if writes_log(action_at(v, evs, i)) {
        if s.logger_ready {
            let j = choose|j: int| 0 <= j < prefix.len() && prefix[j] == Event::LoggerStarted;
            assert(evs[j] == Event::LoggerStarted);
        } else {
            assert(evs[i] == Event::LoggerStarted);
        }
    }
}

/// The event loop is entered only with every command in the table, and
/// before it no command can be invoked.
pub proof fn loop_starts_with_every_command(v: BootView, e: Event)
    requires
        consistent(v),
    ensures
        before_loop(v.phase) ==> v.table.len() == 0,
        next(v, e).1 == Action::RunLoop ==> next(v, e).0.table == v.commands,
{
}

/// How far along phase `p` is, in a sequence with `plugins` plugins.
pub open spec fn progress(p: Phase, plugins: int) -> int {
    match p {
        Phase::Uninitialized => 0,
        Phase::StartingLogger => 1,
        Phase::Announcing => 2,
        Phase::AttachingPlugin(k) => 3 + k,
        Phase::SettingUp => 3 + plugins,
        Phase::Running => 4 + plugins,
        Phase::Terminated(_) => 5 + plugins,
    }
}

/// Each event is either ignored, leaving everything as it was, or moves
/// the sequence strictly forward: no phase is entered twice.
pub proof fn steps_only_move_forward(v: BootView, e: Event)
    requires
        consistent(v),
    ensures
        next(v, e).1 == Action::Ignore ==> next(v, e).0 == v,
        next(v, e).1 != Action::Ignore ==> progress(next(v, e).0.phase, v.config.plugins as int)
            > progress(v.phase, v.config.plugins as int),
{
}

} // verus!
