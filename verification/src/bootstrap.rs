//! The order in which a session starts and ends. The caller does what each
//! action names and reports what came of it; what is done next, and with
//! which exit status the process ends, is decided here.

use crate::config::{keymap_of, load_keymap, refuses};
use crate::frame::CallError;
use crate::input::{
    client_started, client_started_call, open_file, open_file_call, Call, InputController,
    InputModel, LoopEnd,
};
use crate::keymap::{default_bindings, BindingModel, ConfigError, ConfigFailure, Keymap};
use crate::wire::{json_string, unquote};
use vstd::prelude::*;
use vstd::string::*;

verus! {

/// Where the log file lies, from the user's home directory.
pub const LOG_FILE: &'static str = ".local/share/vixy/vixi.log";

/// The engine's configuration directory, from the user's configuration
/// directory.
pub const ENGINE_CONFIG_DIR: &'static str = "xi";

/// The keybinding file, from the user's configuration directory.
pub const KEYBOARD_FILE: &'static str = "vixi/keyboard.toml";

/// How far the start of the session has come.
#[derive(Clone, Copy, Debug, PartialEq, Eq, Structural)]
pub enum Phase {
    /// Nothing has been done.
    Fresh,
    /// The keybinding file is being looked for and read.
    Locating,
    /// The engine is being started.
    Spawning,
    /// The engine is being told that a client has started.
    Announcing,
    /// The event loop is being started on its own thread.
    Starting,
    /// The file is being opened.
    Opening,
    /// The keyboard loop runs.
    Running,
    /// The event loop's thread is being waited for.
    Joining,
    /// The process is to exit.
    Finished,
}

/// What the caller is to do next.
#[derive(Clone, Copy, Debug, PartialEq, Eq, Structural)]
pub enum Action {
    /// Find the configuration directory and read the keybinding file.
    LocateConfig,
    /// Start the engine process.
    SpawnEngine,
    /// Send the notification that a client has started.
    Announce,
    /// Start the event loop on a thread of its own.
    StartEventLoop,
    /// Send the request that opens the file.
    Open,
    /// Run the keyboard loop until it ends.
    RunKeyboardLoop,
    /// Wait for the event loop's thread to finish.
    JoinEventLoop,
    /// Print the diagnostic, if there is one, and exit with this status.
    Exit { status: u8 },
}

/// What became of reading the keybinding file.
#[derive(Debug, PartialEq, Eq)]
pub enum FileRead {
    /// No such file exists.
    Missing,
    /// The file exists and could not be read.
    Unreadable(String),
    /// What the file holds.
    Contents(String),
}

/// What was found of the configuration.
#[derive(Debug, PartialEq, Eq)]
pub struct ConfigSource {
    /// The directory in which the engine looks for its own configuration.
    pub engine_config_dir: String,
    /// The keybinding file.
    pub keyboard_file: FileRead,
}

/// What came of the action that was asked for.
#[derive(Debug, PartialEq, Eq)]
pub enum Event {
    /// The process has started.
    Begin,
    /// The configuration was looked for; `None` where no configuration
    /// directory is known.
    ConfigLocated(Option<ConfigSource>),
    /// The engine was started, or could not be.
    EngineSpawned(Result<(), String>),
    /// The notification that a client has started was handed to the peer.
    Announced,
    /// The event loop runs.
    EventLoopStarted,
    /// The request that opens the file has ended.
    Opened(Result<String, CallError>),
    /// The keyboard loop has ended.
    KeyboardEnded(LoopEnd),
    /// The event loop's thread has finished.
    EventLoopJoined,
}

/// Why the session ended with a failure.
#[derive(Debug, PartialEq, Eq)]
pub enum Diagnostic {
    /// No configuration directory is known.
    ConfigDirNotFound,
    /// The keybinding file exists and could not be read.
    ConfigUnreadable { reason: String },
    /// The keybinding file was refused.
    ConfigRefused(ConfigFailure),
    /// The engine could not be started.
    EngineNotStarted { reason: String },
    /// The file could not be opened.
    OpenFailed { path: String, error: CallError },
    /// The keyboard loop lost the engine.
    KeyboardLoopFailed { error: CallError },
    /// Something was reported that had not been asked for.
    OutOfOrder,
}

/// The state of the start of a session.
#[derive(Debug, PartialEq, Eq)]
pub struct Bootstrap {
    phase: Phase,
    file_path: String,
    engine_config_dir: String,
    keymap: Keymap,
    controller: Option<InputController>,
    diagnostic: Option<Diagnostic>,
}

/// The state as a mathematical value.
pub ghost struct BootstrapModel {
    pub phase: Phase,
    /// The file to open.
    pub file_path: Seq<char>,
    /// Where the engine finds its configuration, once that is known.
    pub engine_config_dir: Seq<char>,
    /// The keybinding table, from when it is loaded until the keyboard
    /// loop takes it over.
    pub keymap: Seq<BindingModel>,
    /// The keyboard loop's state, once the file is open.
    pub controller: Option<InputModel>,
    /// Why the session failed, if it did.
    pub diagnostic: Option<Diagnostic>,
}

/// Whether what was found of the configuration lets the session go on: a
/// configuration directory is known, and the keybinding file is missing or
/// stands for a table.
pub open spec fn config_accepted(source: Option<ConfigSource>) -> bool {
    match source {
        None => false,
        Some(found) => match found.keyboard_file {
            FileRead::Missing => true,
            FileRead::Unreadable(_) => false,
            FileRead::Contents(text) => keymap_of(text@) is Ok,
        },
    }
}

/// The keybinding table of an accepted configuration: the built-in one
/// where the file is missing, else the one that the file stands for.
pub open spec fn config_keymap(found: ConfigSource) -> Seq<BindingModel> {
    match found.keyboard_file {
        FileRead::Contents(text) => keymap_of(text@).unwrap(),
        _ => default_bindings(),
    }
}

/// The phase that follows when `event` is reported in `phase`. Every
/// failure, and every event that was not asked for, ends the session.
pub open spec fn next_phase(phase: Phase, event: Event) -> Phase {
    match (phase, event) {
        (Phase::Fresh, Event::Begin) => Phase::Locating,
        (Phase::Locating, Event::ConfigLocated(source)) => if config_accepted(source) {
            Phase::Spawning
        } else {
            Phase::Finished
        },
        (Phase::Spawning, Event::EngineSpawned(Ok(_))) => Phase::Announcing,
        (Phase::Announcing, Event::Announced) => Phase::Starting,
        (Phase::Starting, Event::EventLoopStarted) => Phase::Opening,
        (Phase::Opening, Event::Opened(Ok(answer))) => if json_string(answer@) is Some {
            Phase::Running
        } else {
            Phase::Finished
        },
        (Phase::Running, Event::KeyboardEnded(end)) => if end.transport_lost() {
            Phase::Finished
        } else {
            Phase::Joining
        },
        _ => Phase::Finished,
    }
}

/// What the caller is told to do when `event` is reported in `phase`. The
/// exit status is 0 only where the keyboard loop ended of itself and the
/// event loop's thread has finished; every other exit has status 1.
pub open spec fn react(phase: Phase, event: Event) -> Action {
    match (phase, event) {
        (Phase::Joining, Event::EventLoopJoined) => Action::Exit { status: 0 },
        _ => match next_phase(phase, event) {
            Phase::Fresh => Action::Exit { status: 1 },
            Phase::Locating => Action::LocateConfig,
            Phase::Spawning => Action::SpawnEngine,
            Phase::Announcing => Action::Announce,
            Phase::Starting => Action::StartEventLoop,
            Phase::Opening => Action::Open,
            Phase::Running => Action::RunKeyboardLoop,
            Phase::Joining => Action::JoinEventLoop,
            Phase::Finished => Action::Exit { status: 1 },
        },
    }
}

/// Whether `diagnostic` says why `event`, reported in state `m`, ended the
/// session with a failure.
pub open spec fn explains(m: BootstrapModel, event: Event, diagnostic: Diagnostic) -> bool {
    match (m.phase, event) {
        (Phase::Locating, Event::ConfigLocated(None)) => diagnostic is ConfigDirNotFound,
        (Phase::Locating, Event::ConfigLocated(Some(found))) => match found.keyboard_file {
            FileRead::Unreadable(reason) => diagnostic == (Diagnostic::ConfigUnreadable { reason }),
            FileRead::Contents(text) => diagnostic is ConfigRefused && refuses(
                text@,
                diagnostic->ConfigRefused_0,
            ),
            FileRead::Missing => false,
        },
        (Phase::Spawning, Event::EngineSpawned(Err(reason))) => diagnostic == (
            Diagnostic::EngineNotStarted { reason }),
        (Phase::Opening, Event::Opened(outcome)) => {
            &&& diagnostic is OpenFailed
            &&& diagnostic->OpenFailed_path@ == m.file_path
            &&& diagnostic->OpenFailed_error == match outcome {
                Err(error) => error,
                Ok(_) => CallError::InvalidResponse,
            }
        },
        (Phase::Running, Event::KeyboardEnded(end)) => end.cause() == Some(
            diagnostic->KeyboardLoopFailed_error,
        ) && diagnostic is KeyboardLoopFailed,
        _ => diagnostic is OutOfOrder,
    }
}

/// Whether `after` is the state that follows `before` when `event` is
/// reported.
pub open spec fn follows(before: BootstrapModel, event: Event, after: BootstrapModel) -> bool {
    let accepted = before.phase is Locating && event is ConfigLocated && config_accepted(
        event->ConfigLocated_0,
    );
    let opened = before.phase is Opening && event is Opened && event->Opened_0 is Ok
        && json_string(event->Opened_0->Ok_0@) is Some;
    &&& after.phase == next_phase(before.phase, event)
    &&& after.file_path == before.file_path
    &&& after.engine_config_dir == if accepted {
        event->ConfigLocated_0.unwrap().engine_config_dir@
    } else {
        before.engine_config_dir
    }
    &&& after.keymap == if accepted {
        config_keymap(event->ConfigLocated_0.unwrap())
    } else if opened {
        Seq::empty()
    } else {
        before.keymap
    }
    &&& after.controller == if opened {
        Some(
            InputModel {
                keymap: before.keymap,
                view_id: json_string(event->Opened_0->Ok_0@).unwrap(),
            },
        )
    } else {
        before.controller
    }
    &&& if react(before.phase, event) == (Action::Exit { status: 1 }) {
        after.diagnostic is Some && explains(before, event, after.diagnostic.unwrap())
    } else {
        after.diagnostic == before.diagnostic
    }
}

/// The phase that a session is in after these events, from the start.
pub open spec fn phase_after(events: Seq<Event>) -> Phase
    decreases events.len(),
{
    if events.len() == 0 {
        Phase::Fresh
    } else {
        next_phase(phase_after(events.drop_last()), events.last())
    }
}

/// What the caller is told to do on the event at `index`.
pub open spec fn action_at(events: Seq<Event>, index: int) -> Action {
    react(phase_after(events.take(index)), events[index])
}

/// The actions of a session in which nothing fails, in their order.
pub open spec fn order() -> Seq<Action> {
    seq![
        Action::LocateConfig,
        Action::SpawnEngine,
        Action::Announce,
        Action::StartEventLoop,
        Action::Open,
        Action::RunKeyboardLoop,
        Action::JoinEventLoop,
        Action::Exit { status: 0 },
    ]
}

/// How many steps lie before a phase in a session in which nothing fails.
pub open spec fn rank(phase: Phase) -> int {
    match phase {
        Phase::Fresh => 0,
        Phase::Locating => 1,
        Phase::Spawning => 2,
        Phase::Announcing => 3,
        Phase::Starting => 4,
        Phase::Opening => 5,
        Phase::Running => 6,
        Phase::Joining => 7,
        Phase::Finished => 8,
    }
}

/// After `n` events the session is finished, or it is in the phase of rank
/// `n` and every action so far was the one that the order names.
pub proof fn lemma_phases_in_order(events: Seq<Event>, n: int)
    requires
        0 <= n <= events.len(),
    ensures
        phase_after(events.take(n)) is Finished || {
            &&& rank(phase_after(events.take(n))) == n
            &&& forall|i: int| 0 <= i < n ==> action_at(events, i) == order()[i]
        },
        forall|i: int|
            0 <= i < n ==> action_at(events, i) == (Action::Exit { status: 1 }) || (i < 8
                && action_at(events, i) == order()[i] && forall|k: int|
                0 <= k < i ==> action_at(events, k) == order()[k]),
        forall|i: int|
            0 <= i < n && phase_after(events.take(i)) is Finished ==> phase_after(events.take(n))
                is Finished,
    decreases n,
{
    if n > 0 {
        lemma_phases_in_order(events, n - 1);
        assert(events.take(n).drop_last() =~= events.take(n - 1));
    }
}

/// Every action of a session is the next one of the fixed order, or an
/// exit with status 1. So the keybinding table is loaded before the engine
/// is started, the engine hears that a client has started before the file
/// is opened, the keyboard loop starts only once the file is open, and
/// status 0 comes only at the very end.
pub proof fn law_actions_in_order(events: Seq<Event>, index: int)
    requires
        0 <= index < events.len(),
    ensures
        action_at(events, index) == (Action::Exit { status: 1 }) || {
            &&& index < 8
            &&& action_at(events, index) == order()[index]
            &&& forall|i: int| 0 <= i < index ==> action_at(events, i) == order()[i]
        },
{
    lemma_phases_in_order(events, index + 1);
}

/// A keybinding file that is refused ends the session with status 1
/// before anything is said to the engine: the only action before was to
/// look for the configuration, and every later one is an exit with
/// status 1.
pub proof fn law_refused_config_is_fatal(events: Seq<Event>, index: int)
    requires
        0 <= index < events.len(),
        phase_after(events.take(index)) is Locating,
        events[index] is ConfigLocated,
        !config_accepted(events[index]->ConfigLocated_0),
    ensures
        index == 1,
        action_at(events, 0) == Action::LocateConfig,
        forall|later: int|
            index <= later < events.len() ==> action_at(events, later) == (Action::Exit {
                status: 1,
            }),
{
    lemma_phases_in_order(events, index);
    lemma_phases_in_order(events, index + 1);
    assert(events.take(index + 1).drop_last() =~= events.take(index));
    assert forall|later: int| index < later < events.len() implies action_at(events, later) == (
    Action::Exit { status: 1 }) by {
        lemma_phases_in_order(events, later);
    }
}

impl Diagnostic {
    /// The one line that tells the user why the session failed.
    pub open spec fn text(self) -> Seq<char> {
        match self {
            Diagnostic::ConfigDirNotFound => "failed to load the configuration: "@
                + "config dir not found"@,
            Diagnostic::ConfigUnreadable { reason } => "failed to load the configuration: "@
                + reason@,
            Diagnostic::ConfigRefused(failure) => "failed to load the configuration: "@ + (
            match failure.error {
                ConfigError::Syntax => failure.detail@,
                ConfigError::TooMuchStructure => "too many tables, arrays and dotted keys"@,
                ConfigError::BadKey { .. } => "unknown key pattern: "@ + failure.detail@,
                ConfigError::BadCommand { .. } => "unknown command: "@ + failure.detail@,
            }),
            Diagnostic::EngineNotStarted { reason } => "failed to start the engine: "@ + reason@,
            Diagnostic::OpenFailed { path, error } => "failed to open "@ + path@ + ": "@
                + error.phrase(),
            Diagnostic::KeyboardLoopFailed { error } => "an error occured: "@ + error.phrase(),
            Diagnostic::OutOfOrder => "an error occured: "@ + "the startup sequence was broken"@,
        }
    }

    /// Writes the one line that tells the user why the session failed.
    pub fn message(&self) -> (line: String)
        ensures
            line@ == self.text(),
    {
        match self {
            Diagnostic::ConfigDirNotFound => "failed to load the configuration: ".to_owned().concat(
                "config dir not found",
            ),
            Diagnostic::ConfigUnreadable { reason } => {
                "failed to load the configuration: ".to_owned().concat(reason.as_str())
            },
            Diagnostic::ConfigRefused(failure) => {
                let line = "failed to load the configuration: ".to_owned();
                match failure.error {
                    ConfigError::Syntax => line.concat(failure.detail.as_str()),
                    ConfigError::TooMuchStructure => {
                        line.concat("too many tables, arrays and dotted keys")
                    },
                    ConfigError::BadKey { .. } => {
                        let line = line.concat("unknown key pattern: ");
                        let line = line.concat(failure.detail.as_str());
                        line
                    },
                    ConfigError::BadCommand { .. } => {
                        let line = line.concat("unknown command: ");
                        let line = line.concat(failure.detail.as_str());
                        line
                    },
                }
            },
            Diagnostic::EngineNotStarted { reason } => {
                "failed to start the engine: ".to_owned().concat(reason.as_str())
            },
            Diagnostic::OpenFailed { path, error } => {
                let line = "failed to open ".to_owned().concat(path.as_str()).concat(": ");
                let phrase = error.to_text();
                line.concat(phrase.as_str())
            },
            Diagnostic::KeyboardLoopFailed { error } => {
                let phrase = error.to_text();
                "an error occured: ".to_owned().concat(phrase.as_str())
            },
            Diagnostic::OutOfOrder => "an error occured: ".to_owned().concat(
                "the startup sequence was broken",
            ),
        }
    }
}

impl Bootstrap {
    /// The state as a mathematical value.
    pub closed spec fn view(&self) -> BootstrapModel {
        BootstrapModel {
            phase: self.phase,
            file_path: self.file_path@,
            engine_config_dir: self.engine_config_dir@,
            keymap: self.keymap@,
            controller: match self.controller {
                Some(controller) => Some(controller@),
                None => None,
            },
            diagnostic: self.diagnostic,
        }
    }

    /// The state of a session that is to open `file_path`, before anything
    /// is done.
    pub fn new(file_path: String) -> (bootstrap: Self)
        ensures
            bootstrap@ == (BootstrapModel {
                phase: Phase::Fresh,
                file_path: file_path@,
                engine_config_dir: Seq::empty(),
                keymap: Seq::empty(),
                controller: None,
                diagnostic: None,
            }),
    {
        Bootstrap {
            phase: Phase::Fresh,
            file_path,
            engine_config_dir: String::new(),
            keymap: Keymap::new(),
            controller: None,
            diagnostic: None,
        }
    }

    /// How far the start of the session has come.
    pub fn phase(&self) -> (phase: Phase)
        ensures
            phase == self@.phase,
    {
        self.phase
    }

    /// The notification that tells the engine that a client has started.
    pub fn announcement(&self) -> (call: Call)
        ensures
            call@ == client_started_call(self@.engine_config_dir),
    {
        client_started(self.engine_config_dir.clone())
    }

    /// The one request that opens the file.
    pub fn opening(&self) -> (call: Call)
        ensures
            call@ == open_file_call(self@.file_path),
    {
        open_file(self.file_path.clone())
    }

    /// The keyboard loop's state, once the file is open.
    pub fn controller(&self) -> (controller: Option<&InputController>)
        ensures
            match controller {
                Some(c) => self@.controller == Some(c@),
                None => self@.controller is None,
            },
    {
        self.controller.as_ref()
    }

    /// Why the session failed, if it did.
    pub fn diagnostic(&self) -> (diagnostic: Option<&Diagnostic>)
        ensures
            match diagnostic {
                Some(d) => self@.diagnostic == Some(*d),
                None => self@.diagnostic is None,
            },
    {
        self.diagnostic.as_ref()
    }

    /// Ends the session with a failure.
    fn fail(&mut self, diagnostic: Diagnostic) -> (action: Action)
        ensures
            action == (Action::Exit { status: 1 }),
            final(self)@ == (BootstrapModel {
                phase: Phase::Finished,
                diagnostic: Some(diagnostic),
                ..old(self)@
            }),
    {
        self.phase = Phase::Finished;
        self.diagnostic = Some(diagnostic);
        Action::Exit { status: 1 }
    }

    /// Takes in what came of the last action and decides the next one. The
    /// keybinding table is loaded before anything is said to the engine;
    /// the engine is told that a client has started before the file is
    /// opened; the keyboard loop runs only once the file is open; and the
    /// process exits with status 0 only after the keyboard loop has ended
    /// of itself and the event loop's thread has finished.
    pub fn step(&mut self, event: Event) -> (action: Action)
        ensures
            action == react(old(self)@.phase, event),
            follows(old(self)@, event, final(self)@),
    {
        match (self.phase, event) {
            (Phase::Fresh, Event::Begin) => {
                self.phase = Phase::Locating;
                Action::LocateConfig
            },
            (Phase::Locating, Event::ConfigLocated(None)) => self.fail(
                Diagnostic::ConfigDirNotFound,
            ),
            (Phase::Locating, Event::ConfigLocated(Some(found))) => {
                let ConfigSource { engine_config_dir, keyboard_file } = found;
                let loaded = match keyboard_file {
                    FileRead::Missing => load_keymap(None),
                    FileRead::Unreadable(reason) => {
                        return self.fail(Diagnostic::ConfigUnreadable { reason });
                    },
                    FileRead::Contents(text) => load_keymap(Some(text.as_str())),
                };
                match loaded {
                    Ok(keymap) => {
                        self.keymap = keymap;
                        self.engine_config_dir = engine_config_dir;
                        self.phase = Phase::Spawning;
                        Action::SpawnEngine
                    },
                    Err(failure) => self.fail(Diagnostic::ConfigRefused(failure)),
                }
            },
            (Phase::Spawning, Event::EngineSpawned(Ok(_))) => {
                self.phase = Phase::Announcing;
                Action::Announce
            },
            (Phase::Spawning, Event::EngineSpawned(Err(reason))) => self.fail(
                Diagnostic::EngineNotStarted { reason },
            ),
            (Phase::Announcing, Event::Announced) => {
                self.phase = Phase::Starting;
                Action::StartEventLoop
            },
            (Phase::Starting, Event::EventLoopStarted) => {
                self.phase = Phase::Opening;
                Action::Open
            },
            (Phase::Opening, Event::Opened(Ok(answer))) => {
                match unquote(answer.as_str()) {
                    Some(view_id) => {
                        let mut keymap = Keymap::new();
                        std::mem::swap(&mut self.keymap, &mut keymap);
                        self.controller = Some(InputController::new(keymap, view_id));
                        self.phase = Phase::Running;
                        Action::RunKeyboardLoop
                    },
                    None => {
                        let path = self.file_path.clone();
                        self.fail(Diagnostic::OpenFailed { path, error: CallError::InvalidResponse })
                    },
                }
            },
            (Phase::Opening, Event::Opened(Err(error))) => {
                let path = self.file_path.clone();
                self.fail(Diagnostic::OpenFailed { path, error })
            },
            (Phase::Running, Event::KeyboardEnded(end)) => {
                match end {
                    LoopEnd::WriteFailed => self.fail(
                        Diagnostic::KeyboardLoopFailed { error: CallError::WriteFailed },
                    ),
                    LoopEnd::ConnectionClosed => self.fail(
                        Diagnostic::KeyboardLoopFailed { error: CallError::ConnectionClosed },
                    ),
                    _ => {
                        self.phase = Phase::Joining;
                        Action::JoinEventLoop
                    },
                }
            },
            (Phase::Joining, Event::EventLoopJoined) => {
                self.phase = Phase::Finished;
                Action::Exit { status: 0 }
            },
            _ => self.fail(Diagnostic::OutOfOrder),
        }
    }
}

} // verus!
