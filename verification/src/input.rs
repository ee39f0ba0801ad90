//! The input controller: what is sent to the engine to open a file, and
//! what each key press leads to.

use crate::frame::CallError;
use crate::keymap::{command_for, BindingModel, CallMode, Command, CommandModel, Keymap};
use crate::keys::Key;
use crate::wire::{json_text, quote};
use vstd::prelude::*;
use vstd::string::*;

verus! {

/// The payload of a call, by the method that it belongs to.
#[derive(Debug, PartialEq, Eq)]
pub enum Params {
    /// `client_started`: where the engine finds its configuration.
    ClientStarted { config_dir: String },
    /// `new_view`: the file to open.
    NewView { file_path: String },
    /// `edit`: the view that the command is for, and the command.
    Edit { view_id: String, method: String },
}

/// A call to make on the engine.
#[derive(Debug, PartialEq, Eq)]
pub struct Call {
    pub params: Params,
    pub mode: CallMode,
}

/// A payload as a mathematical value.
pub ghost enum ParamsModel {
    ClientStarted { config_dir: Seq<char> },
    NewView { file_path: Seq<char> },
    Edit { view_id: Seq<char>, method: Seq<char> },
}

/// A call as a mathematical value.
pub ghost struct CallModel {
    pub params: ParamsModel,
    pub mode: CallMode,
}

/// Why the keyboard loop ended.
#[derive(Clone, Copy, Debug, PartialEq, Eq, Structural)]
pub enum LoopEnd {
    /// The keyboard source has no more events.
    KeyboardClosed,
    /// A key asked to quit.
    QuitRequested,
    /// A call could not be written to the engine.
    WriteFailed,
    /// The connection to the engine ended.
    ConnectionClosed,
}

/// What the keyboard loop does next.
#[derive(Debug, PartialEq, Eq)]
pub enum KeyAction {
    /// Make this call, then report how it went.
    Send(Call),
    /// Leave the loop.
    Stop(LoopEnd),
    /// Nothing: go on to the next event.
    Ignore,
}

/// A step of the keyboard loop as a mathematical value.
pub ghost enum KeyActionModel {
    Send(CallModel),
    Stop(LoopEnd),
    Ignore,
}

/// The keyboard loop's state: the table of bindings and the view that the
/// commands are for.
#[derive(Debug, PartialEq, Eq)]
pub struct InputController {
    keymap: Keymap,
    view_id: String,
}

/// The keyboard loop's state as a mathematical value.
pub ghost struct InputModel {
    pub keymap: Seq<BindingModel>,
    pub view_id: Seq<char>,
}

impl View for Params {
    type V = ParamsModel;

    open spec fn view(&self) -> ParamsModel {
        match *self {
            Params::ClientStarted { config_dir } => ParamsModel::ClientStarted {
                config_dir: config_dir@,
            },
            Params::NewView { file_path } => ParamsModel::NewView { file_path: file_path@ },
            Params::Edit { view_id, method } => ParamsModel::Edit {
                view_id: view_id@,
                method: method@,
            },
        }
    }
}

impl View for Call {
    type V = CallModel;

    open spec fn view(&self) -> CallModel {
        CallModel { params: self.params@, mode: self.mode }
    }
}

impl View for KeyAction {
    type V = KeyActionModel;

    open spec fn view(&self) -> KeyActionModel {
        match *self {
            KeyAction::Send(call) => KeyActionModel::Send(call@),
            KeyAction::Stop(end) => KeyActionModel::Stop(end),
            KeyAction::Ignore => KeyActionModel::Ignore,
        }
    }
}

impl ParamsModel {
    /// The name of the method that the payload belongs to.
    pub open spec fn method(self) -> Seq<char> {
        match self {
            ParamsModel::ClientStarted { .. } => "client_started"@,
            ParamsModel::NewView { .. } => "new_view"@,
            ParamsModel::Edit { .. } => "edit"@,
        }
    }
}

/// The payload of a call as the engine reads it: one JSON object, with the
/// strings quoted as JSON. An `edit` call names the command and the view,
/// and gives the command no arguments.
pub open spec fn payload_text(params: ParamsModel) -> Seq<char> {
    match params {
        ParamsModel::ClientStarted { config_dir } => "{\"config_dir\":"@ + json_text(config_dir)
            + "}"@,
        ParamsModel::NewView { file_path } => "{\"file_path\":"@ + json_text(file_path) + "}"@,
        ParamsModel::Edit { view_id, method } => "{\"method\":"@ + json_text(method)
            + ",\"params\":[],\"view_id\":"@ + json_text(view_id) + "}"@,
    }
}

impl Call {
    /// Writes the payload of the call as the engine reads it.
    pub fn payload(&self) -> (text: String)
        ensures
            text@ == payload_text(self@.params),
    {
        match &self.params {
            Params::ClientStarted { config_dir } => {
                let value = quote(config_dir.as_str());
                "{\"config_dir\":".to_owned().concat(value.as_str()).concat("}")
            },
            Params::NewView { file_path } => {
                let value = quote(file_path.as_str());
                "{\"file_path\":".to_owned().concat(value.as_str()).concat("}")
            },
            Params::Edit { view_id, method } => {
                let command = quote(method.as_str());
                let view = quote(view_id.as_str());
                "{\"method\":".to_owned().concat(command.as_str()).concat(
                    ",\"params\":[],\"view_id\":",
                ).concat(view.as_str()).concat("}")
            },
        }
    }

    /// The name of the method to call.
    pub fn method(&self) -> (name: &'static str)
        ensures
            name@ == self@.params.method(),
    {
        match self.params {
            Params::ClientStarted { .. } => "client_started",
            Params::NewView { .. } => "new_view",
            Params::Edit { .. } => "edit",
        }
    }
}

/// The notification that tells the engine that a client has started, and
/// where the engine's configuration lies.
pub open spec fn client_started_call(config_dir: Seq<char>) -> CallModel {
    CallModel { params: ParamsModel::ClientStarted { config_dir }, mode: CallMode::Notification }
}

/// The one request that opens a file.
pub open spec fn open_file_call(file_path: Seq<char>) -> CallModel {
    CallModel { params: ParamsModel::NewView { file_path }, mode: CallMode::Request }
}

/// What a key press leads to: nothing where the key that it counts as is
/// not bound, the end of the loop where it is bound to quitting, else an
/// `edit` call for the view, in the mode that the binding names.
pub open spec fn key_action(m: InputModel, key: Key) -> KeyActionModel {
    match command_for(m.keymap, key.canonical()) {
        None => KeyActionModel::Ignore,
        Some(CommandModel::Quit) => KeyActionModel::Stop(LoopEnd::QuitRequested),
        Some(CommandModel::Call { method, mode }) => KeyActionModel::Send(
            CallModel { params: ParamsModel::Edit { view_id: m.view_id, method }, mode },
        ),
    }
}

/// What the next event of the keyboard source leads to; `None` is the end
/// of the source.
pub open spec fn event_action(m: InputModel, event: Option<Key>) -> KeyActionModel {
    match event {
        None => KeyActionModel::Stop(LoopEnd::KeyboardClosed),
        Some(key) => key_action(m, key),
    }
}

/// Whether the keyboard loop ends after a call that went this way: only
/// where the transport is gone.
pub open spec fn loop_end_after(outcome: Result<String, CallError>) -> Option<LoopEnd> {
    match outcome {
        Err(CallError::WriteFailed) => Some(LoopEnd::WriteFailed),
        Err(CallError::ConnectionClosed) => Some(LoopEnd::ConnectionClosed),
        _ => None,
    }
}

impl LoopEnd {
    /// Whether the loop ended because the transport is gone.
    pub open spec fn transport_lost(self) -> bool {
        self is WriteFailed || self is ConnectionClosed
    }

    /// Whether the loop ended because the transport is gone.
    pub fn is_transport_lost(&self) -> (lost: bool)
        ensures
            lost == self.transport_lost(),
    {
        match self {
            LoopEnd::WriteFailed => true,
            LoopEnd::ConnectionClosed => true,
            _ => false,
        }
    }

    /// The error that ended the loop, where one did.
    pub open spec fn cause(self) -> Option<CallError> {
        match self {
            LoopEnd::WriteFailed => Some(CallError::WriteFailed),
            LoopEnd::ConnectionClosed => Some(CallError::ConnectionClosed),
            _ => None,
        }
    }
}

/// Makes the notification that tells the engine that a client has started.
pub fn client_started(config_dir: String) -> (call: Call)
    ensures
        call@ == client_started_call(config_dir@),
{
    Call { params: Params::ClientStarted { config_dir }, mode: CallMode::Notification }
}

/// Makes the one request that opens the file at `file_path`.
pub fn open_file(file_path: String) -> (call: Call)
    ensures
        call@ == open_file_call(file_path@),
{
    Call { params: Params::NewView { file_path }, mode: CallMode::Request }
}

/// Decides whether the keyboard loop goes on after a call. A call that the
/// engine refused, or answered badly, is no reason to stop; a transport
/// that is gone is.
pub fn settle(outcome: &Result<String, CallError>) -> (end: Option<LoopEnd>)
    ensures
        end == loop_end_after(*outcome),
{
    match outcome {
        Err(CallError::WriteFailed) => Some(LoopEnd::WriteFailed),
        Err(CallError::ConnectionClosed) => Some(LoopEnd::ConnectionClosed),
        _ => None,
    }
}

impl InputController {
    /// The state as a mathematical value.
    pub closed spec fn view(&self) -> InputModel {
        InputModel { keymap: self.keymap@, view_id: self.view_id@ }
    }

    /// The keyboard loop's state for a view that the engine has opened.
    pub fn new(keymap: Keymap, view_id: String) -> (controller: Self)
        ensures
            controller@ == (InputModel { keymap: keymap@, view_id: view_id@ }),
    {
        InputController { keymap, view_id }
    }

    /// Decides what a key press leads to.
    pub fn on_key(&self, key: Key) -> (action: KeyAction)
        ensures
            action@ == key_action(self@, key),
    {
        match self.keymap.lookup(key.normalized()) {
            None => KeyAction::Ignore,
            Some(command) => match command {
                Command::Quit => KeyAction::Stop(LoopEnd::QuitRequested),
                Command::Call { method, mode } => KeyAction::Send(
                    Call {
                        params: Params::Edit {
                            view_id: self.view_id.clone(),
                            method: method.clone(),
                        },
                        mode: *mode,
                    },
                ),
            },
        }
    }

    /// Decides what the next event of the keyboard source leads to; `None`
    /// is the end of the source, which ends the loop.
    pub fn on_event(&self, event: Option<Key>) -> (action: KeyAction)
        ensures
            action@ == event_action(self@, event),
    {
        match event {
            None => KeyAction::Stop(LoopEnd::KeyboardClosed),
            Some(key) => self.on_key(key),
        }
    }
}

} // verus!
