use std::collections::BTreeMap;

use vixi::bootstrap::{
    Action, Bootstrap, ConfigSource, Diagnostic, Event, FileRead, Phase, ENGINE_CONFIG_DIR,
    KEYBOARD_FILE, LOG_FILE,
};
use vixi::frame::{CallError, Frame, Reply};
use vixi::input::{
    client_started, open_file, settle, Call, InputController, KeyAction, LoopEnd, Params,
};
use vixi::keymap::{CallMode, Command, ConfigError, ConfigFailure, Keymap};
use vixi::keys::Key;
use vixi::render::{classify, Notice};
use vixi::session::{LoopAction, SendError, Session};

fn found(keyboard_file: FileRead) -> Event {
    Event::ConfigLocated(Some(ConfigSource {
        engine_config_dir: "/home/u/.config/xi".to_string(),
        keyboard_file,
    }))
}

fn edit(method: &str, mode: CallMode) -> KeyAction {
    KeyAction::Send(Call {
        params: Params::Edit { view_id: "view-id-1".to_string(), method: method.to_string() },
        mode,
    })
}

/// Takes a session to the point where the file is being opened.
fn until_opening(keyboard_file: FileRead) -> Bootstrap {
    let mut bootstrap = Bootstrap::new("test.txt".to_string());
    assert_eq!(bootstrap.step(Event::Begin), Action::LocateConfig);
    assert_eq!(bootstrap.step(found(keyboard_file)), Action::SpawnEngine);
    assert_eq!(bootstrap.step(Event::EngineSpawned(Ok(()))), Action::Announce);
    assert_eq!(bootstrap.step(Event::Announced), Action::StartEventLoop);
    assert_eq!(bootstrap.step(Event::EventLoopStarted), Action::Open);
    bootstrap
}

#[test]
fn session_without_configuration_file_runs_to_status_zero() {
    let mut bootstrap = Bootstrap::new("test.txt".to_string());
    let mut session = Session::new();
    assert_eq!(bootstrap.phase(), Phase::Fresh);
    assert_eq!(bootstrap.step(Event::Begin), Action::LocateConfig);
    assert_eq!(bootstrap.step(found(FileRead::Missing)), Action::SpawnEngine);
    assert_eq!(bootstrap.step(Event::EngineSpawned(Ok(()))), Action::Announce);
    assert_eq!(
        bootstrap.announcement(),
        Call {
            params: Params::ClientStarted { config_dir: "/home/u/.config/xi".to_string() },
            mode: CallMode::Notification,
        }
    );
    assert_eq!(bootstrap.step(Event::Announced), Action::StartEventLoop);
    assert_eq!(bootstrap.step(Event::EventLoopStarted), Action::Open);

    // Exactly one request opens the file.
    let call = bootstrap.opening();
    assert_eq!(
        call,
        Call { params: Params::NewView { file_path: "test.txt".to_string() }, mode: CallMode::Request }
    );
    assert_eq!(call.method(), "new_view");
    let frame = session.send(&call).unwrap();
    assert_eq!(
        frame,
        Frame::Request {
            id: 0,
            method: "new_view".to_string(),
            params: "{\"file_path\":\"test.txt\"}".to_string()
        }
    );
    assert_eq!(session.outstanding(), 1);
    let reply = match session
        .on_frame(Frame::Response { id: 0, reply: Reply::Result("\"view-id-1\"".to_string()) })
    {
        LoopAction::Deliver { id: 0, reply } => reply,
        other => panic!("not delivered: {:?}", other),
    };
    assert_eq!(session.outstanding(), 0);
    assert!(bootstrap.controller().is_none());
    assert_eq!(bootstrap.step(Event::Opened(reply.into_outcome())), Action::RunKeyboardLoop);
    assert_eq!(bootstrap.phase(), Phase::Running);

    // The keyboard loop uses the built-in bindings, and ends with the input.
    let controller = bootstrap.controller().unwrap();
    assert_eq!(controller.on_event(Some(Key::Left)), edit("move_left", CallMode::Notification));
    assert_eq!(controller.on_event(Some(Key::Char('x'))), KeyAction::Ignore);
    assert_eq!(controller.on_event(None), KeyAction::Stop(LoopEnd::KeyboardClosed));
    assert_eq!(bootstrap.step(Event::KeyboardEnded(LoopEnd::KeyboardClosed)), Action::JoinEventLoop);
    assert_eq!(bootstrap.step(Event::EventLoopJoined), Action::Exit { status: 0 });
    assert_eq!(bootstrap.phase(), Phase::Finished);
    assert!(bootstrap.diagnostic().is_none());
}

#[test]
fn engine_that_exits_at_once_fails_the_open_with_status_one() {
    let mut bootstrap = until_opening(FileRead::Missing);
    let mut session = Session::new();
    session.send(&bootstrap.opening()).unwrap();
    assert_eq!(session.close(), vec![0]);
    let outcome: Result<String, CallError> = Err(CallError::ConnectionClosed);
    assert_eq!(bootstrap.step(Event::Opened(outcome)), Action::Exit { status: 1 });
    assert_eq!(
        bootstrap.diagnostic(),
        Some(&Diagnostic::OpenFailed {
            path: "test.txt".to_string(),
            error: CallError::ConnectionClosed
        })
    );
    assert_eq!(
        bootstrap.diagnostic().unwrap().message(),
        "failed to open test.txt: the connection to the engine is closed"
    );
    assert!(bootstrap.controller().is_none());
}

#[test]
fn refused_open_is_fatal() {
    let mut bootstrap = until_opening(FileRead::Missing);
    let outcome = Err(CallError::Refused("\"no such file\"".to_string()));
    assert_eq!(bootstrap.step(Event::Opened(outcome)), Action::Exit { status: 1 });
    assert_eq!(
        bootstrap.diagnostic().unwrap().message(),
        "failed to open test.txt: the engine refused the call: \"no such file\""
    );
}

#[test]
fn unparseable_keybinding_ends_the_session_before_the_engine_is_started() {
    let mut bootstrap = Bootstrap::new("test.txt".to_string());
    assert_eq!(bootstrap.step(Event::Begin), Action::LocateConfig);
    let file = FileRead::Contents("sideways = \"quit\"\n".to_string());
    assert_eq!(bootstrap.step(found(file)), Action::Exit { status: 1 });
    assert_eq!(bootstrap.phase(), Phase::Finished);
    assert_eq!(
        bootstrap.diagnostic(),
        Some(&Diagnostic::ConfigRefused(ConfigFailure {
            error: ConfigError::BadKey { entry: 0 },
            detail: "sideways".to_string()
        }))
    );
    assert_eq!(
        bootstrap.diagnostic().unwrap().message(),
        "failed to load the configuration: unknown key pattern: sideways"
    );
    // Nothing that is reported afterwards starts anything.
    assert_eq!(bootstrap.step(Event::EngineSpawned(Ok(()))), Action::Exit { status: 1 });
    assert_eq!(bootstrap.step(Event::Announced), Action::Exit { status: 1 });
}

#[test]
fn configuration_failures_in_words() {
    let mut bootstrap = Bootstrap::new("f".to_string());
    bootstrap.step(Event::Begin);
    assert_eq!(bootstrap.step(Event::ConfigLocated(None)), Action::Exit { status: 1 });
    assert_eq!(bootstrap.diagnostic(), Some(&Diagnostic::ConfigDirNotFound));
    assert_eq!(
        bootstrap.diagnostic().unwrap().message(),
        "failed to load the configuration: config dir not found"
    );

    let mut bootstrap = Bootstrap::new("f".to_string());
    bootstrap.step(Event::Begin);
    let file = FileRead::Unreadable("permission denied".to_string());
    assert_eq!(bootstrap.step(found(file)), Action::Exit { status: 1 });
    assert_eq!(
        bootstrap.diagnostic().unwrap().message(),
        "failed to load the configuration: permission denied"
    );

    let mut bootstrap = Bootstrap::new("f".to_string());
    bootstrap.step(Event::Begin);
    let file = FileRead::Contents("a = \"leave\"".to_string());
    assert_eq!(bootstrap.step(found(file)), Action::Exit { status: 1 });
    assert_eq!(
        bootstrap.diagnostic().unwrap().message(),
        "failed to load the configuration: unknown command: leave"
    );

    let mut bootstrap = Bootstrap::new("f".to_string());
    bootstrap.step(Event::Begin);
    let file = FileRead::Contents("a = [[[[[[[[[[[[[[[[[[[[[[[[[[[[[[[[[[[[[[[[[[[[[[[[[[[[[[[[[[[[[[[[[[[[[[".to_string());
    assert_eq!(bootstrap.step(found(file)), Action::Exit { status: 1 });
    assert_eq!(
        bootstrap.diagnostic().unwrap().message(),
        "failed to load the configuration: too many tables, arrays and dotted keys"
    );

    let mut bootstrap = Bootstrap::new("f".to_string());
    bootstrap.step(Event::Begin);
    let file = FileRead::Contents("a = ".to_string());
    assert_eq!(bootstrap.step(found(file)), Action::Exit { status: 1 });
    let reason = toml::from_str::<BTreeMap<String, String>>("a = ").unwrap_err().to_string();
    assert_eq!(
        bootstrap.diagnostic().unwrap().message(),
        format!("failed to load the configuration: {}", reason)
    );
}

#[test]
fn configuration_file_replaces_the_built_in_bindings() {
    let file = FileRead::Contents("x = \"request:cut\"\nq = \"quit\"\n".to_string());
    let mut bootstrap = until_opening(file);
    assert_eq!(
        bootstrap.step(Event::Opened(Ok("\"view-id-1\"".to_string()))),
        Action::RunKeyboardLoop
    );
    let controller = bootstrap.controller().unwrap();
    assert_eq!(controller.on_key(Key::Char('x')), edit("cut", CallMode::Request));
    assert_eq!(controller.on_key(Key::Char('q')), KeyAction::Stop(LoopEnd::QuitRequested));
    assert_eq!(controller.on_key(Key::Left), KeyAction::Ignore);
}

#[test]
fn answer_to_the_open_that_names_no_view_is_fatal() {
    for answer in ["1", "null", "{\"view\":1}", "\"a\" \"b\"", ""] {
        let mut bootstrap = until_opening(FileRead::Missing);
        assert_eq!(
            bootstrap.step(Event::Opened(Ok(answer.to_string()))),
            Action::Exit { status: 1 }
        );
        assert_eq!(
            bootstrap.diagnostic().unwrap().message(),
            "failed to open test.txt: the engine sent an invalid response"
        );
    }
}

#[test]
fn view_identifier_is_read_from_the_answer() {
    let mut bootstrap = until_opening(FileRead::Missing);
    let answer = " \"view \\\"1\\\" \\u00e9\" ".to_string();
    assert_eq!(bootstrap.step(Event::Opened(Ok(answer))), Action::RunKeyboardLoop);
    let action = bootstrap.controller().unwrap().on_key(Key::Left);
    assert_eq!(
        action,
        KeyAction::Send(Call {
            params: Params::Edit {
                view_id: "view \"1\" é".to_string(),
                method: "move_left".to_string()
            },
            mode: CallMode::Notification,
        })
    );
}

#[test]
fn payloads_are_json_objects() {
    assert_eq!(
        client_started("/home/u/.config/xi".to_string()).payload(),
        "{\"config_dir\":\"/home/u/.config/xi\"}"
    );
    assert_eq!(open_file("test.txt".to_string()).payload(), "{\"file_path\":\"test.txt\"}");
    assert_eq!(
        open_file("a \"b\"\\c\n.txt".to_string()).payload(),
        "{\"file_path\":\"a \\\"b\\\"\\\\c\\n.txt\"}"
    );
    let call = Call {
        params: Params::Edit { view_id: "view-id-1".to_string(), method: "move_left".to_string() },
        mode: CallMode::Notification,
    };
    assert_eq!(
        call.payload(),
        "{\"method\":\"move_left\",\"params\":[],\"view_id\":\"view-id-1\"}"
    );
}

#[test]
fn calls_go_out_in_their_mode() {
    let mut session = Session::new();
    assert_eq!(
        session.send(&client_started("/c/xi".to_string())),
        Ok(Frame::Notification {
            method: "client_started".to_string(),
            params: "{\"config_dir\":\"/c/xi\"}".to_string()
        })
    );
    assert_eq!(session.outstanding(), 0);
    assert_eq!(
        session.send(&open_file("f".to_string())),
        Ok(Frame::Request {
            id: 0,
            method: "new_view".to_string(),
            params: "{\"file_path\":\"f\"}".to_string()
        })
    );
    assert_eq!(session.outstanding(), 1);
    session.close();
    assert_eq!(session.send(&open_file("f".to_string())), Err(SendError::ConnectionClosed));
    assert_eq!(
        session.send(&client_started("/c/xi".to_string())),
        Err(SendError::ConnectionClosed)
    );
}

#[test]
fn typed_line_feed_and_tabulator_count_as_keys() {
    assert_eq!(Key::Char('\n').normalized(), Key::Enter);
    assert_eq!(Key::Char('\t').normalized(), Key::Tab);
    assert_eq!(Key::Char('a').normalized(), Key::Char('a'));
    assert_eq!(Key::Ctrl('\n').normalized(), Key::Ctrl('\n'));
    assert_eq!(Key::Left.normalized(), Key::Left);
    let controller = InputController::new(Keymap::with_defaults(), "v".to_string());
    assert_eq!(
        controller.on_key(Key::Char('\n')),
        KeyAction::Send(Call {
            params: Params::Edit { view_id: "v".to_string(), method: "insert_newline".to_string() },
            mode: CallMode::Notification,
        })
    );
}

#[test]
fn binding_of_a_typed_line_feed_fires() {
    let file = FileRead::Contents("\"\\n\" = \"notify:open_line\"\n".to_string());
    let mut bootstrap = until_opening(file);
    bootstrap.step(Event::Opened(Ok("\"view-id-1\"".to_string())));
    let controller = bootstrap.controller().unwrap();
    assert_eq!(controller.on_key(Key::Char('\n')), edit("open_line", CallMode::Notification));
    assert_eq!(controller.on_key(Key::Enter), edit("open_line", CallMode::Notification));
}

#[test]
fn configuration_with_marks_in_comments_and_strings_is_loaded() {
    let mut text = String::from("# ");
    for _ in 0..100 {
        text.push_str(".[{");
    }
    text.push_str("\nx = \"request:a.b.c.d\"\n");
    let mut bootstrap = until_opening(FileRead::Contents(text));
    bootstrap.step(Event::Opened(Ok("\"view-id-1\"".to_string())));
    let controller = bootstrap.controller().unwrap();
    assert_eq!(controller.on_key(Key::Char('x')), edit("a.b.c.d", CallMode::Request));
}

#[test]
fn engine_that_cannot_be_started_is_fatal() {
    let mut bootstrap = Bootstrap::new("f".to_string());
    bootstrap.step(Event::Begin);
    bootstrap.step(found(FileRead::Missing));
    let event = Event::EngineSpawned(Err("No such file or directory".to_string()));
    assert_eq!(bootstrap.step(event), Action::Exit { status: 1 });
    assert_eq!(
        bootstrap.diagnostic().unwrap().message(),
        "failed to start the engine: No such file or directory"
    );
}

#[test]
fn lost_transport_ends_the_keyboard_loop_with_status_one() {
    let mut bootstrap = until_opening(FileRead::Missing);
    bootstrap.step(Event::Opened(Ok("\"view-id-1\"".to_string())));
    assert_eq!(
        bootstrap.step(Event::KeyboardEnded(LoopEnd::ConnectionClosed)),
        Action::Exit { status: 1 }
    );
    assert_eq!(
        bootstrap.diagnostic().unwrap().message(),
        "an error occured: the connection to the engine is closed"
    );

    let mut bootstrap = until_opening(FileRead::Missing);
    bootstrap.step(Event::Opened(Ok("\"view-id-1\"".to_string())));
    assert_eq!(
        bootstrap.step(Event::KeyboardEnded(LoopEnd::WriteFailed)),
        Action::Exit { status: 1 }
    );
    assert_eq!(
        bootstrap.diagnostic().unwrap().message(),
        "an error occured: the call could not be written to the engine"
    );
}

#[test]
fn quit_ends_the_session_with_status_zero() {
    let mut bootstrap = until_opening(FileRead::Missing);
    bootstrap.step(Event::Opened(Ok("\"view-id-1\"".to_string())));
    assert_eq!(
        bootstrap.controller().unwrap().on_key(Key::Ctrl('q')),
        KeyAction::Stop(LoopEnd::QuitRequested)
    );
    assert_eq!(bootstrap.step(Event::KeyboardEnded(LoopEnd::QuitRequested)), Action::JoinEventLoop);
    assert_eq!(bootstrap.step(Event::EventLoopJoined), Action::Exit { status: 0 });
}

#[test]
fn event_that_was_not_asked_for_ends_the_session() {
    let mut bootstrap = Bootstrap::new("f".to_string());
    assert_eq!(bootstrap.step(Event::EventLoopJoined), Action::Exit { status: 1 });
    assert_eq!(bootstrap.diagnostic(), Some(&Diagnostic::OutOfOrder));
    assert_eq!(
        bootstrap.diagnostic().unwrap().message(),
        "an error occured: the startup sequence was broken"
    );
    assert_eq!(bootstrap.step(Event::Begin), Action::Exit { status: 1 });

    let mut bootstrap = Bootstrap::new("f".to_string());
    bootstrap.step(Event::Begin);
    assert_eq!(
        bootstrap.step(Event::Opened(Ok("\"view-id-1\"".to_string()))),
        Action::Exit { status: 1 }
    );
}

#[test]
fn calls_that_start_a_session() {
    let call = client_started("/c/xi".to_string());
    assert_eq!(call.method(), "client_started");
    assert_eq!(call.mode, CallMode::Notification);
    assert_eq!(call.params, Params::ClientStarted { config_dir: "/c/xi".to_string() });
    let call = open_file("a b.txt".to_string());
    assert_eq!(call.method(), "new_view");
    assert_eq!(call.mode, CallMode::Request);
    assert_eq!(call.params, Params::NewView { file_path: "a b.txt".to_string() });
}

#[test]
fn key_presses_become_edit_calls() {
    let mut keymap = Keymap::new();
    keymap.bind(Key::Char('h'), Command::Call { method: "move_left".to_string(), mode: CallMode::Notification });
    keymap.bind(Key::Char('y'), Command::Call { method: "copy".to_string(), mode: CallMode::Request });
    keymap.bind(Key::Esc, Command::Quit);
    let controller = InputController::new(keymap, "view-id-1".to_string());
    let action = controller.on_key(Key::Char('h'));
    assert_eq!(action, edit("move_left", CallMode::Notification));
    if let KeyAction::Send(call) = action {
        assert_eq!(call.method(), "edit");
    }
    assert_eq!(controller.on_key(Key::Char('y')), edit("copy", CallMode::Request));
    assert_eq!(controller.on_key(Key::Esc), KeyAction::Stop(LoopEnd::QuitRequested));
    assert_eq!(controller.on_key(Key::Char('z')), KeyAction::Ignore);
    assert_eq!(controller.on_event(None), KeyAction::Stop(LoopEnd::KeyboardClosed));
}

#[test]
fn only_a_lost_transport_ends_the_keyboard_loop() {
    assert_eq!(settle(&Ok("null".to_string())), None);
    assert_eq!(settle(&Err(CallError::Refused("{}".to_string()))), None);
    assert_eq!(settle(&Err(CallError::InvalidResponse)), None);
    assert_eq!(settle(&Err(CallError::WriteFailed)), Some(LoopEnd::WriteFailed));
    assert_eq!(settle(&Err(CallError::ConnectionClosed)), Some(LoopEnd::ConnectionClosed));
    assert!(LoopEnd::WriteFailed.is_transport_lost());
    assert!(LoopEnd::ConnectionClosed.is_transport_lost());
    assert!(!LoopEnd::KeyboardClosed.is_transport_lost());
    assert!(!LoopEnd::QuitRequested.is_transport_lost());
}

#[test]
fn unknown_notifications_are_tolerated() {
    assert_eq!(classify("update"), Notice::Update);
    assert_eq!(classify("scroll_to"), Notice::ScrollTo);
    assert_eq!(classify("def_style"), Notice::DefStyle);
    assert_eq!(classify("available_plugins"), Notice::Unknown);
    assert_eq!(classify(""), Notice::Unknown);
    assert_eq!(classify("Update"), Notice::Unknown);
    assert!(Notice::Update.needs_repaint());
    assert!(Notice::ScrollTo.needs_repaint());
    assert!(!Notice::DefStyle.needs_repaint());
    assert!(!Notice::Unknown.needs_repaint());
}

#[test]
fn well_known_paths() {
    assert_eq!(LOG_FILE, ".local/share/vixy/vixi.log");
    assert_eq!(ENGINE_CONFIG_DIR, "xi");
    assert_eq!(KEYBOARD_FILE, "vixi/keyboard.toml");
}
