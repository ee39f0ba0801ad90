//! The keybinding table: which command each key stands for.

use crate::keys::{key_of, parse_key, Key};
use crate::text::{has_prefix, same_text, skip_chars, starts_with, tail};
use vstd::prelude::*;
use vstd::string::*;

verus! {

/// How a call is made.
#[derive(Clone, Copy, Debug, PartialEq, Eq, Structural)]
pub enum CallMode {
    /// The caller waits for the answer.
    Request,
    /// No answer is expected.
    Notification,
}

/// What a key press asks for.
#[derive(Debug, PartialEq, Eq)]
pub enum Command {
    /// End the keyboard loop.
    Quit,
    /// Make this call on the engine.
    Call { method: String, mode: CallMode },
}

/// A command as a mathematical value.
pub ghost enum CommandModel {
    Quit,
    Call { method: Seq<char>, mode: CallMode },
}

/// One line of the table.
#[derive(Debug, PartialEq, Eq)]
pub struct Binding {
    pub key: Key,
    pub command: Command,
}

/// A binding as a mathematical value.
pub ghost struct BindingModel {
    pub key: Key,
    pub command: CommandModel,
}

/// Why a keybinding file was refused.
#[derive(Clone, Copy, Debug, PartialEq, Eq, Structural)]
pub enum ConfigError {
    /// The text is not a table from strings to strings.
    Syntax,
    /// The text opens more tables, arrays and dotted keys than a keybinding
    /// file may. A table of bindings opens none.
    TooMuchStructure,
    /// The key pattern of this entry stands for no key.
    BadKey { entry: usize },
    /// The command description of this entry describes no command.
    BadCommand { entry: usize },
}

/// A refusal, with the text that caused it.
#[derive(Debug, PartialEq, Eq)]
pub struct ConfigFailure {
    pub error: ConfigError,
    pub detail: String,
}

/// The keybinding table. Where two bindings have the same key, the earlier
/// one counts.
#[derive(Debug, PartialEq, Eq)]
pub struct Keymap {
    bindings: Vec<Binding>,
}

impl View for Command {
    type V = CommandModel;

    open spec fn view(&self) -> CommandModel {
        match *self {
            Command::Quit => CommandModel::Quit,
            Command::Call { method, mode } => CommandModel::Call { method: method@, mode },
        }
    }
}

impl View for Binding {
    type V = BindingModel;

    open spec fn view(&self) -> BindingModel {
        BindingModel { key: self.key, command: self.command@ }
    }
}

/// The command that a description stands for: `quit` ends the loop,
/// `notify:` or `request:` before a method name is a call of that method.
/// Anything else describes no command.
pub open spec fn command_of(description: Seq<char>) -> Option<CommandModel> {
    if description == "quit"@ {
        Some(CommandModel::Quit)
    } else if starts_with(description, "notify:"@) && description.len() > "notify:"@.len() {
        Some(
            CommandModel::Call {
                method: tail(description, "notify:"@.len()),
                mode: CallMode::Notification,
            },
        )
    } else if starts_with(description, "request:"@) && description.len() > "request:"@.len() {
        Some(
            CommandModel::Call {
                method: tail(description, "request:"@.len()),
                mode: CallMode::Request,
            },
        )
    } else {
        None
    }
}

/// The binding that one entry of a keybinding file stands for, or why it
/// stands for none. The key pattern is looked at first.
pub open spec fn binding_of(entry: (Seq<char>, Seq<char>), index: int) -> Result<
    BindingModel,
    ConfigError,
> {
    match key_of(entry.0) {
        None => Err(ConfigError::BadKey { entry: index as usize }),
        Some(key) => match command_of(entry.1) {
            None => Err(ConfigError::BadCommand { entry: index as usize }),
            Some(command) => Ok(BindingModel { key, command }),
        },
    }
}

/// The table that the entries of a keybinding file stand for, in their
/// order, or the refusal of the first entry that stands for no binding.
pub open spec fn bindings_of(entries: Seq<(Seq<char>, Seq<char>)>) -> Result<
    Seq<BindingModel>,
    ConfigError,
>
    decreases entries.len(),
{
    if entries.len() == 0 {
        Ok(Seq::empty())
    } else {
        match bindings_of(entries.drop_last()) {
            Err(error) => Err(error),
            Ok(front) => match binding_of(entries.last(), entries.len() - 1) {
                Err(error) => Err(error),
                Ok(binding) => Ok(front.push(binding)),
            },
        }
    }
}

/// The text that a refusal quotes: the key pattern or the command
/// description of the entry that it names.
pub open spec fn quoted(entries: Seq<(Seq<char>, Seq<char>)>, error: ConfigError) -> Seq<char> {
    match error {
        ConfigError::BadKey { entry } if entry < entries.len() => entries[entry as int].0,
        ConfigError::BadCommand { entry } if entry < entries.len() => entries[entry as int].1,
        _ => Seq::empty(),
    }
}

/// Entries of a keybinding file as mathematical values.
pub open spec fn entries_view(entries: Seq<(String, String)>) -> Seq<(Seq<char>, Seq<char>)> {
    Seq::new(entries.len(), |i: int| (entries[i].0@, entries[i].1@))
}

/// Whether `index` is the first binding of `key`.
pub open spec fn bound_at(bindings: Seq<BindingModel>, key: Key, index: int) -> bool {
    &&& 0 <= index < bindings.len()
    &&& bindings[index].key == key
    &&& forall|j: int| 0 <= j < index ==> bindings[j].key != key
}

/// The command that `key` stands for: that of its first binding.
pub open spec fn command_for(bindings: Seq<BindingModel>, key: Key) -> Option<CommandModel> {
    if exists|i: int| bound_at(bindings, key, i) {
        Some(bindings[choose|i: int| bound_at(bindings, key, i)].command)
    } else {
        None
    }
}

/// The table that is used where no keybinding file exists.
pub open spec fn default_bindings() -> Seq<BindingModel> {
    seq![
        notify(Key::Left, "move_left"@),
        notify(Key::Right, "move_right"@),
        notify(Key::Up, "move_up"@),
        notify(Key::Down, "move_down"@),
        notify(Key::Home, "move_to_left_end_of_line"@),
        notify(Key::End, "move_to_right_end_of_line"@),
        notify(Key::PageUp, "scroll_page_up"@),
        notify(Key::PageDown, "scroll_page_down"@),
        notify(Key::Enter, "insert_newline"@),
        notify(Key::Tab, "insert_tab"@),
        notify(Key::Backspace, "delete_backward"@),
        notify(Key::Delete, "delete_forward"@),
        BindingModel {
            key: Key::Ctrl('c'),
            command: CommandModel::Call { method: "copy"@, mode: CallMode::Request },
        },
        BindingModel { key: Key::Ctrl('q'), command: CommandModel::Quit },
    ]
}

/// A binding of `key` to a notification.
pub open spec fn notify(key: Key, method: Seq<char>) -> BindingModel {
    BindingModel { key, command: CommandModel::Call { method, mode: CallMode::Notification } }
}

/// Reads a command description. Returns the command that it stands for,
/// and `None` where it stands for none.
pub fn parse_command(description: &str) -> (command: Option<Command>)
    ensures
        match command {
            Some(c) => command_of(description@) == Some(c@),
            None => command_of(description@) is None,
        },
{
    let len = description.unicode_len();
    let notify = "notify:";
    let request = "request:";
    let notify_len = notify.unicode_len();
    let request_len = request.unicode_len();
    if same_text(description, "quit") {
        Some(Command::Quit)
    } else if len > notify_len && has_prefix(description, notify) {
        Some(
            Command::Call {
                method: skip_chars(description, notify_len),
                mode: CallMode::Notification,
            },
        )
    } else if len > request_len && has_prefix(description, request) {
        Some(
            Command::Call { method: skip_chars(description, request_len), mode: CallMode::Request },
        )
    } else {
        None
    }
}

impl Keymap {
    /// The bindings, in their order.
    pub closed spec fn view(&self) -> Seq<BindingModel> {
        Seq::new(self.bindings@.len(), |i: int| self.bindings@[i]@)
    }

    /// A table without bindings.
    pub fn new() -> (keymap: Self)
        ensures
            keymap@ == Seq::<BindingModel>::empty(),
    {
        let keymap = Keymap { bindings: Vec::new() };
        keymap
    }

    /// How many bindings the table has.
    pub fn len(&self) -> (n: usize)
        ensures
            n == self@.len(),
    {
        self.bindings.len()
    }

    /// Adds a binding behind those that are there.
    pub fn bind(&mut self, key: Key, command: Command)
        ensures
            final(self)@ == old(self)@.push(BindingModel { key, command: command@ }),
    {
        self.bindings.push(Binding { key, command });
    }

    /// The command that `key` stands for, or `None` where the table has no
    /// binding of it.
    pub fn lookup(&self, key: Key) -> (command: Option<&Command>)
        ensures
            match command {
                Some(c) => command_for(self@, key) == Some(c@),
                None => command_for(self@, key) is None,
            },
    {
        let mut i: usize = 0;
        while i < self.bindings.len()
            invariant
                i <= self.bindings.len(),
                forall|j: int| 0 <= j < i ==> self@[j].key != key,
            decreases self.bindings.len() - i,
        {
            if self.bindings[i].key == key {
                proof {
                    assert(bound_at(self@, key, i as int));
                }
                return Some(&self.bindings[i].command);
            }
            i += 1;
        }
        proof {
            assert forall|k: int| !bound_at(self@, key, k) by {}
        }
        None
    }

    /// The table that is used where no keybinding file exists.
    pub fn with_defaults() -> (keymap: Self)
        ensures
            keymap@ == default_bindings(),
    {
        let mut keymap = Keymap::new();
        keymap.bind_notification(Key::Left, "move_left");
        keymap.bind_notification(Key::Right, "move_right");
        keymap.bind_notification(Key::Up, "move_up");
        keymap.bind_notification(Key::Down, "move_down");
        keymap.bind_notification(Key::Home, "move_to_left_end_of_line");
        keymap.bind_notification(Key::End, "move_to_right_end_of_line");
        keymap.bind_notification(Key::PageUp, "scroll_page_up");
        keymap.bind_notification(Key::PageDown, "scroll_page_down");
        keymap.bind_notification(Key::Enter, "insert_newline");
        keymap.bind_notification(Key::Tab, "insert_tab");
        keymap.bind_notification(Key::Backspace, "delete_backward");
        keymap.bind_notification(Key::Delete, "delete_forward");
        keymap.bind(
            Key::Ctrl('c'),
            Command::Call { method: "copy".to_owned(), mode: CallMode::Request },
        );
        keymap.bind(Key::Ctrl('q'), Command::Quit);
        keymap
    }

    /// Adds a binding of `key` to the notification `method`.
    pub fn bind_notification(&mut self, key: Key, method: &str)
        ensures
            final(self)@ == old(self)@.push(notify(key, method@)),
    {
        self.bind(key, Command::Call { method: method.to_owned(), mode: CallMode::Notification });
    }

    /// Builds the table from the entries of a keybinding file: one binding
    /// for each entry, in their order. The first entry whose key pattern or
    /// command description cannot be read refuses the whole file, and the
    /// refusal quotes that text.
    pub fn from_entries(entries: &Vec<(String, String)>) -> (table: Result<Keymap, ConfigFailure>)
        ensures
            match table {
                Ok(keymap) => bindings_of(entries_view(entries@)) == Ok::<
                    Seq<BindingModel>,
                    ConfigError,
                >(keymap@),
                Err(failure) => {
                    &&& bindings_of(entries_view(entries@)) == Err::<
                        Seq<BindingModel>,
                        ConfigError,
                    >(failure.error)
                    &&& failure.detail@ == quoted(entries_view(entries@), failure.error)
                },
            },
    {
        let ghost all = entries_view(entries@);
        let mut keymap = Keymap::new();
        let mut i: usize = 0;
        while i < entries.len()
            invariant
                i <= entries.len(),
                all == entries_view(entries@),
                all.len() == entries.len(),
                bindings_of(all.take(i as int)) == Ok::<Seq<BindingModel>, ConfigError>(keymap@),
            decreases entries.len() - i,
        {
            proof {
                assert(all.take(i + 1).drop_last() =~= all.take(i as int));
            }
            let entry = &entries[i];
            let key = match parse_key(entry.0.as_str()) {
                Some(key) => key,
                None => {
                    proof {
                        lemma_refusal_stays(all, i + 1);
                    }
                    return Err(
                        ConfigFailure {
                            error: ConfigError::BadKey { entry: i },
                            detail: entry.0.clone(),
                        },
                    );
                },
            };
            let command = match parse_command(entry.1.as_str()) {
                Some(command) => command,
                None => {
                    proof {
                        lemma_refusal_stays(all, i + 1);
                    }
                    return Err(
                        ConfigFailure {
                            error: ConfigError::BadCommand { entry: i },
                            detail: entry.1.clone(),
                        },
                    );
                },
            };
            keymap.bind(key, command);
            i += 1;
        }
        proof {
            assert(all.take(i as int) =~= all);
        }
        Ok(keymap)
    }
}

/// Once a front part of the entries is refused, the whole is refused in
/// the same way.
pub proof fn lemma_refusal_stays(entries: Seq<(Seq<char>, Seq<char>)>, n: int)
    requires
        0 <= n <= entries.len(),
        bindings_of(entries.take(n)) is Err,
    ensures
        bindings_of(entries) == bindings_of(entries.take(n)),
    decreases entries.len() - n,
{
    if n == entries.len() {
        assert(entries.take(n) =~= entries);
    } else {
        let longer = entries.take(n + 1);
        assert(longer.drop_last() =~= entries.take(n));
        lemma_refusal_stays(entries, n + 1);
    }
}

} // verus!
