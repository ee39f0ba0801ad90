//! Reading the keybinding file: a table in TOML from key patterns to
//! command descriptions, both strings.

use crate::keymap::{
    bindings_of, default_bindings, entries_view, quoted, BindingModel, ConfigError, ConfigFailure,
    Keymap,
};
use vstd::prelude::*;
use vstd::string::*;
use vstd::utf8::encode_utf8;

verus! {

/// How many tables, arrays and dotted keys a keybinding file may open. A
/// table of bindings opens none; the parser descends once for each that a
/// text opens inside another, so the limit bounds how deep it descends.
pub const STRUCTURE_LIMIT: usize = 64;

/// Where in a TOML text a byte stands.
#[derive(Clone, Copy, Debug, PartialEq, Eq, Structural)]
pub enum Lexical {
    /// Outside every string and comment.
    Plain,
    /// In a comment, which runs to the end of the line.
    Comment,
    /// In a string between double quotes.
    Basic,
    /// In a string between single quotes.
    Literal,
    /// In a string between triple double quotes.
    LongBasic,
    /// In a string between triple single quotes.
    LongLiteral,
}

/// What one byte of a TOML text amounts to.
#[derive(Clone, Copy, Debug, PartialEq, Eq, Structural)]
pub struct Scan {
    /// How many of the bytes that follow belong to the same token.
    pub skip: usize,
    /// Where the byte after those stands.
    pub mode: Lexical,
    /// Whether the byte opens a table, an array or the next part of a
    /// dotted key.
    pub mark: bool,
}

/// Whether the text has the byte `byte` at position `at`.
pub open spec fn holds(bytes: Seq<u8>, at: int, byte: u8) -> bool {
    0 <= at < bytes.len() && bytes[at] == byte
}

/// Whether a byte is an opening bracket, an opening brace or a dot.
pub open spec fn is_structure_mark(byte: u8) -> bool {
    byte == 0x5b || byte == 0x7b || byte == 0x2e
}

/// A quote outside every string: three in a row open a long string, two
/// are an empty string, and one opens a string that ends on its line.
pub open spec fn opening(bytes: Seq<u8>, at: int, quote: u8, short: Lexical, long: Lexical) -> Scan {
    if holds(bytes, at + 1, quote) {
        if holds(bytes, at + 2, quote) {
            Scan { skip: 2, mode: long, mark: false }
        } else {
            Scan { skip: 1, mode: Lexical::Plain, mark: false }
        }
    } else {
        Scan { skip: 0, mode: short, mark: false }
    }
}

/// A quote in a long string: three in a row close it, and up to two more
/// that follow them still belong to it; fewer than three are part of it.
pub open spec fn closing(bytes: Seq<u8>, at: int, quote: u8, long: Lexical) -> Scan {
    if holds(bytes, at + 1, quote) && holds(bytes, at + 2, quote) {
        Scan {
            skip: if holds(bytes, at + 3, quote) {
                if holds(bytes, at + 4, quote) {
                    4
                } else {
                    3
                }
            } else {
                2
            },
            mode: Lexical::Plain,
            mark: false,
        }
    } else {
        Scan { skip: 0, mode: long, mark: false }
    }
}

/// What the byte at `at` amounts to when it stands in `mode`. Brackets,
/// braces and dots count only outside strings and comments. A comment ends
/// before the first control character other than a tabulator; a backslash
/// between double quotes takes the next byte with it.
pub open spec fn scan_step(bytes: Seq<u8>, at: int, mode: Lexical) -> Scan {
    let byte = bytes[at];
    match mode {
        Lexical::Plain => if byte == 0x23 {
            Scan { skip: 0, mode: Lexical::Comment, mark: false }
        } else if byte == 0x22 {
            opening(bytes, at, 0x22, Lexical::Basic, Lexical::LongBasic)
        } else if byte == 0x27 {
            opening(bytes, at, 0x27, Lexical::Literal, Lexical::LongLiteral)
        } else {
            Scan { skip: 0, mode: Lexical::Plain, mark: is_structure_mark(byte) }
        },
        Lexical::Comment => Scan {
            skip: 0,
            mode: if byte < 0x20 && byte != 0x09 {
                Lexical::Plain
            } else {
                Lexical::Comment
            },
            mark: false,
        },
        Lexical::Basic => if byte == 0x5c {
            Scan { skip: 1, mode: Lexical::Basic, mark: false }
        } else if byte == 0x22 || byte == 0x0a {
            Scan { skip: 0, mode: Lexical::Plain, mark: false }
        } else {
            Scan { skip: 0, mode: Lexical::Basic, mark: false }
        },
        Lexical::Literal => Scan {
            skip: 0,
            mode: if byte == 0x27 || byte == 0x0a {
                Lexical::Plain
            } else {
                Lexical::Literal
            },
            mark: false,
        },
        Lexical::LongBasic => if byte == 0x5c {
            Scan { skip: 1, mode: Lexical::LongBasic, mark: false }
        } else if byte == 0x22 {
            closing(bytes, at, 0x22, Lexical::LongBasic)
        } else {
            Scan { skip: 0, mode: Lexical::LongBasic, mark: false }
        },
        Lexical::LongLiteral => if byte == 0x27 {
            closing(bytes, at, 0x27, Lexical::LongLiteral)
        } else {
            Scan { skip: 0, mode: Lexical::LongLiteral, mark: false }
        },
    }
}

/// How many tables, arrays and dotted-key parts the text opens from
/// position `at` on, when the byte there stands in `mode`.
pub open spec fn structure_from(bytes: Seq<u8>, at: int, mode: Lexical) -> nat
    decreases
            if at < bytes.len() {
                bytes.len() - at
            } else {
                0
            },
{
    if 0 <= at < bytes.len() {
        let step = scan_step(bytes, at, mode);
        let here: nat = if step.mark {
            1
        } else {
            0
        };
        here + structure_from(bytes, at + 1 + step.skip, step.mode)
    } else {
        0
    }
}

/// How many tables, arrays and dotted-key parts a TOML text opens: its
/// opening brackets, opening braces and dots outside strings and comments.
pub open spec fn structure_marks(bytes: Seq<u8>) -> nat {
    structure_from(bytes, 0, Lexical::Plain)
}

/// What `toml::de::from_str` makes of a text when it is asked for a table
/// from strings to strings: the entries in the order of their keys, or
/// `None` where it refuses the text.
pub uninterp spec fn toml_string_table(text: Seq<char>) -> Option<Seq<(Seq<char>, Seq<char>)>>;

/// The message of the error with which `toml::de::from_str` refuses a
/// text that is no table from strings to strings, as the error's `Display`
/// writes it.
pub uninterp spec fn toml_refusal(text: Seq<char>) -> Seq<char>;

/// Calls `toml::de::from_str` for a `BTreeMap` from `String` to `String`.
/// It hands the entries out in the map's order, and in place of the error
/// the message that the error's `Display` writes. The contract claims that
/// the call returns, and that entries and message depend on the text
/// alone.
#[verifier::external_body]
fn read_string_table(text: &str) -> (table: Result<Vec<(String, String)>, String>)
    requires
        structure_marks(text.spec_bytes()) <= STRUCTURE_LIMIT,
    ensures
        match table {
            Ok(entries) => toml_string_table(text@) == Some(entries_view(entries@)),
            Err(message) => toml_string_table(text@) is None && message@ == toml_refusal(text@),
        },
{
    match toml::from_str::<std::collections::BTreeMap<String, String>>(text) {
        Ok(table) => Ok(table.into_iter().collect()),
        Err(error) => Err(error.to_string()),
    }
}

/// The table that a keybinding file stands for, or why it is refused. A
/// text that opens more tables, arrays and dotted keys than the limit
/// allows is refused unread; every other text is what the parser makes of
/// it.
pub open spec fn keymap_of(text: Seq<char>) -> Result<Seq<BindingModel>, ConfigError> {
    if structure_marks(encode_utf8(text)) > STRUCTURE_LIMIT {
        Err(ConfigError::TooMuchStructure)
    } else {
        match toml_string_table(text) {
            None => Err(ConfigError::Syntax),
            Some(entries) => bindings_of(entries),
        }
    }
}

/// Whether the text has `byte` at `offset` bytes after `at`.
fn ahead(bytes: &[u8], at: usize, offset: usize, byte: u8) -> (found: bool)
    requires
        at < bytes@.len(),
    ensures
        found == holds(bytes@, at + offset, byte),
{
    offset < bytes.len() - at && bytes[at + offset] == byte
}

/// Tells what a quote outside every string opens.
fn open_quote(bytes: &[u8], at: usize, quote: u8, short: Lexical, long: Lexical) -> (step: Scan)
    requires
        at < bytes@.len(),
    ensures
        step == opening(bytes@, at as int, quote, short, long),
{
    if ahead(bytes, at, 1, quote) {
        if ahead(bytes, at, 2, quote) {
            Scan { skip: 2, mode: long, mark: false }
        } else {
            Scan { skip: 1, mode: Lexical::Plain, mark: false }
        }
    } else {
        Scan { skip: 0, mode: short, mark: false }
    }
}

/// Tells whether a quote in a long string closes it.
fn close_quote(bytes: &[u8], at: usize, quote: u8, long: Lexical) -> (step: Scan)
    requires
        at < bytes@.len(),
    ensures
        step == closing(bytes@, at as int, quote, long),
{
    if ahead(bytes, at, 1, quote) && ahead(bytes, at, 2, quote) {
        let skip: usize = if ahead(bytes, at, 3, quote) {
            if ahead(bytes, at, 4, quote) {
                4
            } else {
                3
            }
        } else {
            2
        };
        Scan { skip, mode: Lexical::Plain, mark: false }
    } else {
        Scan { skip: 0, mode: long, mark: false }
    }
}

/// Tells what the byte at `at` amounts to when it stands in `mode`.
fn scan(bytes: &[u8], at: usize, mode: Lexical) -> (step: Scan)
    requires
        at < bytes@.len(),
    ensures
        step == scan_step(bytes@, at as int, mode),
{
    let byte = bytes[at];
    match mode {
        Lexical::Plain => if byte == 0x23 {
            Scan { skip: 0, mode: Lexical::Comment, mark: false }
        } else if byte == 0x22 {
            open_quote(bytes, at, 0x22, Lexical::Basic, Lexical::LongBasic)
        } else if byte == 0x27 {
            open_quote(bytes, at, 0x27, Lexical::Literal, Lexical::LongLiteral)
        } else {
            Scan {
                skip: 0,
                mode: Lexical::Plain,
                mark: byte == 0x5b || byte == 0x7b || byte == 0x2e,
            }
        },
        Lexical::Comment => if byte < 0x20 && byte != 0x09 {
            Scan { skip: 0, mode: Lexical::Plain, mark: false }
        } else {
            Scan { skip: 0, mode: Lexical::Comment, mark: false }
        },
        Lexical::Basic => if byte == 0x5c {
            Scan { skip: 1, mode: Lexical::Basic, mark: false }
        } else if byte == 0x22 || byte == 0x0a {
            Scan { skip: 0, mode: Lexical::Plain, mark: false }
        } else {
            Scan { skip: 0, mode: Lexical::Basic, mark: false }
        },
        Lexical::Literal => if byte == 0x27 || byte == 0x0a {
            Scan { skip: 0, mode: Lexical::Plain, mark: false }
        } else {
            Scan { skip: 0, mode: Lexical::Literal, mark: false }
        },
        Lexical::LongBasic => if byte == 0x5c {
            Scan { skip: 1, mode: Lexical::LongBasic, mark: false }
        } else if byte == 0x22 {
            close_quote(bytes, at, 0x22, Lexical::LongBasic)
        } else {
            Scan { skip: 0, mode: Lexical::LongBasic, mark: false }
        },
        Lexical::LongLiteral => if byte == 0x27 {
            close_quote(bytes, at, 0x27, Lexical::LongLiteral)
        } else {
            Scan { skip: 0, mode: Lexical::LongLiteral, mark: false }
        },
    }
}

/// Whether the text opens no more tables, arrays and dotted keys than a
/// keybinding file may. What stands in strings and comments does not
/// count.
pub fn within_structure_limit(text: &str) -> (within: bool)
    ensures
        within == (structure_marks(text.spec_bytes()) <= STRUCTURE_LIMIT),
{
    let bytes = text.as_bytes();
    let mut count: usize = 0;
    let mut at: usize = 0;
    let mut mode = Lexical::Plain;
    while at < bytes.len()
        invariant
            at <= bytes.len(),
            bytes@ == text.spec_bytes(),
            count <= at,
            structure_marks(bytes@) == count + structure_from(bytes@, at as int, mode),
        decreases bytes.len() - at,
    {
        let step = scan(bytes, at, mode);
        let rest = bytes.len() - at - 1;
        proof {
            let next = at + 1 + step.skip;
            assert(structure_from(bytes@, at as int, mode) == (if step.mark {
                1nat
            } else {
                0nat
            }) + structure_from(bytes@, next, step.mode));
        }
        if step.mark {
            count += 1;
        }
        mode = step.mode;
        at = if step.skip >= rest {
            bytes.len()
        } else {
            at + 1 + step.skip
        };
    }
    count <= STRUCTURE_LIMIT
}

/// Whether `failure` is the refusal that the text earns: the error is the
/// one that the text stands for. A refusal for syntax quotes the parser's
/// message, a refused entry is quoted itself, and a refusal for structure
/// quotes nothing.
pub open spec fn refuses(text: Seq<char>, failure: ConfigFailure) -> bool {
    &&& keymap_of(text) == Err::<Seq<BindingModel>, ConfigError>(failure.error)
    &&& failure.detail@ == match failure.error {
        ConfigError::Syntax => toml_refusal(text),
        ConfigError::TooMuchStructure => Seq::<char>::empty(),
        _ => quoted(toml_string_table(text).unwrap(), failure.error),
    }
}

/// Reads a keybinding file. The text is first held to the structure
/// limit, then parsed as a table from strings to strings, then read entry
/// by entry in the order of the keys. The first thing that fails refuses
/// the file.
pub fn parse_keymap(text: &str) -> (table: Result<Keymap, ConfigFailure>)
    ensures
        match table {
            Ok(keymap) => keymap_of(text@) == Ok::<Seq<BindingModel>, ConfigError>(keymap@),
            Err(failure) => refuses(text@, failure),
        },
{
    if !within_structure_limit(text) {
        return Err(ConfigFailure { error: ConfigError::TooMuchStructure, detail: String::new() });
    }
    match read_string_table(text) {
        Err(message) => Err(ConfigFailure { error: ConfigError::Syntax, detail: message }),
        Ok(entries) => {
            proof {
                lemma_entry_errors(entries_view(entries@));
            }
            Keymap::from_entries(&entries)
        },
    }
}

/// Entries are refused only for a key pattern or a command description.
pub proof fn lemma_entry_errors(entries: Seq<(Seq<char>, Seq<char>)>)
    ensures
        match bindings_of(entries) {
            Ok(_) => true,
            Err(error) => error is BadKey || error is BadCommand,
        },
    decreases entries.len(),
{
    if entries.len() > 0 {
        lemma_entry_errors(entries.drop_last());
    }
}

/// The keybinding table of a session: the built-in one where no file
/// exists, else the one that the file stands for. A file that is refused
/// is an error, never a reason to fall back.
pub fn load_keymap(contents: Option<&str>) -> (table: Result<Keymap, ConfigFailure>)
    ensures
        match contents {
            None => table is Ok && table->Ok_0@ == default_bindings(),
            Some(text) => match table {
                Ok(keymap) => keymap_of(text@) == Ok::<Seq<BindingModel>, ConfigError>(keymap@),
                Err(failure) => refuses(text@, failure),
            },
        },
{
    match contents {
        None => Ok(Keymap::with_defaults()),
        Some(text) => parse_keymap(text),
    }
}

} // verus!
