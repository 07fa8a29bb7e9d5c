//! Key-combo parsing for the devloop `Key` command.
//!
//! A combo is a run of modifier prefixes (`Ctrl+`, `Shift+`, `Alt+`,
//! `Meta+` and their aliases, in any case) followed by a key: a named
//! key (`Escape`, `F11`, arrows, ... in any case) or any other text,
//! taken as typed characters. `Ctrl+n` opens a new chart; every other
//! combo is delivered as a key press.

use vstd::prelude::*;
use crate::text::{ascii_lower, lower_eq, push_str};

verus! {

/// The modifiers a combo names.
#[derive(Copy, Clone, Debug, PartialEq, Eq, Structural)]
pub struct ParsedMods {
    pub shift: bool,
    pub ctrl: bool,
    pub alt: bool,
    pub logo: bool,
}

/// No modifier.
pub open spec fn no_mods() -> ParsedMods {
    ParsedMods { shift: false, ctrl: false, alt: false, logo: false }
}

/// The modifier a prefix names.
#[derive(Copy, Clone, Debug, PartialEq, Eq, Structural)]
pub enum Modifier {
    Ctrl,
    Shift,
    Alt,
    Logo,
}

/// A named (non-character) key.
#[derive(Copy, Clone, Debug, PartialEq, Eq, Structural)]
pub enum NamedKey {
    Escape,
    Enter,
    Tab,
    Space,
    Backspace,
    Delete,
    ArrowUp,
    ArrowDown,
    ArrowLeft,
    ArrowRight,
    Home,
    End,
    PageUp,
    PageDown,
    F1,
    F2,
    F3,
    F4,
    F5,
    F6,
    F7,
    F8,
    F9,
    F10,
    F11,
    F12,
}

/// A key: named, or the characters it types.
#[derive(Clone, Debug)]
pub enum Key {
    Named(NamedKey),
    Character(String),
}

/// Mathematical value of a key.
pub enum KeyView {
    Named(NamedKey),
    Character(Seq<char>),
}

impl View for Key {
    type V = KeyView;

    open spec fn view(&self) -> KeyView {
        match self {
            Key::Named(n) => KeyView::Named(*n),
            Key::Character(s) => KeyView::Character(s@),
        }
    }
}

/// What a key combo asks the application to do.
#[derive(Clone, Debug)]
pub enum KeyCommand {
    /// `Ctrl+n`: open a new chart.
    AddChart,
    /// Deliver the key press.
    KeyPressed(Key),
}

/// Why input could not be synthesised.
#[derive(Clone, Debug)]
pub enum InputError {
    /// The combo names no key.
    UnknownCombo(String),
    /// There is no active chart to scroll against.
    NoActiveChart,
}

impl InputError {
    /// The text the error displays.
    pub fn message(&self) -> (r: String)
        ensures
            r@ == match self {
                InputError::UnknownCombo(c) => "unrecognised key combo: "@ + c@,
                InputError::NoActiveChart => "no active chart to scroll against"@,
            },
    {
        match self {
            InputError::UnknownCombo(c) => {
                let mut m = "unrecognised key combo: ".to_owned();
                push_str(&mut m, c.as_str());
                m
            },
            InputError::NoActiveChart => "no active chart to scroll against".to_owned(),
        }
    }
}

/// The modifier a lower-cased prefix names.
pub open spec fn modifier_named(lower: Seq<char>) -> Option<Modifier> {
    if lower == "ctrl"@ || lower == "control"@ {
        Some(Modifier::Ctrl)
    } else if lower == "shift"@ {
        Some(Modifier::Shift)
    } else if lower == "alt"@ {
        Some(Modifier::Alt)
    } else if lower == "meta"@ || lower == "super"@ || lower == "logo"@ || lower == "win"@ || lower
        == "cmd"@ {
        Some(Modifier::Logo)
    } else {
        None
    }
}

/// `mods` with `m` switched on.
pub open spec fn with_modifier(mods: ParsedMods, m: Modifier) -> ParsedMods {
    match m {
        Modifier::Ctrl => ParsedMods { ctrl: true, ..mods },
        Modifier::Shift => ParsedMods { shift: true, ..mods },
        Modifier::Alt => ParsedMods { alt: true, ..mods },
        Modifier::Logo => ParsedMods { logo: true, ..mods },
    }
}

/// Index of the first `c` in `s`.
pub open spec fn first_index(s: Seq<char>, c: char) -> Option<int>
    decreases s.len(),
{
    if s.len() == 0 {
        None
    } else if s[0] == c {
        Some(0)
    } else {
        match first_index(s.drop_first(), c) {
            Some(i) => Some(i + 1),
            None => None,
        }
    }
}

/// Strip modifier prefixes from `rest`, adding them to `mods`: stop at
/// the first `+`-terminated prefix that names no modifier, or when no
/// `+` is left, and return what remains.
pub open spec fn split_spec(mods: ParsedMods, rest: Seq<char>) -> (ParsedMods, Seq<char>)
    decreases rest.len(),
{
    match first_index(rest, '+') {
        None => (mods, rest),
        Some(i) => match modifier_named(ascii_lower(rest.take(i))) {
            None => (mods, rest),
            Some(m) => if 0 <= i < rest.len() {
                split_spec(with_modifier(mods, m), rest.skip(i + 1))
            } else {
                (mods, rest)
            },
        },
    }
}

/// The named key a text names, in any case.
pub open spec fn named_key(lower: Seq<char>) -> Option<NamedKey> {
    if lower == "escape"@ || lower == "esc"@ {
        Some(NamedKey::Escape)
    } else if lower == "enter"@ || lower == "return"@ {
        Some(NamedKey::Enter)
    } else if lower == "tab"@ {
        Some(NamedKey::Tab)
    } else if lower == "space"@ {
        Some(NamedKey::Space)
    } else if lower == "backspace"@ {
        Some(NamedKey::Backspace)
    } else if lower == "delete"@ || lower == "del"@ {
        Some(NamedKey::Delete)
    } else if lower == "arrowup"@ || lower == "up"@ {
        Some(NamedKey::ArrowUp)
    } else if lower == "arrowdown"@ || lower == "down"@ {
        Some(NamedKey::ArrowDown)
    } else if lower == "arrowleft"@ || lower == "left"@ {
        Some(NamedKey::ArrowLeft)
    } else if lower == "arrowright"@ || lower == "right"@ {
        Some(NamedKey::ArrowRight)
    } else if lower == "home"@ {
        Some(NamedKey::Home)
    } else if lower == "end"@ {
        Some(NamedKey::End)
    } else if lower == "pageup"@ {
        Some(NamedKey::PageUp)
    } else if lower == "pagedown"@ {
        Some(NamedKey::PageDown)
    } else if lower == "f1"@ {
        Some(NamedKey::F1)
    } else if lower == "f2"@ {
        Some(NamedKey::F2)
    } else if lower == "f3"@ {
        Some(NamedKey::F3)
    } else if lower == "f4"@ {
        Some(NamedKey::F4)
    } else if lower == "f5"@ {
        Some(NamedKey::F5)
    } else if lower == "f6"@ {
        Some(NamedKey::F6)
    } else if lower == "f7"@ {
        Some(NamedKey::F7)
    } else if lower == "f8"@ {
        Some(NamedKey::F8)
    } else if lower == "f9"@ {
        Some(NamedKey::F9)
    } else if lower == "f10"@ {
        Some(NamedKey::F10)
    } else if lower == "f11"@ {
        Some(NamedKey::F11)
    } else if lower == "f12"@ {
        Some(NamedKey::F12)
    } else {
        None
    }
}

/// The key a text names: nothing for the empty text, a named key when
/// the text names one, else the typed characters.
pub open spec fn key_spec(part: Seq<char>) -> Option<KeyView> {
    if part.len() == 0 {
        None
    } else {
        match named_key(ascii_lower(part)) {
            Some(n) => Some(KeyView::Named(n)),
            None => Some(KeyView::Character(part)),
        }
    }
}

fn modifier_from(head: &str) -> (r: Option<Modifier>)
    ensures
        r == modifier_named(ascii_lower(head@)),
{
    if lower_eq(head, "ctrl") || lower_eq(head, "control") {
        Some(Modifier::Ctrl)
    } else if lower_eq(head, "shift") {
        Some(Modifier::Shift)
    } else if lower_eq(head, "alt") {
        Some(Modifier::Alt)
    } else if lower_eq(head, "meta") || lower_eq(head, "super") || lower_eq(head, "logo")
        || lower_eq(head, "win") || lower_eq(head, "cmd") {
        Some(Modifier::Logo)
    } else {
        None
    }
}

fn find_char(s: &str, c: char) -> (r: Option<usize>)
    ensures
        match r {
            Some(i) => first_index(s@, c) == Some(i as int) && i < s@.len(),
            None => first_index(s@, c) is None,
        },
{
    let n = s.unicode_len();
    let mut i: usize = 0;
    assert(s@.skip(0) =~= s@);
    while i < n
        invariant
            n == s@.len(),
            i <= n,
            first_index(s@, c) == match first_index(s@.skip(i as int), c) {
                Some(j) => Some(j + i),
                None => None,
            },
        decreases n - i,
    {
        assert(s@.skip(i as int).drop_first() =~= s@.skip(i + 1));
        if s.get_char(i) == c {
            return Some(i);
        }
        i = i + 1;
    }
    None
}

/// Split a combo into its modifiers and the key text after them.
pub fn split_modifiers(combo: &str) -> (r: (ParsedMods, &str))
    ensures
        (r.0, r.1@) == split_spec(no_mods(), combo@),
{
    let mut mods = ParsedMods { shift: false, ctrl: false, alt: false, logo: false };
    let mut rest: &str = combo;
    assert(mods == no_mods());
    loop
        invariant
            split_spec(mods, rest@) == split_spec(no_mods(), combo@),
        decreases rest@.len(),
    {
        let i = match find_char(rest, '+') {
            Some(i) => i,
            None => return (mods, rest),
        };
        let n = rest.unicode_len();
        let head = rest.substring_char(0, i);
        assert(head@ =~= rest@.take(i as int));
        match modifier_from(head) {
            None => return (mods, rest),
            Some(m) => {
                mods = match m {
                    Modifier::Ctrl => ParsedMods { ctrl: true, ..mods },
                    Modifier::Shift => ParsedMods { shift: true, ..mods },
                    Modifier::Alt => ParsedMods { alt: true, ..mods },
                    Modifier::Logo => ParsedMods { logo: true, ..mods },
                };
                rest = rest.substring_char(i + 1, n);
            },
        }
    }
}

/// The named key a text names, in any case.
pub fn parse_named(part: &str) -> (r: Option<NamedKey>)
    ensures
        r == named_key(ascii_lower(part@)),
{
    if lower_eq(part, "escape") || lower_eq(part, "esc") {
        Some(NamedKey::Escape)
    } else if lower_eq(part, "enter") || lower_eq(part, "return") {
        Some(NamedKey::Enter)
    } else if lower_eq(part, "tab") {
        Some(NamedKey::Tab)
    } else if lower_eq(part, "space") {
        Some(NamedKey::Space)
    } else if lower_eq(part, "backspace") {
        Some(NamedKey::Backspace)
    } else if lower_eq(part, "delete") || lower_eq(part, "del") {
        Some(NamedKey::Delete)
    } else if lower_eq(part, "arrowup") || lower_eq(part, "up") {
        Some(NamedKey::ArrowUp)
    } else if lower_eq(part, "arrowdown") || lower_eq(part, "down") {
        Some(NamedKey::ArrowDown)
    } else if lower_eq(part, "arrowleft") || lower_eq(part, "left") {
        Some(NamedKey::ArrowLeft)
    } else if lower_eq(part, "arrowright") || lower_eq(part, "right") {
        Some(NamedKey::ArrowRight)
    } else if lower_eq(part, "home") {
        Some(NamedKey::Home)
    } else if lower_eq(part, "end") {
        Some(NamedKey::End)
    } else if lower_eq(part, "pageup") {
        Some(NamedKey::PageUp)
    } else if lower_eq(part, "pagedown") {
        Some(NamedKey::PageDown)
    } else if lower_eq(part, "f1") {
        Some(NamedKey::F1)
    } else if lower_eq(part, "f2") {
        Some(NamedKey::F2)
    } else if lower_eq(part, "f3") {
        Some(NamedKey::F3)
    } else if lower_eq(part, "f4") {
        Some(NamedKey::F4)
    } else if lower_eq(part, "f5") {
        Some(NamedKey::F5)
    } else if lower_eq(part, "f6") {
        Some(NamedKey::F6)
    } else if lower_eq(part, "f7") {
        Some(NamedKey::F7)
    } else if lower_eq(part, "f8") {
        Some(NamedKey::F8)
    } else if lower_eq(part, "f9") {
        Some(NamedKey::F9)
    } else if lower_eq(part, "f10") {
        Some(NamedKey::F10)
    } else if lower_eq(part, "f11") {
        Some(NamedKey::F11)
    } else if lower_eq(part, "f12") {
        Some(NamedKey::F12)
    } else {
        None
    }
}

/// The key a text names: `None` for the empty text.
pub fn parse_key(part: &str) -> (r: Option<Key>)
    ensures
        match r {
            Some(k) => key_spec(part@) == Some(k@),
            None => key_spec(part@) is None,
        },
{
    if part.unicode_len() == 0 {
        return None;
    }
    match parse_named(part) {
        Some(n) => Some(Key::Named(n)),
        None => Some(Key::Character(part.to_owned())),
    }
}

/// What a combo asks for: `Ctrl` with the character `n` opens a new
/// chart, any other key is pressed; a combo naming no key is refused.
pub open spec fn key_command_spec(combo: Seq<char>) -> Option<(bool, KeyView)> {
    let (mods, part) = split_spec(no_mods(), combo);
    match key_spec(part) {
        None => None,
        Some(k) => Some((mods.ctrl && k == KeyView::Character("n"@), k)),
    }
}

/// Turn a combo into the command it asks for.
pub fn key_command(combo: &str) -> (r: Result<KeyCommand, InputError>)
    ensures
        match r {
            Ok(KeyCommand::AddChart) => key_command_spec(combo@) matches Some((add, _)) && add,
            Ok(KeyCommand::KeyPressed(k)) => key_command_spec(combo@) == Some((false, k@)),
            Err(InputError::UnknownCombo(c)) => key_command_spec(combo@) is None && c@
                == combo@,
            Err(InputError::NoActiveChart) => false,
        },
{
    let (mods, part) = split_modifiers(combo);
    let key = match parse_key(part) {
        Some(k) => k,
        None => return Err(InputError::UnknownCombo(combo.to_owned())),
    };
    if mods.ctrl {
        if let Key::Character(c) = &key {
            let is_n = crate::text::str_eq(c.as_str(), "n");
            if is_n {
                proof {
                    reveal_strlit("n");
                }
                return Ok(KeyCommand::AddChart);
            }
        }
    }
    proof {
        reveal_strlit("n");
    }
    Ok(KeyCommand::KeyPressed(key))
}

/// The name of a named key: its variant name, as a combo may write it.
pub open spec fn key_name(k: NamedKey) -> Seq<char> {
    match k {
        NamedKey::Escape => "Escape"@,
        NamedKey::Enter => "Enter"@,
        NamedKey::Tab => "Tab"@,
        NamedKey::Space => "Space"@,
        NamedKey::Backspace => "Backspace"@,
        NamedKey::Delete => "Delete"@,
        NamedKey::ArrowUp => "ArrowUp"@,
        NamedKey::ArrowDown => "ArrowDown"@,
        NamedKey::ArrowLeft => "ArrowLeft"@,
        NamedKey::ArrowRight => "ArrowRight"@,
        NamedKey::Home => "Home"@,
        NamedKey::End => "End"@,
        NamedKey::PageUp => "PageUp"@,
        NamedKey::PageDown => "PageDown"@,
        NamedKey::F1 => "F1"@,
        NamedKey::F2 => "F2"@,
        NamedKey::F3 => "F3"@,
        NamedKey::F4 => "F4"@,
        NamedKey::F5 => "F5"@,
        NamedKey::F6 => "F6"@,
        NamedKey::F7 => "F7"@,
        NamedKey::F8 => "F8"@,
        NamedKey::F9 => "F9"@,
        NamedKey::F10 => "F10"@,
        NamedKey::F11 => "F11"@,
        NamedKey::F12 => "F12"@,
    }
}

/// Every named key is named by its own name, in any case: lower-casing
/// a key's name and reading it back gives that key.
pub proof fn lemma_key_named_by_its_name(k: NamedKey)
    ensures
        named_key(ascii_lower(key_name(k))) == Some(k),
{
    reveal_strlit("alt");
    reveal_strlit("arrowdown");
    reveal_strlit("arrowleft");
    reveal_strlit("arrowright");
    reveal_strlit("arrowup");
    reveal_strlit("backspace");
    reveal_strlit("control");
    reveal_strlit("ctrl");
    reveal_strlit("del");
    reveal_strlit("delete");
    reveal_strlit("down");
    reveal_strlit("end");
    reveal_strlit("enter");
    reveal_strlit("esc");
    reveal_strlit("escape");
    reveal_strlit("f1");
    reveal_strlit("f10");
    reveal_strlit("f11");
    reveal_strlit("f12");
    reveal_strlit("f2");
    reveal_strlit("f3");
    reveal_strlit("f4");
    reveal_strlit("f5");
    reveal_strlit("f6");
    reveal_strlit("f7");
    reveal_strlit("f8");
    reveal_strlit("f9");
    reveal_strlit("home");
    reveal_strlit("left");
    reveal_strlit("logo");
    reveal_strlit("meta");
    reveal_strlit("pagedown");
    reveal_strlit("pageup");
    reveal_strlit("return");
    reveal_strlit("right");
    reveal_strlit("shift");
    reveal_strlit("space");
    reveal_strlit("super");
    reveal_strlit("tab");
    reveal_strlit("up");
    reveal_strlit("win");
    match k {
        NamedKey::Escape => {
            reveal_strlit("Escape");
            assert(ascii_lower("Escape"@) =~= "escape"@);
        },
        NamedKey::Enter => {
            reveal_strlit("Enter");
            assert(ascii_lower("Enter"@) =~= "enter"@);
        },
        NamedKey::Tab => {
            reveal_strlit("Tab");
            assert(ascii_lower("Tab"@) =~= "tab"@);
            assert("tab"@[0] != "esc"@[0]);
        },
        NamedKey::Space => {
            reveal_strlit("Space");
            assert(ascii_lower("Space"@) =~= "space"@);
            assert("space"@[0] != "enter"@[0]);
        },
        NamedKey::Backspace => {
            reveal_strlit("Backspace");
            assert(ascii_lower("Backspace"@) =~= "backspace"@);
        },
        NamedKey::Delete => {
            reveal_strlit("Delete");
            assert(ascii_lower("Delete"@) =~= "delete"@);
            assert("delete"@[0] != "escape"@[0]);
            assert("delete"@[0] != "return"@[0]);
        },
        NamedKey::ArrowUp => {
            reveal_strlit("ArrowUp");
            assert(ascii_lower("ArrowUp"@) =~= "arrowup"@);
        },
        NamedKey::ArrowDown => {
            reveal_strlit("ArrowDown");
            assert(ascii_lower("ArrowDown"@) =~= "arrowdown"@);
            assert("arrowdown"@[0] != "backspace"@[0]);
        },
        NamedKey::ArrowLeft => {
            reveal_strlit("ArrowLeft");
            assert(ascii_lower("ArrowLeft"@) =~= "arrowleft"@);
            assert("arrowleft"@[0] != "backspace"@[0]);
            assert("arrowleft"@[5] != "arrowdown"@[5]);
        },
        NamedKey::ArrowRight => {
            reveal_strlit("ArrowRight");
            assert(ascii_lower("ArrowRight"@) =~= "arrowright"@);
        },
        NamedKey::Home => {
            reveal_strlit("Home");
            assert(ascii_lower("Home"@) =~= "home"@);
            assert("home"@[0] != "down"@[0]);
            assert("home"@[0] != "left"@[0]);
        },
        NamedKey::End => {
            reveal_strlit("End");
            assert(ascii_lower("End"@) =~= "end"@);
            assert("end"@[1] != "esc"@[1]);
            assert("end"@[0] != "tab"@[0]);
            assert("end"@[0] != "del"@[0]);
        },
        NamedKey::PageUp => {
            reveal_strlit("PageUp");
            assert(ascii_lower("PageUp"@) =~= "pageup"@);
            assert("pageup"@[0] != "escape"@[0]);
            assert("pageup"@[0] != "return"@[0]);
            assert("pageup"@[0] != "delete"@[0]);
        },
        NamedKey::PageDown => {
            reveal_strlit("PageDown");
            assert(ascii_lower("PageDown"@) =~= "pagedown"@);
        },
        NamedKey::F1 => {
            reveal_strlit("F1");
            assert(ascii_lower("F1"@) =~= "f1"@);
            assert("f1"@[0] != "up"@[0]);
        },
        NamedKey::F2 => {
            reveal_strlit("F2");
            assert(ascii_lower("F2"@) =~= "f2"@);
            assert("f2"@[0] != "up"@[0]);
            assert("f2"@[1] != "f1"@[1]);
        },
        NamedKey::F3 => {
            reveal_strlit("F3");
            assert(ascii_lower("F3"@) =~= "f3"@);
            assert("f3"@[0] != "up"@[0]);
            assert("f3"@[1] != "f1"@[1]);
            assert("f3"@[1] != "f2"@[1]);
        },
        NamedKey::F4 => {
            reveal_strlit("F4");
            assert(ascii_lower("F4"@) =~= "f4"@);
            assert("f4"@[0] != "up"@[0]);
            assert("f4"@[1] != "f1"@[1]);
            assert("f4"@[1] != "f2"@[1]);
            assert("f4"@[1] != "f3"@[1]);
        },
        NamedKey::F5 => {
            reveal_strlit("F5");
            assert(ascii_lower("F5"@) =~= "f5"@);
            assert("f5"@[0] != "up"@[0]);
            assert("f5"@[1] != "f1"@[1]);
            assert("f5"@[1] != "f2"@[1]);
            assert("f5"@[1] != "f3"@[1]);
            assert("f5"@[1] != "f4"@[1]);
        },
        NamedKey::F6 => {
            reveal_strlit("F6");
            assert(ascii_lower("F6"@) =~= "f6"@);
            assert("f6"@[0] != "up"@[0]);
            assert("f6"@[1] != "f1"@[1]);
            assert("f6"@[1] != "f2"@[1]);
            assert("f6"@[1] != "f3"@[1]);
            assert("f6"@[1] != "f4"@[1]);
            assert("f6"@[1] != "f5"@[1]);
        },
        NamedKey::F7 => {
            reveal_strlit("F7");
            assert(ascii_lower("F7"@) =~= "f7"@);
            assert("f7"@[0] != "up"@[0]);
            assert("f7"@[1] != "f1"@[1]);
            assert("f7"@[1] != "f2"@[1]);
            assert("f7"@[1] != "f3"@[1]);
            assert("f7"@[1] != "f4"@[1]);
            assert("f7"@[1] != "f5"@[1]);
            assert("f7"@[1] != "f6"@[1]);
        },
        NamedKey::F8 => {
            reveal_strlit("F8");
            assert(ascii_lower("F8"@) =~= "f8"@);
            assert("f8"@[0] != "up"@[0]);
            assert("f8"@[1] != "f1"@[1]);
            assert("f8"@[1] != "f2"@[1]);
            assert("f8"@[1] != "f3"@[1]);
            assert("f8"@[1] != "f4"@[1]);
            assert("f8"@[1] != "f5"@[1]);
            assert("f8"@[1] != "f6"@[1]);
            assert("f8"@[1] != "f7"@[1]);
        },
        NamedKey::F9 => {
            reveal_strlit("F9");
            assert(ascii_lower("F9"@) =~= "f9"@);
            assert("f9"@[0] != "up"@[0]);
            assert("f9"@[1] != "f1"@[1]);
            assert("f9"@[1] != "f2"@[1]);
            assert("f9"@[1] != "f3"@[1]);
            assert("f9"@[1] != "f4"@[1]);
            assert("f9"@[1] != "f5"@[1]);
            assert("f9"@[1] != "f6"@[1]);
            assert("f9"@[1] != "f7"@[1]);
            assert("f9"@[1] != "f8"@[1]);
        },
        NamedKey::F10 => {
            reveal_strlit("F10");
            assert(ascii_lower("F10"@) =~= "f10"@);
            assert("f10"@[0] != "esc"@[0]);
            assert("f10"@[0] != "tab"@[0]);
            assert("f10"@[0] != "del"@[0]);
            assert("f10"@[0] != "end"@[0]);
        },
        NamedKey::F11 => {
            reveal_strlit("F11");
            assert(ascii_lower("F11"@) =~= "f11"@);
            assert("f11"@[0] != "esc"@[0]);
            assert("f11"@[0] != "tab"@[0]);
            assert("f11"@[0] != "del"@[0]);
            assert("f11"@[0] != "end"@[0]);
            assert("f11"@[2] != "f10"@[2]);
        },
        NamedKey::F12 => {
            reveal_strlit("F12");
            assert(ascii_lower("F12"@) =~= "f12"@);
            assert("f12"@[0] != "esc"@[0]);
            assert("f12"@[0] != "tab"@[0]);
            assert("f12"@[0] != "del"@[0]);
            assert("f12"@[0] != "end"@[0]);
            assert("f12"@[2] != "f10"@[2]);
            assert("f12"@[2] != "f11"@[2]);
        },
    }
}

/// The short names of keys: `esc`, `return`, `del`, and `up`, `down`,
/// `left`, `right` for the arrows.
pub proof fn lemma_key_short_names()
    ensures
        named_key("esc"@) == Some(NamedKey::Escape),
        named_key("return"@) == Some(NamedKey::Enter),
        named_key("del"@) == Some(NamedKey::Delete),
        named_key("up"@) == Some(NamedKey::ArrowUp),
        named_key("down"@) == Some(NamedKey::ArrowDown),
        named_key("left"@) == Some(NamedKey::ArrowLeft),
        named_key("right"@) == Some(NamedKey::ArrowRight),
{
    assert(named_key("esc"@) == Some(NamedKey::Escape)) by {
        reveal_strlit("esc");
        reveal_strlit("escape");
    }
    assert(named_key("return"@) == Some(NamedKey::Enter)) by {
        reveal_strlit("return");
        reveal_strlit("escape");
        reveal_strlit("esc");
        reveal_strlit("enter");
        assert("return"@.len() != "esc"@.len());
        assert("return"@[0] != "escape"@[0]);
    }
    assert(named_key("del"@) == Some(NamedKey::Delete)) by {
        reveal_strlit("del");
        reveal_strlit("escape");
        reveal_strlit("esc");
        reveal_strlit("enter");
        reveal_strlit("return");
        reveal_strlit("tab");
        reveal_strlit("space");
        reveal_strlit("backspace");
        reveal_strlit("delete");
        assert("del"@.len() != "escape"@.len());
        assert("del"@.len() != "enter"@.len());
        assert("del"@.len() != "return"@.len());
        assert("del"@.len() != "space"@.len());
        assert("del"@.len() != "backspace"@.len());
        assert("del"@[0] != "esc"@[0]);
        assert("del"@[0] != "tab"@[0]);
    }
    assert(named_key("up"@) == Some(NamedKey::ArrowUp)) by {
        reveal_strlit("up");
        reveal_strlit("escape");
        reveal_strlit("esc");
        reveal_strlit("enter");
        reveal_strlit("return");
        reveal_strlit("tab");
        reveal_strlit("space");
        reveal_strlit("backspace");
        reveal_strlit("delete");
        reveal_strlit("del");
        reveal_strlit("arrowup");
        assert("up"@.len() != "escape"@.len());
        assert("up"@.len() != "esc"@.len());
        assert("up"@.len() != "enter"@.len());
        assert("up"@.len() != "return"@.len());
        assert("up"@.len() != "tab"@.len());
        assert("up"@.len() != "space"@.len());
        assert("up"@.len() != "backspace"@.len());
        assert("up"@.len() != "delete"@.len());
        assert("up"@.len() != "del"@.len());
    }
    assert(named_key("down"@) == Some(NamedKey::ArrowDown)) by {
        reveal_strlit("down");
        reveal_strlit("escape");
        reveal_strlit("esc");
        reveal_strlit("enter");
        reveal_strlit("return");
        reveal_strlit("tab");
        reveal_strlit("space");
        reveal_strlit("backspace");
        reveal_strlit("delete");
        reveal_strlit("del");
        reveal_strlit("arrowup");
        reveal_strlit("up");
        reveal_strlit("arrowdown");
        assert("down"@.len() != "escape"@.len());
        assert("down"@.len() != "esc"@.len());
        assert("down"@.len() != "enter"@.len());
        assert("down"@.len() != "return"@.len());
        assert("down"@.len() != "tab"@.len());
        assert("down"@.len() != "space"@.len());
        assert("down"@.len() != "backspace"@.len());
        assert("down"@.len() != "delete"@.len());
        assert("down"@.len() != "del"@.len());
        assert("down"@.len() != "arrowup"@.len());
        assert("down"@.len() != "up"@.len());
    }
    assert(named_key("left"@) == Some(NamedKey::ArrowLeft)) by {
        reveal_strlit("left");
        reveal_strlit("escape");
        reveal_strlit("esc");
        reveal_strlit("enter");
        reveal_strlit("return");
        reveal_strlit("tab");
        reveal_strlit("space");
        reveal_strlit("backspace");
        reveal_strlit("delete");
        reveal_strlit("del");
        reveal_strlit("arrowup");
        reveal_strlit("up");
        reveal_strlit("arrowdown");
        reveal_strlit("down");
        reveal_strlit("arrowleft");
        assert("left"@.len() != "escape"@.len());
        assert("left"@.len() != "esc"@.len());
        assert("left"@.len() != "enter"@.len());
        assert("left"@.len() != "return"@.len());
        assert("left"@.len() != "tab"@.len());
        assert("left"@.len() != "space"@.len());
        assert("left"@.len() != "backspace"@.len());
        assert("left"@.len() != "delete"@.len());
        assert("left"@.len() != "del"@.len());
        assert("left"@.len() != "arrowup"@.len());
        assert("left"@.len() != "up"@.len());
        assert("left"@.len() != "arrowdown"@.len());
        assert("left"@[0] != "down"@[0]);
    }
    assert(named_key("right"@) == Some(NamedKey::ArrowRight)) by {
        reveal_strlit("right");
        reveal_strlit("escape");
        reveal_strlit("esc");
        reveal_strlit("enter");
        reveal_strlit("return");
        reveal_strlit("tab");
        reveal_strlit("space");
        reveal_strlit("backspace");
        reveal_strlit("delete");
        reveal_strlit("del");
        reveal_strlit("arrowup");
        reveal_strlit("up");
        reveal_strlit("arrowdown");
        reveal_strlit("down");
        reveal_strlit("arrowleft");
        reveal_strlit("left");
        reveal_strlit("arrowright");
        assert("right"@.len() != "escape"@.len());
        assert("right"@.len() != "esc"@.len());
        assert("right"@.len() != "return"@.len());
        assert("right"@.len() != "tab"@.len());
        assert("right"@.len() != "backspace"@.len());
        assert("right"@.len() != "delete"@.len());
        assert("right"@.len() != "del"@.len());
        assert("right"@.len() != "arrowup"@.len());
        assert("right"@.len() != "up"@.len());
        assert("right"@.len() != "arrowdown"@.len());
        assert("right"@.len() != "down"@.len());
        assert("right"@.len() != "arrowleft"@.len());
        assert("right"@.len() != "left"@.len());
        assert("right"@[0] != "enter"@[0]);
        assert("right"@[0] != "space"@[0]);
    }
}

/// The lower-case texts that name a modifier.
pub open spec fn modifier_names(v: Modifier) -> Seq<Seq<char>> {
    match v {
        Modifier::Ctrl => seq!["ctrl"@, "control"@],
        Modifier::Shift => seq!["shift"@],
        Modifier::Alt => seq!["alt"@],
        Modifier::Logo => seq!["meta"@, "super"@, "logo"@, "win"@, "cmd"@],
    }
}

/// A lower-cased modifier prefix is read as the modifier it names, and only
/// that modifier's names read as it.
pub proof fn lemma_modifier_read_by_name(v: Modifier, s: Seq<char>)
    ensures
        forall|i: int| 0 <= i < modifier_names(v).len() ==> modifier_named(#[trigger] modifier_names(v)[i]) == Some(v),
        modifier_named(s) == Some(v) ==> modifier_names(v).contains(s),
{
    match v {
        Modifier::Ctrl => {
            assert(modifier_named("ctrl"@) == Some(Modifier::Ctrl)) by {
                reveal_strlit("ctrl");
            }
            assert(modifier_names(Modifier::Ctrl)[0] == "ctrl"@);
            assert(modifier_named("control"@) == Some(Modifier::Ctrl)) by {
                reveal_strlit("control");
                reveal_strlit("ctrl");
            }
            assert(modifier_names(Modifier::Ctrl)[1] == "control"@);
            if modifier_named(s) == Some(Modifier::Ctrl) {
                if s == "ctrl"@ {
                    assert(modifier_names(Modifier::Ctrl)[0] == s);
                }
                if s == "control"@ {
                    assert(modifier_names(Modifier::Ctrl)[1] == s);
                }
            }
        },
        Modifier::Shift => {
            assert(modifier_named("shift"@) == Some(Modifier::Shift)) by {
                reveal_strlit("shift");
                reveal_strlit("ctrl");
                reveal_strlit("control");
                assert("shift"@.len() != "ctrl"@.len());
                assert("shift"@.len() != "control"@.len());
            }
            assert(modifier_names(Modifier::Shift)[0] == "shift"@);
            if modifier_named(s) == Some(Modifier::Shift) {
                if s == "shift"@ {
                    assert(modifier_names(Modifier::Shift)[0] == s);
                }
            }
        },
        Modifier::Alt => {
            assert(modifier_named("alt"@) == Some(Modifier::Alt)) by {
                reveal_strlit("alt");
                reveal_strlit("ctrl");
                reveal_strlit("control");
                reveal_strlit("shift");
                assert("alt"@.len() != "ctrl"@.len());
                assert("alt"@.len() != "control"@.len());
                assert("alt"@.len() != "shift"@.len());
            }
            assert(modifier_names(Modifier::Alt)[0] == "alt"@);
            if modifier_named(s) == Some(Modifier::Alt) {
                if s == "alt"@ {
                    assert(modifier_names(Modifier::Alt)[0] == s);
                }
            }
        },
        Modifier::Logo => {
            assert(modifier_named("meta"@) == Some(Modifier::Logo)) by {
                reveal_strlit("meta");
                reveal_strlit("ctrl");
                reveal_strlit("control");
                reveal_strlit("shift");
                reveal_strlit("alt");
                assert("meta"@[0] != "ctrl"@[0]);
                assert("meta"@.len() != "control"@.len());
                assert("meta"@.len() != "shift"@.len());
                assert("meta"@.len() != "alt"@.len());
            }
            assert(modifier_names(Modifier::Logo)[0] == "meta"@);
            assert(modifier_named("super"@) == Some(Modifier::Logo)) by {
                reveal_strlit("super");
                reveal_strlit("ctrl");
                reveal_strlit("control");
                reveal_strlit("shift");
                reveal_strlit("alt");
                reveal_strlit("meta");
                assert("super"@.len() != "ctrl"@.len());
                assert("super"@.len() != "control"@.len());
                assert("super"@[1] != "shift"@[1]);
                assert("super"@.len() != "alt"@.len());
            }
            assert(modifier_names(Modifier::Logo)[1] == "super"@);
            assert(modifier_named("logo"@) == Some(Modifier::Logo)) by {
                reveal_strlit("logo");
                reveal_strlit("ctrl");
                reveal_strlit("control");
                reveal_strlit("shift");
                reveal_strlit("alt");
                reveal_strlit("meta");
                assert("logo"@[0] != "ctrl"@[0]);
                assert("logo"@.len() != "control"@.len());
                assert("logo"@.len() != "shift"@.len());
                assert("logo"@.len() != "alt"@.len());
            }
            assert(modifier_names(Modifier::Logo)[2] == "logo"@);
            assert(modifier_named("win"@) == Some(Modifier::Logo)) by {
                reveal_strlit("win");
                reveal_strlit("ctrl");
                reveal_strlit("control");
                reveal_strlit("shift");
                reveal_strlit("alt");
                reveal_strlit("meta");
                assert("win"@.len() != "ctrl"@.len());
                assert("win"@.len() != "control"@.len());
                assert("win"@.len() != "shift"@.len());
                assert("win"@[0] != "alt"@[0]);
            }
            assert(modifier_names(Modifier::Logo)[3] == "win"@);
            assert(modifier_named("cmd"@) == Some(Modifier::Logo)) by {
                reveal_strlit("cmd");
                reveal_strlit("ctrl");
                reveal_strlit("control");
                reveal_strlit("shift");
                reveal_strlit("alt");
                reveal_strlit("meta");
                assert("cmd"@.len() != "ctrl"@.len());
                assert("cmd"@.len() != "control"@.len());
                assert("cmd"@.len() != "shift"@.len());
                assert("cmd"@[0] != "alt"@[0]);
            }
            assert(modifier_names(Modifier::Logo)[4] == "cmd"@);
            if modifier_named(s) == Some(Modifier::Logo) {
                if s == "meta"@ {
                    assert(modifier_names(Modifier::Logo)[0] == s);
                }
                if s == "super"@ {
                    assert(modifier_names(Modifier::Logo)[1] == s);
                }
                if s == "logo"@ {
                    assert(modifier_names(Modifier::Logo)[2] == s);
                }
                if s == "win"@ {
                    assert(modifier_names(Modifier::Logo)[3] == s);
                }
                if s == "cmd"@ {
                    assert(modifier_names(Modifier::Logo)[4] == s);
                }
            }
        },
    }
}

} // verus!
