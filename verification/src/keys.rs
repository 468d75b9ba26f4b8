//! Key events as the input rules read them.
use vstd::prelude::*;

verus! {

/// A key on the keyboard.
#[derive(Debug, Clone, Copy, PartialEq, Eq, Structural)]
pub enum KeyCode {
    Backspace,
    Enter,
    Left,
    Right,
    Up,
    Down,
    Home,
    End,
    PageUp,
    PageDown,
    Tab,
    BackTab,
    Delete,
    Insert,
    F(u8),
    Char(char),
    Null,
    Esc,
}

/// Whether the key went down, repeated or came up.
#[derive(Debug, Clone, Copy, PartialEq, Eq, Structural)]
pub enum KeyEventKind {
    Press,
    Repeat,
    Release,
}

/// Modifier keys held with a key.
#[derive(Debug, Clone, Copy, PartialEq, Eq, Structural)]
pub struct KeyModifiers {
    pub shift: bool,
    pub control: bool,
    pub alt: bool,
    /// The macOS Command key (or the platform's super key).
    pub super_key: bool,
}

/// A key event.
#[derive(Debug, Clone, Copy, PartialEq, Eq, Structural)]
pub struct KeyEvent {
    pub code: KeyCode,
    pub modifiers: KeyModifiers,
    pub kind: KeyEventKind,
}

impl KeyModifiers {
    /// No modifier held.
    pub fn none() -> (r: Self)
        ensures
            !r.shift && !r.control && !r.alt && !r.super_key,
    {
        KeyModifiers { shift: false, control: false, alt: false, super_key: false }
    }
}

impl KeyEvent {
    /// A plain press of `code`.
    pub fn press(code: KeyCode) -> (r: Self)
        ensures
            r.code == code,
            r.kind == KeyEventKind::Press,
            !r.modifiers.shift && !r.modifiers.control && !r.modifiers.alt && !r.modifiers.super_key,
    {
        KeyEvent { code, modifiers: KeyModifiers::none(), kind: KeyEventKind::Press }
    }

    /// A press of `code` with `modifiers`.
    pub fn with_modifiers(code: KeyCode, modifiers: KeyModifiers) -> (r: Self)
        ensures
            r.code == code,
            r.kind == KeyEventKind::Press,
            r.modifiers == modifiers,
    {
        KeyEvent { code, modifiers, kind: KeyEventKind::Press }
    }
}

/// Whether `c` is a control character (general category Cc: U+0000–U+001F and
/// U+007F–U+009F), as `char::is_control` decides.
pub open spec fn spec_is_control(c: char) -> bool {
    let u = c as u32;
    u <= 0x1F || (0x7F <= u && u <= 0x9F)
}

/// `char::is_control`.
pub fn is_control(c: char) -> (r: bool)
    ensures
        r == spec_is_control(c),
{
    let u = c as u32;
    u <= 0x1F || (0x7F <= u && u <= 0x9F)
}

/// Whether a character outside ASCII has the Unicode `Alphabetic` property, as
/// `char::is_alphabetic` reports it.
pub uninterp spec fn spec_has_alphabetic_property(c: char) -> bool;

/// Whether `char::is_alphabetic` holds of `c`: in ASCII exactly the letters `a`-`z` and
/// `A`-`Z` (the only ASCII characters with the Unicode `Alphabetic` property); beyond
/// ASCII, the property itself.
pub open spec fn spec_is_alphabetic(c: char) -> bool {
    if (c as u32) <= 0x7f {
        ('a' <= c && c <= 'z') || ('A' <= c && c <= 'Z')
    } else {
        spec_has_alphabetic_property(c)
    }
}

/// `char::is_alphabetic`: whether `c` has the Unicode `Alphabetic` property. In ASCII
/// these are exactly the letters; beyond ASCII the property table is not restated and
/// the result is named.
#[verifier::external_body]
pub(crate) fn is_alphabetic(c: char) -> (r: bool)
    ensures
        r == spec_is_alphabetic(c),
        (c as u32) > 0x7f ==> r == spec_has_alphabetic_property(c),
        (c as u32) <= 0x7f ==> (r <==> (('a' <= c && c <= 'z') || ('A' <= c && c <= 'Z'))),
{
    c.is_alphabetic()
}

} // verus!
