use vstd::prelude::*;

verus! {

/// The named keys that the controls react to. Every other named key is
/// `Other`: nothing in the library tells two such keys apart.
#[derive(PartialEq, Eq, Structural, Debug, Clone, Copy)]
pub enum NamedKey {
    ArrowLeft,
    ArrowRight,
    ArrowUp,
    ArrowDown,
    Escape,
    Other,
}

/// A key by its meaning under the current keyboard layout.
pub enum Key {
    /// A key with a name, such as an arrow key.
    Named(NamedKey),
    /// A key that types text; the text it types.
    Character(String),
    /// A key with no known meaning.
    Unidentified,
}

/// The mathematical value of a [`Key`].
pub enum KeyView {
    Named(NamedKey),
    Character(Seq<char>),
    Unidentified,
}

impl View for Key {
    type V = KeyView;

    open spec fn view(&self) -> KeyView {
        match self {
            Key::Named(n) => KeyView::Named(*n),
            Key::Character(s) => KeyView::Character(s@),
            Key::Unidentified => KeyView::Unidentified,
        }
    }
}

impl Key {
    /// The key that types the text `text`.
    pub fn character(text: &str) -> (k: Key)
        ensures
            k@ == KeyView::Character(text@),
    {
        Key::Character(text.to_owned())
    }

    /// Whether two keys have the same meaning.
    pub fn same_as(&self, other: &Key) -> (r: bool)
        ensures
            r == (self@ == other@),
    {
        match self {
            Key::Named(a) => match other {
                Key::Named(b) => *a == *b,
                _ => false,
            },
            Key::Character(a) => match other {
                Key::Character(b) => String::eq(a, b),
                _ => false,
            },
            Key::Unidentified => match other {
                Key::Unidentified => true,
                _ => false,
            },
        }
    }
}

/// A key going down or coming up.
pub struct KeyEvent {
    /// The key, by its meaning.
    pub logical_key: Key,
    /// `true` when the key was pressed, `false` when it was released.
    pub pressed: bool,
}

/// The mathematical value of a [`KeyEvent`].
pub struct KeyEventView {
    pub logical_key: KeyView,
    pub pressed: bool,
}

impl View for KeyEvent {
    type V = KeyEventView;

    open spec fn view(&self) -> KeyEventView {
        KeyEventView { logical_key: self.logical_key@, pressed: self.pressed }
    }
}

} // verus!
