//! Key dispatch: from a key press to the action it is bound to.

use vstd::prelude::*;
use std::collections::HashMap;

verus! {

/// The key of a key press.
#[derive(Clone, Copy, Debug, PartialEq, Eq, Structural)]
pub enum KeyCode {
    Backspace,
    Enter,
    Left,
    Right,
    Up,
    Down,
    Home,
    End,
    PageUp,
    PageDown,
    Tab,
    BackTab,
    Delete,
    Insert,
    /// A function key, by its number.
    F(u8),
    /// A character key.
    Char(char),
    Null,
    Esc,
    CapsLock,
    ScrollLock,
    NumLock,
    PrintScreen,
    Pause,
    Menu,
    KeypadBegin,
    /// A media key, by its number.
    Media(u8),
    /// A modifier key pressed on its own, by its number.
    Modifier(u8),
}

/// A key press: the key and the modifiers held with it, as a bit mask.
#[derive(Clone, Copy, Debug, PartialEq, Eq, Structural)]
pub struct KeyEvent {
    pub code: KeyCode,
    pub modifiers: u8,
}

/// What a key press asks for. The component in focus decides what each
/// action means to it.
#[derive(Clone, Copy, Debug, PartialEq, Eq, Structural)]
pub enum KeyAction {
    MoveUp,
    MoveDown,
    MoveLeft,
    MoveRight,
    Select,
    Deselect,
    Back,
    Reload,
    Exit,
}

impl KeyCode {
    /// The number under which the bindings of this key are filed. Different
    /// keys have different numbers.
    pub open spec fn slot(self) -> u32 {
        match self {
            KeyCode::Backspace => 0,
            KeyCode::Enter => 1,
            KeyCode::Left => 2,
            KeyCode::Right => 3,
            KeyCode::Up => 4,
            KeyCode::Down => 5,
            KeyCode::Home => 6,
            KeyCode::End => 7,
            KeyCode::PageUp => 8,
            KeyCode::PageDown => 9,
            KeyCode::Tab => 10,
            KeyCode::BackTab => 11,
            KeyCode::Delete => 12,
            KeyCode::Insert => 13,
            KeyCode::Null => 14,
            KeyCode::Esc => 15,
            KeyCode::CapsLock => 16,
            KeyCode::ScrollLock => 17,
            KeyCode::NumLock => 18,
            KeyCode::PrintScreen => 19,
            KeyCode::Pause => 20,
            KeyCode::Menu => 21,
            KeyCode::KeypadBegin => 22,
            KeyCode::F(number) => (0x100 + number) as u32,
            KeyCode::Media(number) => (0x200 + number) as u32,
            KeyCode::Modifier(number) => (0x300 + number) as u32,
            KeyCode::Char(character) => (0x1000 + character as u32) as u32,
        }
    }

    /// Computes the number under which the bindings of this key are filed.
    pub fn slot_number(&self) -> (number: u32)
        ensures
            number == self.slot(),
    {
        match self {
            KeyCode::Backspace => 0,
            KeyCode::Enter => 1,
            KeyCode::Left => 2,
            KeyCode::Right => 3,
            KeyCode::Up => 4,
            KeyCode::Down => 5,
            KeyCode::Home => 6,
            KeyCode::End => 7,
            KeyCode::PageUp => 8,
            KeyCode::PageDown => 9,
            KeyCode::Tab => 10,
            KeyCode::BackTab => 11,
            KeyCode::Delete => 12,
            KeyCode::Insert => 13,
            KeyCode::Null => 14,
            KeyCode::Esc => 15,
            KeyCode::CapsLock => 16,
            KeyCode::ScrollLock => 17,
            KeyCode::NumLock => 18,
            KeyCode::PrintScreen => 19,
            KeyCode::Pause => 20,
            KeyCode::Menu => 21,
            KeyCode::KeypadBegin => 22,
            KeyCode::F(number) => 0x100 + *number as u32,
            KeyCode::Media(number) => 0x200 + *number as u32,
            KeyCode::Modifier(number) => 0x300 + *number as u32,
            KeyCode::Char(character) => 0x1000 + *character as u32,
        }
    }

    /// Two keys that are filed under the same number are the same key.
    pub proof fn lemma_slot_injective(first: KeyCode, second: KeyCode)
        requires
            first.slot() == second.slot(),
        ensures
            first == second,
    {
    }
}

/// The table of key bindings: for each key, the action bound to each
/// combination of modifiers. A key or a combination that the table does not
/// hold is bound to nothing.
pub struct KeyBindingsConfig {
    bindings: HashMap<u32, HashMap<u8, KeyAction>>,
}

impl Clone for KeyBindingsConfig {
    fn clone(&self) -> (copy: Self)
        ensures
            forall|code: KeyCode, modifiers: u8|
                copy.action_for(code, modifiers) == self.action_for(code, modifiers),
    {
        KeyBindingsConfig { bindings: self.bindings.clone() }
    }
}

/// The key bindings are kept in the framework's typed store under their own
/// type.
impl typemap::Key for KeyBindingsConfig {
    type Value = KeyBindingsConfig;
}

impl KeyBindingsConfig {
    /// The action bound to `code` pressed with `modifiers`, if there is one.
    pub closed spec fn action_for(&self, code: KeyCode, modifiers: u8) -> Option<KeyAction> {
        if self.bindings@.contains_key(code.slot()) && self.bindings@[code.slot()]@.contains_key(
            modifiers,
        ) {
            Some(self.bindings@[code.slot()]@[modifiers])
        } else {
            None
        }
    }

    /// A table that binds nothing.
    pub fn new() -> (table: KeyBindingsConfig)
        ensures
            forall|code: KeyCode, modifiers: u8| table.action_for(code, modifiers) is None,
    {
        KeyBindingsConfig { bindings: HashMap::new() }
    }

    /// Binds `code` pressed with `modifiers` to `action`, in place of what it
    /// was bound to. Every other binding stays.
    pub fn bind(&mut self, code: KeyCode, modifiers: u8, action: KeyAction)
        ensures
            forall|other: KeyCode, held: u8|
                #[trigger] final(self).action_for(other, held) == if other == code && held
                    == modifiers {
                    Some(action)
                } else {
                    old(self).action_for(other, held)
                },
    {
        let slot = code.slot_number();
        let mut by_modifiers = match self.bindings.remove(&slot) {
            Some(found) => found,
            None => HashMap::new(),
        };
        by_modifiers.insert(modifiers, action);
        self.bindings.insert(slot, by_modifiers);
        proof {
            assert forall|other: KeyCode, held: u8|
                #[trigger] self.action_for(other, held) == if other == code && held == modifiers {
                    Some(action)
                } else {
                    old(self).action_for(other, held)
                } by {
                if other.slot() == code.slot() {
                    KeyCode::lemma_slot_injective(other, code);
                }
            }
        }
    }

    /// The action that the table binds to `key`, or `None` where the key or
    /// its combination of modifiers is not bound.
    pub fn resolve(&self, key: &KeyEvent) -> (action: Option<KeyAction>)
        ensures
            action == self.action_for(key.code, key.modifiers),
    {
        let slot = key.code.slot_number();
        match self.bindings.get(&slot) {
            Some(by_modifiers) => match by_modifiers.get(&key.modifiers) {
                Some(action) => Some(*action),
                None => None,
            },
            None => None,
        }
    }
}

} // verus!
