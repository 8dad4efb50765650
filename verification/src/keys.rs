//! Keyboard shortcuts of the editor.

use vstd::prelude::*;

verus! {

/// What a keyboard shortcut asks for.
#[derive(Debug, Clone, Copy, PartialEq, Eq, Structural)]
pub enum Shortcut {
    Undo,
    Redo,
    SaveSvg,
    SaveSvgAs,
    OpenSettings,
}

pub open spec fn spec_shortcut(control: bool, shift: bool, key: Option<char>) -> Option<Shortcut> {
    if !control {
        None
    } else {
        match key {
            Some('z') => Some(if shift { Shortcut::Redo } else { Shortcut::Undo }),
            Some('y') => Some(Shortcut::Redo),
            Some('s') => Some(if shift { Shortcut::SaveSvgAs } else { Shortcut::SaveSvg }),
            Some('t') => Some(Shortcut::OpenSettings),
            _ => None,
        }
    }
}

/// The shortcut for a key press: `key` is the character the key types,
/// when it types exactly one. Ctrl+Z undoes (with Shift, redoes), Ctrl+Y
/// redoes, Ctrl+S saves (with Shift, saves under a new name) and Ctrl+T
/// opens the settings.
pub fn shortcut(control: bool, shift: bool, key: Option<char>) -> (s: Option<Shortcut>)
    ensures
        s == spec_shortcut(control, shift, key),
{
    if !control {
        return None;
    }
    match key {
        Some('z') => Some(
            if shift {
                Shortcut::Redo
            } else {
                Shortcut::Undo
            },
        ),
        Some('y') => Some(Shortcut::Redo),
        Some('s') => Some(
            if shift {
                Shortcut::SaveSvgAs
            } else {
                Shortcut::SaveSvg
            },
        ),
        Some('t') => Some(Shortcut::OpenSettings),
        _ => None,
    }
}

} // verus!
