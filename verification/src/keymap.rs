//! Mapping cube events to keyboard keys.
//!
//! The cube acts as a remote control: its slope picks which of a key pair is
//! armed, and a click sends the armed key — a long press sends the home key
//! instead. The key injection itself is the caller's; this module only picks
//! keys.

use vstd::prelude::*;

use crate::clicks::ClickEvent;
use crate::codec::SlopeStatus;

verus! {

/// Which pair of keys the cube drives.
#[derive(Debug, Copy, Clone, PartialEq, Eq, Structural)]
pub enum KeyTableName {
    Page,
    LR,
    UD,
}

/// The keys the cube can send.
#[derive(Debug, Copy, Clone, PartialEq, Eq, Structural)]
pub enum KeyCode {
    F5,
    Home,
    PageUp,
    PageDown,
    LeftArrow,
    RightArrow,
    UpArrow,
    DownArrow,
}

/// The key table: each mode owns a pair, and the slope picks the column.
pub open spec fn key_table(table: KeyTableName, col: int) -> KeyCode
    recommends
        col == 0 || col == 1,
{
    match table {
        KeyTableName::Page => if col == 0 {
            KeyCode::PageUp
        } else {
            KeyCode::PageDown
        },
        KeyTableName::LR => if col == 0 {
            KeyCode::LeftArrow
        } else {
            KeyCode::RightArrow
        },
        KeyTableName::UD => if col == 0 {
            KeyCode::UpArrow
        } else {
            KeyCode::DownArrow
        },
    }
}

/// Arms a key from the cube's slope: level picks the second column of the
/// pair, anything else the first.
pub fn select_target_key(table: KeyTableName, slope: SlopeStatus) -> (k: KeyCode)
    ensures
        k == key_table(
            table,
            if slope == SlopeStatus::Horizontal {
                1int
            } else {
                0int
            },
        ),
{
    let col_one = matches!(slope, SlopeStatus::Horizontal);
    match table {
        KeyTableName::Page => if col_one {
            KeyCode::PageDown
        } else {
            KeyCode::PageUp
        },
        KeyTableName::LR => if col_one {
            KeyCode::RightArrow
        } else {
            KeyCode::LeftArrow
        },
        KeyTableName::UD => if col_one {
            KeyCode::DownArrow
        } else {
            KeyCode::UpArrow
        },
    }
}

/// The key a classified click sends: a long press sends the home key, any
/// other click the armed key, and no click sends nothing.
pub fn key_for_click(click: ClickEvent, armed: KeyCode) -> (k: Option<KeyCode>)
    ensures
        k == match click {
            ClickEvent::Nothing => None::<KeyCode>,
            ClickEvent::LongPress => Some(KeyCode::Home),
            _ => Some(armed),
        },
{
    match click {
        ClickEvent::Nothing => None,
        ClickEvent::LongPress => Some(KeyCode::Home),
        _ => Some(armed),
    }
}

} // verus!
