//! The coordinator of the two enable lines: it alone takes the `Set*Enable`
//! requests, and it reports a change only once the line was written.
use vstd::prelude::*;
use crate::event::{Event, EventView};

verus! {

/// An enable line that the station drives.
#[derive(Clone, Copy, Debug, PartialEq, Eq, Structural)]
pub enum Line {
    TxPowerEnable,
    PttEnable,
}

/// The line to write and the state to write to it, for a request whose line
/// is present; nothing for any other event.
pub open spec fn write_request(e: EventView, has_tx_power: bool, has_ptt: bool) -> Option<(Line, bool)> {
    match e {
        EventView::SetTxPowerEnable(s) => if has_tx_power {
            Some((Line::TxPowerEnable, s))
        } else {
            None
        },
        EventView::SetPttEnable(s) => if has_ptt {
            Some((Line::PttEnable, s))
        } else {
            None
        },
        _ => None,
    }
}

/// Which line an event asks to write, given the lines that are present.
pub fn requested_write(event: &Event, has_tx_power: bool, has_ptt: bool) -> (r: Option<(Line, bool)>)
    ensures
        r == write_request(event@, has_tx_power, has_ptt),
{
    match event {
        Event::SetTxPowerEnable(s) => if has_tx_power {
            Some((Line::TxPowerEnable, *s))
        } else {
            None
        },
        Event::SetPttEnable(s) => if has_ptt {
            Some((Line::PttEnable, *s))
        } else {
            None
        },
        _ => None,
    }
}

/// The report of a failed write.
pub open spec fn failure_text(line: Line) -> Seq<char> {
    match line {
        Line::TxPowerEnable => "Failed to set TX power enable"@,
        Line::PttEnable => "Failed to set PTT enable"@,
    }
}

/// The event that follows a write: the change where it succeeded, the
/// failure report where it did not.
pub open spec fn outcome(line: Line, state: bool, ok: bool) -> EventView {
    if ok {
        match line {
            Line::TxPowerEnable => EventView::TxPowerEnableStateChanged(state),
            Line::PttEnable => EventView::PttEnableStateChanged(state),
        }
    } else {
        EventView::SendStatus(Some(failure_text(line)))
    }
}

/// The event to publish after writing `state` to `line`, `ok` telling whether
/// the write succeeded.
pub fn write_outcome(line: Line, state: bool, ok: bool) -> (r: Event)
    ensures
        r@ == outcome(line, state, ok),
{
    if ok {
        match line {
            Line::TxPowerEnable => Event::TxPowerEnableStateChanged(state),
            Line::PttEnable => Event::PttEnableStateChanged(state),
        }
    } else {
        match line {
            Line::TxPowerEnable => Event::SendStatus(Some(String::from_str("Failed to set TX power enable"))),
            Line::PttEnable => Event::SendStatus(Some(String::from_str("Failed to set PTT enable"))),
        }
    }
}

/// The level to write to a line for `on`, with the line's polarity applied.
pub fn pin_level(on: bool, inverted: bool) -> (r: u8)
    ensures
        r == (if on != inverted { 1u8 } else { 0u8 }),
{
    if on != inverted {
        1
    } else {
        0
    }
}

/// A write that failed never reports a change of state, and always reports
/// the failure.
pub proof fn lemma_failed_write_reported(line: Line, state: bool)
    ensures
        outcome(line, state, false) == EventView::SendStatus(Some(failure_text(line))),
        !(outcome(line, state, false) is TxPowerEnableStateChanged),
        !(outcome(line, state, false) is PttEnableStateChanged),
{
}

} // verus!
