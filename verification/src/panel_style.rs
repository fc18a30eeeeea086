//! The extended-style bits of a panel window, and the last-error rule that
//! tells a genuine zero style value from a failed platform call.
//!
//! On the one platform that carries extended window styles, the overlay
//! window must carry the tool-window bit (kept out of the taskbar and the
//! app switcher) and must not carry the app-window bit. The shell reads the
//! current style word, hands it here together with the platform's last-error
//! code, and writes back the value this module computes.

use vstd::prelude::*;

verus! {

/// The extended-style bit that marks a tool window.
pub const TOOL_WINDOW_BIT: i64 = 0x80;

/// The extended-style bit that marks a normal application window.
pub const APP_WINDOW_BIT: i64 = 0x40000;

/// Why the style toggle failed, with the platform's error code.
#[derive(Clone, Copy, PartialEq, Eq, Structural, Debug)]
pub enum StyleError {
    ReadFailed(u32),
    WriteFailed(u32),
}

/// The style word to write back: the tool-window bit set, the app-window bit
/// cleared, every other bit as it was.
pub open spec fn panel_style_of(current: i64) -> i64 {
    (current | 0x80) & !0x40000
}

/// Whether a style call failed: the platform signals failure by returning
/// zero while leaving a non-zero last-error code, and a zero return alone is
/// a legitimate style value.
pub open spec fn style_call_failed(ret: i64, last_error: u32) -> bool {
    ret == 0 && last_error != 0
}

/// Computes the panel style word from the current one: sets the tool-window
/// bit, clears the app-window bit, and leaves all other bits unchanged.
pub fn panel_style_bits(current: i64) -> (r: i64)
    ensures
        r == panel_style_of(current),
        r & TOOL_WINDOW_BIT == TOOL_WINDOW_BIT,
        r & APP_WINDOW_BIT == 0,
        r | TOOL_WINDOW_BIT | APP_WINDOW_BIT == current | TOOL_WINDOW_BIT | APP_WINDOW_BIT,
{
    let with_tool: i64 = current | TOOL_WINDOW_BIT;
    let r: i64 = with_tool & !APP_WINDOW_BIT;
    proof {
        assert(((current | 0x80i64) & !0x40000i64) & 0x80i64 == 0x80i64) by (bit_vector);
        assert(((current | 0x80i64) & !0x40000i64) & 0x40000i64 == 0i64) by (bit_vector);
        assert((((current | 0x80i64) & !0x40000i64) | 0x80i64 | 0x40000i64) == (current | 0x80i64
            | 0x40000i64)) by (bit_vector);
    }
    r
}

/// Judges the style read: a failed read is reported with the platform's
/// error code, any other outcome yields the value that was read.
pub fn check_style_read(value: i64, last_error: u32) -> (r: Result<i64, StyleError>)
    ensures
        style_call_failed(value, last_error) ==> r == Err::<i64, StyleError>(
            StyleError::ReadFailed(last_error),
        ),
        !style_call_failed(value, last_error) ==> r == Ok::<i64, StyleError>(value),
{
    if value == 0 && last_error != 0 {
        Err(StyleError::ReadFailed(last_error))
    } else {
        Ok(value)
    }
}

/// Judges the style write by the previous style value the platform returned
/// and the last-error code beside it, under the same rule as the read.
pub fn check_style_write(previous: i64, last_error: u32) -> (r: Result<(), StyleError>)
    ensures
        style_call_failed(previous, last_error) ==> r == Err::<(), StyleError>(
            StyleError::WriteFailed(last_error),
        ),
        !style_call_failed(previous, last_error) ==> r == Ok::<(), StyleError>(()),
{
    if previous == 0 && last_error != 0 {
        Err(StyleError::WriteFailed(last_error))
    } else {
        Ok(())
    }
}

/// Decides the read-modify half of the panel-style toggle: given the style
/// word the read returned and the last-error code beside it, either reports
/// the failed read or yields the word to write back.
pub fn plan_panel_style(current: i64, read_error: u32) -> (r: Result<i64, StyleError>)
    ensures
        style_call_failed(current, read_error) ==> r == Err::<i64, StyleError>(
            StyleError::ReadFailed(read_error),
        ),
        !style_call_failed(current, read_error) ==> r == Ok::<i64, StyleError>(
            panel_style_of(current),
        ),
{
    match check_style_read(current, read_error) {
        Ok(value) => Ok(panel_style_bits(value)),
        Err(e) => Err(e),
    }
}

} // verus!
