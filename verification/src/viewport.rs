//! Visible window of the text around the caret.

use vstd::prelude::*;

verus! {

/// The window `(start, end)` shown for a caret position.
pub open spec fn viewport_of(caret_pos: int, text_len: int, window: int, padding: int) -> (
    int,
    int,
) {
    if text_len <= window {
        (0, text_len)
    } else {
        let start = if caret_pos >= padding {
            caret_pos - padding
        } else {
            0
        };
        let end = if start + window <= text_len {
            start + window
        } else {
            text_len
        };
        (start, end)
    }
}

/// Computes the visible text window around the caret: the whole text when it
/// fits, otherwise `window` characters starting `padding` before the caret,
/// cut at the end of the text.
pub fn calc_viewport(caret_pos: usize, text_len: usize, window: usize, padding: usize) -> (r: (
    usize,
    usize,
))
    requires
        text_len <= window || (if caret_pos >= padding {
            caret_pos - padding
        } else {
            0
        }) + window <= usize::MAX,
    ensures
        (r.0 as int, r.1 as int) == viewport_of(
            caret_pos as int,
            text_len as int,
            window as int,
            padding as int,
        ),
{
    if text_len <= window {
        return (0, text_len);
    }
    let start = caret_pos.saturating_sub(padding);
    let end = if start + window <= text_len {
        start + window
    } else {
        text_len
    };
    (start, end)
}

/// The caret stays inside the window whenever it is on the text and the
/// padding is smaller than the window.
pub proof fn caret_always_visible(caret_pos: int, text_len: int, window: int, padding: int)
    requires
        0 <= caret_pos < text_len,
        0 <= padding < window,
    ensures
        viewport_of(caret_pos, text_len, window, padding).0 <= caret_pos,
        caret_pos < viewport_of(caret_pos, text_len, window, padding).1,
        viewport_of(caret_pos, text_len, window, padding).1 <= text_len,
{
}

} // verus!
