//! User-authored practice texts and their validation.

use vstd::prelude::*;

use crate::text::{chars_are_blank, chars_of, is_blank, lemma_trim_empty_iff_blank, trim_seq};

verus! {

/// A stored custom text.
#[derive(Debug, Clone)]
pub struct CustomText {
    pub id: i64,
    pub name: String,
    pub text: String,
    pub created_at: String,
    pub last_used_at: Option<String>,
    pub use_count: i64,
}

/// Longest accepted text, in characters.
pub const MAX_CUSTOM_TEXT_LENGTH: usize = 10_000;

/// Longest accepted name, in characters.
pub const MAX_NAME_LENGTH: usize = 200;

/// The error `validate_text` reports for a name and a text, checked in this
/// order: a blank name, a name over the limit, a blank text, a text over the
/// limit; `None` when both are acceptable. Lengths count characters.
pub open spec fn text_validation_error(name: Seq<char>, text: Seq<char>) -> Option<Seq<char>> {
    if trim_seq(name).len() == 0 {
        Some("Name is empty"@)
    } else if name.len() > MAX_NAME_LENGTH {
        Some("Name too long (max 200 chars)"@)
    } else if trim_seq(text).len() == 0 {
        Some("Text is empty"@)
    } else if text.len() > MAX_CUSTOM_TEXT_LENGTH {
        Some("Text too long (max 10000 chars)"@)
    } else {
        None
    }
}

fn str_is_blank(s: &str) -> (b: bool)
    ensures
        b == (trim_seq(s@).len() == 0),
{
    let cs = chars_of(s);
    proof {
        lemma_trim_empty_iff_blank(s@);
    }
    chars_are_blank(cs.as_slice())
}

/// Checks a name and a text before they are stored.
pub fn validate_text(name: &str, text: &str) -> (r: Result<(), String>)
    ensures
        r is Ok == (text_validation_error(name@, text@) is None),
        r matches Err(e) ==> text_validation_error(name@, text@) == Some(e@),
{
    if str_is_blank(name) {
        return Err("Name is empty".to_owned());
    }
    if chars_of(name).len() > MAX_NAME_LENGTH {
        return Err("Name too long (max 200 chars)".to_owned());
    }
    if str_is_blank(text) {
        return Err("Text is empty".to_owned());
    }
    if chars_of(text).len() > MAX_CUSTOM_TEXT_LENGTH {
        return Err("Text too long (max 10000 chars)".to_owned());
    }
    Ok(())
}

} // verus!
