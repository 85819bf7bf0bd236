//! The rule for tag names that a user enters.

use crate::api_types::Tag;
use crate::app_error::{AppError, AppFailure};
use crate::config::tags::{ALTERNATIVE_DEFAULT_COLOR, MAX_TAG_LENGTH};
use crate::text::{
    char_utf8_len, lemma_utf8_size_prefix, to_chars, trim, trim_chars, utf8_size,
};
use vstd::prelude::*;

verus! {

/// A tag name that a user may enter: not blank, and at most 50 bytes long
/// once trimmed.
pub open spec fn valid_tag(text: Seq<char>) -> bool {
    trim(text).len() > 0 && utf8_size(trim(text)) <= MAX_TAG_LENGTH
}

/// Whether `tag_text` may be entered as a tag name.
pub fn is_valid_tag(tag_text: &str) -> (valid: bool)
    ensures
        valid == valid_tag(tag_text@),
{
    let trimmed = trim_chars(&to_chars(tag_text));
    if trimmed.len() == 0 {
        return false;
    }
    let mut size: usize = 0;
    let mut i: usize = 0;
    while i < trimmed.len()
        invariant
            i <= trimmed.len(),
            trimmed@ == trim(tag_text@),
            size == utf8_size(trimmed@.take(i as int)),
            size <= MAX_TAG_LENGTH,
        decreases trimmed.len() - i,
    {
        let w = char_utf8_len(trimmed[i]);
        assert(trimmed@.take(i + 1).drop_last() == trimmed@.take(i as int));
        assert(trimmed@.take(i + 1).last() == trimmed@[i as int]);
        if w > MAX_TAG_LENGTH - size {
            proof {
                lemma_utf8_size_prefix(trimmed@, i + 1);
            }
            return false;
        }
        size = size + w;
        i += 1;
    }
    assert(trimmed@.take(trimmed.len() as int) == trimmed@);
    true
}

/// What is said of a tag without a name.
pub const EMPTY_TAG_NAME_MESSAGE: &'static str = "タグ名は空にできません";

/// The colour of a new tag: the one given, or the default.
pub open spec fn colour_or_default(color: Option<Seq<char>>) -> Seq<char> {
    match color {
        Some(given) => given,
        None => ALTERNATIVE_DEFAULT_COLOR@,
    }
}

/// Makes the tag that is entered in the catalog for a name not seen
/// before: unused, without category or parent, in the colour given or the
/// default colour. A blank name is refused.
pub fn new_tag(name: &str, color: Option<&str>) -> (tag: Result<Tag, AppError>)
    ensures
        match tag {
            Err(e) => trim(name@).len() == 0 && e@ == AppFailure::Custom(EMPTY_TAG_NAME_MESSAGE@),
            Ok(t) => {
                &&& trim(name@).len() > 0
                &&& t.name@ == name@
                &&& t.color@ == colour_or_default(
                    match color {
                        Some(given) => Some(given@),
                        None => None,
                    },
                )
                &&& t.id is None
                &&& t.category is None
                &&& t.parent_tag_id is None
                &&& t.usage_count == 0
                &&& t.created_at is None
            },
        },
{
    if trim_chars(&to_chars(name)).len() == 0 {
        return Err(AppError::Custom(EMPTY_TAG_NAME_MESSAGE.to_string()));
    }
    let color: &str = match color {
        Some(given) => given,
        None => ALTERNATIVE_DEFAULT_COLOR,
    };
    Ok(
        Tag {
            id: None,
            name: name.to_string(),
            color: color.to_string(),
            category: None,
            parent_tag_id: None,
            usage_count: 0,
            created_at: None,
        },
    )
}


} // verus!
