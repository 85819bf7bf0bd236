//! Prices as the marketplace writes them: a yen sign, digits in groups of
//! three, now and then a space.

use crate::text::{parse_i64, parse_i64_chars, to_chars, trim, trim_chars};
use vstd::prelude::*;

verus! {

/// The yen sign, the thousands separator and the space: what is taken out
/// of a price text before it is read as a number.
pub open spec fn is_price_mark(c: char) -> bool {
    c == '¥' || c == ',' || c == ' '
}

/// `s` without its price marks.
pub open spec fn strip_price_marks(s: Seq<char>) -> Seq<char> {
    s.filter(|c: char| !is_price_mark(c))
}

/// A listing is free when it has no price or a price of zero.
pub open spec fn price_is_free(price: Option<i64>) -> bool {
    match price {
        None => true,
        Some(amount) => amount == 0,
    }
}

/// The price that the structured endpoint's price text stands for: the
/// marks are taken out and the rest is trimmed; nothing, or the single
/// digit `0`, means no price, and so does a rest that is no integer.
pub open spec fn price_from_text(s: Seq<char>) -> Option<i64> {
    let cleaned = trim(strip_price_marks(s));
    if cleaned.len() == 0 || cleaned == seq!['0'] {
        None
    } else {
        parse_i64(cleaned)
    }
}

/// The price that the text of a page element stands for: the marks are
/// taken out and the rest is read as an integer, as it stands.
pub open spec fn price_in_element(s: Seq<char>) -> Option<i64> {
    parse_i64(strip_price_marks(s))
}

/// `v` without its price marks.
pub fn strip_price_marks_chars(v: &Vec<char>) -> (r: Vec<char>)
    ensures
        r@ == strip_price_marks(v@),
{
    let mut r: Vec<char> = Vec::new();
    let ghost keep = |c: char| !is_price_mark(c);
    let mut i: usize = 0;
    while i < v.len()
        invariant
            i <= v.len(),
            keep == (|c: char| !is_price_mark(c)),
            r@ == v@.take(i as int).filter(keep),
        decreases v.len() - i,
    {
        let c = v[i];
        proof {
            assert(v@.take(i + 1) == v@.take(i as int).push(c));
            Seq::lemma_filter_push(v@.take(i as int), c, keep);
        }
        if !(c == '¥' || c == ',' || c == ' ') {
            r.push(c);
        }
        i += 1;
    }
    assert(v@.take(v.len() as int) == v@);
    r
}

/// Whether a listing with this price is free.
pub fn is_free_price(price: Option<i64>) -> (free: bool)
    ensures
        free == price_is_free(price),
{
    match price {
        None => true,
        Some(amount) => amount == 0,
    }
}

/// Reads the price text of the structured endpoint, such as `¥ 1,200`.
pub fn parse_price_from_string(price_str: &str) -> (price: Option<i64>)
    ensures
        price == price_from_text(price_str@),
{
    let cleaned = trim_chars(&strip_price_marks_chars(&to_chars(price_str)));
    if cleaned.len() == 0 {
        return None;
    }
    if cleaned.len() == 1 && cleaned[0] == '0' {
        assert(cleaned@ == seq!['0']);
        return None;
    }
    assert(cleaned@ != seq!['0']) by {
        if cleaned@ == seq!['0'] {
            assert(cleaned@.len() == 1);
            assert(cleaned@[0] == '0');
        }
    }
    parse_i64_chars(&cleaned)
}

/// Reads the price that the text of a page element shows.
pub fn parse_element_price(text: &str) -> (price: Option<i64>)
    ensures
        price == price_in_element(text@),
{
    parse_i64_chars(&strip_price_marks_chars(&to_chars(text)))
}

} // verus!
