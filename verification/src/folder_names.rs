//! Folder names that every common file system accepts.

use crate::config::files::{MAX_FILENAME_LENGTH, UNNAMED};
use crate::text::{
    from_chars, lemma_prefix_within_bound, lemma_trim_end_is_prefix, lemma_trim_start_is_suffix,
    lemma_utf8_size_of_ascii, prefix_within, to_chars, trim, trim_chars, trim_end, trim_end_char,
    trim_end_char_chars, trim_start, truncate_to_bytes, utf8_size,
};
use vstd::prelude::*;

verus! {

/// The characters that a folder name may not hold.
pub open spec fn is_forbidden_in_names(c: char) -> bool {
    c == '<' || c == '>' || c == ':' || c == '"' || c == '|' || c == '?' || c == '*' || c == '/'
        || c == '\\'
}

/// `name` with an underscore in place of every forbidden character.
pub open spec fn with_underscores(name: Seq<char>) -> Seq<char> {
    name.map_values(
        |c: char|
            if is_forbidden_in_names(c) {
                '_'
            } else {
                c
            },
    )
}

/// The folder name made of `name`: forbidden characters become
/// underscores; dots at the end go, then whitespace at both ends; what is
/// left is cut to its longest prefix of at most 200 bytes in UTF-8; and a
/// name of which nothing is left becomes `unnamed`.
pub open spec fn folder_name_of(name: Seq<char>) -> Seq<char> {
    let cleaned = trim(trim_end_char(with_underscores(name), '.'));
    let cut = cleaned.take(prefix_within(cleaned, MAX_FILENAME_LENGTH as nat) as int);
    if cut.len() == 0 {
        UNNAMED@
    } else {
        cut
    }
}

fn replace_forbidden(v: &Vec<char>) -> (r: Vec<char>)
    ensures
        r@ == with_underscores(v@),
{
    let mut r: Vec<char> = Vec::new();
    let mut i: usize = 0;
    while i < v.len()
        invariant
            i <= v.len(),
            r.len() == i,
            forall|k: int| 0 <= k < i ==> #[trigger] r@[k] == with_underscores(v@)[k],
        decreases v.len() - i,
    {
        let c = v[i];
        let forbidden = c == '<' || c == '>' || c == ':' || c == '"' || c == '|' || c == '?' || c
            == '*' || c == '/' || c == '\\';
        r.push(
            if forbidden {
                '_'
            } else {
                c
            },
        );
        i += 1;
    }
    assert(r@ =~= with_underscores(v@));
    r
}

/// Makes a folder name out of a shop's or a product's name.
pub fn sanitize_folder_name(name: &str) -> (folder: String)
    ensures
        folder@ == folder_name_of(name@),
        folder@.len() > 0,
        forall|i: int| 0 <= i < folder@.len() ==> !is_forbidden_in_names(#[trigger] folder@[i]),
        utf8_size(folder@) <= MAX_FILENAME_LENGTH,
{
    let replaced = replace_forbidden(&to_chars(name));
    let cleaned = trim_chars(&trim_end_char_chars(&replaced, '.'));
    let cut = truncate_to_bytes(&cleaned, MAX_FILENAME_LENGTH);
    proof {
        lemma_cleaned_is_clear(with_underscores(name@));
    }
    if cut.len() == 0 {
        let fallback = UNNAMED.to_string();
        proof {
            lemma_unnamed_size();
        }
        fallback
    } else {
        from_chars(&cut)
    }
}

/// `unnamed` takes seven bytes.
proof fn lemma_unnamed_size()
    ensures
        utf8_size(UNNAMED@) == 7,
        forall|i: int| 0 <= i < UNNAMED@.len() ==> !is_forbidden_in_names(#[trigger] UNNAMED@[i]),
{
    reveal_strlit("unnamed");
    let s = UNNAMED@;
    assert(s =~= seq!['u', 'n', 'n', 'a', 'm', 'e', 'd']);
    lemma_utf8_size_of_ascii(s);
}

/// Trimming and cutting take characters away and bring none in: what is
/// left of a text without forbidden characters has none either.
proof fn lemma_cleaned_is_clear(s: Seq<char>)
    requires
        forall|i: int| 0 <= i < s.len() ==> !is_forbidden_in_names(#[trigger] s[i]),
    ensures
        ({
            let cleaned = trim(trim_end_char(s, '.'));
            let cut = cleaned.take(prefix_within(cleaned, MAX_FILENAME_LENGTH as nat) as int);
            forall|i: int| 0 <= i < cut.len() ==> !is_forbidden_in_names(#[trigger] cut[i])
        }),
{
    let a = trim_end_char(s, '.');
    lemma_trim_end_char_is_prefix(s, '.');
    let b = trim_start(a);
    lemma_trim_start_is_suffix(a);
    let c = trim_end(b);
    lemma_trim_end_is_prefix(b);
    lemma_prefix_within_bound(c, MAX_FILENAME_LENGTH as nat);
    let cut = c.take(prefix_within(c, MAX_FILENAME_LENGTH as nat) as int);
    assert forall|i: int| 0 <= i < cut.len() implies !is_forbidden_in_names(#[trigger] cut[i]) by {
        assert(cut[i] == c[i]);
        assert(c[i] == b[i]);
        let off = a.len() - b.len();
        assert(b[i] == a[i + off]);
        assert(a[i + off] == s[i + off]);
    }
}

proof fn lemma_trim_end_char_is_prefix(s: Seq<char>, c: char)
    ensures
        trim_end_char(s, c).is_prefix_of(s),
    decreases s.len(),
{
    if s.len() > 0 && s.last() == c {
        lemma_trim_end_char_is_prefix(s.drop_last(), c);
    }
}

} // verus!
