//! Tag filtering: which of the texts found on a listing page count as tags.

use crate::config::tags::{MAX_SCRAPED_TAG_CHARS, MIN_SCRAPED_TAG_CHARS};
use crate::denylist::{is_excluded, label_list, label_texts};
use crate::text::{chars_eq, from_chars, to_chars, trim, trim_chars, views};
use vstd::prelude::*;

verus! {

/// A trimmed text may be kept as a tag: it has 2 to 50 characters and is
/// not an excluded phrase.
pub open spec fn tag_is_acceptable(text: Seq<char>) -> bool {
    MIN_SCRAPED_TAG_CHARS <= text.len() <= MAX_SCRAPED_TAG_CHARS && !is_excluded(text)
}

/// The tags that a run of raw texts gives: each text is trimmed, and kept
/// where it is acceptable and has not been kept before.
pub open spec fn collect_tags(texts: Seq<Seq<char>>) -> Seq<Seq<char>>
    decreases texts.len(),
{
    if texts.len() == 0 {
        Seq::empty()
    } else {
        let before = collect_tags(texts.drop_last());
        let candidate = trim(texts.last());
        if tag_is_acceptable(candidate) && !before.contains(candidate) {
            before.push(candidate)
        } else {
            before
        }
    }
}

/// Every collected tag is acceptable and is the trimmed form of one of the
/// texts, and no tag is collected twice.
pub proof fn lemma_collect_tags_sound(texts: Seq<Seq<char>>)
    ensures
        collect_tags(texts).no_duplicates(),
        forall|i: int|
            0 <= i < collect_tags(texts).len() ==> tag_is_acceptable(
                #[trigger] collect_tags(texts)[i],
            ),
        forall|i: int|
            0 <= i < collect_tags(texts).len() ==> exists|j: int|
                0 <= j < texts.len() && trim(texts[j]) == #[trigger] collect_tags(texts)[i],
    decreases texts.len(),
{
    if texts.len() > 0 {
        let shorter = texts.drop_last();
        lemma_collect_tags_sound(shorter);
        let before = collect_tags(shorter);
        let after = collect_tags(texts);
        assert forall|i: int| 0 <= i < after.len() implies exists|j: int|
            0 <= j < texts.len() && trim(texts[j]) == #[trigger] after[i] by {
            if i < before.len() {
                let j = choose|j: int| 0 <= j < shorter.len() && trim(shorter[j]) == before[i];
                assert(texts[j] == shorter[j]);
            } else {
                assert(trim(texts[texts.len() - 1]) == after[i]);
            }
        }
    }
}

/// Every text whose trimmed form is acceptable has that form among the
/// collected tags.
pub proof fn lemma_collect_tags_complete(texts: Seq<Seq<char>>, j: int)
    requires
        0 <= j < texts.len(),
        tag_is_acceptable(trim(texts[j])),
    ensures
        collect_tags(texts).contains(trim(texts[j])),
    decreases texts.len(),
{
    let shorter = texts.drop_last();
    let before = collect_tags(shorter);
    let after = collect_tags(texts);
    if j < texts.len() - 1 {
        lemma_collect_tags_complete(shorter, j);
        let k = choose|k: int| 0 <= k < before.len() && before[k] == trim(shorter[j]);
        assert(after[k] == trim(texts[j]));
    } else {
        let candidate = trim(texts.last());
        if before.contains(candidate) {
            let k = choose|k: int| 0 <= k < before.len() && before[k] == candidate;
            assert(after[k] == candidate);
        } else {
            assert(after[after.len() - 1] == candidate);
        }
    }
}

/// Whether `list` holds the text `t`.
fn holds_text(list: &Vec<Vec<char>>, t: &Vec<char>) -> (r: bool)
    ensures
        r == views(list@).contains(t@),
{
    let mut i: usize = 0;
    while i < list.len()
        invariant
            i <= list.len(),
            forall|k: int| 0 <= k < i ==> views(list@)[k] != t@,
        decreases list.len() - i,
    {
        if chars_eq(&list[i], t) {
            assert(views(list@)[i as int] == t@);
            return true;
        }
        i += 1;
    }
    false
}

/// Whether `text`, as it stands, is one of the interface labels.
pub fn is_excluded_phrase(text: &str) -> (r: bool)
    ensures
        r == is_excluded(text@),
{
    holds_text(&label_list(), &to_chars(text))
}

/// The strings that the character vectors of `items` spell.
fn strings_of(items: &Vec<Vec<char>>) -> (r: Vec<String>)
    ensures
        r.deep_view() == views(items@),
{
    let mut r: Vec<String> = Vec::new();
    let mut i: usize = 0;
    while i < items.len()
        invariant
            i <= items.len(),
            r.len() == i,
            forall|k: int| 0 <= k < i ==> (#[trigger] r@[k])@ == items@[k]@,
        decreases items.len() - i,
    {
        r.push(from_chars(&items[i]));
        i += 1;
    }
    assert(r.deep_view() =~= views(items@));
    r
}

/// Picks the tags out of the texts of the elements that the tag selectors
/// matched, in the order in which the texts come.
///
/// A text is trimmed first. It is kept when it has 2 to 50 characters, is
/// not an excluded interface phrase, and was not kept already.
pub fn filter_tags(texts: &Vec<String>) -> (tags: Vec<String>)
    ensures
        tags.deep_view() == collect_tags(texts.deep_view()),
        tags.deep_view().no_duplicates(),
        forall|i: int|
            0 <= i < tags.len() ==> 2 <= (#[trigger] tags.deep_view()[i]).len() <= 50 && !is_excluded(
                tags.deep_view()[i],
            ),
{
    let labels = label_list();
    let mut kept: Vec<Vec<char>> = Vec::new();
    let ghost all = texts.deep_view();
    let mut i: usize = 0;
    while i < texts.len()
        invariant
            i <= texts.len(),
            all == texts.deep_view(),
            views(labels@) == label_texts(),
            views(kept@) == collect_tags(all.take(i as int)),
        decreases texts.len() - i,
    {
        let raw = to_chars(texts[i].as_str());
        let candidate = trim_chars(&raw);
        proof {
            assert(all.take(i + 1).drop_last() == all.take(i as int));
            assert(all.take(i + 1).last() == texts@[i as int]@);
        }
        let n = candidate.len();
        if n >= MIN_SCRAPED_TAG_CHARS && n <= MAX_SCRAPED_TAG_CHARS && !holds_text(&labels, &candidate)
            && !holds_text(&kept, &candidate) {
            let ghost before = kept@;
            kept.push(candidate);
            assert(views(kept@) == views(before).push(candidate@));
        }
        i += 1;
    }
    proof {
        assert(all.take(texts.len() as int) == all);
        lemma_collect_tags_sound(all);
    }
    strings_of(&kept)
}

} // verus!
