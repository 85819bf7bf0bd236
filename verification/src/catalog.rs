//! Searching the catalog, and finding the files that it lists twice.
//!
//! The catalog itself is kept elsewhere; these functions work on the rows
//! that were read from it.

use crate::database::{BatchStatistics, FileRecord, FileWithTags, Tag};
use crate::product::copy_text;
use crate::results::{MissingFile, SyncResult};
use crate::text::{contains, contains_chars, lowercase, to_chars, to_lowercase};
use vstd::prelude::*;

verus! {

/// The text of a field that may be empty.
pub open spec fn text_or_empty(text: Option<String>) -> Seq<char> {
    match text {
        Some(t) => t@,
        None => Seq::empty(),
    }
}

/// `text` holds `query`, whatever the case of either.
pub open spec fn holds_ignoring_case(text: Seq<char>, query: Seq<char>) -> bool {
    contains(lowercase(text), lowercase(query))
}

/// The file answers the query: its name, its path, the name of its product
/// or that of its author holds the query, whatever the case.
pub open spec fn file_answers(file: FileRecord, query: Seq<char>) -> bool {
    holds_ignoring_case(file.file_name@, query) || holds_ignoring_case(file.file_path@, query)
        || holds_ignoring_case(text_or_empty(file.product_name), query) || holds_ignoring_case(
        text_or_empty(file.author_name),
        query,
    )
}

/// The names of the tags.
pub open spec fn tag_names(tags: Seq<Tag>) -> Seq<Seq<char>> {
    tags.map_values(|tag: Tag| tag.name@)
}

/// The file carries one of the tags named.
pub open spec fn carries_one_of(tags: Seq<Tag>, names: Seq<Seq<char>>) -> bool {
    exists|i: int| 0 <= i < names.len() && tag_names(tags).contains(#[trigger] names[i])
}

/// The file is one of those numbered in `ids`.
pub open spec fn is_listed(file: FileRecord, ids: Seq<i64>) -> bool {
    file.id matches Some(id) && ids.contains(id)
}

/// The file carries data of a listing: the name of a product or of an
/// author.
pub open spec fn has_listing_data(file: FileRecord) -> bool {
    file.product_name is Some || file.author_name is Some
}

/// The items for which `keep` says yes, in their order.
pub open spec fn kept<T>(items: Seq<T>, keep: spec_fn(T) -> bool) -> Seq<T> {
    items.filter(keep)
}

/// The items in the opposite order.
fn reversed<T>(items: Vec<T>) -> (turned: Vec<T>)
    ensures
        turned@ == items@.reverse(),
{
    let ghost all = items@;
    let mut source = items;
    let mut turned: Vec<T> = Vec::new();
    while source.len() > 0
        invariant
            source.len() <= all.len(),
            source@ == all.take(source.len() as int),
            turned@ == all.reverse().take(all.len() - source.len()),
        decreases source.len(),
    {
        let ghost before = turned@;
        let item = source.pop().unwrap();
        turned.push(item);
        assert(turned@ =~= all.reverse().take(all.len() - source.len()));
    }
    assert(all.reverse().take(all.len() as int) =~= all.reverse());
    turned
}

fn holds_lowered(text: &str, lowered_query: &Vec<char>) -> (found: bool)
    ensures
        found == contains(lowercase(text@), lowered_query@),
{
    contains_chars(&to_chars(to_lowercase(text).as_str()), lowered_query)
}

fn optional_holds_lowered(text: &Option<String>, lowered_query: &Vec<char>) -> (found: bool)
    ensures
        found == contains(lowercase(text_or_empty(*text)), lowered_query@),
{
    proof {
        reveal_strlit("");
        assert(""@ =~= Seq::<char>::empty());
    }
    match text {
        Some(t) => holds_lowered(t.as_str(), lowered_query),
        None => holds_lowered("", lowered_query),
    }
}

/// Whether the file answers the query.
pub fn file_matches_query(file: &FileRecord, query: &str) -> (found: bool)
    ensures
        found == file_answers(*file, query@),
{
    let lowered = to_chars(to_lowercase(query).as_str());
    holds_lowered(file.file_name.as_str(), &lowered) || holds_lowered(
        file.file_path.as_str(),
        &lowered,
    ) || optional_holds_lowered(&file.product_name, &lowered) || optional_holds_lowered(
        &file.author_name,
        &lowered,
    )
}

fn has_tag_named(tags: &Vec<Tag>, name: &String) -> (found: bool)
    ensures
        found == tag_names(tags@).contains(name@),
{
    let mut i: usize = 0;
    while i < tags.len()
        invariant
            i <= tags.len(),
            forall|k: int| 0 <= k < i ==> tag_names(tags@)[k] != name@,
        decreases tags.len() - i,
    {
        if tags[i].name == *name {
            assert(tag_names(tags@)[i as int] == name@);
            return true;
        }
        i += 1;
    }
    false
}

/// Whether the file carries one of the tags named.
pub fn file_has_any_tag(file: &FileWithTags, tag_names_wanted: &Vec<String>) -> (found: bool)
    ensures
        found == carries_one_of(file.tags@, tag_names_wanted.deep_view()),
{
    let ghost names = tag_names_wanted.deep_view();
    let mut i: usize = 0;
    while i < tag_names_wanted.len()
        invariant
            i <= tag_names_wanted.len(),
            names == tag_names_wanted.deep_view(),
            forall|k: int| 0 <= k < i ==> !tag_names(file.tags@).contains(#[trigger] names[k]),
        decreases tag_names_wanted.len() - i,
    {
        assert(names[i as int] == tag_names_wanted@[i as int]@);
        if has_tag_named(&file.tags, &tag_names_wanted[i]) {
            return true;
        }
        i += 1;
    }
    false
}

/// Whether `id` is among `ids`.
pub fn id_is_among(id: i64, ids: &Vec<i64>) -> (found: bool)
    ensures
        found == ids@.contains(id),
{
    let mut i: usize = 0;
    while i < ids.len()
        invariant
            i <= ids.len(),
            forall|k: int| 0 <= k < i ==> ids@[k] != id,
        decreases ids.len() - i,
    {
        if ids[i] == id {
            return true;
        }
        i += 1;
    }
    false
}

/// Whether the file is one of those numbered in `ids`.
pub fn file_is_listed(file: &FileRecord, ids: &Vec<i64>) -> (found: bool)
    ensures
        found == is_listed(*file, ids@),
{
    match file.id {
        Some(id) => id_is_among(id, ids),
        None => false,
    }
}

/// The files that answer the query, in their order.
pub fn search_files(files: Vec<FileWithTags>, query: &str) -> (found: Vec<FileWithTags>)
    ensures
        found@ == kept(files@, |file: FileWithTags| file_answers(file.file, query@)),
{
    let ghost keep = |file: FileWithTags| file_answers(file.file, query@);
    let ghost all = files@;
    let mut found: Vec<FileWithTags> = Vec::new();
    let mut rest = reversed(files);
    let ghost reversed = rest@;
    assert(reversed == all.reverse());
    while rest.len() > 0
        invariant
            rest.len() <= all.len(),
            reversed == all.reverse(),
            rest@ == reversed.take(rest.len() as int),
            found@ == all.take(all.len() - rest.len()).filter(keep),
            keep == (|file: FileWithTags| file_answers(file.file, query@)),
        decreases rest.len(),
    {
        let ghost done = all.len() - rest.len();
        let file = rest.pop().unwrap();
        proof {
            assert(file == all[done]);
            assert(all.take(done + 1) == all.take(done).push(file));
            Seq::lemma_filter_push(all.take(done), file, keep);
        }
        if file_matches_query(&file.file, query) {
            found.push(file);
        }
    }
    assert(all.take(all.len() as int) == all);
    found
}

/// The files that carry one of the tags named, in their order.
pub fn search_files_by_tags(files: Vec<FileWithTags>, tag_names_wanted: &Vec<String>) -> (found:
    Vec<FileWithTags>)
    ensures
        found@ == kept(
            files@,
            |file: FileWithTags| carries_one_of(file.tags@, tag_names_wanted.deep_view()),
        ),
{
    let ghost keep = |file: FileWithTags| carries_one_of(file.tags@, tag_names_wanted.deep_view());
    let ghost all = files@;
    let mut found: Vec<FileWithTags> = Vec::new();
    let mut rest = reversed(files);
    let ghost reversed = rest@;
    while rest.len() > 0
        invariant
            rest.len() <= all.len(),
            reversed == all.reverse(),
            rest@ == reversed.take(rest.len() as int),
            found@ == all.take(all.len() - rest.len()).filter(keep),
            keep == (|file: FileWithTags|
                carries_one_of(file.tags@, tag_names_wanted.deep_view())),
        decreases rest.len(),
    {
        let ghost done = all.len() - rest.len();
        let file = rest.pop().unwrap();
        proof {
            assert(file == all[done]);
            assert(all.take(done + 1) == all.take(done).push(file));
            Seq::lemma_filter_push(all.take(done), file, keep);
        }
        if file_has_any_tag(&file, tag_names_wanted) {
            found.push(file);
        }
    }
    assert(all.take(all.len() as int) == all);
    found
}

/// The files numbered in `ids`, in their order.
pub fn files_with_ids(files: Vec<FileWithTags>, ids: &Vec<i64>) -> (found: Vec<FileWithTags>)
    ensures
        found@ == kept(files@, |file: FileWithTags| is_listed(file.file, ids@)),
{
    let ghost keep = |file: FileWithTags| is_listed(file.file, ids@);
    let ghost all = files@;
    let mut found: Vec<FileWithTags> = Vec::new();
    let mut rest = reversed(files);
    let ghost reversed = rest@;
    while rest.len() > 0
        invariant
            rest.len() <= all.len(),
            reversed == all.reverse(),
            rest@ == reversed.take(rest.len() as int),
            found@ == all.take(all.len() - rest.len()).filter(keep),
            keep == (|file: FileWithTags| is_listed(file.file, ids@)),
        decreases rest.len(),
    {
        let ghost done = all.len() - rest.len();
        let file = rest.pop().unwrap();
        proof {
            assert(file == all[done]);
            assert(all.take(done + 1) == all.take(done).push(file));
            Seq::lemma_filter_push(all.take(done), file, keep);
        }
        if file_is_listed(&file.file, ids) {
            found.push(file);
        }
    }
    assert(all.take(all.len() as int) == all);
    found
}

/// How the files numbered in `ids` stand: how many of them the catalog
/// holds, and how many of those carry data of a listing.
pub fn batch_statistics(files: &Vec<FileRecord>, ids: &Vec<i64>) -> (statistics: BatchStatistics)
    ensures
        statistics.processed == files@.filter(|file: FileRecord| is_listed(file, ids@)).len(),
        statistics.updated == files@.filter(
            |file: FileRecord| is_listed(file, ids@) && has_listing_data(file),
        ).len(),
        statistics.errors == 0,
{
    let ghost listed = |file: FileRecord| is_listed(file, ids@);
    let ghost updated_listed = |file: FileRecord| is_listed(file, ids@) && has_listing_data(file);
    let mut processed: usize = 0;
    let mut updated: usize = 0;
    let mut i: usize = 0;
    while i < files.len()
        invariant
            i <= files.len(),
            listed == (|file: FileRecord| is_listed(file, ids@)),
            updated_listed == (|file: FileRecord| is_listed(file, ids@) && has_listing_data(file)),
            processed == files@.take(i as int).filter(listed).len(),
            updated == files@.take(i as int).filter(updated_listed).len(),
            updated <= processed <= i,
        decreases files.len() - i,
    {
        let file = &files[i];
        proof {
            assert(files@.take(i + 1) == files@.take(i as int).push(*file));
            Seq::lemma_filter_push(files@.take(i as int), *file, listed);
            Seq::lemma_filter_push(files@.take(i as int), *file, updated_listed);
        }
        if file_is_listed(file, ids) {
            processed += 1;
            if file.product_name.is_some() || file.author_name.is_some() {
                updated += 1;
            }
        }
        i += 1;
    }
    assert(files@.take(files.len() as int) == files@);
    BatchStatistics { processed, updated, errors: 0 }
}

/// Two files count as the same file: they have the same size and the same
/// name.
pub open spec fn same_file(a: FileRecord, b: FileRecord) -> bool {
    a.file_size == b.file_size && a.file_name@ == b.file_name@
}

/// The file at `i` may still join a group: it has a number, and no file
/// with that number has been grouped.
pub open spec fn is_unclaimed(files: Seq<FileWithTags>, i: int, claimed: Set<i64>) -> bool {
    files[i].file.id matches Some(id) && !claimed.contains(id)
}

/// The numbers that are claimed once the file at `i` has joined a group.
pub open spec fn claim(files: Seq<FileWithTags>, i: int, claimed: Set<i64>) -> Set<i64> {
    match files[i].file.id {
        Some(id) => claimed.insert(id),
        None => claimed,
    }
}

/// The files from `from` on that join the group led by the file at
/// `leader`: those that are the same file as the leader and still
/// unclaimed, each claimed as it joins.
pub open spec fn followers(files: Seq<FileWithTags>, leader: int, from: int, claimed: Set<i64>) -> Seq<
    int,
>
    decreases files.len() - from,
{
    if from < 0 || from >= files.len() {
        Seq::empty()
    } else if is_unclaimed(files, from, claimed) && same_file(files[leader].file, files[from].file) {
        seq![from] + followers(files, leader, from + 1, claim(files, from, claimed))
    } else {
        followers(files, leader, from + 1, claimed)
    }
}

/// The numbers that are claimed once the followers from `from` on have
/// joined.
pub open spec fn claimed_after(
    files: Seq<FileWithTags>,
    leader: int,
    from: int,
    claimed: Set<i64>,
) -> Set<i64>
    decreases files.len() - from,
{
    if from < 0 || from >= files.len() {
        claimed
    } else if is_unclaimed(files, from, claimed) && same_file(files[leader].file, files[from].file) {
        claimed_after(files, leader, from + 1, claim(files, from, claimed))
    } else {
        claimed_after(files, leader, from + 1, claimed)
    }
}

/// The groups of files listed more than once, among the files from `from`
/// on: each unclaimed file leads a group of the later files that are the
/// same file; a group of one is none.
pub open spec fn duplicate_groups_from(files: Seq<FileWithTags>, from: int, claimed: Set<i64>) -> Seq<
    Seq<int>,
>
    decreases files.len() - from,
{
    if from < 0 || from >= files.len() {
        Seq::empty()
    } else if is_unclaimed(files, from, claimed) {
        let mine = claim(files, from, claimed);
        let members = followers(files, from, from + 1, mine);
        let rest = duplicate_groups_from(
            files,
            from + 1,
            claimed_after(files, from, from + 1, mine),
        );
        if members.len() > 0 {
            seq![seq![from] + members] + rest
        } else {
            rest
        }
    } else {
        duplicate_groups_from(files, from + 1, claimed)
    }
}

/// The groups of files that the catalog lists more than once, each group
/// as the positions of its files.
pub open spec fn duplicate_groups(files: Seq<FileWithTags>) -> Seq<Seq<int>> {
    duplicate_groups_from(files, 0, Set::empty())
}

/// The positions in a group as mathematical integers.
pub open spec fn positions(group: Vec<usize>) -> Seq<int> {
    group@.map_values(|i: usize| i as int)
}

/// The groups as sequences of positions.
pub open spec fn group_positions(groups: Seq<Vec<usize>>) -> Seq<Seq<int>> {
    groups.map_values(|group: Vec<usize>| positions(group))
}

/// Every follower comes after the place where the search began, is the
/// same file as the leader, and comes later than the follower before it.
pub proof fn lemma_followers_are_duplicates(
    files: Seq<FileWithTags>,
    leader: int,
    from: int,
    claimed: Set<i64>,
)
    requires
        0 <= leader < files.len(),
        0 <= from,
    ensures
        forall|k: int|
            0 <= k < followers(files, leader, from, claimed).len() ==> {
                let member = #[trigger] followers(files, leader, from, claimed)[k];
                from <= member < files.len() && same_file(files[leader].file, files[member].file)
            },
        forall|k: int, l: int|
            0 <= k < l < followers(files, leader, from, claimed).len() ==> followers(
                files,
                leader,
                from,
                claimed,
            )[k] < followers(files, leader, from, claimed)[l],
    decreases files.len() - from,
{
    if from < files.len() {
        let all = followers(files, leader, from, claimed);
        if is_unclaimed(files, from, claimed) && same_file(files[leader].file, files[from].file) {
            let next = claim(files, from, claimed);
            lemma_followers_are_duplicates(files, leader, from + 1, next);
            let rest = followers(files, leader, from + 1, next);
            assert(all == seq![from] + rest);
            assert forall|k: int| 0 <= k < all.len() implies {
                let member = #[trigger] all[k];
                from <= member < files.len() && same_file(files[leader].file, files[member].file)
            } by {
                if k > 0 {
                    assert(all[k] == rest[k - 1]);
                }
            }
            assert forall|k: int, l: int| 0 <= k < l < all.len() implies all[k] < all[l] by {
                assert(all[l] == rest[l - 1]);
                if k > 0 {
                    assert(all[k] == rest[k - 1]);
                }
            }
        } else {
            lemma_followers_are_duplicates(files, leader, from + 1, claimed);
        }
    }
}

/// Every group has two files or more, in the order of the catalog, and all
/// of them are the same file as the first.
pub proof fn lemma_duplicate_groups_sound(files: Seq<FileWithTags>, from: int, claimed: Set<i64>)
    requires
        0 <= from,
    ensures
        forall|g: int|
            0 <= g < duplicate_groups_from(files, from, claimed).len() ==> {
                let group = #[trigger] duplicate_groups_from(files, from, claimed)[g];
                &&& group.len() >= 2
                &&& forall|k: int| 0 <= k < group.len() ==> from <= #[trigger] group[k] < files.len()
                &&& forall|k: int, l: int| 0 <= k < l < group.len() ==> group[k] < group[l]
                &&& forall|k: int|
                    0 <= k < group.len() ==> same_file(
                        files[group[0]].file,
                        files[#[trigger] group[k]].file,
                    )
            },
    decreases files.len() - from,
{
    if from < files.len() {
        let groups = duplicate_groups_from(files, from, claimed);
        if is_unclaimed(files, from, claimed) {
            let mine = claim(files, from, claimed);
            let members = followers(files, from, from + 1, mine);
            let after = claimed_after(files, from, from + 1, mine);
            lemma_followers_are_duplicates(files, from, from + 1, mine);
            lemma_duplicate_groups_sound(files, from + 1, after);
            let rest = duplicate_groups_from(files, from + 1, after);
            let first = seq![from] + members;
            assert forall|g: int| 0 <= g < groups.len() implies {
                let group = #[trigger] groups[g];
                &&& group.len() >= 2
                &&& forall|k: int| 0 <= k < group.len() ==> from <= #[trigger] group[k] < files.len()
                &&& forall|k: int, l: int| 0 <= k < l < group.len() ==> group[k] < group[l]
                &&& forall|k: int|
                    0 <= k < group.len() ==> same_file(
                        files[group[0]].file,
                        files[#[trigger] group[k]].file,
                    )
            } by {
                if members.len() > 0 && g == 0 {
                    assert(groups[0] == first);
                    assert forall|k: int| 0 <= k < first.len() implies from <= #[trigger] first[k]
                        < files.len() && same_file(files[first[0]].file, files[first[k]].file) by {
                        if k > 0 {
                            assert(first[k] == members[k - 1]);
                        }
                    }
                    assert forall|k: int, l: int| 0 <= k < l < first.len() implies first[k]
                        < first[l] by {
                        assert(first[l] == members[l - 1]);
                        if k > 0 {
                            assert(first[k] == members[k - 1]);
                        }
                    }
                } else {
                    let shift: int = if members.len() > 0 {
                        1
                    } else {
                        0
                    };
                    assert(groups[g] == rest[g - shift]);
                }
            }
        } else {
            lemma_duplicate_groups_sound(files, from + 1, claimed);
        }
    }
}

/// Finds the files that the catalog lists more than once: files of the
/// same size and name. A group holds the positions of its files in
/// `files`, the earliest first; a file without a number joins no group,
/// and neither does a second file with a number already grouped.
pub fn find_duplicate_groups(files: &Vec<FileWithTags>) -> (groups: Vec<Vec<usize>>)
    ensures
        group_positions(groups@) == duplicate_groups(files@),
        forall|g: int|
            0 <= g < groups.len() ==> (#[trigger] groups@[g]).len() >= 2 && forall|k: int|
                0 <= k < groups@[g].len() ==> (#[trigger] groups@[g]@[k]) < files.len() && same_file(
                    files@[groups@[g]@[0] as int].file,
                    files@[groups@[g]@[k] as int].file,
                ),
{
    let n = files.len();
    let mut groups: Vec<Vec<usize>> = Vec::new();
    let mut claimed: Vec<i64> = Vec::new();
    let mut i: usize = 0;
    proof {
        assert(claimed@.to_set() =~= Set::<i64>::empty());
        assert(group_positions(groups@) =~= Seq::<Seq<int>>::empty());
        assert(Seq::<Seq<int>>::empty() + duplicate_groups(files@) =~= duplicate_groups(files@));
    }
    while i < n
        invariant
            i <= n,
            n == files.len(),
            duplicate_groups(files@) == group_positions(groups@) + duplicate_groups_from(
                files@,
                i as int,
                claimed@.to_set(),
            ),
        decreases n - i,
    {
        let unclaimed = match files[i].file.id {
            Some(id) => !id_is_among(id, &claimed),
            None => false,
        };
        if unclaimed {
            let ghost before_list = claimed@;
            claimed.push(files[i].file.id.unwrap());
            proof {
                Seq::lemma_push_to_set_commute(before_list, files@[i as int].file.id->0);
            }
            let ghost mine = claimed@.to_set();
            let mut group: Vec<usize> = Vec::new();
            group.push(i);
            let mut j: usize = i + 1;
            while j < n
                invariant
                    i < j <= n,
                    n == files.len(),
                    group.len() >= 1,
                    group@[0] == i,
                    positions(group) + followers(files@, i as int, j as int, claimed@.to_set())
                        == seq![i as int] + followers(files@, i as int, i + 1, mine),
                    claimed_after(files@, i as int, j as int, claimed@.to_set()) == claimed_after(
                        files@,
                        i as int,
                        i + 1,
                        mine,
                    ),
                decreases n - j,
            {
                let joins = match files[j].file.id {
                    Some(id) => !id_is_among(id, &claimed) && files[i].file.file_size
                        == files[j].file.file_size && files[i].file.file_name
                        == files[j].file.file_name,
                    None => false,
                };
                if joins {
                    let ghost before_list = claimed@;
                    let ghost before_group = positions(group);
                    claimed.push(files[j].file.id.unwrap());
                    group.push(j);
                    proof {
                        Seq::lemma_push_to_set_commute(before_list, files@[j as int].file.id->0);
                        assert(positions(group) =~= before_group.push(j as int));
                        let rest = followers(files@, i as int, j + 1, claimed@.to_set());
                        assert(before_group.push(j as int) + rest =~= before_group + (seq![
                            j as int,
                        ] + rest));
                    }
                }
                j += 1;
            }
            proof {
                let members = followers(files@, i as int, i + 1, mine);
                assert(positions(group) + Seq::<int>::empty() =~= positions(group));
                assert(positions(group) == seq![i as int] + members);
                assert(positions(group).len() == group.len());
            }
            if group.len() > 1 {
                let ghost before_groups = group_positions(groups@);
                let ghost rest = duplicate_groups_from(files@, i + 1, claimed@.to_set());
                groups.push(group);
                proof {
                    assert(group_positions(groups@) =~= before_groups.push(positions(group)));
                    assert(before_groups.push(positions(group)) + rest =~= before_groups + (seq![
                        positions(group),
                    ] + rest));
                }
            }
        }
        i += 1;
    }
    proof {
        assert(group_positions(groups@) + Seq::<Seq<int>>::empty() =~= group_positions(groups@));
        lemma_duplicate_groups_sound(files@, 0, Set::empty());
        let expected = duplicate_groups(files@);
        assert forall|g: int| 0 <= g < groups.len() implies (#[trigger] groups@[g]).len() >= 2
            && forall|k: int|
            0 <= k < groups@[g].len() ==> (#[trigger] groups@[g]@[k]) < files.len() && same_file(
                files@[groups@[g]@[0] as int].file,
                files@[groups@[g]@[k] as int].file,
            ) by {
            let group = expected[g];
            assert(group == positions(groups@[g]));
            assert(group.len() == groups@[g].len());
            assert forall|k: int| 0 <= k < groups@[g].len() implies (#[trigger] groups@[g]@[k])
                < files.len() && same_file(
                files@[groups@[g]@[0] as int].file,
                files@[groups@[g]@[k] as int].file,
            ) by {
                assert(group[k] == groups@[g]@[k] as int);
                assert(group[0] == groups@[g]@[0] as int);
            }
        }
    }
    groups
}

/// A missing file as a mathematical value.
pub struct MissingView {
    pub id: i64,
    pub file_name: Seq<char>,
    pub file_path: Seq<char>,
    pub booth_shop_name: Option<Seq<char>>,
    pub booth_product_name: Option<Seq<char>>,
}

impl View for MissingFile {
    type V = MissingView;

    open spec fn view(&self) -> MissingView {
        MissingView {
            id: self.id,
            file_name: self.file_name@,
            file_path: self.file_path@,
            booth_shop_name: self.booth_shop_name.deep_view(),
            booth_product_name: self.booth_product_name.deep_view(),
        }
    }
}

/// What is reported of a file that the file system lacks: its number (0
/// where it has none), its name and path, and the shop and the product that
/// it came from, the shop being what the catalog calls its author.
pub open spec fn missing_entry(file: FileRecord) -> MissingView {
    MissingView {
        id: match file.id {
            Some(id) => id,
            None => 0,
        },
        file_name: file.file_name@,
        file_path: file.file_path@,
        booth_shop_name: file.author_name.deep_view(),
        booth_product_name: file.product_name.deep_view(),
    }
}

/// The file at `i` is said to be absent.
pub open spec fn is_absent(present: Seq<bool>, i: int) -> bool {
    0 <= i < present.len() && !present[i]
}

/// What is reported of the first `n` files that are said to be absent, in
/// their order.
pub open spec fn missing_entries(files: Seq<FileRecord>, present: Seq<bool>, n: int) -> Seq<
    MissingView,
>
    decreases n,
{
    if n <= 0 || n > files.len() {
        Seq::empty()
    } else {
        let before = missing_entries(files, present, n - 1);
        if is_absent(present, n - 1) {
            before.push(missing_entry(files[n - 1]))
        } else {
            before
        }
    }
}

/// The views of the entries.
pub open spec fn entry_views(entries: Seq<MissingFile>) -> Seq<MissingView> {
    entries.map_values(|entry: MissingFile| entry@)
}

/// A record of the file as one that the file system lacks.
pub fn missing_file(file: &FileRecord) -> (missing: MissingFile)
    ensures
        missing@ == missing_entry(*file),
{
    MissingFile {
        id: match file.id {
            Some(id) => id,
            None => 0,
        },
        file_name: file.file_name.clone(),
        file_path: file.file_path.clone(),
        booth_shop_name: copy_text(&file.author_name),
        booth_product_name: copy_text(&file.product_name),
    }
}

/// Compares the catalog with the file system: `present` says of each file,
/// in the order of `files`, whether its path exists; a file of which it
/// says nothing counts as present. The result lists the files that are
/// absent, in the order of the catalog.
pub fn sync_report(files: &Vec<FileRecord>, present: &Vec<bool>) -> (report: SyncResult)
    ensures
        report.total_files == files.len(),
        report.orphaned_files == 0,
        report.updated_files == 0,
        entry_views(report.missing_files@) == missing_entries(files@, present@, files.len() as int),
{
    let mut missing: Vec<MissingFile> = Vec::new();
    let mut i: usize = 0;
    while i < files.len()
        invariant
            i <= files.len(),
            entry_views(missing@) == missing_entries(files@, present@, i as int),
        decreases files.len() - i,
    {
        if i < present.len() && !present[i] {
            let ghost before = entry_views(missing@);
            missing.push(missing_file(&files[i]));
            assert(entry_views(missing@) =~= before.push(missing_entry(files@[i as int])));
        }
        i += 1;
    }
    SyncResult { total_files: files.len(), missing_files: missing, orphaned_files: 0, updated_files: 0 }
}

} // verus!
