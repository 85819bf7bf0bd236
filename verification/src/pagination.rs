//! How a page of the catalog is asked for: which rows, in what order.

use crate::app_error::{AppError, AppFailure};
use crate::text::{
    chars_eq, concat_chars, from_chars, lowercase, to_chars, to_lowercase,
};
use vstd::prelude::*;

verus! {

/// The columns by which files may be ordered.
pub const FILE_SORT_COLUMNS: [&'static str; 7] = [
    "id", "file_name", "file_size", "created_at",
    "updated_at", "booth_shop_name", "booth_product_name",
];

/// The columns by which tags may be ordered.
pub const TAG_SORT_COLUMNS: [&'static str; 4] = ["id", "name", "usage_count", "created_at"];

/// The column by which files are ordered unless another is asked for.
pub const DEFAULT_FILE_SORT: &'static str = "created_at";

/// The column by which tags are ordered unless another is asked for.
pub const DEFAULT_TAG_SORT: &'static str = "usage_count";

/// The direction in which rows are ordered unless another is asked for.
pub const DEFAULT_SORT_ORDER: &'static str = "desc";

/// In which direction rows are ordered.
#[derive(Debug, Clone, Copy, PartialEq, Eq, Structural)]
pub enum SortDirection {
    Ascending,
    Descending,
}

/// Which rows a query returns, and in what order.
#[derive(Debug)]
pub struct PagePlan {
    /// The column to order by: one of the columns allowed.
    pub sort_by: String,
    pub direction: SortDirection,
    /// The greatest number of rows.
    pub limit: u32,
    /// The number of rows to pass over.
    pub offset: u64,
}

/// A plan as a mathematical value.
pub struct PlanView {
    pub sort_by: Seq<char>,
    pub direction: SortDirection,
    pub limit: u32,
    pub offset: u64,
}

impl View for PagePlan {
    type V = PlanView;

    open spec fn view(&self) -> PlanView {
        PlanView {
            sort_by: self.sort_by@,
            direction: self.direction,
            limit: self.limit,
            offset: self.offset,
        }
    }
}

/// The texts of a list of columns.
pub open spec fn column_texts(columns: Seq<&'static str>) -> Seq<Seq<char>> {
    columns.map_values(|column: &'static str| column@)
}

/// The direction that a word asks for: `asc` or `desc`, in whatever case.
pub open spec fn direction_of(word: Seq<char>) -> Option<SortDirection> {
    if lowercase(word) == "asc"@ {
        Some(SortDirection::Ascending)
    } else if lowercase(word) == "desc"@ {
        Some(SortDirection::Descending)
    } else {
        None
    }
}

/// The number of rows that stand before page `page` (counted from 1) when
/// each page has `page_size` rows.
pub open spec fn rows_before(page: u32, page_size: u32) -> int {
    if page == 0 {
        0
    } else {
        (page - 1) * page_size
    }
}

/// The plan for page `page` of `page_size` rows, ordered by `sort_by` in
/// the direction that `sort_order` names; an error where the column is not
/// among those allowed, or the direction is no direction.
pub open spec fn plan_of(
    page: u32,
    page_size: u32,
    sort_by: Seq<char>,
    sort_order: Seq<char>,
    allowed: Seq<Seq<char>>,
) -> Result<PlanView, AppFailure> {
    if !allowed.contains(sort_by) {
        Err(AppFailure::Custom("Invalid sort_by column: "@ + sort_by))
    } else {
        match direction_of(sort_order) {
            None => Err(AppFailure::Custom("Invalid sort_order: "@ + sort_order)),
            Some(direction) => Ok(
                PlanView {
                    sort_by,
                    direction,
                    limit: page_size,
                    offset: rows_before(page, page_size) as u64,
                },
            ),
        }
    }
}

/// `given`, or `fallback` where nothing is given.
pub open spec fn or_default(given: Option<Seq<char>>, fallback: Seq<char>) -> Seq<char> {
    match given {
        Some(text) => text,
        None => fallback,
    }
}

/// The SQL keyword of a direction.
pub fn direction_keyword(direction: SortDirection) -> (keyword: &'static str)
    ensures
        keyword@ == (match direction {
            SortDirection::Ascending => "ASC"@,
            SortDirection::Descending => "DESC"@,
        }),
{
    match direction {
        SortDirection::Ascending => "ASC",
        SortDirection::Descending => "DESC",
    }
}

/// Reads a direction off a word.
pub fn parse_direction(word: &str) -> (direction: Option<SortDirection>)
    ensures
        direction == direction_of(word@),
{
    let lowered = to_chars(to_lowercase(word).as_str());
    if chars_eq(&lowered, &to_chars("asc")) {
        Some(SortDirection::Ascending)
    } else if chars_eq(&lowered, &to_chars("desc")) {
        Some(SortDirection::Descending)
    } else {
        None
    }
}

/// Whether `column` is among `allowed`.
pub fn is_allowed_column(column: &str, allowed: &[&'static str]) -> (found: bool)
    ensures
        found == column_texts(allowed@).contains(column@),
{
    let wanted = to_chars(column);
    let mut i: usize = 0;
    while i < allowed.len()
        invariant
            i <= allowed.len(),
            wanted@ == column@,
            forall|k: int| 0 <= k < i ==> column_texts(allowed@)[k] != column@,
        decreases allowed.len() - i,
    {
        if chars_eq(&to_chars(allowed[i]), &wanted) {
            assert(column_texts(allowed@)[i as int] == column@);
            return true;
        }
        i += 1;
    }
    false
}

/// Plans the query for one page. Pages are counted from 1; page 0 is read
/// as page 1. Without `sort_by` the rows are ordered by `default_sort`,
/// without `sort_order` downwards.
pub fn plan_page(
    page: u32,
    page_size: u32,
    sort_by: Option<&str>,
    sort_order: Option<&str>,
    default_sort: &'static str,
    allowed: &[&'static str],
) -> (plan: Result<PagePlan, AppError>)
    ensures
        match plan_of(
            page,
            page_size,
            or_default(
                match sort_by {
                    Some(column) => Some(column@),
                    None => None,
                },
                default_sort@,
            ),
            or_default(
                match sort_order {
                    Some(word) => Some(word@),
                    None => None,
                },
                DEFAULT_SORT_ORDER@,
            ),
            column_texts(allowed@),
        ) {
            Ok(expected) => plan matches Ok(p) && p@ == expected,
            Err(failure) => plan matches Err(e) && e@ == failure,
        },
{
    let column: &str = match sort_by {
        Some(column) => column,
        None => default_sort,
    };
    let word: &str = match sort_order {
        Some(word) => word,
        None => DEFAULT_SORT_ORDER,
    };
    if !is_allowed_column(column, allowed) {
        let message = concat_chars(&to_chars("Invalid sort_by column: "), &to_chars(column));
        return Err(AppError::Custom(from_chars(&message)));
    }
    match parse_direction(word) {
        None => {
            let message = concat_chars(&to_chars("Invalid sort_order: "), &to_chars(word));
            Err(AppError::Custom(from_chars(&message)))
        },
        Some(direction) => {
            let pages_before: u64 = if page == 0 {
                0
            } else {
                (page - 1) as u64
            };
            assert(pages_before * page_size <= 0xFFFF_FFFF * 0xFFFF_FFFF) by (nonlinear_arith)
                requires
                    pages_before <= 0xFFFF_FFFF,
                    page_size <= 0xFFFF_FFFF,
            ;
            let offset: u64 = pages_before * (page_size as u64);
            Ok(PagePlan { sort_by: column.to_string(), direction, limit: page_size, offset })
        },
    }
}

/// The list of `count` parameter marks of a query, with commas between.
pub open spec fn placeholders_of(count: nat) -> Seq<char>
    decreases count,
{
    if count == 0 {
        Seq::empty()
    } else if count == 1 {
        seq!['?']
    } else {
        placeholders_of((count - 1) as nat) + seq![',', '?']
    }
}

/// The parameter marks for a list of `count` values: `?,?,?` for three.
pub fn placeholders(count: usize) -> (marks: String)
    ensures
        marks@ == placeholders_of(count as nat),
{
    let mut marks: Vec<char> = Vec::new();
    let mut i: usize = 0;
    while i < count
        invariant
            i <= count,
            marks@ == placeholders_of(i as nat),
        decreases count - i,
    {
        if i > 0 {
            let ghost before = marks@;
            marks.push(',');
            marks.push('?');
            assert(marks@ == before + seq![',', '?']);
        } else {
            marks.push('?');
        }
        i += 1;
    }
    from_chars(&marks)
}

/// Whether the tags are ordered as they are by default, most used first:
/// then tags of equal use are ordered by name.
pub fn is_default_tag_order(plan: &PagePlan) -> (default_order: bool)
    ensures
        default_order == (plan@.sort_by == DEFAULT_TAG_SORT@ && plan@.direction
            == SortDirection::Descending),
{
    chars_eq(&to_chars(plan.sort_by.as_str()), &to_chars(DEFAULT_TAG_SORT)) && plan.direction
        == SortDirection::Descending
}


} // verus!
