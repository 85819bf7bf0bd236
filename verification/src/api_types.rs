//! The records that cross the boundary to the user interface.

use vstd::prelude::*;

verus! {

/// A catalogued archive file with what is known of the listing it came from.
#[derive(Debug, Clone)]
pub struct FileRecord {
    pub id: Option<i64>,
    pub file_path: String,
    pub file_name: String,
    pub file_size: Option<i64>,
    pub file_hash: Option<String>,
    pub booth_product_id: Option<i64>,
    pub booth_shop_name: Option<String>,
    pub booth_product_name: Option<String>,
    pub booth_url: Option<String>,
    pub booth_price: Option<i64>,
    pub booth_thumbnail_path: Option<String>,
    pub encoding_info: Option<String>,
    pub created_at: Option<String>,
    pub updated_at: Option<String>,
    pub metadata: Option<String>,
}

/// A tag as the interface shows it.
#[derive(Debug, Clone)]
pub struct Tag {
    pub id: Option<i64>,
    pub name: String,
    pub color: String,
    pub category: Option<String>,
    pub parent_tag_id: Option<i64>,
    pub usage_count: i64,
    pub created_at: Option<String>,
}

/// A file together with its tags.
#[derive(Debug, Clone)]
pub struct FileWithTags {
    pub file: FileRecord,
    pub tags: Vec<Tag>,
}

/// Which page of a listing is asked for, and in what order.
#[derive(Debug)]
pub struct PaginationRequest {
    pub page: u32,
    pub page_size: u32,
    pub sort_by: Option<String>,
    /// `asc` or `desc`.
    pub sort_order: Option<String>,
}

/// One page of a listing.
#[derive(Debug)]
pub struct PaginationResponse<T> {
    pub items: Vec<T>,
    pub total_count: u32,
    pub page: u32,
    pub page_size: u32,
    pub total_pages: u32,
    pub has_next_page: bool,
    pub has_prev_page: bool,
}

#[derive(Debug)]
pub struct SearchFilesRequest {
    pub query: String,
}

#[derive(Debug)]
pub struct SearchFilesPaginatedRequest {
    pub query: String,
    pub pagination: PaginationRequest,
}

#[derive(Debug)]
pub struct SearchByTagsRequest {
    pub tag_names: Vec<String>,
}

#[derive(Debug)]
pub struct SearchByTagsPaginatedRequest {
    pub tag_names: Vec<String>,
    pub pagination: PaginationRequest,
}

#[derive(Debug)]
pub struct GetFilesPaginatedRequest {
    pub pagination: PaginationRequest,
}

#[derive(Debug)]
pub struct GetTagsPaginatedRequest {
    pub pagination: PaginationRequest,
}

#[derive(Debug)]
pub struct AddTagRequest {
    pub file_id: i64,
    pub tag_name: String,
    pub tag_color: Option<String>,
}

#[derive(Debug)]
pub struct BatchAddTagRequest {
    pub file_ids: Vec<i64>,
    pub tag_name: String,
    pub tag_color: String,
}

#[derive(Debug)]
pub struct UpdateBoothUrlRequest {
    pub file_id: i64,
    pub booth_url: String,
}

/// What the interface is shown of a resolved listing.
#[derive(Debug)]
pub struct BoothProductInfo {
    pub shop_name: String,
    pub product_name: String,
    pub price: Option<i64>,
    pub tags: Vec<String>,
    pub thumbnail_url: Option<String>,
    pub product_id: Option<i64>,
}

/// One parameter of a command that the interface may call.
#[derive(Debug)]
pub struct ApiParameter {
    pub name: String,
    /// The name of the type of its values.
    pub value_type: String,
    pub required: bool,
    pub description: String,
}

} // verus!
