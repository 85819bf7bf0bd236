//! The rows of the local catalog.

use vstd::prelude::*;

verus! {

/// A file of the catalog.
#[derive(Debug, Clone)]
pub struct FileRecord {
    pub id: Option<i64>,
    pub file_path: String,
    pub file_name: String,
    pub file_size: i64,
    pub modified_time: i64,
    pub created_at: String,
    pub updated_at: String,
    pub product_id: Option<String>,
    pub product_name: Option<String>,
    pub author_name: Option<String>,
    pub price: Option<i32>,
    pub description: Option<String>,
    pub thumbnail_url: Option<String>,
    pub product_url: Option<String>,
}

/// A tag of the catalog.
#[derive(Debug, Clone)]
pub struct Tag {
    pub id: Option<i64>,
    pub name: String,
    pub usage_count: i32,
    pub created_at: String,
    pub updated_at: String,
}

/// A file of the catalog with its tags.
#[derive(Debug, Clone)]
pub struct FileWithTags {
    pub file: FileRecord,
    pub tags: Vec<Tag>,
}

/// What is written over a file's listing data when it is updated.
#[derive(Debug, Clone)]
pub struct FileUpdateFields {
    pub product_id: Option<String>,
    pub product_name: Option<String>,
    pub author_name: Option<String>,
    pub price: Option<i32>,
    pub description: Option<String>,
    pub thumbnail_url: Option<String>,
    pub product_url: Option<String>,
}

/// How a selection of files stands: how many of them the catalog holds,
/// how many of those carry listing data, and how many failed.
#[derive(Debug, Clone)]
pub struct BatchStatistics {
    pub processed: usize,
    pub updated: usize,
    pub errors: usize,
}

} // verus!
