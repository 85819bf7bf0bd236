//! Product-information acquisition for BOOTH marketplace listings: URL
//! validation, the rate-limit and retry decisions of the fetch layer, the
//! mapping of the structured endpoint, and the extraction of fields from a
//! listing's HTML page.

pub mod api_types;
pub mod app_error;
pub mod booth_client;
pub mod booth_info;
pub mod catalog;
pub mod config;
pub mod database;
pub mod denylist;
pub mod document;
pub mod encoding;
pub mod errors;
pub mod folder_names;
pub mod html_parser;
pub mod json_api;
pub mod pagination;
pub mod price;
pub mod product;
pub mod rate_limiter;
pub mod resolver;
pub mod results;
pub mod retry;
pub mod selectors;
pub mod tag_validator;
pub mod tags;
pub mod text;
pub mod url_validator;

pub use app_error::{AppError, AppResult};
pub use booth_info::extract_booth_info_fallback;
pub use folder_names::sanitize_folder_name;
pub use results::{FileSelectResult, MissingFile, ProcessResult, SyncResult};
