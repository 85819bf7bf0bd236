//! The errors of the application as a whole, sorted by what can be done
//! about them.
//!
//! An error that came from a library underneath is kept as the text that
//! the library gave.

use crate::errors::{BoothClientError, ClientFailure};
use crate::text::{concat_chars, from_chars, to_chars};
use vstd::prelude::*;

verus! {

/// What can be done about an error.
#[derive(Debug, Clone, Copy, PartialEq, Eq, Structural)]
pub enum ErrorCategory {
    /// The user can put it right.
    UserError,
    /// The system failed; the operation may be tried again.
    SystemError,
    /// The configuration has to be changed.
    ConfigError,
    /// The application cannot go on.
    FatalError,
}

/// An error of the application.
#[derive(Debug)]
pub enum AppError {
    Database(String),
    BoothClient(BoothClientError),
    Io(String),
    Serialization(String),
    Network(String),
    UrlParse(String),
    ZipExtraction(String),
    Internal(String),
    Encoding { message: String },
    Validation { field: String, message: String },
    Configuration(String),
    Unknown(String),
    DatabaseLock(String),
    FileSave(String),
    FileRetrieval(String),
    FileDeletion(String),
    FileUpdate(String),
    TagOperation(String),
    TagCreation(String),
    Custom(String),
}

/// The result of an operation of the application.
pub type AppResult<T> = Result<T, AppError>;

/// An error of the application as a mathematical value.
pub enum AppFailure {
    Database(Seq<char>),
    BoothClient(ClientFailure),
    Io(Seq<char>),
    Serialization(Seq<char>),
    Network(Seq<char>),
    UrlParse(Seq<char>),
    ZipExtraction(Seq<char>),
    Internal(Seq<char>),
    Encoding { message: Seq<char> },
    Validation { field: Seq<char>, message: Seq<char> },
    Configuration(Seq<char>),
    Unknown(Seq<char>),
    DatabaseLock(Seq<char>),
    FileSave(Seq<char>),
    FileRetrieval(Seq<char>),
    FileDeletion(Seq<char>),
    FileUpdate(Seq<char>),
    TagOperation(Seq<char>),
    TagCreation(Seq<char>),
    Custom(Seq<char>),
}

impl View for AppError {
    type V = AppFailure;

    open spec fn view(&self) -> AppFailure {
        match self {
            AppError::Database(text) => AppFailure::Database(text@),
            AppError::BoothClient(error) => AppFailure::BoothClient(error@),
            AppError::Io(text) => AppFailure::Io(text@),
            AppError::Serialization(text) => AppFailure::Serialization(text@),
            AppError::Network(text) => AppFailure::Network(text@),
            AppError::UrlParse(text) => AppFailure::UrlParse(text@),
            AppError::ZipExtraction(text) => AppFailure::ZipExtraction(text@),
            AppError::Internal(text) => AppFailure::Internal(text@),
            AppError::Encoding { message } => AppFailure::Encoding { message: message@ },
            AppError::Validation { field, message } => AppFailure::Validation {
                field: field@,
                message: message@,
            },
            AppError::Configuration(text) => AppFailure::Configuration(text@),
            AppError::Unknown(text) => AppFailure::Unknown(text@),
            AppError::DatabaseLock(text) => AppFailure::DatabaseLock(text@),
            AppError::FileSave(text) => AppFailure::FileSave(text@),
            AppError::FileRetrieval(text) => AppFailure::FileRetrieval(text@),
            AppError::FileDeletion(text) => AppFailure::FileDeletion(text@),
            AppError::FileUpdate(text) => AppFailure::FileUpdate(text@),
            AppError::TagOperation(text) => AppFailure::TagOperation(text@),
            AppError::TagCreation(text) => AppFailure::TagCreation(text@),
            AppError::Custom(text) => AppFailure::Custom(text@),
        }
    }
}

impl AppFailure {
    /// What can be done about the error: what the user entered is the
    /// user's to correct, the configuration is to be changed, a record that
    /// cannot be written out or an error of unknown kind is fatal, and
    /// everything else is a failure of the system.
    pub open spec fn category(self) -> ErrorCategory {
        match self {
            AppFailure::Validation { .. } | AppFailure::UrlParse(_) => ErrorCategory::UserError,
            AppFailure::Configuration(_) => ErrorCategory::ConfigError,
            AppFailure::Serialization(_) | AppFailure::Unknown(_) => ErrorCategory::FatalError,
            _ => ErrorCategory::SystemError,
        }
    }

    /// The error in words, for a log.
    pub open spec fn message(self) -> Seq<char> {
        match self {
            AppFailure::Database(text) => "Database error: "@ + text,
            AppFailure::BoothClient(failure) => "BOOTH client error: "@ + failure.message(),
            AppFailure::Io(text) => "IO error: "@ + text,
            AppFailure::Serialization(text) => "Serialization error: "@ + text,
            AppFailure::Network(text) => "Network error: "@ + text,
            AppFailure::UrlParse(text) => "URL parsing error: "@ + text,
            AppFailure::ZipExtraction(text) => "ZIP extraction error: "@ + text,
            AppFailure::Internal(text) => "Internal error: "@ + text,
            AppFailure::Encoding { message } => "Encoding error: "@ + message,
            AppFailure::Validation { field, message } => "Validation error: "@ + field + " - "@
                + message,
            AppFailure::Configuration(text) => "Configuration error: "@ + text,
            AppFailure::Unknown(text) => "Unknown error: "@ + text,
            AppFailure::DatabaseLock(text) => text,
            AppFailure::FileSave(text) => text,
            AppFailure::FileRetrieval(text) => text,
            AppFailure::FileDeletion(text) => text,
            AppFailure::FileUpdate(text) => text,
            AppFailure::TagOperation(text) => text,
            AppFailure::TagCreation(text) => text,
            AppFailure::Custom(text) => text,
        }
    }

    /// The error in words, for the user.
    pub open spec fn user_message(self) -> Seq<char> {
        match self {
            AppFailure::Validation { field, message } => field + ": "@ + message,
            AppFailure::UrlParse(_) => "無効なURLです。正しいBOOTH URLを入力してください。"@,
            AppFailure::Configuration(text) => "設定エラー: "@ + text,
            AppFailure::Encoding { message } => "文字エンコーディングエラー: "@ + message,
            AppFailure::Internal(text) => "内部エラーが発生しました: "@ + text,
            AppFailure::Unknown(text) => "予期しないエラー: "@ + text,
            AppFailure::Serialization(_) => "データの変換中にエラーが発生しました。"@,
            AppFailure::Io(_) =>
                "ファイル操作中にエラーが発生しました。ファイルの権限を確認してください。"@,
            AppFailure::ZipExtraction(_) =>
                "ZIPファイルの展開に失敗しました。ファイルが破損している可能性があります。"@,
            AppFailure::Network(_) =>
                "ネットワークエラーが発生しました。インターネット接続を確認してください。"@,
            AppFailure::BoothClient(_) =>
                "BOOTH商品情報の取得に失敗しました。URLを確認してください。"@,
            AppFailure::Database(_) =>
                "データベースエラーが発生しました。アプリケーションを再起動してください。"@,
            AppFailure::DatabaseLock(text) => text,
            AppFailure::FileSave(text) => text,
            AppFailure::FileRetrieval(text) => text,
            AppFailure::FileDeletion(text) => text,
            AppFailure::FileUpdate(text) => text,
            AppFailure::TagOperation(text) => text,
            AppFailure::TagCreation(text) => text,
            AppFailure::Custom(text) => text,
        }
    }
}

/// `prefix` followed by `rest`.
fn prefixed(prefix: &str, rest: &str) -> (text: String)
    ensures
        text@ == prefix@ + rest@,
{
    from_chars(&concat_chars(&to_chars(prefix), &to_chars(rest)))
}

impl AppError {
    /// An error in what the user entered in `field`.
    pub fn validation(field: String, message: String) -> (error: AppError)
        ensures
            error@ == (AppFailure::Validation { field: field@, message: message@ }),
    {
        AppError::Validation { field, message }
    }

    /// An error in the encoding of a text.
    pub fn encoding(message: String) -> (error: AppError)
        ensures
            error@ == (AppFailure::Encoding { message: message@ }),
    {
        AppError::Encoding { message }
    }

    /// An error in the configuration.
    pub fn config(message: String) -> (error: AppError)
        ensures
            error@ == AppFailure::Configuration(message@),
    {
        AppError::Configuration(message)
    }

    /// An error of no known kind.
    pub fn unknown(message: String) -> (error: AppError)
        ensures
            error@ == AppFailure::Unknown(message@),
    {
        AppError::Unknown(message)
    }

    /// The catalog could not be locked.
    pub fn database_lock(message: String) -> (error: AppError)
        ensures
            error@ == AppFailure::DatabaseLock(message@),
    {
        AppError::DatabaseLock(message)
    }

    /// A file could not be written to the catalog.
    pub fn file_save(message: String) -> (error: AppError)
        ensures
            error@ == AppFailure::FileSave(message@),
    {
        AppError::FileSave(message)
    }

    /// Files could not be read from the catalog.
    pub fn file_retrieval(message: String) -> (error: AppError)
        ensures
            error@ == AppFailure::FileRetrieval(message@),
    {
        AppError::FileRetrieval(message)
    }

    /// A file could not be taken out of the catalog.
    pub fn file_deletion(message: String) -> (error: AppError)
        ensures
            error@ == AppFailure::FileDeletion(message@),
    {
        AppError::FileDeletion(message)
    }

    /// A file of the catalog could not be changed.
    pub fn file_update(message: String) -> (error: AppError)
        ensures
            error@ == AppFailure::FileUpdate(message@),
    {
        AppError::FileUpdate(message)
    }

    /// An operation on tags failed.
    pub fn tag_operation(message: String) -> (error: AppError)
        ensures
            error@ == AppFailure::TagOperation(message@),
    {
        AppError::TagOperation(message)
    }

    /// A tag could not be made.
    pub fn tag_creation(message: String) -> (error: AppError)
        ensures
            error@ == AppFailure::TagCreation(message@),
    {
        AppError::TagCreation(message)
    }

    /// An error that is its message and nothing else.
    pub fn custom(message: String) -> (error: AppError)
        ensures
            error@ == AppFailure::Custom(message@),
    {
        AppError::Custom(message)
    }

    /// An error made of a composed message.
    pub fn from_format(msg: String) -> (error: AppError)
        ensures
            error@ == AppFailure::Custom(msg@),
    {
        AppError::Custom(msg)
    }

    pub fn db_lock_from_format(msg: String) -> (error: AppError)
        ensures
            error@ == AppFailure::DatabaseLock(msg@),
    {
        AppError::DatabaseLock(msg)
    }

    pub fn file_save_from_format(msg: String) -> (error: AppError)
        ensures
            error@ == AppFailure::FileSave(msg@),
    {
        AppError::FileSave(msg)
    }

    pub fn file_retrieval_from_format(msg: String) -> (error: AppError)
        ensures
            error@ == AppFailure::FileRetrieval(msg@),
    {
        AppError::FileRetrieval(msg)
    }

    pub fn file_deletion_from_format(msg: String) -> (error: AppError)
        ensures
            error@ == AppFailure::FileDeletion(msg@),
    {
        AppError::FileDeletion(msg)
    }

    pub fn file_update_from_format(msg: String) -> (error: AppError)
        ensures
            error@ == AppFailure::FileUpdate(msg@),
    {
        AppError::FileUpdate(msg)
    }

    pub fn tag_operation_from_format(msg: String) -> (error: AppError)
        ensures
            error@ == AppFailure::TagOperation(msg@),
    {
        AppError::TagOperation(msg)
    }

    pub fn tag_creation_from_format(msg: String) -> (error: AppError)
        ensures
            error@ == AppFailure::TagCreation(msg@),
    {
        AppError::TagCreation(msg)
    }

    /// What can be done about the error.
    pub fn category(&self) -> (category: ErrorCategory)
        ensures
            category == self@.category(),
    {
        match self {
            AppError::Validation { .. } | AppError::UrlParse(_) => ErrorCategory::UserError,
            AppError::Configuration(_) => ErrorCategory::ConfigError,
            AppError::Serialization(_) | AppError::Unknown(_) => ErrorCategory::FatalError,
            _ => ErrorCategory::SystemError,
        }
    }

    /// Whether the operation may be tried again: so it is after a failure
    /// of the system.
    pub fn is_retryable(&self) -> (retryable: bool)
        ensures
            retryable == (self@.category() == ErrorCategory::SystemError),
    {
        self.category() == ErrorCategory::SystemError
    }

    /// The error in words, for a log.
    pub fn message(&self) -> (text: String)
        ensures
            text@ == self@.message(),
    {
        match self {
            AppError::Database(text) => prefixed("Database error: ", text.as_str()),
            AppError::BoothClient(error) => prefixed(
                "BOOTH client error: ",
                error.message().as_str(),
            ),
            AppError::Io(text) => prefixed("IO error: ", text.as_str()),
            AppError::Serialization(text) => prefixed("Serialization error: ", text.as_str()),
            AppError::Network(text) => prefixed("Network error: ", text.as_str()),
            AppError::UrlParse(text) => prefixed("URL parsing error: ", text.as_str()),
            AppError::ZipExtraction(text) => prefixed("ZIP extraction error: ", text.as_str()),
            AppError::Internal(text) => prefixed("Internal error: ", text.as_str()),
            AppError::Encoding { message } => prefixed("Encoding error: ", message.as_str()),
            AppError::Validation { field, message } => {
                let head = prefixed("Validation error: ", field.as_str());
                let head = prefixed(head.as_str(), " - ");
                prefixed(head.as_str(), message.as_str())
            },
            AppError::Configuration(text) => prefixed("Configuration error: ", text.as_str()),
            AppError::Unknown(text) => prefixed("Unknown error: ", text.as_str()),
            AppError::DatabaseLock(text) => text.clone(),
            AppError::FileSave(text) => text.clone(),
            AppError::FileRetrieval(text) => text.clone(),
            AppError::FileDeletion(text) => text.clone(),
            AppError::FileUpdate(text) => text.clone(),
            AppError::TagOperation(text) => text.clone(),
            AppError::TagCreation(text) => text.clone(),
            AppError::Custom(text) => text.clone(),
        }
    }

    /// The error in words, for the user.
    pub fn user_message(&self) -> (text: String)
        ensures
            text@ == self@.user_message(),
    {
        match self {
            AppError::Validation { field, message } => {
                let head = prefixed(field.as_str(), ": ");
                prefixed(head.as_str(), message.as_str())
            },
            AppError::UrlParse(_) => "無効なURLです。正しいBOOTH URLを入力してください。".to_string(),
            AppError::Configuration(text) => prefixed("設定エラー: ", text.as_str()),
            AppError::Encoding { message } => prefixed(
                "文字エンコーディングエラー: ",
                message.as_str(),
            ),
            AppError::Internal(text) => prefixed("内部エラーが発生しました: ", text.as_str()),
            AppError::Unknown(text) => prefixed("予期しないエラー: ", text.as_str()),
            AppError::Serialization(_) => "データの変換中にエラーが発生しました。".to_string(),
            AppError::Io(_) =>
                "ファイル操作中にエラーが発生しました。ファイルの権限を確認してください。".to_string(),
            AppError::ZipExtraction(_) =>
                "ZIPファイルの展開に失敗しました。ファイルが破損している可能性があります。".to_string(),
            AppError::Network(_) =>
                "ネットワークエラーが発生しました。インターネット接続を確認してください。".to_string(),
            AppError::BoothClient(_) =>
                "BOOTH商品情報の取得に失敗しました。URLを確認してください。".to_string(),
            AppError::Database(_) =>
                "データベースエラーが発生しました。アプリケーションを再起動してください。".to_string(),
            AppError::DatabaseLock(text) => text.clone(),
            AppError::FileSave(text) => text.clone(),
            AppError::FileRetrieval(text) => text.clone(),
            AppError::FileDeletion(text) => text.clone(),
            AppError::FileUpdate(text) => text.clone(),
            AppError::TagOperation(text) => text.clone(),
            AppError::TagCreation(text) => text.clone(),
            AppError::Custom(text) => text.clone(),
        }
    }
}

/// Turns the error of a result into its message, for the interface.
pub fn to_tauri_result<T>(result: AppResult<T>) -> (shown: Result<T, String>)
    ensures
        match result {
            Ok(value) => shown == Ok::<T, String>(value),
            Err(error) => shown matches Err(text) && text@ == error@.message(),
        },
{
    match result {
        Ok(value) => Ok(value),
        Err(error) => Err(error.message()),
    }
}

} // verus!
