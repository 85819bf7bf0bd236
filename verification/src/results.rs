//! What the operations on archives report back.

use crate::text::{concat_chars, decimal_digits, decimal_text, from_chars, to_chars};
use vstd::prelude::*;

verus! {

/// How the unpacking of one archive went.
#[derive(Debug)]
pub struct ProcessResult {
    pub success: bool,
    pub message: String,
    pub shop_name: Option<String>,
    pub product_name: Option<String>,
    pub files_extracted: Vec<String>,
    pub output_path: Option<String>,
}

/// Which archives the user picked.
#[derive(Debug)]
pub struct FileSelectResult {
    pub success: bool,
    pub files: Vec<String>,
    pub message: String,
}

/// How the catalog compares with the file system.
#[derive(Debug)]
pub struct SyncResult {
    pub total_files: usize,
    pub missing_files: Vec<MissingFile>,
    pub orphaned_files: usize,
    pub updated_files: usize,
}

/// A file that the catalog lists and the file system lacks.
#[derive(Debug)]
pub struct MissingFile {
    pub id: i64,
    pub file_name: String,
    pub file_path: String,
    pub booth_shop_name: Option<String>,
    pub booth_product_name: Option<String>,
}

/// What is said when the user picked archives.
pub open spec fn selection_message_of(count: nat) -> Seq<char> {
    decimal_digits(count) + "個のファイルが選択されました"@
}

/// What is said when the user picked nothing.
pub const NOTHING_SELECTED_MESSAGE: &'static str = "ファイルが選択されませんでした";

/// What is said when an archive could not be unpacked.
pub open spec fn processing_failure_message_of(reason: Seq<char>) -> Seq<char> {
    "処理エラー: "@ + reason
}

/// What is said of an archive that was unpacked and entered in the
/// catalog under the number `file_id`.
pub open spec fn saved_message_of(message: Seq<char>, file_id: i64) -> Seq<char> {
    message + " (ID: "@ + signed_digits(file_id as int) + "でデータベースに保存されました)"@
}

/// The decimal numeral of an integer.
pub open spec fn signed_digits(n: int) -> Seq<char> {
    if n < 0 {
        seq!['-'] + decimal_digits((-n) as nat)
    } else {
        decimal_digits(n as nat)
    }
}

/// Writes `n` in base ten.
pub fn signed_text(n: i64) -> (text: Vec<char>)
    ensures
        text@ == signed_digits(n as int),
{
    if n < 0 {
        let magnitude: u64 = if n == i64::MIN {
            9223372036854775808
        } else {
            (-n) as u64
        };
        let mut text: Vec<char> = Vec::new();
        text.push('-');
        concat_chars(&text, &decimal_text(magnitude))
    } else {
        decimal_text(n as u64)
    }
}

impl FileSelectResult {
    /// Reports what the user picked in the file dialog: the paths of the
    /// archives, or `None` where the dialog was dismissed.
    pub fn from_selection(picked: Option<Vec<String>>) -> (result: FileSelectResult)
        ensures
            match picked {
                Some(paths) => result.success && result.files == paths && result.message@
                    == selection_message_of(paths.len() as nat),
                None => !result.success && result.files@.len() == 0 && result.message@
                    == NOTHING_SELECTED_MESSAGE@,
            },
    {
        match picked {
            Some(paths) => {
                let count: u64 = paths.len() as u64;
                let message = from_chars(
                    &concat_chars(&decimal_text(count), &to_chars("個のファイルが選択されました")),
                );
                FileSelectResult { success: true, files: paths, message }
            },
            None => FileSelectResult {
                success: false,
                files: Vec::new(),
                message: NOTHING_SELECTED_MESSAGE.to_string(),
            },
        }
    }
}

impl ProcessResult {
    /// Reports that an archive could not be unpacked, and why.
    pub fn failure(reason: &str) -> (result: ProcessResult)
        ensures
            !result.success,
            result.message@ == processing_failure_message_of(reason@),
            result.shop_name is None,
            result.product_name is None,
            result.files_extracted@.len() == 0,
            result.output_path is None,
    {
        ProcessResult {
            success: false,
            message: from_chars(&concat_chars(&to_chars("処理エラー: "), &to_chars(reason))),
            shop_name: None,
            product_name: None,
            files_extracted: Vec::new(),
            output_path: None,
        }
    }

    /// Adds to the message that the archive was entered in the catalog
    /// under the number `file_id`.
    pub fn note_saved(&mut self, file_id: i64)
        ensures
            final(self).message@ == saved_message_of(old(self).message@, file_id),
            final(self).success == old(self).success,
            final(self).shop_name == old(self).shop_name,
            final(self).product_name == old(self).product_name,
            final(self).files_extracted == old(self).files_extracted,
            final(self).output_path == old(self).output_path,
    {
        let head = concat_chars(&to_chars(self.message.as_str()), &to_chars(" (ID: "));
        let head = concat_chars(&head, &signed_text(file_id));
        self.message = from_chars(
            &concat_chars(&head, &to_chars("でデータベースに保存されました)")),
        );
    }
}

/// The greeting for `name`.
pub open spec fn greeting_of(name: Seq<char>) -> Seq<char> {
    "Hello, "@ + name + "! You've been greeted from Rust!"@
}

/// Greets `name`.
pub fn greet(name: &str) -> (greeting: String)
    ensures
        greeting@ == greeting_of(name@),
{
    let head = concat_chars(&to_chars("Hello, "), &to_chars(name));
    from_chars(&concat_chars(&head, &to_chars("! You've been greeted from Rust!")))
}


} // verus!
