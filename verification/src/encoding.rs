//! The names of the files in an archive, which come as bytes in an
//! encoding that the archive does not name.
//!
//! The bytes are tried as UTF-8 first, then against the legacy Japanese
//! encodings, and are read leniently where nothing fits.

use vstd::prelude::*;
use vstd::utf8::{decode_utf8, valid_utf8};

verus! {

/// The greatest length of a file name in a ZIP archive, in bytes. A longer
/// run of bytes is not tried against the legacy encodings.
pub const MAX_NAME_BYTES: usize = 65_535;

/// The label of the Windows code page for Japanese.
pub const WINDOWS_JAPANESE_LABEL: &'static str = "cp932";

/// What `encoding_rs::SHIFT_JIS.decode` makes of the bytes: the text, with
/// a replacement character for each malformed sequence, and whether there
/// was such a sequence.
pub uninterp spec fn shift_jis_decoding(bytes: Seq<u8>) -> (Seq<char>, bool);

/// What the encoding that `encoding_rs::Encoding::for_label` finds for the
/// label makes of the bytes with its `decode`; `None` where the label names
/// no encoding.
pub uninterp spec fn label_decoding(label: Seq<char>, bytes: Seq<u8>) -> Option<(Seq<char>, bool)>;

/// What `String::from_utf8_lossy` makes of the bytes: the text, with a
/// replacement character for each malformed sequence.
pub uninterp spec fn lossy_utf8(bytes: Seq<u8>) -> Seq<char>;

/// Calls `std::str::from_utf8`, which accepts well-formed UTF-8 and
/// nothing else.
#[verifier::external_body]
fn utf8_text(bytes: &[u8]) -> (text: Option<String>)
    ensures
        valid_utf8(bytes@) ==> text.deep_view() == Some(decode_utf8(bytes@)),
        !valid_utf8(bytes@) ==> text is None,
{
    std::str::from_utf8(bytes).ok().map(|s| s.to_string())
}

/// Calls `encoding_rs::Encoding::decode` on `encoding_rs::SHIFT_JIS`. That
/// method panics where the size of its buffer overflows; the bound on the
/// input leaves such inputs out.
#[verifier::external_body]
fn shift_jis_text(bytes: &[u8]) -> (decoded: (String, bool))
    requires
        bytes.len() <= MAX_NAME_BYTES,
    ensures
        (decoded.0@, decoded.1) == shift_jis_decoding(bytes@),
{
    let (text, _, had_errors) = encoding_rs::SHIFT_JIS.decode(bytes);
    (text.into_owned(), had_errors)
}

/// Calls `encoding_rs::Encoding::for_label` and, on the encoding found,
/// `Encoding::decode`, with the same bound on the input.
#[verifier::external_body]
fn label_text(label: &str, bytes: &[u8]) -> (decoded: Option<(String, bool)>)
    requires
        bytes.len() <= MAX_NAME_BYTES,
    ensures
        match label_decoding(label@, bytes@) {
            Some(expected) => decoded matches Some(pair) && (pair.0@, pair.1) == expected,
            None => decoded is None,
        },
{
    encoding_rs::Encoding::for_label(label.as_bytes()).map(
        |encoding|
            {
                let (text, _, had_errors) = encoding.decode(bytes);
                (text.into_owned(), had_errors)
            },
    )
}

/// Calls `String::from_utf8_lossy`.
#[verifier::external_body]
fn lossy_text(bytes: &[u8]) -> (text: String)
    ensures
        text@ == lossy_utf8(bytes@),
{
    String::from_utf8_lossy(bytes).to_string()
}

/// The text of a legacy decoding, where it met no malformed sequence.
pub open spec fn clean(decoding: (Seq<char>, bool)) -> Option<Seq<char>> {
    if decoding.1 {
        None
    } else {
        Some(decoding.0)
    }
}

/// What the legacy encodings make of the bytes: Shift_JIS first, then the
/// Windows code page; `None` where neither reads them without fault.
pub open spec fn legacy_name(raw: Seq<u8>) -> Option<Seq<char>> {
    match clean(shift_jis_decoding(raw)) {
        Some(text) => Some(text),
        None => match label_decoding(WINDOWS_JAPANESE_LABEL@, raw) {
            Some(decoding) => clean(decoding),
            None => None,
        },
    }
}

/// The name that the bytes spell: as UTF-8 where they are well-formed
/// UTF-8; else as the legacy encodings read them, where one reads them
/// without fault and the name is not overlong; else as UTF-8 with a
/// replacement character for what is malformed.
pub open spec fn decoded_name(raw: Seq<u8>) -> Seq<char> {
    if valid_utf8(raw) {
        decode_utf8(raw)
    } else if raw.len() <= MAX_NAME_BYTES && legacy_name(raw) is Some {
        legacy_name(raw)->0
    } else {
        lossy_utf8(raw)
    }
}

/// The name among the readings of its bytes.
pub open spec fn chosen_name(
    utf8: Option<Seq<char>>,
    shift_jis: Option<(Seq<char>, bool)>,
    windows: Option<(Seq<char>, bool)>,
    lossy: Seq<char>,
) -> Seq<char> {
    match utf8 {
        Some(text) => text,
        None => match shift_jis {
            Some((text, false)) => text,
            _ => match windows {
                Some((text, false)) => text,
                _ => lossy,
            },
        },
    }
}

/// A reading with its fault mark as a mathematical value.
pub open spec fn reading_view(reading: Option<(String, bool)>) -> Option<(Seq<char>, bool)> {
    match reading {
        Some((text, had_errors)) => Some((text@, had_errors)),
        None => None,
    }
}

/// Picks the name among the readings of its bytes: `utf8` is the reading
/// as UTF-8, where there is one; `shift_jis` and `windows` are the readings
/// of the legacy encodings, each with the mark of a fault, where they were
/// made; `lossy` is the lenient reading. The first of them that is there
/// and without fault is the name.
pub fn choose_filename(
    utf8: Option<String>,
    shift_jis: Option<(String, bool)>,
    windows: Option<(String, bool)>,
    lossy: String,
) -> (name: String)
    ensures
        name@ == chosen_name(utf8.deep_view(), reading_view(shift_jis), reading_view(windows), lossy@),
{
    match utf8 {
        Some(text) => text,
        None => match shift_jis {
            Some((text, false)) => text,
            _ => match windows {
                Some((text, false)) => text,
                _ => lossy,
            },
        },
    }
}

/// Reads the name of a file in an archive off its bytes.
pub fn detect_and_convert_filename(raw_bytes: &[u8]) -> (name: String)
    ensures
        name@ == decoded_name(raw_bytes@),
{
    let utf8 = utf8_text(raw_bytes);
    let (shift_jis, windows) = if raw_bytes.len() <= MAX_NAME_BYTES {
        (Some(shift_jis_text(raw_bytes)), label_text(WINDOWS_JAPANESE_LABEL, raw_bytes))
    } else {
        (None, None)
    };
    choose_filename(utf8, shift_jis, windows, lossy_text(raw_bytes))
}

} // verus!
