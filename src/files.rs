use vstd::prelude::*;

use base64::Engine;

use crate::text::{decimal, push_decimal, push_str};
use crate::types::ClipboardItem;

verus! {

/// Largest file that can be added to the clipboard, in bytes.
pub const MAX_FILE_SIZE: u64 = 10 * 1024 * 1024;

/// The standard padded base64 text of `b`.
pub uninterp spec fn base64_of(b: Seq<u8>) -> Seq<char>;

/// The bytes that base64's standard engine decodes from `s`, or `None` where
/// it refuses `s`.
pub uninterp spec fn base64_decoded(s: Seq<char>) -> Option<Seq<u8>>;

#[verifier::external_type_specification]
#[verifier::external_body]
pub struct ExDecodeError(base64::DecodeError);

/// Relies on `Engine::encode` of base64's `STANDARD` engine; it panics only
/// where the encoded length overflows `usize`.
#[verifier::external_body]
fn encode_base64(b: &[u8]) -> (r: String)
    requires
        b@.len() <= usize::MAX / 2,
    ensures
        r@ == base64_of(b@),
{
    base64::engine::general_purpose::STANDARD.encode(b)
}

/// Relies on `Engine::decode` of base64's `STANDARD` engine.
#[verifier::external_body]
fn decode_base64(s: &str) -> (r: Result<Vec<u8>, base64::DecodeError>)
    ensures
        match r {
            Ok(v) => base64_decoded(s@) == Some(v@),
            Err(_) => base64_decoded(s@) is None,
        },
{
    base64::engine::general_purpose::STANDARD.decode(s)
}

/// The base64 text of a file's bytes, as a file transfer carries it.
pub fn file_content_base64(content: &Vec<u8>) -> (r: String)
    requires
        content@.len() <= MAX_FILE_SIZE,
    ensures
        r@ == base64_of(content@),
{
    encode_base64(content.as_slice())
}

/// The bytes carried by a file transfer, or `None` where its text is not
/// valid base64.
pub fn decode_file_content(text: &String) -> (r: Option<Vec<u8>>)
    ensures
        match r {
            Some(v) => base64_decoded(text@) == Some(v@),
            None => base64_decoded(text@) is None,
        },
{
    match decode_base64(text.as_str()) {
        Ok(v) => Some(v),
        Err(_) => None,
    }
}

/// The message that refuses a file over the size limit.
pub open spec fn too_large_message(file_name: Seq<char>, size: nat) -> Seq<char> {
    "File '"@ + file_name + "' is too large ("@ + decimal(size / 1024 / 1024) + "MB). Maximum size is 10MB."@
}

/// Refuses a file larger than `MAX_FILE_SIZE`.
pub fn check_file_size(file_name: &str, size: u64) -> (r: Result<(), String>)
    ensures
        match r {
            Ok(()) => size <= MAX_FILE_SIZE,
            Err(e) => size > MAX_FILE_SIZE && e@ == too_large_message(file_name@, size as nat),
        },
{
    if size > MAX_FILE_SIZE {
        let mut e = String::from_str("File '");
        push_str(&mut e, file_name);
        push_str(&mut e, "' is too large (");
        push_decimal(&mut e, size / 1024 / 1024);
        push_str(&mut e, "MB). Maximum size is 10MB.");
        Err(e)
    } else {
        Ok(())
    }
}

/// The summary text of a file item.
pub open spec fn file_summary(file_name: Seq<char>, len: nat) -> Seq<char> {
    "File: "@ + file_name + " ("@ + decimal(len) + " bytes)"@
}

/// A file item: its content is a summary of the file's name and length, and
/// it points at the stored copy.
pub fn new_file_item(
    id: String,
    file_name: String,
    content_len: u64,
    file_size: u64,
    stored_path: String,
    timestamp: String,
    device: String,
) -> (r: ClipboardItem)
    ensures
        r.id == id,
        r.content@ == file_summary(file_name@, content_len as nat),
        r.timestamp == timestamp,
        r.device == device,
        r.content_type@ == "file"@,
        r.file_path == Some(stored_path),
        r.file_size == Some(file_size),
        r.file_name == Some(file_name),
{
    let mut content = String::from_str("File: ");
    push_str(&mut content, file_name.as_str());
    push_str(&mut content, " (");
    push_decimal(&mut content, content_len);
    push_str(&mut content, " bytes)");
    ClipboardItem {
        id,
        content,
        timestamp,
        device,
        content_type: String::from_str("file"),
        file_path: Some(stored_path),
        file_size: Some(file_size),
        file_name: Some(file_name),
    }
}

/// The name under which a file's bytes are stored: its item's id, followed
/// by the original extension where it has one.
pub fn stored_file_name(file_id: &str, extension: &str) -> (r: String)
    ensures
        r@ == (if extension@.len() == 0 { file_id@ } else { file_id@ + "."@ + extension@ }),
{
    let mut r = String::from_str(file_id);
    if extension.unicode_len() != 0 {
        push_str(&mut r, ".");
        push_str(&mut r, extension);
    }
    r
}

/// The name of a received file: the one its item carries, or
/// `received_file`.
pub fn received_file_name(item: &ClipboardItem) -> (r: String)
    ensures
        r@ == match item.file_name {
            Some(n) => n@,
            None => "received_file"@,
        },
{
    match &item.file_name {
        Some(n) => n.clone(),
        None => String::from_str("received_file"),
    }
}

/// A received item pointing at the local copy of its file.
pub fn with_stored_path(item: ClipboardItem, stored_path: String) -> (r: ClipboardItem)
    ensures
        r == (ClipboardItem { file_path: Some(stored_path), ..item }),
{
    ClipboardItem { file_path: Some(stored_path), ..item }
}

/// The `counter`-th alternative name of a file whose name is taken:
/// `stem (counter)`, followed by the extension where there is one.
pub fn numbered_file_name(stem: &str, extension: &str, counter: u64) -> (r: String)
    ensures
        r@ == stem@ + " ("@ + decimal(counter as nat) + ")"@ + (if extension@.len() == 0 {
            Seq::empty()
        } else {
            "."@ + extension@
        }),
{
    let mut r = String::from_str(stem);
    push_str(&mut r, " (");
    push_decimal(&mut r, counter);
    push_str(&mut r, ")");
    if extension.unicode_len() != 0 {
        push_str(&mut r, ".");
        push_str(&mut r, extension);
    } else {
        assert(r@ =~= r@ + Seq::<char>::empty());
    }
    r
}

} // verus!
