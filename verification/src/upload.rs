//! The upload that carries a workbook: which media type is accepted, under
//! which name the file is kept, and which status answers the request.

use vstd::prelude::*;
use crate::text::{
    chars_of, decimal, is_digit, push_chars, push_decimal, same_text, text_of,
};

verus! {

/// The media type of a workbook upload.
pub open spec fn workbook_media_type() -> Seq<char> {
    "application/vnd.openxmlformats-officedocument.spreadsheetml.sheet"@
}

/// Whether `media_type` is exactly the media type of a workbook; a file of
/// any other declared type is rejected before it is read.
pub fn is_workbook_media_type(media_type: &str) -> (accepted: bool)
    ensures
        accepted == (media_type@ == workbook_media_type()),
{
    same_text(media_type, "application/vnd.openxmlformats-officedocument.spreadsheetml.sheet")
}

/// The name under which an upload is kept: the time of receipt, in
/// milliseconds since the epoch, an underscore, and the name the file came
/// with.
pub open spec fn stored_name(received_millis: u128, file_name: Seq<char>) -> Seq<char> {
    decimal(received_millis as nat) + seq!['_'] + file_name
}

/// The name under which an upload is kept.
pub fn upload_name(received_millis: u128, file_name: &str) -> (name: String)
    ensures
        name@ == stored_name(received_millis, file_name@),
{
    let mut chars: Vec<char> = Vec::new();
    push_decimal(&mut chars, received_millis);
    chars.push('_');
    let given = chars_of(file_name);
    push_chars(&mut chars, &given);
    text_of(&chars)
}

/// How an import request ended.
#[derive(Clone, Copy, Debug, PartialEq, Eq, Structural)]
pub enum RequestOutcome {
    /// Every row was normalized, validated and written.
    Imported,
    /// The upload was not declared as a workbook.
    WrongMediaType,
    /// The upload could not be kept in temporary storage.
    NotStored,
    /// The workbook could not be read.
    Unreadable,
    /// A row was rejected or could not be written.
    RowFailed,
}

/// The HTTP status that answers a request: 200 for a full import, 500 where
/// the server could not keep the upload, 400 for everything that is wrong
/// with the upload itself.
pub open spec fn status_of(outcome: RequestOutcome) -> u16 {
    match outcome {
        RequestOutcome::Imported => 200,
        RequestOutcome::NotStored => 500,
        _ => 400,
    }
}

/// The HTTP status that answers a request.
pub fn response_status(outcome: RequestOutcome) -> (status: u16)
    ensures
        status == status_of(outcome),
{
    match outcome {
        RequestOutcome::Imported => 200,
        RequestOutcome::NotStored => 500,
        _ => 400,
    }
}

/// Whether a character is kept out of file names: a path separator, or one
/// of `? < > : * | "`.
pub open spec fn is_illegal(c: char) -> bool {
    c == '/' || c == '\\' || c == '?' || c == '<' || c == '>' || c == ':' || c == '*' || c == '|'
        || c == '"'
}

/// Whether `name` holds no character that is kept out of file names.
pub open spec fn is_clean(name: Seq<char>) -> bool {
    forall|i: int| 0 <= i < name.len() ==> !is_illegal(#[trigger] name[i])
}

/// Whether a character is a letter or digit of ASCII, a hyphen, an
/// underscore or a dot.
pub open spec fn is_plain(c: char) -> bool {
    ('a' <= c && c <= 'z') || ('A' <= c && c <= 'Z') || is_digit(c) || c == '-' || c == '_' || c
        == '.'
}

/// Whether `name` is a file name that every platform takes as it is: plain
/// characters only, 255 at most, the first a digit, the last no dot.
pub open spec fn is_plain_name(name: Seq<char>) -> bool {
    &&& 0 < name.len() <= 255
    &&& is_digit(name[0])
    &&& name[name.len() - 1] != '.'
    &&& forall|i: int| 0 <= i < name.len() ==> is_plain(#[trigger] name[i])
}

/// `sanitize_filename::sanitize`, which drops from a name what cannot stand
/// in a file name. Trusted: the result holds no path separator and none of
/// `? < > : * | "`, and a plain name is returned as it is. What else is
/// dropped depends on the platform and is not stated.
#[verifier::external_body]
fn sanitize_name(name: &str) -> (clean: String)
    ensures
        is_clean(clean@),
        is_plain_name(name@) ==> clean@ == name@,
{
    sanitize_filename::sanitize(name)
}

/// The path of the file `name` in the directory `directory`.
pub open spec fn joined_path(directory: Seq<char>, name: Seq<char>) -> Seq<char> {
    directory + seq!['/'] + name
}

/// The path of the file `name` in the directory `directory`.
pub fn join_path(directory: &str, name: &str) -> (path: String)
    ensures
        path@ == joined_path(directory@, name@),
{
    let mut chars = chars_of(directory);
    chars.push('/');
    let name_chars = chars_of(name);
    push_chars(&mut chars, &name_chars);
    text_of(&chars)
}

/// The path from which an upload is served, given the name that a request
/// asks for: a file directly in the uploads directory, whatever the name
/// holds, since the name is sanitized first and then has no path separator
/// left.
pub fn download_path(uploads_path: &str, file_name: &str) -> (path: String)
    ensures
        exists|clean: Seq<char>| is_clean(clean) && path@ == joined_path(uploads_path@, clean),
        is_plain_name(file_name@) ==> path@ == joined_path(uploads_path@, file_name@),
{
    let clean = sanitize_name(file_name);
    join_path(uploads_path, clean.as_str())
}

/// The decimal writing of a number is digits, one at least.
pub proof fn lemma_decimal_digits(n: nat)
    ensures
        decimal(n).len() > 0,
        forall|i: int| 0 <= i < decimal(n).len() ==> is_digit(#[trigger] decimal(n)[i]),
    decreases n,
{
    if n >= 10 {
        lemma_decimal_digits(n / 10);
    }
}

/// An upload is served under the name it is kept under: where the name a
/// file came with is plain and short enough, the name it is kept under is
/// plain, so that a download that asks for it is served that very file.
pub proof fn lemma_stored_name_is_plain(received_millis: u128, file_name: Seq<char>)
    requires
        forall|i: int| 0 <= i < file_name.len() ==> is_plain(#[trigger] file_name[i]),
        file_name.len() == 0 || file_name[file_name.len() - 1] != '.',
        stored_name(received_millis, file_name).len() <= 255,
    ensures
        is_plain_name(stored_name(received_millis, file_name)),
{
    let digits = decimal(received_millis as nat);
    let name = stored_name(received_millis, file_name);
    lemma_decimal_digits(received_millis as nat);
    assert(name[0] == digits[0]);
    assert forall|i: int| 0 <= i < name.len() implies is_plain(#[trigger] name[i]) by {
        if i < digits.len() {
            assert(name[i] == digits[i]);
        } else if i > digits.len() {
            assert(name[i] == file_name[i - digits.len() - 1]);
        }
    }
    if file_name.len() > 0 {
        assert(name[name.len() - 1] == file_name[file_name.len() - 1]);
    }
}

} // verus!
