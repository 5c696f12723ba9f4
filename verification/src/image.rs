//! An image handed over as a data URL: what kind it is, what bytes it
//! holds, and the file it is to be written to before a viewer opens it.

use crate::text::{contains, contains_text, decimal, decimal_text, join};
use base64::Engine;
use vstd::prelude::*;
use vstd::string::{StrSliceExecFns, StringExecFns};

verus! {

/// `base64::DecodeError`, what `base64` says of a text it rejects.
#[verifier::external_type_specification]
#[verifier::external_body]
pub struct ExDecodeError(base64::DecodeError);

/// `at` is the place of the first comma in `data`.
pub open spec fn is_first_comma(data: Seq<char>, at: int) -> bool {
    &&& 0 <= at < data.len()
    &&& data[at] == ','
    &&& forall|k: int| 0 <= k < at ==> data[k] != ','
}

/// `data` holds a comma.
pub open spec fn has_comma(data: Seq<char>) -> bool {
    exists|at: int| is_first_comma(data, at)
}

/// The place of the first comma in `data`, where it holds one.
pub open spec fn first_comma(data: Seq<char>) -> int {
    choose|at: int| is_first_comma(data, at)
}

/// What stands before the first comma of a data URL: the media type and
/// how the payload is encoded.
pub open spec fn header_of(data: Seq<char>) -> Seq<char> {
    data.take(first_comma(data))
}

/// What stands after the first comma of a data URL.
pub open spec fn payload_of(data: Seq<char>) -> Seq<char> {
    data.skip(first_comma(data) + 1)
}

/// The first comma stands in one place only.
pub proof fn lemma_first_comma_unique(data: Seq<char>, at: int)
    requires
        is_first_comma(data, at),
    ensures
        has_comma(data),
        first_comma(data) == at,
{
    let chosen = first_comma(data);
    assert(is_first_comma(data, chosen));
    if chosen < at {
        assert(data[chosen] != ',');
    } else if at < chosen {
        assert(data[at] != ',');
    }
}

/// The file extension for the media type that `header` names: the first of
/// PNG, JPEG, GIF, WebP and BMP that it names, and `png` where it names none.
pub open spec fn extension_of(header: Seq<char>) -> Seq<char> {
    if contains(header, "image/png"@) {
        "png"@
    } else if contains(header, "image/jpeg"@) || contains(header, "image/jpg"@) {
        "jpg"@
    } else if contains(header, "image/gif"@) {
        "gif"@
    } else if contains(header, "image/webp"@) {
        "webp"@
    } else if contains(header, "image/bmp"@) {
        "bmp"@
    } else {
        "png"@
    }
}

/// The name of the file that the image of process `process_id` is written to.
pub open spec fn file_name_of(process_id: u32, extension: Seq<char>) -> Seq<char> {
    "clawd-image-"@ + decimal(process_id as nat) + "."@ + extension
}

/// Name for the bytes that the standard base64 alphabet with padding
/// decodes a text to, or `None` where the text is no such encoding.
pub uninterp spec fn base64_decode(text: Seq<char>) -> Option<Seq<u8>>;

/// `Engine::decode` of `base64::engine::general_purpose::STANDARD`:
/// whether the text is accepted, and the bytes it stands for, depend on the
/// text alone.
#[verifier::external_body]
fn decode_standard(text: &str) -> (decoded: Result<Vec<u8>, base64::DecodeError>)
    ensures
        decoded is Ok <==> base64_decode(text@) is Some,
        decoded matches Ok(bytes) ==> base64_decode(text@) == Some(bytes@),
{
    base64::engine::general_purpose::STANDARD.decode(text)
}

/// Why an image could not be made ready.
#[derive(Debug, PartialEq)]
pub enum ImageError {
    /// The text holds no comma, so it is no data URL.
    InvalidDataUrl,
    /// The payload is not base64; `detail` says what is wrong with it.
    InvalidBase64 { detail: String },
}

impl ImageError {
    /// What the user is told.
    pub fn message(&self) -> (message: String)
        ensures
            match self {
                ImageError::InvalidDataUrl => message@ == "Invalid base64 data URL format"@,
                ImageError::InvalidBase64 { detail } => message@ == "Failed to decode base64: "@
                    + detail@,
            },
    {
        match self {
            ImageError::InvalidDataUrl => "Invalid base64 data URL format".to_owned(),
            ImageError::InvalidBase64 { detail } => join(
                "Failed to decode base64: ",
                detail.as_str(),
            ),
        }
    }
}

/// An image made ready for the viewer.
#[derive(Debug, PartialEq)]
pub struct ImageFile {
    /// The name of the file to write, within the directory for temporary
    /// files.
    pub name: String,
    /// The bytes to write.
    pub data: Vec<u8>,
}

/// The place of the first comma in `data`, if it holds one.
fn find_comma(data: &str) -> (found: Option<usize>)
    ensures
        match found {
            Some(at) => is_first_comma(data@, at as int),
            None => !has_comma(data@),
        },
{
    let total = data.unicode_len();
    let mut at: usize = 0;
    for c in it: data.chars()
        invariant
            it.seq() == data@,
            at == it.index(),
            total == data@.len(),
            forall|k: int| 0 <= k < at ==> data@[k] != ',',
    {
        if c == ',' {
            return Some(at);
        }
        at += 1;
    }
    assert forall|k: int| !is_first_comma(data@, k) by {
        if 0 <= k < data@.len() {
            assert(data@[k] != ',');
        }
    }
    None
}

/// Splits a data URL at its first comma into header and payload.
pub fn split_data_url(data: &str) -> (parts: Option<(&str, &str)>)
    ensures
        match parts {
            Some((header, payload)) => has_comma(data@) && header@ == header_of(data@)
                && payload@ == payload_of(data@),
            None => !has_comma(data@),
        },
{
    match find_comma(data) {
        Some(at) => {
            proof {
                lemma_first_comma_unique(data@, at as int);
            }
            let total = data.unicode_len();
            let header = data.substring_char(0, at);
            let payload = data.substring_char(at + 1, total);
            Some((header, payload))
        },
        None => None,
    }
}

/// The file extension for the media type that `header` names.
pub fn image_extension(header: &str) -> (extension: &'static str)
    ensures
        extension@ == extension_of(header@),
{
    if contains_text(header, "image/png") {
        "png"
    } else if contains_text(header, "image/jpeg") || contains_text(header, "image/jpg") {
        "jpg"
    } else if contains_text(header, "image/gif") {
        "gif"
    } else if contains_text(header, "image/webp") {
        "webp"
    } else if contains_text(header, "image/bmp") {
        "bmp"
    } else {
        "png"
    }
}

/// The name of the file that the image of process `process_id` is written to.
pub fn image_file_name(process_id: u32, extension: &str) -> (name: String)
    ensures
        name@ == file_name_of(process_id, extension@),
{
    let mut name = "clawd-image-".to_owned();
    name.append(decimal_text(process_id as u64).as_str());
    name.append(".");
    name.append(extension);
    name
}

/// Makes the image in a data URL ready for the viewer: names the file by
/// the process and the media type, and decodes the payload. The caller
/// writes the file and opens it.
pub fn open_image_in_viewer(base64_data: &str, process_id: u32) -> (ready: Result<
    ImageFile,
    ImageError,
>)
    ensures
        match ready {
            Ok(file) => {
                &&& has_comma(base64_data@)
                &&& base64_decode(payload_of(base64_data@)) == Some(file.data@)
                &&& file.name@ == file_name_of(process_id, extension_of(header_of(base64_data@)))
            },
            Err(ImageError::InvalidDataUrl) => !has_comma(base64_data@),
            Err(ImageError::InvalidBase64 { .. }) => has_comma(base64_data@) && base64_decode(
                payload_of(base64_data@),
            ) is None,
        },
{
    match split_data_url(base64_data) {
        None => Err(ImageError::InvalidDataUrl),
        Some((header, payload)) => {
            let extension = image_extension(header);
            match decode_standard(payload) {
                Ok(data) => Ok(ImageFile { name: image_file_name(process_id, extension), data }),
                Err(e) => Err(ImageError::InvalidBase64 { detail: e.to_string() }),
            }
        },
    }
}

} // verus!
