//! Naming downloaded wallpapers.
//!
//! A download is saved as `styli_<stamp>.<extension>`, the stamp being the
//! time of the download in hexadecimal and the extension following the
//! content type the server reports.

use vstd::prelude::*;
use crate::text::{hex, owned, push_hex, str_eq};

verus! {

/// The file extension for a content type; `jpg` for anything unknown.
pub open spec fn extension_for(content_type: Seq<char>) -> Seq<char> {
    if content_type == "image/jpeg"@ || content_type == "image/jpg"@ {
        "jpg"@
    } else if content_type == "image/png"@ {
        "png"@
    } else if content_type == "image/gif"@ {
        "gif"@
    } else if content_type == "image/webp"@ {
        "webp"@
    } else if content_type == "image/bmp"@ {
        "bmp"@
    } else {
        "jpg"@
    }
}

/// The content type taken for a response: its `content-type` header when it
/// has a readable one, `image/jpeg` otherwise.
pub open spec fn effective_content_type(header: Option<&str>) -> Seq<char> {
    match header {
        Some(h) => h@,
        None => "image/jpeg"@,
    }
}

/// The file extension for a response's `content-type` header.
pub fn image_extension(content_type: Option<&str>) -> (r: &'static str)
    ensures
        r@ == extension_for(effective_content_type(content_type)),
{
    let ct = match content_type {
        Some(h) => h,
        None => "image/jpeg",
    };
    if str_eq(ct, "image/jpeg") || str_eq(ct, "image/jpg") {
        "jpg"
    } else if str_eq(ct, "image/png") {
        "png"
    } else if str_eq(ct, "image/gif") {
        "gif"
    } else if str_eq(ct, "image/webp") {
        "webp"
    } else if str_eq(ct, "image/bmp") {
        "bmp"
    } else {
        "jpg"
    }
}

/// A time stamp: the seconds and the nanoseconds of a clock reading, each in
/// lower-case hexadecimal, one after the other.
pub fn uuid_simple(secs: u64, subsec_nanos: u32) -> (r: String)
    ensures
        r@ == hex(secs as nat) + hex(subsec_nanos as nat),
{
    let mut s = String::new();
    push_hex(&mut s, secs);
    push_hex(&mut s, subsec_nanos as u64);
    s
}

/// The file name of a download made at the given clock reading.
pub fn download_file_name(secs: u64, subsec_nanos: u32, content_type: Option<&str>) -> (r: String)
    ensures
        r@ == "styli_"@ + hex(secs as nat) + hex(subsec_nanos as nat) + "."@ + extension_for(
            effective_content_type(content_type),
        ),
{
    let stamp = uuid_simple(secs, subsec_nanos);
    owned("styli_").concat(stamp.as_str()).concat(".").concat(image_extension(content_type))
}

/// A download always gets one of the five image extensions.
pub proof fn extension_is_known(content_type: Seq<char>)
    ensures
        extension_for(content_type) == "jpg"@ || extension_for(content_type) == "png"@
            || extension_for(content_type) == "gif"@ || extension_for(content_type) == "webp"@
            || extension_for(content_type) == "bmp"@,
{
}

} // verus!
