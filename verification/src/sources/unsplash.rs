//! Random photos from the Unsplash API.
//!
//! A random landscape photo is asked for with the access key of the
//! configuration. The answer is a JSON object; its `urls.raw` address, sized
//! to the screen's resolution, is the image to download, and an `errors`
//! member reports why there is none.

use vstd::prelude::*;
use crate::sources::picsum::{parse_resolution, resolution_dims};
use crate::text::{chars_of, contains_char, decimal, opt_view, owned, push_decimal};

verus! {

/// What is read from an Unsplash answer.
pub struct UnsplashPhoto {
    /// The first entry of `errors`, when it is a string.
    pub error: Option<String>,
    /// `urls.raw`, when it is a string.
    pub raw: Option<String>,
}

/// The view of an [`UnsplashPhoto`].
pub struct UnsplashPhotoView {
    pub error: Option<Seq<char>>,
    pub raw: Option<Seq<char>>,
}

impl View for UnsplashPhoto {
    type V = UnsplashPhotoView;

    open spec fn view(&self) -> UnsplashPhotoView {
        UnsplashPhotoView { error: opt_view(self.error), raw: opt_view(self.raw) }
    }
}

/// The fields of the JSON object in `body`, as `serde_json` reads it; `None`
/// when `body` is not JSON.
pub uninterp spec fn json_unsplash(body: Seq<u8>) -> Option<UnsplashPhotoView>;

/// Reads an Unsplash answer with `serde_json::from_slice` into a
/// `serde_json::Value` and picks the fields of [`UnsplashPhoto`] out of it.
/// The contract names the result only; what `serde_json` accepts as JSON is
/// not stated here.
#[verifier::external_body]
fn read_unsplash(body: &[u8]) -> (r: Option<UnsplashPhoto>)
    ensures
        match r {
            Some(p) => json_unsplash(body@) == Some(p@),
            None => json_unsplash(body@) is None,
        },
{
    let v: serde_json::Value = serde_json::from_slice(body).ok()?;
    Some(UnsplashPhoto {
        error: v["errors"][0].as_str().map(String::from),
        raw: v["urls"]["raw"].as_str().map(String::from),
    })
}

/// The address of a random landscape wallpaper for an access key.
pub open spec fn random_photo_address(access_key: Seq<char>) -> Seq<char> {
    "https://api.unsplash.com/photos/random?orientation=landscape&query=wallpaper&client_id="@
        + access_key
}

/// The address asked for a random photo; without an access key there is none.
pub fn unsplash_url(access_key: Option<&str>) -> (r: Result<String, String>)
    ensures
        match access_key {
            Some(k) => r matches Ok(s) && s@ == random_photo_address(k@),
            None => r matches Err(m) && m@
                == "Unsplash needs an access key: set access_key under [unsplash]"@,
        },
{
    match access_key {
        Some(k) => Ok(
            owned(
                "https://api.unsplash.com/photos/random?orientation=landscape&query=wallpaper&client_id=",
            ).concat(k),
        ),
        None => Err(owned("Unsplash needs an access key: set access_key under [unsplash]")),
    }
}

/// A raw image address asked at a size: `w`, `h` and `fit=crop` added to its
/// query.
pub open spec fn sized_address(raw: Seq<char>, resolution: Seq<char>) -> Seq<char> {
    let (w, h) = resolution_dims(resolution);
    raw + (if raw.contains('?') {
        "&"@
    } else {
        "?"@
    }) + "w="@ + decimal(w as nat) + "&h="@ + decimal(h as nat) + "&fit=crop"@
}

/// The image an answer leads to, or the message of the failure: the
/// service's error, or an answer without an address.
pub open spec fn unsplash_choice(p: UnsplashPhotoView, resolution: Seq<char>) -> Result<
    Seq<char>,
    Seq<char>,
> {
    match p.error {
        Some(m) => Err("Unsplash API error: "@ + m),
        None => match p.raw {
            Some(u) => Ok(sized_address(u, resolution)),
            None => Err("No image URL in Unsplash response"@),
        },
    }
}

/// Whether a result matches a choice.
pub open spec fn text_result_is(r: Result<String, String>, c: Result<Seq<char>, Seq<char>>) -> bool {
    match c {
        Ok(u) => r matches Ok(s) && s@ == u,
        Err(m) => r matches Err(e) && e@ == m,
    }
}

/// Decides which image an Unsplash answer leads to at a resolution.
pub fn choose_unsplash_image(photo: &UnsplashPhoto, resolution: &str) -> (r: Result<String, String>)
    ensures
        text_result_is(r, unsplash_choice(photo@, resolution@)),
{
    match &photo.error {
        Some(m) => {
            return Err(owned("Unsplash API error: ").concat(m.as_str()));
        },
        None => {},
    }
    match &photo.raw {
        Some(u) => {
            let (w, h) = parse_resolution(resolution);
            let chars = chars_of(u.as_str());
            let mut url = u.clone();
            assert(url@ == u@);
            if contains_char(chars.as_slice(), '?') {
                url.append("&");
            } else {
                url.append("?");
            }
            url.append("w=");
            push_decimal(&mut url, w as u64);
            url.append("&h=");
            push_decimal(&mut url, h as u64);
            url.append("&fit=crop");
            Ok(url)
        },
        None => Err(owned("No image URL in Unsplash response")),
    }
}

/// Decides which image the Unsplash answer `body` leads to at a resolution;
/// an answer that is not JSON fails with "Failed to parse Unsplash response".
pub fn unsplash_image(body: &[u8], resolution: &str) -> (r: Result<String, String>)
    ensures
        match json_unsplash(body@) {
            Some(p) => text_result_is(r, unsplash_choice(p, resolution@)),
            None => r matches Err(e) && e@ == "Failed to parse Unsplash response"@,
        },
{
    match read_unsplash(body) {
        Some(p) => choose_unsplash_image(&p, resolution),
        None => Err(owned("Failed to parse Unsplash response")),
    }
}

} // verus!
