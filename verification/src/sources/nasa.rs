//! NASA's Astronomy Picture of the Day.
//!
//! The APOD service answers with a JSON object. The fields read from it are
//! those of [`Apod`]; [`choose_apod_image`] decides from them which image to
//! download, or why there is none.

use vstd::prelude::*;
use crate::text::{opt_view, owned, str_eq};

verus! {

/// What is read from an APOD answer.
pub struct Apod {
    /// Present when the answer has an `error` member; holds its `message`
    /// when that is a string.
    pub error: Option<Option<String>>,
    /// `media_type`, when it is a string.
    pub media_type: Option<String>,
    /// `thumbnail_url`, when it is a string.
    pub thumbnail_url: Option<String>,
    /// `hdurl`, when it is a string.
    pub hdurl: Option<String>,
    /// `url`, when it is a string.
    pub url: Option<String>,
}

/// The view of an [`Apod`].
pub struct ApodView {
    pub error: Option<Option<Seq<char>>>,
    pub media_type: Option<Seq<char>>,
    pub thumbnail_url: Option<Seq<char>>,
    pub hdurl: Option<Seq<char>>,
    pub url: Option<Seq<char>>,
}

impl View for Apod {
    type V = ApodView;

    open spec fn view(&self) -> ApodView {
        ApodView {
            error: match self.error {
                Some(m) => Some(opt_view(m)),
                None => None,
            },
            media_type: opt_view(self.media_type),
            thumbnail_url: opt_view(self.thumbnail_url),
            hdurl: opt_view(self.hdurl),
            url: opt_view(self.url),
        }
    }
}

/// The fields of the JSON object in `body`, as `serde_json` reads it; `None`
/// when `body` is not JSON.
pub uninterp spec fn json_apod(body: Seq<u8>) -> Option<ApodView>;

/// Reads an APOD answer with `serde_json::from_slice` into a
/// `serde_json::Value` and picks the fields of [`Apod`] out of it. The
/// contract names the result only; what `serde_json` accepts as JSON is not
/// stated here.
#[verifier::external_body]
fn read_apod(body: &[u8]) -> (r: Option<Apod>)
    ensures
        match r {
            Some(a) => json_apod(body@) == Some(a@),
            None => json_apod(body@) is None,
        },
{
    let v: serde_json::Value = serde_json::from_slice(body).ok()?;
    let text = |f: &serde_json::Value| f.as_str().map(String::from);
    Some(Apod {
        error: v.get("error").map(|e| text(&e["message"])),
        media_type: text(&v["media_type"]),
        thumbnail_url: text(&v["thumbnail_url"]),
        hdurl: text(&v["hdurl"]),
        url: text(&v["url"]),
    })
}

/// The APOD address for an API key.
pub fn apod_url(api_key: &str) -> (r: String)
    ensures
        r@ == "https://api.nasa.gov/planetary/apod?api_key="@ + api_key@ + "&thumbs=true"@,
{
    owned("https://api.nasa.gov/planetary/apod?api_key=").concat(api_key).concat("&thumbs=true")
}

/// The image to download for a picture of the day.
pub enum ApodImage {
    /// The picture is a video; this is its thumbnail.
    Thumbnail(String),
    /// The picture itself, in high resolution when there is one.
    Image(String),
}

/// The media type of an answer, `image` when it gives none.
pub open spec fn media_kind(a: ApodView) -> Seq<char> {
    match a.media_type {
        Some(m) => m,
        None => "image"@,
    }
}

/// Which image an answer leads to (`true` for a thumbnail), or the message
/// of the failure: the service's error; a video without a thumbnail; a
/// media type other than `image`; an image with neither `hdurl` nor `url`.
pub open spec fn apod_choice(a: ApodView) -> Result<(bool, Seq<char>), Seq<char>> {
    match a.error {
        Some(m) => Err(
            "NASA API error: "@ + match m {
                Some(t) => t,
                None => "Unknown NASA API error"@,
            },
        ),
        None => if media_kind(a) == "video"@ {
            match a.thumbnail_url {
                Some(t) => Ok((true, t)),
                None => Err("APOD is video with no thumbnail"@),
            }
        } else if media_kind(a) != "image"@ {
            Err("APOD is not an image (type: "@ + media_kind(a) + ")"@)
        } else {
            match a.hdurl {
                Some(u) => Ok((false, u)),
                None => match a.url {
                    Some(u) => Ok((false, u)),
                    None => Err("No image URL in NASA response"@),
                },
            }
        },
    }
}

/// Whether a result matches a choice.
pub open spec fn image_result_is(
    r: Result<ApodImage, String>,
    c: Result<(bool, Seq<char>), Seq<char>>,
) -> bool {
    match c {
        Ok((thumb, u)) => if thumb {
            r matches Ok(ApodImage::Thumbnail(s)) && s@ == u
        } else {
            r matches Ok(ApodImage::Image(s)) && s@ == u
        },
        Err(m) => r matches Err(e) && e@ == m,
    }
}

/// Decides which image an APOD answer leads to.
pub fn choose_apod_image(apod: &Apod) -> (r: Result<ApodImage, String>)
    ensures
        image_result_is(r, apod_choice(apod@)),
{
    match &apod.error {
        Some(m) => {
            let msg = match m {
                Some(t) => t.as_str(),
                None => "Unknown NASA API error",
            };
            return Err(owned("NASA API error: ").concat(msg));
        },
        None => {},
    }
    let media = match &apod.media_type {
        Some(m) => m.as_str(),
        None => "image",
    };
    if str_eq(media, "video") {
        return match &apod.thumbnail_url {
            Some(t) => Ok(ApodImage::Thumbnail(t.clone())),
            None => Err(owned("APOD is video with no thumbnail")),
        };
    }
    if !str_eq(media, "image") {
        return Err(owned("APOD is not an image (type: ").concat(media).concat(")"));
    }
    match &apod.hdurl {
        Some(u) => Ok(ApodImage::Image(u.clone())),
        None => match &apod.url {
            Some(u) => Ok(ApodImage::Image(u.clone())),
            None => Err(owned("No image URL in NASA response")),
        },
    }
}

/// Decides which image the APOD answer `body` leads to; an answer that is not
/// JSON fails with "Failed to parse NASA response".
pub fn apod_image(body: &[u8]) -> (r: Result<ApodImage, String>)
    ensures
        match json_apod(body@) {
            Some(a) => image_result_is(r, apod_choice(a)),
            None => r matches Err(e) && e@ == "Failed to parse NASA response"@,
        },
{
    match read_apod(body) {
        Some(a) => choose_apod_image(&a),
        None => Err(owned("Failed to parse NASA response")),
    }
}

} // verus!
