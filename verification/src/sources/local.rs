//! Wallpapers picked from a local folder.

use vstd::prelude::*;
use crate::text::{all_ascii, ascii_lower, decimal, owned, push_decimal, str_eq, to_lowercase, unicode_lowercase};

verus! {

/// Whether a lower-case file extension is one of an image.
pub open spec fn image_extension_name(ext: Seq<char>) -> bool {
    ext == "jpg"@ || ext == "jpeg"@ || ext == "png"@ || ext == "gif"@ || ext == "webp"@ || ext
        == "bmp"@
}

/// Whether a file with this extension is taken as an image: `jpg`, `jpeg`,
/// `png`, `gif`, `webp` or `bmp`, in any case; a file without an extension is
/// not.
pub fn is_image_extension(extension: Option<&str>) -> (b: bool)
    ensures
        b == (extension matches Some(e) && image_extension_name(unicode_lowercase(e@))),
        extension matches Some(e) ==> (all_ascii(e@) ==> b == image_extension_name(ascii_lower(e@))),
{
    match extension {
        Some(e) => {
            let lower = to_lowercase(e);
            let l = lower.as_str();
            str_eq(l, "jpg") || str_eq(l, "jpeg") || str_eq(l, "png") || str_eq(l, "gif")
                || str_eq(l, "webp") || str_eq(l, "bmp")
        },
        None => false,
    }
}

/// The name the chosen image is copied to: `styli_<now>.local`.
pub fn local_copy_name(now: u64) -> (r: String)
    ensures
        r@ == "styli_"@ + decimal(now as nat) + ".local"@,
{
    let mut name = owned("styli_");
    push_decimal(&mut name, now);
    name.append(".local");
    name
}

/// The position of the image taken among `count` images for a clock reading.
pub fn pick_index(now: u64, count: usize) -> (r: usize)
    requires
        count > 0,
    ensures
        r == now % (count as u64),
        r < count,
{
    (now % (count as u64)) as usize
}


/// Exactly six extensions are taken as images: `jpg`, `jpeg`, `png`, `gif`,
/// `webp` and `bmp`.
pub proof fn image_extensions_accepted(e: Seq<char>)
    ensures
        image_extension_name(e) <==> seq!["jpg"@, "jpeg"@, "png"@, "gif"@, "webp"@, "bmp"@].contains(
            e,
        ),
{
    let names = seq!["jpg"@, "jpeg"@, "png"@, "gif"@, "webp"@, "bmp"@];
    if image_extension_name(e) {
        if e == "jpg"@ {
            assert(names[0] == e);
        } else if e == "jpeg"@ {
            assert(names[1] == e);
        } else if e == "png"@ {
            assert(names[2] == e);
        } else if e == "gif"@ {
            assert(names[3] == e);
        } else if e == "webp"@ {
            assert(names[4] == e);
        } else {
            assert(names[5] == e);
        }
    }
    if names.contains(e) {
        let k = choose|k: int| 0 <= k < names.len() && names[k] == e;
        assert(0 <= k < 6);
    }
}

} // verus!
