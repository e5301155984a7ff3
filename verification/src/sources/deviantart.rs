//! Popular wallpapers from DeviantArt's RSS feed.
//!
//! The feed is RSS text; each deviation's image is the `url` attribute of a
//! `<media:content` element. Those addresses, with `&amp;` read as `&`, are
//! the candidates, and one of them is picked with a clock reading.

use vstd::prelude::*;
use vstd::slice::slice_subrange;
use crate::text::{chars_of, copy_chars, find, find_chars, owned, replace_all, replace_chars, string_of, string_views};

verus! {

/// The address of the feed of popular wallpapers.
pub fn deviantart_url() -> (r: String)
    ensures
        r@ == "https://backend.deviantart.com/rss.xml?type=deviation&q=boost%3Apopular+wallpaper"@,
{
    owned("https://backend.deviantart.com/rss.xml?type=deviation&q=boost%3Apopular+wallpaper")
}

/// The text that opens an image address in the feed.
pub open spec fn media_mark() -> Seq<char> {
    "<media:content url=\""@
}

/// An attribute value with `&amp;` read as `&`.
pub open spec fn unescape_amp(v: Seq<char>) -> Seq<char> {
    replace_all(v, "&amp;"@, "&"@)
}

/// The image addresses in a feed, in order: for each `<media:content url="`,
/// the text up to the next `"`, with `&amp;` read as `&`, when it is not
/// empty. An element whose value is not closed ends the list.
pub open spec fn media_urls(s: Seq<char>) -> Seq<Seq<char>>
    decreases s.len(),
{
    match find(s, media_mark()) {
        Some(i) => {
            let rest = s.skip(i + media_mark().len());
            match find(rest, "\""@) {
                Some(j) => if 0 <= i && i + media_mark().len() <= s.len() && 0 <= j < rest.len() {
                    let u = unescape_amp(rest.take(j));
                    (if u.len() > 0 {
                        seq![u]
                    } else {
                        seq![]
                    }) + media_urls(rest.skip(j + 1))
                } else {
                    seq![]
                },
                None => seq![],
            }
        },
        None => seq![],
    }
}

/// The image addresses in a feed; none fails with "No images found on
/// DeviantArt".
pub fn deviantart_image_urls(feed: &str) -> (r: Result<Vec<String>, String>)
    ensures
        if media_urls(feed@).len() > 0 {
            r matches Ok(v) && string_views(v@) == media_urls(feed@)
        } else {
            r matches Err(m) && m@ == "No images found on DeviantArt"@
        },
{
    let mark = chars_of("<media:content url=\"");
    let quote = chars_of("\"");
    let amp = chars_of("&amp;");
    let and = chars_of("&");
    proof {
        reveal_strlit("&amp;");
        reveal_strlit("\"");
    }
    let mut out: Vec<String> = Vec::new();
    let mut cur = chars_of(feed);
    loop
        invariant_except_break
            string_views(out@) + media_urls(cur@) == media_urls(feed@),
            mark@ == media_mark(),
            quote@ == "\""@,
            quote@.len() == 1,
            amp@ == "&amp;"@,
            and@ == "&"@,
            amp.len() > 0,
        ensures
            string_views(out@) == media_urls(feed@),
        decreases cur.len(),
    {
        let i = match find_chars(cur.as_slice(), mark.as_slice()) {
            Some(i) => i,
            None => {
                assert(string_views(out@) =~= string_views(out@) + media_urls(cur@));
                break;
            },
        };
        let start = i + mark.len();
        let rest = copy_chars(slice_subrange(cur.as_slice(), start, cur.len()));
        assert(rest@ =~= cur@.skip(start as int));
        let j = match find_chars(rest.as_slice(), quote.as_slice()) {
            Some(j) => j,
            None => {
                assert(string_views(out@) =~= string_views(out@) + media_urls(cur@));
                break;
            },
        };
        let raw = copy_chars(slice_subrange(rest.as_slice(), 0, j));
        assert(raw@ =~= rest@.take(j as int));
        let u = replace_chars(raw.as_slice(), amp.as_slice(), and.as_slice());
        let next = copy_chars(slice_subrange(rest.as_slice(), j + 1, rest.len()));
        assert(next@ =~= rest@.skip(j + 1));
        let ghost before = out@;
        if u.len() > 0 {
            out.push(string_of(u.as_slice()));
            assert(string_views(out@) =~= string_views(before) + seq![u@]);
        } else {
            assert(seq![] + media_urls(next@) =~= media_urls(next@));
        }
        assert(media_urls(cur@) == (if u@.len() > 0 {
            seq![u@]
        } else {
            seq![]
        }) + media_urls(next@));
        cur = next;
    }
    if out.len() == 0 {
        Err(owned("No images found on DeviantArt"))
    } else {
        Ok(out)
    }
}

} // verus!
