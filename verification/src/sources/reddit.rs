//! Wallpapers from a subreddit's listing.
//!
//! The listing is fetched as JSON; the links of its posts
//! (`url_overridden_by_dest`) that are non-empty strings are the candidates,
//! and one of them is picked with a clock reading.

use vstd::prelude::*;
use crate::text::{opt_view, owned, str_eq, string_views};

verus! {

/// The sort order asked of Reddit: `top`, `rising` or `hot` as given, `top`
/// for anything else.
pub open spec fn sort_param(sort: Seq<char>) -> Seq<char> {
    if sort == "top"@ {
        "top"@
    } else if sort == "rising"@ {
        "rising"@
    } else if sort == "hot"@ {
        "hot"@
    } else {
        "top"@
    }
}

/// The listing address: the first subreddit (`wallpapers` when there is
/// none) in the given order.
pub open spec fn listing_address(subreddits: Seq<Seq<char>>, sort: Seq<char>) -> Seq<char> {
    let sub = if subreddits.len() > 0 {
        subreddits[0]
    } else {
        "wallpapers"@
    };
    "https://www.reddit.com/r/"@ + sub + "/"@ + sort_param(sort) + ".json"@
}

/// The address of a subreddit listing.
pub fn reddit_url(subreddits: &Vec<String>, sort: &str) -> (r: String)
    ensures
        r@ == listing_address(string_views(subreddits@), sort@),
{
    let sub = if subreddits.len() > 0 {
        subreddits[0].as_str()
    } else {
        "wallpapers"
    };
    let order = if str_eq(sort, "top") {
        "top"
    } else if str_eq(sort, "rising") {
        "rising"
    } else if str_eq(sort, "hot") {
        "hot"
    } else {
        "top"
    };
    owned("https://www.reddit.com/r/").concat(sub).concat("/").concat(order).concat(".json")
}

/// The user agent the listing is fetched with.
pub open spec fn user_agent() -> Seq<char> {
    "Mozilla/5.0 (Windows NT 10.0; Win64; x64) AppleWebKit/537.36 (KHTML, like Gecko) Chrome/146.0.0.0 Safari/537.36"@
}

/// The arguments of the `curl` call that fetches a listing: silent,
/// following redirects, with a browser user agent, asking for JSON.
pub fn curl_args(url: &str) -> (r: Vec<String>)
    ensures
        string_views(r@) == seq![
            "-s"@,
            "-L"@,
            "-A"@,
            user_agent(),
            "-H"@,
            "Accept: application/json"@,
            url@,
        ],
{
    let mut args: Vec<String> = Vec::new();
    args.push(owned("-s"));
    args.push(owned("-L"));
    args.push(owned("-A"));
    args.push(
        owned(
            "Mozilla/5.0 (Windows NT 10.0; Win64; x64) AppleWebKit/537.36 (KHTML, like Gecko) Chrome/146.0.0.0 Safari/537.36",
        ),
    );
    args.push(owned("-H"));
    args.push(owned("Accept: application/json"));
    args.push(owned(url));
    assert(string_views(args@) =~= seq![
        "-s"@,
        "-L"@,
        "-A"@,
        user_agent(),
        "-H"@,
        "Accept: application/json"@,
        url@,
    ]);
    args
}

/// The posts of the listing in `body`, as `serde_json` reads it: `None` when
/// `body` is not JSON; `Some(None)` when `data.children` is not an array;
/// otherwise, for each child in order, its `data.url_overridden_by_dest`
/// when that is a string.
pub uninterp spec fn json_listing_posts(body: Seq<u8>) -> Option<Option<Seq<Option<Seq<char>>>>>;

/// The views of a list of optional strings.
pub open spec fn opt_views(v: Seq<Option<String>>) -> Seq<Option<Seq<char>>> {
    v.map_values(|o: Option<String>| opt_view(o))
}

/// Reads a listing with `serde_json::from_slice` into a `serde_json::Value`
/// and picks each child's link out of it. The contract names the result
/// only; what `serde_json` accepts as JSON is not stated here.
#[verifier::external_body]
fn read_listing(body: &[u8]) -> (r: Option<Option<Vec<Option<String>>>>)
    ensures
        match r {
            Some(Some(v)) => json_listing_posts(body@) == Some(Some(opt_views(v@))),
            Some(None) => json_listing_posts(body@) == Some(None::<Seq<Option<Seq<char>>>>),
            None => json_listing_posts(body@) is None,
        },
{
    let v: serde_json::Value = serde_json::from_slice(body).ok()?;
    Some(v["data"]["children"].as_array().map(|posts| {
        posts.iter().map(|p| p["data"]["url_overridden_by_dest"].as_str().map(String::from)).collect()
    }))
}

/// The candidate links among the posts: those present and not empty, in
/// order.
pub open spec fn candidate_links(posts: Seq<Option<Seq<char>>>) -> Seq<Seq<char>>
    decreases posts.len(),
{
    if posts.len() == 0 {
        Seq::empty()
    } else {
        candidate_links(posts.drop_last()) + match posts.last() {
            Some(u) => if u.len() > 0 {
                seq![u]
            } else {
                Seq::empty()
            },
            None => Seq::empty(),
        }
    }
}

/// The candidate links among a listing's posts.
pub fn collect_links(posts: &Vec<Option<String>>) -> (r: Vec<String>)
    ensures
        string_views(r@) == candidate_links(opt_views(posts@)),
{
    let mut links: Vec<String> = Vec::new();
    for i in 0..posts.len()
        invariant
            string_views(links@) == candidate_links(opt_views(posts@).take(i as int)),
    {
        let ghost before = links@;
        assert(opt_views(posts@).take(i + 1).drop_last() == opt_views(posts@).take(i as int));
        assert(opt_views(posts@).take(i + 1).last() == opt_view(posts@[i as int]));
        match &posts[i] {
            Some(u) => {
                if u.as_str().unicode_len() > 0 {
                    links.push(u.clone());
                    assert(string_views(links@) =~= string_views(before).push(u@));
                }
            },
            None => {},
        }
        assert(string_views(links@) =~= candidate_links(opt_views(posts@).take(i + 1)));
    }
    assert(opt_views(posts@).take(posts.len() as int) == opt_views(posts@));
    links
}

/// The candidate links of the listing in `body`, or why there are none: the
/// body is not JSON; it has no post array; no post has a link.
pub fn reddit_image_urls(body: &[u8]) -> (r: Result<Vec<String>, String>)
    ensures
        match json_listing_posts(body@) {
            None => r matches Err(e) && e@ == "Failed to parse Reddit response"@,
            Some(None) => r matches Err(e) && e@ == "Failed to parse Reddit posts"@,
            Some(Some(posts)) => if candidate_links(posts).len() == 0 {
                r matches Err(e) && e@ == "No valid images found on Reddit"@
            } else {
                r matches Ok(v) && string_views(v@) == candidate_links(posts)
            },
        },
{
    match read_listing(body) {
        None => Err(owned("Failed to parse Reddit response")),
        Some(None) => Err(owned("Failed to parse Reddit posts")),
        Some(Some(posts)) => {
            let links = collect_links(&posts);
            if links.len() == 0 {
                Err(owned("No valid images found on Reddit"))
            } else {
                Ok(links)
            }
        },
    }
}

/// The link taken among the candidates for a clock reading `seed`.
pub fn pick_link(links: &Vec<String>, seed: usize) -> (r: String)
    requires
        links.len() > 0,
    ensures
        r@ == links@[(seed % links.len()) as int]@,
{
    links[seed % links.len()].clone()
}


/// The sort order asked of Reddit is the one given when it is `top`,
/// `rising` or `hot`, and `top` for any other.
pub proof fn sort_order_kept(sort: Seq<char>)
    ensures
        (sort == "top"@ || sort == "rising"@ || sort == "hot"@) ==> sort_param(sort) == sort,
        !(sort == "top"@ || sort == "rising"@ || sort == "hot"@) ==> sort_param(sort) == "top"@,
{
}

} // verus!
