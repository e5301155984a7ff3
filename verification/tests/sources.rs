use styli_rs::download::{download_file_name, image_extension, uuid_simple};
use styli_rs::sources::local::{is_image_extension, local_copy_name, pick_index};
use styli_rs::sources::nasa::{apod_image, apod_url, ApodImage};
use styli_rs::sources::picsum::{parse_resolution, picsum_url};
use styli_rs::sources::deviantart::{deviantart_image_urls, deviantart_url};
use styli_rs::sources::reddit::{curl_args, pick_link, reddit_image_urls, reddit_url};
use styli_rs::sources::unsplash::{unsplash_image, unsplash_url};

#[test]
fn picsum_resolution() {
    assert_eq!(parse_resolution("2560x1440"), (2560, 1440));
    assert_eq!(parse_resolution("auto"), (1920, 1080));
    assert_eq!(parse_resolution("axb"), (1920, 1080));
    assert_eq!(parse_resolution("800x"), (800, 1080));
    assert_eq!(parse_resolution("+800x600x7"), (800, 600));
    assert_eq!(parse_resolution("-8x99999999999"), (1920, 1080));
    assert_eq!(parse_resolution("4294967295x0"), (4294967295, 0));
    for (w, h) in [(0u32, 0u32), (1, 2), (1920, 1080), (u32::MAX, 7)] {
        assert_eq!(parse_resolution(&format!("{}x{}", w, h)), (w, h));
    }
    assert_eq!(picsum_url("1366x768"), "https://picsum.photos/1366/768");
    assert_eq!(picsum_url("auto"), "https://picsum.photos/1920/1080");
}

#[test]
fn nasa_answers() {
    assert_eq!(
        apod_url("DEMO_KEY"),
        "https://api.nasa.gov/planetary/apod?api_key=DEMO_KEY&thumbs=true"
    );
    let image = br#"{"media_type":"image","url":"https://a/b.jpg","hdurl":"https://a/hd.jpg"}"#;
    match apod_image(image) {
        Ok(ApodImage::Image(u)) => assert_eq!(u, "https://a/hd.jpg"),
        _ => panic!("expected the hd image"),
    }
    let no_hd = br#"{"url":"https://a/b.jpg"}"#;
    match apod_image(no_hd) {
        Ok(ApodImage::Image(u)) => assert_eq!(u, "https://a/b.jpg"),
        _ => panic!("expected the image"),
    }
    let video = br#"{"media_type":"video","thumbnail_url":"https://a/t.jpg"}"#;
    match apod_image(video) {
        Ok(ApodImage::Thumbnail(u)) => assert_eq!(u, "https://a/t.jpg"),
        _ => panic!("expected the thumbnail"),
    }
    let cases: [(&[u8], &str); 6] = [
        (br#"{"media_type":"video"}"#, "APOD is video with no thumbnail"),
        (br#"{"media_type":"other"}"#, "APOD is not an image (type: other)"),
        (br#"{"media_type":"image"}"#, "No image URL in NASA response"),
        (br#"{"error":{"message":"bad key"}}"#, "NASA API error: bad key"),
        (br#"{"error":{"code":1},"url":"x"}"#, "NASA API error: Unknown NASA API error"),
        (b"not json", "Failed to parse NASA response"),
    ];
    for (body, message) in cases {
        match apod_image(body) {
            Err(m) => assert_eq!(m, message),
            Ok(_) => panic!("expected an error"),
        }
    }
}

#[test]
fn reddit_listing() {
    let subs = vec!["earthporn".to_string(), "nature".to_string()];
    assert_eq!(reddit_url(&subs, "rising"), "https://www.reddit.com/r/earthporn/rising.json");
    assert_eq!(reddit_url(&subs, "new"), "https://www.reddit.com/r/earthporn/top.json");
    assert_eq!(reddit_url(&Vec::new(), "hot"), "https://www.reddit.com/r/wallpapers/hot.json");
    let args = curl_args("u");
    assert_eq!(args.len(), 7);
    assert_eq!(args[0], "-s");
    assert_eq!(args[5], "Accept: application/json");
    assert_eq!(args[6], "u");

    let body = br#"{"data":{"children":[{"data":{"url_overridden_by_dest":"https://i/1.jpg"}},{"data":{"url_overridden_by_dest":""}},{"data":{}},{"data":{"url_overridden_by_dest":"https://i/2.png"}}]}}"#;
    let urls = reddit_image_urls(body).unwrap();
    assert_eq!(urls, vec!["https://i/1.jpg".to_string(), "https://i/2.png".to_string()]);
    assert_eq!(pick_link(&urls, 0), "https://i/1.jpg");
    assert_eq!(pick_link(&urls, 5), "https://i/2.png");
    assert_eq!(reddit_image_urls(b"{").unwrap_err(), "Failed to parse Reddit response");
    assert_eq!(
        reddit_image_urls(br#"{"data":{}}"#).unwrap_err(),
        "Failed to parse Reddit posts"
    );
    assert_eq!(
        reddit_image_urls(br#"{"data":{"children":[]}}"#).unwrap_err(),
        "No valid images found on Reddit"
    );
}

#[test]
fn local_folder() {
    assert!(is_image_extension(Some("JPG")));
    assert!(is_image_extension(Some("webp")));
    assert!(!is_image_extension(Some("txt")));
    assert!(!is_image_extension(None));
    assert_eq!(local_copy_name(1234), "styli_1234.local");
    assert_eq!(pick_index(10, 3), 1);
    assert_eq!(pick_index(2, 5), 2);
}

#[test]
fn download_names() {
    assert_eq!(image_extension(Some("image/png")), "png");
    assert_eq!(image_extension(Some("image/jpg")), "jpg");
    assert_eq!(image_extension(Some("image/webp")), "webp");
    assert_eq!(image_extension(Some("image/bmp")), "bmp");
    assert_eq!(image_extension(Some("image/gif")), "gif");
    assert_eq!(image_extension(Some("text/html")), "jpg");
    assert_eq!(image_extension(None), "jpg");
    assert_eq!(uuid_simple(255, 16), "ff10");
    assert_eq!(uuid_simple(0, 0), "00");
    assert_eq!(download_file_name(0x65f0a1b2, 0x3b9ac9ff, Some("image/png")), "styli_65f0a1b23b9ac9ff.png");
}

#[test]
fn unsplash_answers() {
    assert_eq!(
        unsplash_url(Some("KEY")),
        Ok("https://api.unsplash.com/photos/random?orientation=landscape&query=wallpaper&client_id=KEY"
            .to_string())
    );
    assert_eq!(
        unsplash_url(None),
        Err("Unsplash needs an access key: set access_key under [unsplash]".to_string())
    );
    let photo = br#"{"id":"x","urls":{"raw":"https://images.unsplash.com/photo-1?ixid=abc","full":"f"}}"#;
    assert_eq!(
        unsplash_image(photo, "2560x1440"),
        Ok("https://images.unsplash.com/photo-1?ixid=abc&w=2560&h=1440&fit=crop".to_string())
    );
    let plain = br#"{"urls":{"raw":"https://images.unsplash.com/photo-2"}}"#;
    assert_eq!(
        unsplash_image(plain, "auto"),
        Ok("https://images.unsplash.com/photo-2?w=1920&h=1080&fit=crop".to_string())
    );
    let refused = br#"{"errors":["OAuth error: The access token is invalid"]}"#;
    assert_eq!(
        unsplash_image(refused, "800x600"),
        Err("Unsplash API error: OAuth error: The access token is invalid".to_string())
    );
    assert_eq!(
        unsplash_image(br#"{"urls":{}}"#, "800x600"),
        Err("No image URL in Unsplash response".to_string())
    );
    assert_eq!(
        unsplash_image(b"<html>", "800x600"),
        Err("Failed to parse Unsplash response".to_string())
    );
}

#[test]
fn deviantart_feed() {
    assert_eq!(
        deviantart_url(),
        "https://backend.deviantart.com/rss.xml?type=deviation&q=boost%3Apopular+wallpaper"
    );
    let feed = r#"<rss><channel>
<item><title>A</title>
<media:thumbnail url="https://t/a_small.jpg" height="150"/>
<media:content url="https://images/a.jpg?token=x&amp;y=1" height="1080" width="1920" medium="image"/>
</item>
<item><media:content url="" medium="image"/></item>
<item><media:content url="https://images/b.png" medium="image"/></item>
</channel></rss>"#;
    assert_eq!(
        deviantart_image_urls(feed),
        Ok(vec!["https://images/a.jpg?token=x&y=1".to_string(), "https://images/b.png".to_string()])
    );
    assert_eq!(
        deviantart_image_urls("<rss></rss>"),
        Err("No images found on DeviantArt".to_string())
    );
    assert_eq!(
        deviantart_image_urls(r#"<media:content url="unclosed"#),
        Err("No images found on DeviantArt".to_string())
    );
}
