//! What can be asked of a decoded status.
use tweet::wire::decode_text;
use tweet::{Media, Tweet};

const USER: &str = r#"{"id":6253282,"id_str":"6253282","name":"Twitter API","screen_name":"TwitterAPI","protected":false,"verified":true,"followers_count":1,"friends_count":2,"listed_count":3,"favourites_count":4,"statuses_count":5,"created_at":"Wed May 23 06:01:13 +0000 2007","profile_image_url_https":"https://pbs.twimg.com/a.png","default_profile":false,"default_profile_image":false}"#;

fn status(id: u64, text: &str, truncated: bool, more: &str) -> String {
    format!(
        r#"{{"created_at":"Wed Oct 10 20:19:24 +0000 2018","id":{id},"id_str":"{id}","text":"{text}","source":"web","truncated":{truncated},"user":{USER},"is_quote_status":false,"retweeted":false,"filter_level":"low"{more}}}"#
    )
}

fn decoded(text: &str) -> Tweet {
    Tweet::from_str(text).unwrap()
}

fn extended(full_text: &str) -> String {
    format!(
        r#","extended_tweet":{{"full_text":"{full_text}","display_text_range":[0,11],"entities":{{"hashtags":[],"urls":[],"user_mentions":[],"symbols":[]}}}}"#
    )
}

fn media(kind: &str, https: &str, video_info: &str) -> String {
    format!(
        r#"{{"display_url":"pic.twitter.com/a","expanded_url":"https://twitter.com/i/1","id":1,"id_str":"1","indices":[0,1],"media_url":"http://pbs.twimg.com/a.jpg","media_url_https":"{https}","sizes":{{"thumb":{{"w":1,"h":1,"resize":"crop"}},"large":{{"w":4,"h":4,"resize":"fit"}},"medium":{{"w":3,"h":3,"resize":"fit"}},"small":{{"w":2,"h":2,"resize":"fit"}}}},"type":"{kind}","url":"https://t.co/a"{video_info}}}"#
    )
}

fn photo(https: &str) -> String {
    media("photo", https, "")
}

fn variant(bitrate: &str, url: &str) -> String {
    format!(r#"{{"bitrate":{bitrate},"content_type":"video/mp4","url":"{url}"}}"#)
}

fn video(kind: &str, variants: &[String]) -> String {
    media(
        kind,
        "https://pbs.twimg.com/still.jpg",
        &format!(r#","video_info":{{"aspect_ratio":[16,9],"variants":[{}]}}"#, variants.join(",")),
    )
}

fn with_media(items: &[String]) -> String {
    format!(r#","extended_entities":{{"media":[{}]}}"#, items.join(","))
}

fn url_of(item: &str) -> Option<String> {
    decode_text::<Media>(item).unwrap().url()
}

#[test]
fn full_text_of_a_short_status_is_its_body() {
    let plain = decoded(&status(1, "hello", false, ""));
    assert_eq!(plain.full_text(), "hello");
    assert!(!plain.is_extended());
}

#[test]
fn full_text_of_an_extended_status_is_the_extended_text() {
    let more = extended("hello world, and all the rest");
    let long = decoded(&status(1, "hello world, and…", true, &more));
    assert!(long.is_extended());
    assert_eq!(long.full_text(), "hello world, and all the rest");
}

#[test]
fn full_text_of_a_truncated_reshare_is_that_of_the_reshared() {
    let inner = status(2, "hello wo…", true, &extended("hello world"));
    let outer = decoded(&status(1, "RT @TwitterAPI: hello wo…", true, &format!(r#","retweeted_status":{inner}"#)));
    assert_eq!(outer.full_text(), "hello world");
    let inner = status(2, "hello world", false, "");
    let outer = decoded(&status(1, "RT @TwitterAPI: hello wo…", true, &format!(r#","retweeted_status":{inner}"#)));
    assert_eq!(outer.full_text(), "hello world");
}

#[test]
fn full_text_of_a_reshare_of_a_reshare_is_found_at_the_bottom() {
    let bottom = status(3, "hello world", false, "");
    let middle = status(2, "RT: hello…", true, &format!(r#","retweeted_status":{bottom}"#));
    let top = decoded(&status(1, "RT: RT: he…", true, &format!(r#","retweeted_status":{middle}"#)));
    assert_eq!(top.full_text(), "hello world");
}

#[test]
fn full_text_of_a_truncated_status_with_nothing_else_is_its_body() {
    let cut = decoded(&status(1, "hello wo…", true, ""));
    assert_eq!(cut.full_text(), "hello wo…");
}

#[test]
fn extended_text_goes_before_the_reshared_status() {
    let inner = status(2, "inner", false, "");
    let more = format!(r#"{},"retweeted_status":{inner}"#, extended("outer in full"));
    assert_eq!(decoded(&status(1, "outer", true, &more)).full_text(), "outer in full");
}

#[test]
fn quoted_status_does_not_lend_its_text() {
    let inner = status(2, "quoted", false, "");
    let outer = decoded(&status(1, "comment", false, &format!(r#","quoted_status":{inner}"#)));
    assert_eq!(outer.full_text(), "comment");
    assert!(outer.is_quote());
    assert!(!outer.is_retweet());
    assert_eq!(outer.base_id(), 1);
}

#[test]
fn flags_say_what_is_there() {
    let plain = decoded(&status(1, "hello", false, ""));
    assert!(!plain.is_sensitive());
    assert!(!plain.is_retweet());
    assert!(!plain.is_quote());
    assert!(!plain.is_extended());
    assert!(!plain.has_media());
    assert!(decoded(&status(1, "x", false, r#","possibly_sensitive":true"#)).is_sensitive());
    assert!(!decoded(&status(1, "x", false, r#","possibly_sensitive":false"#)).is_sensitive());
    assert!(!decoded(&status(1, "x", false, r#","possibly_sensitive":null"#)).is_sensitive());
    assert!(decoded(&status(1, "x", false, &with_media(&[]))).has_media());
}

#[test]
fn base_id_is_that_of_the_reshared_status() {
    let inner = status(77, "inner", false, "");
    let outer = decoded(&status(1, "RT", false, &format!(r#","retweeted_status":{inner}"#)));
    assert!(outer.is_retweet());
    assert_eq!(outer.base_id(), 77);
    assert_eq!(decoded(&status(5, "x", false, "")).base_id(), 5);
}

#[test]
fn base_id_looks_one_level_down() {
    let bottom = status(3, "bottom", false, "");
    let middle = status(2, "RT", false, &format!(r#","retweeted_status":{bottom}"#));
    let top = decoded(&status(1, "RT", false, &format!(r#","retweeted_status":{middle}"#)));
    assert_eq!(top.base_id(), 2);
}

#[test]
fn permalink_is_made_of_handle_and_identifier() {
    let one = decoded(&status(1050118621198921728, "x", false, ""));
    assert_eq!(one.url(), "https://twitter.com/TwitterAPI/status/1050118621198921728");
    assert_eq!(decoded(&status(0, "x", false, "")).url(), "https://twitter.com/TwitterAPI/status/0");
    let most = decoded(&status(u64::MAX, "x", false, ""));
    assert_eq!(most.url(), "https://twitter.com/TwitterAPI/status/18446744073709551615");
}

#[test]
fn hashtags_come_in_order_and_as_often_as_they_stand() {
    let more = r#","entities":{"hashtags":[{"indices":[0,5],"text":"rust"},{"indices":[6,12],"text":"verus"},{"indices":[13,18],"text":"rust"}],"urls":[],"user_mentions":[],"symbols":[]}"#;
    assert_eq!(decoded(&status(1, "x", false, more)).hashtags(), vec!["rust", "verus", "rust"]);
    let none = r#","entities":{"hashtags":[],"urls":[],"user_mentions":[],"symbols":[]}"#;
    assert!(decoded(&status(1, "x", false, none)).hashtags().is_empty());
    assert!(decoded(&status(1, "x", false, "")).hashtags().is_empty());
}

#[test]
fn video_gives_the_rendition_of_the_greatest_bitrate() {
    let item = video(
        "video",
        &[variant("320", "https://v/320.mp4"), variant("1280", "https://v/1280.mp4"), variant("640", "https://v/640.mp4")],
    );
    assert_eq!(url_of(&item), Some("https://v/1280.mp4".to_string()));
    let one = decoded(&status(1, "x", false, &with_media(&[item])));
    assert_eq!(one.media_urls(), vec!["https://v/1280.mp4"]);
}

#[test]
fn absent_bitrate_ranks_below_every_present_one() {
    let item = video("video", &[variant("0", "https://v/0.mp4"), variant("null", "https://v/pl.m3u8")]);
    assert_eq!(url_of(&item), Some("https://v/0.mp4".to_string()));
    let item = video("gif", &[variant("null", "https://v/a.m3u8"), variant("null", "https://v/b.m3u8")]);
    assert_eq!(url_of(&item), Some("https://v/b.m3u8".to_string()));
    let item = video("video", &[variant("null", "https://v/only.m3u8")]);
    assert_eq!(url_of(&item), Some("https://v/only.m3u8".to_string()));
}

#[test]
fn of_equal_bitrates_the_last_is_taken() {
    let item = video(
        "video",
        &[variant("832", "https://v/a.mp4"), variant("256", "https://v/b.mp4"), variant("832", "https://v/c.mp4")],
    );
    assert_eq!(url_of(&item), Some("https://v/c.mp4".to_string()));
}

#[test]
fn photo_gives_its_https_address() {
    assert_eq!(url_of(&photo("https://pbs.twimg.com/p.jpg")), Some("https://pbs.twimg.com/p.jpg".to_string()));
    let with_renditions = media(
        "photo",
        "https://pbs.twimg.com/p.jpg",
        &format!(r#","video_info":{{"aspect_ratio":[1,1],"variants":[{}]}}"#, variant("9", "https://v/9.mp4")),
    );
    assert_eq!(url_of(&with_renditions), Some("https://pbs.twimg.com/p.jpg".to_string()));
}

#[test]
fn media_without_renditions_gives_nothing() {
    assert_eq!(url_of(&media("video", "https://pbs.twimg.com/still.jpg", "")), None);
    assert_eq!(url_of(&video("gif", &[])), None);
    assert_eq!(url_of(&media("panorama", "https://pbs.twimg.com/p.jpg", "")), None);
    let one = decoded(&status(1, "x", false, &with_media(&[video("video", &[])])));
    assert!(one.has_media());
    assert!(one.media_urls().is_empty());
}

#[test]
fn media_of_the_same_address_are_listed_once() {
    let items = [
        photo("https://pbs.twimg.com/a.jpg"),
        photo("https://pbs.twimg.com/b.jpg"),
        photo("https://pbs.twimg.com/a.jpg"),
        video("video", &[variant("1", "https://pbs.twimg.com/b.jpg")]),
    ];
    let one = decoded(&status(1, "x", false, &with_media(&items)));
    assert_eq!(one.media_urls(), vec!["https://pbs.twimg.com/a.jpg", "https://pbs.twimg.com/b.jpg"]);
}

#[test]
fn media_of_a_reshare_are_those_of_both_statuses() {
    let inner = status(
        2,
        "inner",
        false,
        &with_media(&[photo("https://pbs.twimg.com/a.jpg"), photo("https://pbs.twimg.com/b.jpg")]),
    );
    let more = format!(
        r#"{},"retweeted_status":{inner}"#,
        with_media(&[photo("https://pbs.twimg.com/b.jpg"), photo("https://pbs.twimg.com/c.jpg")])
    );
    let outer = decoded(&status(1, "RT", false, &more));
    let mut urls = outer.media_urls();
    assert_eq!(
        urls,
        vec!["https://pbs.twimg.com/a.jpg", "https://pbs.twimg.com/b.jpg", "https://pbs.twimg.com/c.jpg"]
    );
    urls.sort();
    urls.dedup();
    assert_eq!(urls.len(), 3);
    let only_inner = decoded(&status(1, "RT", false, &format!(r#","retweeted_status":{inner}"#)));
    assert_eq!(only_inner.media_urls(), vec!["https://pbs.twimg.com/a.jpg", "https://pbs.twimg.com/b.jpg"]);
    assert!(!only_inner.has_media());
}

#[test]
fn media_in_the_entities_alone_are_not_listed() {
    let more = format!(
        r#","entities":{{"hashtags":[],"urls":[],"user_mentions":[],"symbols":[],"media":[{}]}}"#,
        photo("https://pbs.twimg.com/a.jpg")
    );
    let one = decoded(&status(1, "x", false, &more));
    assert!(!one.has_media());
    assert!(one.media_urls().is_empty());
}
