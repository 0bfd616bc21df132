//! Decoding and encoding of whole messages, and what a refused payload reports.
use tweet::wire::{decode_text, encode_text};
use tweet::{
    Cause, Hashtag, Json, JsonNumber, Limit, LimitFields, MalformedPayload, Media, MediaType, Step,
    Timestamp, Tweet, TwitterResponse, Wire,
};

fn user(handle: &str) -> String {
    format!(
        r#"{{"id":6253282,"id_str":"6253282","name":"Twitter API","screen_name":"{handle}","location":"San Francisco, CA","url":null,"description":"The Real Twitter API.","protected":false,"verified":true,"followers_count":6172196,"friends_count":12,"listed_count":13091,"favourites_count":31,"statuses_count":3650,"created_at":"Wed May 23 06:01:13 +0000 2007","profile_banner_url":null,"profile_image_url_https":"https://pbs.twimg.com/profile_images/a_normal.png","default_profile":false,"default_profile_image":false,"withheld_in_countries":null,"withheld_scope":null}}"#
    )
}

const SIZES: &str = r#"{"thumb":{"w":150,"h":150,"resize":"crop"},"large":{"w":2048,"h":1024,"resize":"fit"},"medium":{"w":1200,"h":600,"resize":"fit"},"small":{"w":680,"h":340,"resize":"fit"}}"#;

fn media(kind: &str, https: &str, video_info: &str) -> String {
    format!(
        r#"{{"display_url":"pic.twitter.com/a","expanded_url":"https://twitter.com/i/status/1/photo/1","id":861627472244162561,"id_str":"861627472244162561","indices":[68,91],"media_url":"http://pbs.twimg.com/media/a.jpg","media_url_https":"{https}","sizes":{SIZES},"source_status_id":null,"source_status_id_str":null,"type":"{kind}","url":"https://t.co/a","video_info":{video_info},"additional_media_info":null}}"#
    )
}

fn entities(hashtags: &str) -> String {
    format!(
        r#"{{"hashtags":{hashtags},"urls":[{{"display_url":"example.com","expanded_url":"https://example.com/","indices":[10,33],"url":"https://t.co/b","unwound":{{"url":"https://example.com/","status":200,"title":"Example","description":"An example."}}}}],"user_mentions":[{{"id":null,"id_str":null,"indices":[0,9],"name":null,"screen_name":"someone"}}],"symbols":[{{"indices":[34,39],"text":"TWTR"}}],"media":null,"polls":[{{"options":[{{"position":1,"text":"yes"}},{{"position":2,"text":"no"}}],"end_datetime":"Sat Dec 31 23:59:59 +0000 2016","duration_minutes":"1440"}}]}}"#
    )
}

struct Status {
    id: u64,
    text: String,
    truncated: bool,
    extended_tweet: String,
    quoted_status: String,
    retweeted_status: String,
    entities: String,
    extended_entities: String,
}

fn plain(id: u64, text: &str) -> Status {
    Status {
        id,
        text: text.to_string(),
        truncated: false,
        extended_tweet: "null".to_string(),
        quoted_status: "null".to_string(),
        retweeted_status: "null".to_string(),
        entities: "null".to_string(),
        extended_entities: "null".to_string(),
    }
}

fn status(s: &Status) -> String {
    format!(
        r#"{{"created_at":"Wed Oct 10 20:19:24 +0000 2018","id":{id},"id_str":"{id}","text":"{text}","source":"web","truncated":{truncated},"in_reply_to_status_id":null,"in_reply_to_status_id_str":null,"in_reply_to_user_id":null,"in_reply_to_user_id_str":null,"in_reply_to_screen_name":null,"user":{user},"extended_tweet":{extended_tweet},"coordinates":{{"coordinates":[-122.4,37],"type":"Point"}},"place":{{"id":"01a9a39529b27f36","url":"https://api.twitter.com/1.1/geo/id/01a9a39529b27f36.json","place_type":"city","name":"Manhattan","full_name":"Manhattan, NY","country_code":"US","country":"United States","bounding_box":{{"coordinates":[[[-74.026675,40.683935],[-74.026675,40.877483],[-73.910408,40.877483],[-73.910408,40.683935]]]}}}},"quoted_status_id":null,"quoted_status_id_str":null,"is_quote_status":false,"quoted_status":{quoted_status},"retweeted_status":{retweeted_status},"quote_count":0,"reply_count":1,"retweet_count":2,"favorite_count":3,"entities":{entities},"extended_entities":{extended_entities},"favorited":false,"retweeted":false,"possibly_sensitive":null,"filter_level":"low","lang":"en","withheld_copyright":null,"withheld_in_countries":["XX","YY"],"withheld_scope":"status","contributors":null,"display_text_range":[0,140],"geo":null,"quoted_status_permalink":{{"display":"twitter.com/a/status/1","expanded":"https://twitter.com/a/status/1","url":"https://t.co/c"}},"timestamp_ms":"1539202764000"}}"#,
        id = s.id,
        text = s.text,
        truncated = s.truncated,
        user = user("TwitterAPI"),
        extended_tweet = s.extended_tweet,
        quoted_status = s.quoted_status,
        retweeted_status = s.retweeted_status,
        entities = s.entities,
        extended_entities = s.extended_entities,
    )
}

fn full_fixture() -> String {
    let mut inner = plain(7, "reshared");
    inner.entities = entities(r#"[{"indices":[0,5],"text":"rust"}]"#);
    inner.extended_entities = format!(
        r#"{{"media":[{}]}}"#,
        media(
            "video",
            "https://pbs.twimg.com/media/v.jpg",
            r#"{"aspect_ratio":[16,9],"duration_millis":30000,"variants":[{"bitrate":320,"content_type":"video/mp4","url":"https://video.twimg.com/320.mp4"},{"bitrate":null,"content_type":"application/x-mpegURL","url":"https://video.twimg.com/pl.m3u8"}]}"#
        )
    );
    let mut outer = plain(1050118621198921728, "RT @TwitterAPI: reshared");
    outer.truncated = true;
    outer.extended_tweet = format!(
        r#"{{"full_text":"the whole text","display_text_range":[0,14],"entities":{}}}"#,
        entities("[]")
    );
    outer.retweeted_status = status(&inner);
    outer.quoted_status = status(&plain(8, "quoted"));
    outer.entities = entities("[]");
    outer.extended_entities =
        format!(r#"{{"media":[{}]}}"#, media("photo", "https://pbs.twimg.com/media/p.jpg", "null"));
    status(&outer)
}

fn fault(path: Vec<Step>, cause: Cause) -> MalformedPayload {
    MalformedPayload { path, cause }
}

fn key(name: &str) -> Step {
    Step::Key(name.to_string())
}

#[test]
fn full_fixture_decodes_and_re_encodes_to_the_same_json() {
    let text = full_fixture();
    let decoded = Tweet::from_str(&text).unwrap();
    let written = decoded.to_text().unwrap();
    assert_eq!(Json::parse(&written), Json::parse(&text));
    assert!(written.contains(r#""created_at":"Wed Oct 10 20:19:24 +0000 2018""#));
    assert!(written.contains(r#""created_at":"Wed May 23 06:01:13 +0000 2007""#));
    assert!(written.contains(r#""end_datetime":"Sat Dec 31 23:59:59 +0000 2016""#));
}

#[test]
fn full_fixture_holds_what_the_text_says() {
    let decoded = Tweet::from_str(&full_fixture()).unwrap();
    assert_eq!(decoded.id, 1050118621198921728);
    assert_eq!(decoded.id_str, "1050118621198921728");
    assert_eq!(decoded.created_at, Timestamp { seconds: 1539202764, nanos: 0 });
    assert_eq!(decoded.user.created_at, Timestamp { seconds: 1179900073, nanos: 0 });
    assert_eq!(decoded.user.screen_name, "TwitterAPI");
    assert_eq!(decoded.user.followers_count, 6172196);
    assert_eq!(decoded.user.url, None);
    assert_eq!(decoded.reply_count, Some(1));
    assert_eq!(decoded.retweet_count, Some(2));
    assert_eq!(decoded.quote_count, Some(0));
    assert_eq!(decoded.favorite_count, Some(3));
    assert_eq!(decoded.possibly_sensitive, None);
    assert_eq!(decoded.withheld_in_countries, Some(vec!["XX".to_string(), "YY".to_string()]));
    assert_eq!(decoded.display_text_range, Some((0, 140)));
    let point = decoded.coordinates.as_ref().unwrap();
    assert_eq!(point.kind, "Point");
    assert_eq!(point.coordinates.0, JsonNumber::Real("-122.4".to_string()));
    assert_eq!(point.coordinates.1, JsonNumber::Int(37));
    let place = decoded.place.as_ref().unwrap();
    assert_eq!(place.bounding_box.coordinates.len(), 1);
    assert_eq!(place.bounding_box.coordinates[0].len(), 4);
    assert_eq!(
        place.bounding_box.coordinates[0][2],
        (JsonNumber::Real("-73.910408".to_string()), JsonNumber::Real("40.877483".to_string()))
    );
    let reshared = decoded.retweeted_status.as_ref().unwrap();
    assert_eq!(reshared.id, 7);
    assert_eq!(reshared.text, "reshared");
    assert!(reshared.retweeted_status.is_none());
    let polls = reshared.entities.as_ref().unwrap().polls.as_ref().unwrap();
    assert_eq!(polls[0].end_datetime, Timestamp { seconds: 1483228799, nanos: 0 });
    assert_eq!(polls[0].options[1].position, 2);
    let video = &reshared.extended_entities.as_ref().unwrap().media[0];
    assert_eq!(video.kind, MediaType::Video);
    assert_eq!(video.video_info.as_ref().unwrap().aspect_ratio, (16, 9));
    assert_eq!(video.video_info.as_ref().unwrap().variants[1].bitrate, None);
    assert_eq!(decoded.quoted_status.as_ref().unwrap().id, 8);
}

#[test]
fn encoded_value_decodes_to_itself() {
    let mut value = Tweet::from_str(&full_fixture()).unwrap();
    value.text = "changed in memory".to_string();
    value.possibly_sensitive = Some(true);
    value.in_reply_to_status_id = Some(u64::MAX);
    value.quoted_status = None;
    value.retweeted_status.as_mut().unwrap().retweet_count = Some(u32::MAX);
    value.reply_count = None;
    let written = value.to_text().unwrap();
    assert_eq!(Tweet::from_str(&written), Ok(value));
}

#[test]
fn encoded_tree_decodes_to_itself() {
    let value = Tweet::from_str(&full_fixture()).unwrap();
    let tree = value.encode().unwrap();
    assert_eq!(Tweet::decode(&tree), Ok(value));
}

#[test]
fn encoded_message_decodes_to_itself_in_both_shapes() {
    let status = TwitterResponse::Tweet(Tweet::from_str(&full_fixture()).unwrap());
    assert_eq!(TwitterResponse::from_str(&status.to_text().unwrap()), Ok(status));
    let notice = TwitterResponse::Limit(Limit {
        limit: LimitFields { track: 17, timestamp_ms: "1539202764000".to_string() },
    });
    assert_eq!(notice.to_text().unwrap(), r#"{"limit":{"timestamp_ms":"1539202764000","track":17}}"#);
    assert_eq!(TwitterResponse::from_str(&notice.to_text().unwrap()), Ok(notice));
}

#[test]
fn value_with_an_instant_that_has_no_date_is_not_encoded() {
    let mut value = Tweet::from_str(&full_fixture()).unwrap();
    value.user.created_at = Timestamp { seconds: i64::MAX, nanos: 0 };
    assert_eq!(value.encode(), None);
    assert_eq!(value.to_text(), None);
}

#[test]
fn status_shape_decodes_as_status() {
    let text = status(&plain(42, "hello"));
    match TwitterResponse::from_str(&text) {
        Ok(TwitterResponse::Tweet(decoded)) => {
            assert_eq!(decoded.id, 42);
            assert_eq!(decoded.text, "hello");
        }
        other => panic!("not a status: {:?}", other),
    }
}

#[test]
fn limit_shape_decodes_as_limit() {
    let text = r#"{"limit":{"track":1234,"timestamp_ms":"1539202764000"}}"#;
    let expected =
        Limit { limit: LimitFields { track: 1234, timestamp_ms: "1539202764000".to_string() } };
    assert_eq!(TwitterResponse::from_str(text), Ok(TwitterResponse::Limit(expected)));
    let again =
        Limit { limit: LimitFields { track: 1234, timestamp_ms: "1539202764000".to_string() } };
    assert_eq!(Limit::from_str(text), Ok(again));
}

#[test]
fn neither_shape_is_refused() {
    assert_eq!(
        TwitterResponse::from_str(r#"{"delete":{"status":{"id":1}}}"#),
        Err(fault(vec![], Cause::NoVariantMatched))
    );
    assert_eq!(
        TwitterResponse::from_str(r#"{"limit":{"track":"many","timestamp_ms":"1"}}"#),
        Err(fault(vec![], Cause::NoVariantMatched))
    );
    assert_eq!(TwitterResponse::from_str("[]"), Err(fault(vec![], Cause::NoVariantMatched)));
}

#[test]
fn status_with_a_limit_member_is_a_status() {
    let text = status(&plain(42, "hello"));
    let both = format!(r#"{{"limit":{{"track":1,"timestamp_ms":"2"}},{}"#, &text[1..]);
    assert!(matches!(TwitterResponse::from_str(&both), Ok(TwitterResponse::Tweet(_))));
    assert!(Limit::from_str(&both).is_ok());
}

#[test]
fn text_that_is_not_json_is_a_syntax_fault() {
    assert_eq!(Tweet::from_str("{\"id\": "), Err(fault(vec![], Cause::Syntax)));
    assert_eq!(Limit::from_str(""), Err(fault(vec![], Cause::Syntax)));
    assert_eq!(TwitterResponse::from_str("not json"), Err(fault(vec![], Cause::Syntax)));
}

#[test]
fn value_of_another_type_at_the_root_is_a_mismatch() {
    assert_eq!(Tweet::from_str("[1, 2]"), Err(fault(vec![], Cause::TypeMismatch)));
    assert_eq!(Limit::from_str("null"), Err(fault(vec![], Cause::TypeMismatch)));
}

#[test]
fn missing_required_field_is_named() {
    let text = status(&plain(42, "hello")).replace(r#""id":42,"#, "");
    assert_eq!(Tweet::from_str(&text), Err(fault(vec![key("id")], Cause::MissingField)));
    assert_eq!(
        Limit::from_str(r#"{"limit":{"track":1}}"#),
        Err(fault(vec![key("limit"), key("timestamp_ms")], Cause::MissingField))
    );
}

#[test]
fn first_fault_in_field_order_is_reported() {
    let text = status(&plain(42, "hello"))
        .replace(r#""id":42,"#, "")
        .replace(r#""source":"web""#, r#""source":7"#);
    assert_eq!(Tweet::from_str(&text), Err(fault(vec![key("id")], Cause::MissingField)));
}

#[test]
fn wrong_type_deep_inside_is_found_by_its_path() {
    let text =
        status(&plain(42, "hello")).replace(r#""screen_name":"TwitterAPI""#, r#""screen_name":5"#);
    assert_eq!(
        Tweet::from_str(&text),
        Err(fault(vec![key("user"), key("screen_name")], Cause::TypeMismatch))
    );
}

#[test]
fn fault_in_an_array_carries_the_position() {
    let mut s = plain(42, "hello");
    s.entities = entities(r#"[{"indices":[0,5],"text":"rust"},{"indices":[6,9]}]"#);
    assert_eq!(
        Tweet::from_str(&status(&s)),
        Err(fault(
            vec![key("entities"), key("hashtags"), Step::Index(1), key("text")],
            Cause::MissingField
        ))
    );
}

#[test]
fn fault_in_a_nested_status_carries_its_member() {
    let mut s = plain(42, "hello");
    s.retweeted_status = status(&plain(7, "inner")).replace(r#""truncated":false"#, r#""truncated":0"#);
    assert_eq!(
        Tweet::from_str(&status(&s)),
        Err(fault(vec![key("retweeted_status"), key("truncated")], Cause::TypeMismatch))
    );
}

#[test]
fn required_field_that_is_null_is_a_mismatch() {
    let text = status(&plain(42, "hello")).replace(r#""source":"web""#, r#""source":null"#);
    assert_eq!(Tweet::from_str(&text), Err(fault(vec![key("source")], Cause::TypeMismatch)));
}

#[test]
fn number_out_of_range_is_a_mismatch() {
    let base = status(&plain(42, "hello"));
    for wrong in ["4294967296", "-1", "1.5", "\"1\""] {
        let text = base.replace(r#""reply_count":1"#, &format!(r#""reply_count":{wrong}"#));
        assert_eq!(Tweet::from_str(&text), Err(fault(vec![key("reply_count")], Cause::TypeMismatch)));
    }
    let most = base.replace(r#""reply_count":1"#, r#""reply_count":4294967295"#);
    assert_eq!(Tweet::from_str(&most).unwrap().reply_count, Some(u32::MAX));
    let big = base.replace(r#""id":42,"#, r#""id":18446744073709551615,"#);
    assert_eq!(Tweet::from_str(&big).unwrap().id, u64::MAX);
    let too_big = base.replace(r#""id":42,"#, r#""id":18446744073709551616,"#);
    assert_eq!(Tweet::from_str(&too_big), Err(fault(vec![key("id")], Cause::TypeMismatch)));
}

#[test]
fn pair_must_have_two_items() {
    let base = status(&plain(42, "hello"));
    for wrong in ["[0]", "[0,1,2]", "{}", "7"] {
        let text =
            base.replace(r#""display_text_range":[0,140]"#, &format!(r#""display_text_range":{wrong}"#));
        assert_eq!(
            Tweet::from_str(&text),
            Err(fault(vec![key("display_text_range")], Cause::TypeMismatch))
        );
    }
    let text = base.replace(r#""display_text_range":[0,140]"#, r#""display_text_range":[0,"x"]"#);
    assert_eq!(
        Tweet::from_str(&text),
        Err(fault(vec![key("display_text_range"), Step::Index(1)], Cause::TypeMismatch))
    );
}

#[test]
fn timestamp_in_another_layout_is_a_format_fault() {
    let base = status(&plain(42, "hello"));
    let text = base.replace("Wed Oct 10 20:19:24 +0000 2018", "2018-10-10T20:19:24Z");
    assert_eq!(Tweet::from_str(&text), Err(fault(vec![key("created_at")], Cause::FormatMismatch)));
    let text = base.replace("Wed May 23 06:01:13 +0000 2007", "Thu May 23 06:01:13 +0000 2007");
    assert_eq!(
        Tweet::from_str(&text),
        Err(fault(vec![key("user"), key("created_at")], Cause::FormatMismatch))
    );
    let text = base.replace(r#""created_at":"Wed Oct 10 20:19:24 +0000 2018""#, r#""created_at":1539202764"#);
    assert_eq!(Tweet::from_str(&text), Err(fault(vec![key("created_at")], Cause::TypeMismatch)));
}

#[test]
fn members_that_the_model_does_not_know_are_passed_over() {
    let text = status(&plain(42, "hello"));
    let more = format!(r#"{{"matching_rules":[{{"tag":null}}],"scopes":{{}},{}"#, &text[1..]);
    assert_eq!(Tweet::from_str(&more), Tweet::from_str(&text));
    let notice = r#"{"limit":{"track":1,"timestamp_ms":"2","later":true},"more":[]}"#;
    assert_eq!(Limit::from_str(notice).unwrap().limit.track, 1);
}

#[test]
fn optional_field_is_nothing_when_missing_or_null() {
    let base = status(&plain(42, "hello"));
    let without = base.replace(r#""lang":"en","#, "");
    let with_null = base.replace(r#""lang":"en","#, r#""lang":null,"#);
    assert_eq!(Tweet::from_str(&base).unwrap().lang, Some("en".to_string()));
    assert_eq!(Tweet::from_str(&without).unwrap().lang, None);
    assert_eq!(Tweet::from_str(&with_null).unwrap().lang, None);
    let no_nested = base.replace(r#""retweeted_status":null,"#, "");
    assert!(Tweet::from_str(&no_nested).unwrap().retweeted_status.is_none());
}

#[test]
fn nothing_is_written_as_null() {
    let value = Hashtag { indices: vec![1, 2], text: "tag".to_string() };
    assert_eq!(encode_text(&value).unwrap(), r#"{"indices":[1,2],"text":"tag"}"#);
    let decoded = Tweet::from_str(&status(&plain(42, "hello"))).unwrap();
    let written = decoded.to_text().unwrap();
    assert!(written.contains(r#""possibly_sensitive":null"#));
    assert!(written.contains(r#""retweeted_status":null"#));
    assert!(written.contains(r#""coordinates":{"coordinates":[-122.4,37],"type":"Point"}"#));
}

#[test]
fn reshares_nest_as_deep_as_they_come() {
    let mut text = status(&plain(0, "innermost"));
    for depth in 1..40u64 {
        let mut s = plain(depth, "outer");
        s.retweeted_status = text;
        text = status(&s);
    }
    let mut decoded = Tweet::from_str(&text).unwrap();
    let mut depth = 39;
    while let Some(inner) = decoded.retweeted_status {
        assert_eq!(decoded.id, depth);
        depth -= 1;
        decoded = *inner;
    }
    assert_eq!(decoded.id, 0);
    assert_eq!(decoded.text, "innermost");
}

#[test]
fn unknown_media_kind_is_kept_and_written_back() {
    let text = media("panorama", "https://pbs.twimg.com/media/p.jpg", "null");
    let decoded: Media = decode_text(&text).unwrap();
    assert_eq!(decoded.kind, MediaType::Unknown("panorama".to_string()));
    let written = encode_text(&decoded).unwrap();
    assert!(written.contains(r#""type":"panorama""#));
    assert_eq!(Json::parse(&written), Json::parse(&text));
    assert_eq!(decode_text::<Media>(&written), Ok(decoded));
}

#[test]
fn unknown_kind_with_a_known_name_comes_back_as_the_known_kind() {
    let text = media("photo", "https://pbs.twimg.com/media/p.jpg", "null");
    let mut value: Media = decode_text(&text).unwrap();
    value.kind = MediaType::Unknown("photo".to_string());
    let written = encode_text(&value).unwrap();
    assert_eq!(decode_text::<Media>(&written).unwrap().kind, MediaType::Photo);
}

#[test]
fn members_are_read_by_name_in_any_order() {
    let text = status(&plain(42, "hello"));
    let tree = Json::parse(&text).unwrap();
    let expected = Tweet::decode(&tree).unwrap();
    let mut members = match tree {
        Json::Object(members) => members,
        other => panic!("not an object: {:?}", other),
    };
    members.reverse();
    members.insert(3, ("not_in_the_model".to_string(), Json::Bool(true)));
    assert_eq!(Tweet::decode(&Json::Object(members)), Ok(expected));
}

#[test]
fn message_tree_of_neither_shape_is_refused_at_the_root() {
    let tree = Json::Object(vec![("limit".to_string(), Json::Number(JsonNumber::Int(1)))]);
    assert_eq!(TwitterResponse::decode(&tree), Err(fault(vec![], Cause::NoVariantMatched)));
    assert_eq!(
        Limit::decode(&tree),
        Err(fault(vec![key("limit")], Cause::TypeMismatch))
    );
    assert_eq!(Tweet::decode(&tree), Err(fault(vec![key("created_at")], Cause::MissingField)));
}

#[test]
fn limit_is_written_with_its_own_members_only() {
    let notice = Limit { limit: LimitFields { track: 0, timestamp_ms: String::new() } };
    assert_eq!(
        notice.encode(),
        Some(Json::Object(vec![(
            "limit".to_string(),
            Json::Object(vec![
                ("track".to_string(), Json::Number(JsonNumber::Int(0))),
                ("timestamp_ms".to_string(), Json::String(String::new())),
            ])
        )]))
    );
    assert!(Tweet::decode(&notice.encode().unwrap()).is_err());
}

#[test]
fn each_count_may_be_absent_by_itself() {
    let base = status(&plain(42, "hello"));
    let full = Tweet::from_str(&base).unwrap();
    assert_eq!(
        (full.quote_count, full.reply_count, full.retweet_count, full.favorite_count),
        (Some(0), Some(1), Some(2), Some(3))
    );
    let no_reply = Tweet::from_str(&base.replace(r#""reply_count":1,"#, "")).unwrap();
    assert_eq!(
        (no_reply.quote_count, no_reply.reply_count, no_reply.retweet_count, no_reply.favorite_count),
        (Some(0), None, Some(2), Some(3))
    );
    let no_retweet = Tweet::from_str(&base.replace(r#""retweet_count":2,"#, "")).unwrap();
    assert_eq!(
        (no_retweet.reply_count, no_retweet.retweet_count),
        (Some(1), None)
    );
    let no_quote = Tweet::from_str(&base.replace(r#""quote_count":0,"#, "")).unwrap();
    assert_eq!((no_quote.quote_count, no_quote.reply_count), (None, Some(1)));
    let no_favorite = Tweet::from_str(&base.replace(r#""favorite_count":3,"#, "")).unwrap();
    assert_eq!((no_favorite.favorite_count, no_favorite.retweet_count), (None, Some(2)));
    let none = base
        .replace(r#""quote_count":0,"#, "")
        .replace(r#""reply_count":1,"#, "")
        .replace(r#""retweet_count":2,"#, r#""retweet_count":null,"#)
        .replace(r#""favorite_count":3,"#, "");
    let bare = Tweet::from_str(&none).unwrap();
    assert_eq!(
        (bare.quote_count, bare.reply_count, bare.retweet_count, bare.favorite_count),
        (None, None, None, None)
    );
    assert_eq!(bare.id, 42);
}

#[test]
fn absent_count_is_not_a_zero() {
    let base = status(&plain(42, "hello"));
    let zero = Tweet::from_str(&base.replace(r#""reply_count":1,"#, r#""reply_count":0,"#)).unwrap();
    let absent = Tweet::from_str(&base.replace(r#""reply_count":1,"#, "")).unwrap();
    assert_eq!(zero.reply_count, Some(0));
    assert_eq!(absent.reply_count, None);
    assert_ne!(zero, absent);
    let written = absent.to_text().unwrap();
    assert!(written.contains(r#""reply_count":null"#));
    assert!(written.contains(r#""retweet_count":2"#));
    assert_eq!(Tweet::from_str(&written), Ok(absent));
}

#[test]
fn value_with_a_number_that_cannot_be_written_is_not_encoded() {
    let mut value = Tweet::from_str(&status(&plain(42, "hello"))).unwrap();
    assert!(value.to_text().is_some());
    value.coordinates.as_mut().unwrap().coordinates.0 = JsonNumber::Real("north".to_string());
    assert_eq!(value.encode(), None);
    assert_eq!(value.to_text(), None);
    value.coordinates.as_mut().unwrap().coordinates.0 = JsonNumber::Int(u64::MAX as i128 + 1);
    assert_eq!(value.to_text(), None);
    value.coordinates.as_mut().unwrap().coordinates.0 = JsonNumber::Int(i64::MIN as i128);
    assert!(value.to_text().unwrap().contains("[-9223372036854775808,37]"));
}
