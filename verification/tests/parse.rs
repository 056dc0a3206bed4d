use anilist_push::classify::classify;
use anilist_push::parse::{parse_notification, parse_page, ParseError};

fn value_of(text: &str) -> serde_json::Value {
    serde_json::from_str(text).expect("test document must be valid JSON")
}

#[test]
fn full_document_round_trip() {
    let doc = value_of(
        r#"{
            "data": { "page": { "notifications": [
                { "id": 12, "type": "FOLLOWING",
                  "context": " followed you.",
                  "user": { "name": "Bea" } },
                { "id": 5, "type": "AIRING", "episode": 3,
                  "contexts": ["Episode ", " of ", "!"],
                  "media": { "title": { "userPreferred": "Show X" },
                             "siteUrl": "http://x" } }
            ] } }
        }"#,
    );
    let page = parse_page(&doc).unwrap();
    assert_eq!(page.len(), 2);
    let (messages, watermark) = classify(&page, 0);
    assert_eq!(messages.len(), 2);
    assert_eq!(messages[0].title, "Show X");
    assert_eq!(messages[0].message, "Episode 3 of Show X!");
    assert_eq!(messages[0].link.as_deref(), Some("http://x"));
    assert_eq!(messages[1].title, "New Follower");
    assert_eq!(messages[1].message, "Bea followed you.");
    assert_eq!(messages[1].link, None);
    assert_eq!(watermark, 12);
}

#[test]
fn notification_without_id_is_malformed() {
    let doc = value_of(r#"{ "type": "FOLLOWING" }"#);
    assert_eq!(parse_notification(&doc).unwrap_err(), ParseError::MissingId);
}

#[test]
fn non_numeric_id_is_malformed() {
    let doc = value_of(r#"{ "id": "twelve", "type": "FOLLOWING" }"#);
    assert_eq!(parse_notification(&doc).unwrap_err(), ParseError::MissingId);
}

#[test]
fn page_with_one_bad_entry_is_malformed() {
    let doc = value_of(
        r#"{ "data": { "page": { "notifications": [
            { "id": 1, "type": "FOLLOWING" },
            { "type": "FOLLOWING" }
        ] } } }"#,
    );
    assert_eq!(parse_page(&doc).unwrap_err(), ParseError::MissingId);
}

#[test]
fn document_without_notification_list_is_malformed() {
    for text in [
        r#"{}"#,
        r#"{ "data": {} }"#,
        r#"{ "data": { "page": {} } }"#,
        r#"{ "data": { "page": { "notifications": 7 } } }"#,
    ] {
        let doc = value_of(text);
        assert_eq!(parse_page(&doc).unwrap_err(), ParseError::MissingNotificationList);
    }
}

#[test]
fn absent_fields_parse_as_absent() {
    let doc = value_of(r#"{ "id": 4, "type": "MEDIA_DELETION", "deletedMediaTitle": "Old Show" }"#);
    let n = parse_notification(&doc).unwrap();
    assert_eq!(n.id, 4);
    assert_eq!(n.tag, "MEDIA_DELETION");
    assert_eq!(n.deleted_media_title.as_deref(), Some("Old Show"));
    assert_eq!(n.context, None);
    assert_eq!(n.user_name, None);
    assert_eq!(n.media_site_url, None);
    let (messages, watermark) = classify(&vec![n], 0);
    assert_eq!(messages.len(), 1);
    assert_eq!(messages[0].title, "New Media Deletion");
    assert_eq!(messages[0].message, "Old Show?");
    assert_eq!(messages[0].link, None);
    assert_eq!(watermark, 4);
}

#[test]
fn missing_type_tag_is_unrecognized() {
    let doc = value_of(r#"{ "data": { "page": { "notifications": [ { "id": 9 } ] } } }"#);
    let page = parse_page(&doc).unwrap();
    assert_eq!(page[0].tag, "");
    let (messages, watermark) = classify(&page, 2);
    assert!(messages.is_empty());
    assert_eq!(watermark, 9);
}

#[test]
fn nested_fields_reach_their_variant() {
    let doc = value_of(
        r#"{ "id": 3, "type": "ACTIVITY_MENTION",
            "context": " mentioned you.",
            "user": { "name": "Cora" },
            "activity": { "siteUrl": "http://a" } }"#,
    );
    let n = parse_notification(&doc).unwrap();
    assert_eq!(n.user_name.as_deref(), Some("Cora"));
    assert_eq!(n.activity_site_url.as_deref(), Some("http://a"));
    let (messages, _) = classify(&vec![n], 0);
    assert_eq!(messages[0].title, "New Mention");
    assert_eq!(messages[0].message, "Cora mentioned you.");
    assert_eq!(messages[0].link.as_deref(), Some("http://a"));
}

#[test]
fn wide_id_is_truncated_to_the_watermark_width() {
    let doc = value_of(r#"{ "id": 4294967297, "type": "FOLLOWING" }"#);
    let n = parse_notification(&doc).unwrap();
    assert_eq!(n.id, 1);
}
