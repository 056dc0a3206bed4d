use anilist_push::classify::classify;
use anilist_push::notification::RawNotification;

fn bare(id: u32, tag: &str) -> RawNotification {
    RawNotification {
        id,
        tag: tag.to_string(),
        episode: None,
        context0: None,
        context1: None,
        context2: None,
        context: None,
        user_name: None,
        media_title: None,
        media_site_url: None,
        message_site_url: None,
        activity_site_url: None,
        comment_site_url: None,
        deleted_media_title: None,
    }
}

fn follower(id: u32, name: &str, context: &str) -> RawNotification {
    let mut n = bare(id, "FOLLOWING");
    n.user_name = Some(name.to_string());
    n.context = Some(context.to_string());
    n
}

#[test]
fn empty_page_changes_nothing() {
    let (messages, watermark) = classify(&Vec::new(), 42);
    assert!(messages.is_empty());
    assert_eq!(watermark, 42);
}

#[test]
fn all_seen_page_yields_nothing() {
    let page = vec![follower(3, "A", " follows you"), follower(2, "B", " follows you")];
    let (messages, watermark) = classify(&page, 5);
    assert!(messages.is_empty());
    assert_eq!(watermark, 5);
}

#[test]
fn fresh_page_emits_oldest_first() {
    let page = vec![
        follower(9, "Newest", " follows you"),
        bare(7, "SOMETHING_ELSE"),
        follower(4, "Oldest", " follows you"),
    ];
    let (messages, watermark) = classify(&page, 2);
    assert_eq!(messages.len(), 2);
    assert_eq!(messages[0].message, "Oldest follows you");
    assert_eq!(messages[1].message, "Newest follows you");
    assert_eq!(watermark, 9);
}

#[test]
fn classify_is_idempotent() {
    let page = vec![
        follower(9, "Newest", " follows you"),
        follower(4, "Oldest", " follows you"),
    ];
    let (first, watermark) = classify(&page, 2);
    assert_eq!(first.len(), 2);
    let (second, again) = classify(&page, watermark);
    assert!(second.is_empty());
    assert_eq!(again, watermark);
}

#[test]
fn unrecognized_tag_advances_watermark_silently() {
    let page = vec![bare(8, "SOMETHING_ELSE")];
    let (messages, watermark) = classify(&page, 3);
    assert!(messages.is_empty());
    assert_eq!(watermark, 8);
}

#[test]
fn newest_entry_alone_is_delivered() {
    let page = vec![follower(2, "B", " follows you"), follower(1, "A", " follows you")];
    let (messages, watermark) = classify(&page, 1);
    assert_eq!(messages.len(), 1);
    assert_eq!(messages[0].message, "B follows you");
    assert_eq!(watermark, 2);
}

#[test]
fn seen_entry_does_not_stop_the_scan() {
    // Oldest first the ids run 3 then 8: the already-seen 3 is skipped and
    // the scan still reaches 8.
    let page = vec![follower(8, "New", " follows you"), follower(3, "Old", " follows you")];
    let (messages, watermark) = classify(&page, 5);
    assert_eq!(messages.len(), 1);
    assert_eq!(messages[0].message, "New follows you");
    assert_eq!(watermark, 8);
}

#[test]
fn unsorted_page_watermark_is_maximum_id() {
    // A page that is not newest first: every unseen id still raises the
    // watermark, which ends at the maximum.
    let page = vec![follower(4, "A", "!"), follower(9, "B", "!"), follower(6, "C", "!")];
    let (messages, watermark) = classify(&page, 0);
    // Oldest first: 6 emits, 9 emits, then 4 <= 9 is skipped.
    assert_eq!(messages.len(), 2);
    assert_eq!(messages[0].message, "C!");
    assert_eq!(messages[1].message, "B!");
    assert_eq!(watermark, 9);
}
