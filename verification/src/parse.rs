//! Reduction of the loosely typed response document the notification API
//! returns into the crate's notification model. The document is read only
//! through the trusted accessors declared here; each accessor's result is
//! a function of its arguments alone, so it is given a name, and the parse
//! contracts pin every field of the model to those names.

use vstd::prelude::*;
use crate::notification::{opt_view, RawNotification};

verus! {

/// What can be malformed about a response document: the notification list
/// is missing from its fixed path, or a notification lacks its required
/// id. Without an id no ordering or deduplication decision can be made,
/// so a missing id is an error, never a skip.
#[derive(Clone, Copy, Debug, PartialEq, Eq, Structural)]
pub enum ParseError {
    MissingNotificationList,
    MissingId,
}

/// `serde_json::Value`, declared so a response document can flow through
/// verified code. A value of it is opaque here: it is read only through
/// the trusted accessors below.
#[verifier::external_type_specification]
#[verifier::external_body]
pub struct ExValue(serde_json::Value);

/// What `serde_json::Value::get` returns at a string key.
pub uninterp spec fn get_of(v: serde_json::Value, key: Seq<char>) -> Option<serde_json::Value>;

/// What `serde_json::Value::get` returns at an array index.
pub uninterp spec fn elem_of(v: serde_json::Value, i: int) -> Option<serde_json::Value>;

/// What `serde_json::Value::as_u64` returns.
pub uninterp spec fn u64_of(v: serde_json::Value) -> Option<u64>;

/// What `serde_json::Value::as_str` returns.
pub uninterp spec fn str_of(v: serde_json::Value) -> Option<Seq<char>>;

/// What `serde_json::Value::as_array` returns.
pub uninterp spec fn elements_of(v: serde_json::Value) -> Option<Seq<serde_json::Value>>;

/// Relies on serde_json::Value::get at a string key: a lookup in an
/// object, `None` when the key is absent or the value is not an object.
/// The result depends on the value and the key alone.
#[verifier::external_body]
fn get_key<'a>(v: &'a serde_json::Value, key: &str) -> (r: Option<&'a serde_json::Value>)
    ensures
        match r {
            Some(x) => get_of(*v, key@) == Some(*x),
            None => get_of(*v, key@) is None,
        },
{
    v.get(key)
}

/// Relies on serde_json::Value::get at an array index: the element there,
/// `None` when out of range or the value is not an array. The result
/// depends on the value and the index alone.
#[verifier::external_body]
fn get_index<'a>(v: &'a serde_json::Value, i: usize) -> (r: Option<&'a serde_json::Value>)
    ensures
        match r {
            Some(x) => elem_of(*v, i as int) == Some(*x),
            None => elem_of(*v, i as int) is None,
        },
{
    v.get(i)
}

/// Relies on serde_json::Value::as_u64: the value as an unsigned integer,
/// when it is a number representable as one. The result depends on the
/// value alone.
pub assume_specification[ serde_json::Value::as_u64 ](v: &serde_json::Value) -> (r: Option<u64>)
    ensures
        r == u64_of(*v),
;

/// Relies on serde_json::Value::as_str: the value's text, when it is a
/// string. The result depends on the value alone.
pub assume_specification[ serde_json::Value::as_str ](v: &serde_json::Value) -> (r: Option<&str>)
    ensures
        match r {
            Some(s) => str_of(*v) == Some(s@),
            None => str_of(*v) is None,
        },
;

/// Relies on serde_json::Value::as_array: the value's elements, when it
/// is an array. The result depends on the value alone.
pub assume_specification[ serde_json::Value::as_array ](v: &serde_json::Value) -> (r: Option<
    &Vec<serde_json::Value>,
>)
    ensures
        match r {
            Some(a) => elements_of(*v) == Some(a@),
            None => elements_of(*v) is None,
        },
;

/// The text under a key, when the key holds a string.
pub open spec fn spec_string_field(v: serde_json::Value, key: Seq<char>) -> Option<Seq<char>> {
    match get_of(v, key) {
        Some(x) => str_of(x),
        None => None,
    }
}

/// The text one level down, when both keys hold what they should.
pub open spec fn spec_nested_string_field(
    v: serde_json::Value,
    outer: Seq<char>,
    inner: Seq<char>,
) -> Option<Seq<char>> {
    match get_of(v, outer) {
        Some(x) => spec_string_field(x, inner),
        None => None,
    }
}

/// The i-th entry of the notification's context list, when present and a
/// string.
pub open spec fn spec_context_entry(v: serde_json::Value, i: int) -> Option<Seq<char>> {
    match get_of(v, "contexts"@) {
        Some(c) => match elem_of(c, i) {
            Some(x) => str_of(x),
            None => None,
        },
        None => None,
    }
}

/// The media title at its nested path.
pub open spec fn spec_media_title(v: serde_json::Value) -> Option<Seq<char>> {
    match get_of(v, "media"@) {
        Some(m) => spec_nested_string_field(m, "title"@, "userPreferred"@),
        None => None,
    }
}

/// The episode number, when present and numeric.
pub open spec fn spec_episode(v: serde_json::Value) -> Option<u64> {
    match get_of(v, "episode"@) {
        Some(x) => u64_of(x),
        None => None,
    }
}

/// The notification's id, when present and numeric.
pub open spec fn spec_id(v: serde_json::Value) -> Option<u64> {
    match get_of(v, "id"@) {
        Some(x) => u64_of(x),
        None => None,
    }
}

/// The notification's kind tag; a missing tag is kept as the empty tag,
/// which no recognized kind matches.
pub open spec fn spec_tag(v: serde_json::Value) -> Seq<char> {
    match spec_string_field(v, "type"@) {
        Some(t) => t,
        None => Seq::<char>::empty(),
    }
}

/// The notification list at its fixed path in a response document.
pub open spec fn spec_list(doc: serde_json::Value) -> Option<Seq<serde_json::Value>> {
    match get_of(doc, "data"@) {
        Some(d) => match get_of(d, "page"@) {
            Some(p) => match get_of(p, "notifications"@) {
                Some(l) => elements_of(l),
                None => None,
            },
            None => None,
        },
        None => None,
    }
}

/// `n` is the reduction of the notification document `v`: the id taken at
/// the watermark's width, the tag, and every variant field equal to its
/// named lookup.
pub open spec fn models(n: RawNotification, v: serde_json::Value) -> bool {
    &&& (spec_id(v) matches Some(wide) && n.id == wide as u32)
    &&& n.tag@ == spec_tag(v)
    &&& n.episode == spec_episode(v)
    &&& opt_view(n.context0) == spec_context_entry(v, 0)
    &&& opt_view(n.context1) == spec_context_entry(v, 1)
    &&& opt_view(n.context2) == spec_context_entry(v, 2)
    &&& opt_view(n.context) == spec_string_field(v, "context"@)
    &&& opt_view(n.user_name) == spec_nested_string_field(v, "user"@, "name"@)
    &&& opt_view(n.media_title) == spec_media_title(v)
    &&& opt_view(n.media_site_url) == spec_nested_string_field(v, "media"@, "siteUrl"@)
    &&& opt_view(n.message_site_url) == spec_nested_string_field(v, "message"@, "siteUrl"@)
    &&& opt_view(n.activity_site_url) == spec_nested_string_field(v, "activity"@, "siteUrl"@)
    &&& opt_view(n.comment_site_url) == spec_nested_string_field(v, "comment"@, "siteUrl"@)
    &&& opt_view(n.deleted_media_title) == spec_string_field(v, "deletedMediaTitle"@)
}

fn string_field(v: &serde_json::Value, key: &str) -> (r: Option<String>)
    ensures
        opt_view(r) == spec_string_field(*v, key@),
{
    match get_key(v, key) {
        Some(x) => match x.as_str() {
            Some(s) => Some(s.to_owned()),
            None => None,
        },
        None => None,
    }
}

fn nested_string_field(v: &serde_json::Value, outer: &str, inner: &str) -> (r: Option<String>)
    ensures
        opt_view(r) == spec_nested_string_field(*v, outer@, inner@),
{
    match get_key(v, outer) {
        Some(x) => string_field(x, inner),
        None => None,
    }
}

fn context_entry(v: &serde_json::Value, i: usize) -> (r: Option<String>)
    ensures
        opt_view(r) == spec_context_entry(*v, i as int),
{
    match get_key(v, "contexts") {
        Some(c) => match get_index(c, i) {
            Some(x) => match x.as_str() {
                Some(s) => Some(s.to_owned()),
                None => None,
            },
            None => None,
        },
        None => None,
    }
}

fn media_title_field(v: &serde_json::Value) -> (r: Option<String>)
    ensures
        opt_view(r) == spec_media_title(*v),
{
    match get_key(v, "media") {
        Some(m) => nested_string_field(m, "title", "userPreferred"),
        None => None,
    }
}

fn episode_field(v: &serde_json::Value) -> (r: Option<u64>)
    ensures
        r == spec_episode(*v),
{
    match get_key(v, "episode") {
        Some(x) => x.as_u64(),
        None => None,
    }
}

/// Reduces one notification document to the crate's model. Every
/// variant-specific field stays optional-as-absent; only the id is
/// required, and a notification without one is a malformed response. An
/// id wider than the watermark type is taken at the watermark's width.
pub fn parse_notification(v: &serde_json::Value) -> (r: Result<RawNotification, ParseError>)
    ensures
        r is Err <==> spec_id(*v) is None,
        r is Err ==> r == Err::<RawNotification, ParseError>(ParseError::MissingId),
        (r matches Ok(n) ==> models(n, *v)),
{
    let wide_id: u64 = match get_key(v, "id") {
        Some(x) => match x.as_u64() {
            Some(u) => u,
            None => {
                return Err(ParseError::MissingId);
            },
        },
        None => {
            return Err(ParseError::MissingId);
        },
    };
    let id: u32 = #[verifier::truncate] (wide_id as u32);
    let tag: String = match string_field(v, "type") {
        Some(t) => t,
        None => String::new(),
    };
    Ok(
        RawNotification {
            id,
            tag,
            episode: episode_field(v),
            context0: context_entry(v, 0),
            context1: context_entry(v, 1),
            context2: context_entry(v, 2),
            context: string_field(v, "context"),
            user_name: nested_string_field(v, "user", "name"),
            media_title: media_title_field(v),
            media_site_url: nested_string_field(v, "media", "siteUrl"),
            message_site_url: nested_string_field(v, "message", "siteUrl"),
            activity_site_url: nested_string_field(v, "activity", "siteUrl"),
            comment_site_url: nested_string_field(v, "comment", "siteUrl"),
            deleted_media_title: string_field(v, "deletedMediaTitle"),
        },
    )
}

/// Finds the notification list at its fixed path in a response document
/// and reduces every entry, keeping the document's order (newest first).
/// The list is missing exactly when some step of the path is; an entry
/// without an id is a malformed response.
pub fn parse_page(doc: &serde_json::Value) -> (r: Result<Vec<RawNotification>, ParseError>)
    ensures
        (r == Err::<Vec<RawNotification>, ParseError>(ParseError::MissingNotificationList)) <==> (
        spec_list(*doc) is None),
        (r == Err::<Vec<RawNotification>, ParseError>(ParseError::MissingId)) <==> (spec_list(
            *doc,
        ) matches Some(entries) && exists|i: int|
            0 <= i < entries.len() && spec_id(#[trigger] entries[i]) is None),
        (r matches Ok(page) ==> (spec_list(*doc) matches Some(entries) && page@.len()
            == entries.len() && forall|i: int|
            0 <= i < entries.len() ==> models(#[trigger] page@[i], entries[i]))),
{
    let data = match get_key(doc, "data") {
        Some(d) => d,
        None => {
            return Err(ParseError::MissingNotificationList);
        },
    };
    let inner = match get_key(data, "page") {
        Some(p) => p,
        None => {
            return Err(ParseError::MissingNotificationList);
        },
    };
    let list = match get_key(inner, "notifications") {
        Some(l) => l,
        None => {
            return Err(ParseError::MissingNotificationList);
        },
    };
    let entries: &Vec<serde_json::Value> = match list.as_array() {
        Some(a) => a,
        None => {
            return Err(ParseError::MissingNotificationList);
        },
    };
    proof {
        assert(spec_list(*doc) == Some(entries@));
    }
    let mut page: Vec<RawNotification> = Vec::new();
    let mut i: usize = 0;
    while i < entries.len()
        invariant
            i <= entries@.len(),
            spec_list(*doc) == Some(entries@),
            page@.len() == i,
            forall|j: int| 0 <= j < i ==> models(#[trigger] page@[j], entries@[j]),
        decreases entries@.len() - i,
    {
        match parse_notification(&entries[i]) {
            Ok(n) => page.push(n),
            Err(e) => {
                proof {
                    assert(spec_id(entries@[i as int]) is None);
                }
                return Err(e);
            },
        }
        i = i + 1;
    }
    proof {
        assert forall|j: int| 0 <= j < entries@.len() implies spec_id(
            #[trigger] entries@[j],
        ) is Some by {
            assert(models(page@[j], entries@[j]));
        }
    }
    Ok(page)
}

} // verus!
