//! The notification data model and the formatting rules: the mapping from
//! one raw notification (a known kind tag plus its optional fields) to the
//! (title, message, optional link) triple that is delivered, with the
//! documented defaults for absent fields.

use vstd::prelude::*;
use vstd::string::StringExecFns;
use crate::text::{spec_dec, str_eq, u64_to_dec};

verus! {

/// The closed set of recognized notification kinds, plus a catch-all for
/// any tag outside the known set.
#[derive(Clone, Copy, Debug, PartialEq, Eq, Structural)]
pub enum NotificationKind {
    Airing,
    Following,
    ActivityMessage,
    ActivityMention,
    ActivityReply,
    ActivityReplySubscribed,
    ActivityLike,
    ActivityReplyLike,
    ThreadCommentMention,
    ThreadCommentReply,
    ThreadCommentSubscribed,
    ThreadCommentLike,
    ThreadLike,
    RelatedMediaAddition,
    MediaDataChange,
    MediaMerge,
    MediaDeletion,
    Unrecognized,
}

/// One notification as the remote system reports it, reduced to plain
/// values: the required `id` and kind tag, and every variant-specific field
/// as an optional value (absent fields stay absent; defaults are applied
/// only when the notification is formatted).
#[derive(Clone, Debug)]
pub struct RawNotification {
    pub id: u32,
    pub tag: String,
    pub episode: Option<u64>,
    pub context0: Option<String>,
    pub context1: Option<String>,
    pub context2: Option<String>,
    pub context: Option<String>,
    pub user_name: Option<String>,
    pub media_title: Option<String>,
    pub media_site_url: Option<String>,
    pub message_site_url: Option<String>,
    pub activity_site_url: Option<String>,
    pub comment_site_url: Option<String>,
    pub deleted_media_title: Option<String>,
}

/// The normalized triple handed to the delivery side.
#[derive(Clone, Debug)]
pub struct OutboundMessage {
    pub title: String,
    pub message: String,
    pub link: Option<String>,
}

/// The mathematical model of an outbound message.
#[verifier::ext_equal]
pub ghost struct MessageModel {
    pub title: Seq<char>,
    pub message: Seq<char>,
    pub link: Option<Seq<char>>,
}

impl View for OutboundMessage {
    type V = MessageModel;

    open spec fn view(&self) -> MessageModel {
        MessageModel {
            title: self.title@,
            message: self.message@,
            link: match self.link {
                Some(l) => Some(l@),
                None => None,
            },
        }
    }
}

/// Which kind a tag string names; any tag outside the known set is
/// `Unrecognized`.
pub open spec fn spec_kind(tag: Seq<char>) -> NotificationKind {
    if tag == "AIRING"@ {
        NotificationKind::Airing
    } else if tag == "FOLLOWING"@ {
        NotificationKind::Following
    } else if tag == "ACTIVITY_MESSAGE"@ {
        NotificationKind::ActivityMessage
    } else if tag == "ACTIVITY_MENTION"@ {
        NotificationKind::ActivityMention
    } else if tag == "ACTIVITY_REPLY"@ {
        NotificationKind::ActivityReply
    } else if tag == "ACTIVITY_REPLY_SUBSCRIBED"@ {
        NotificationKind::ActivityReplySubscribed
    } else if tag == "ACTIVITY_LIKE"@ {
        NotificationKind::ActivityLike
    } else if tag == "ACTIVITY_REPLY_LIKE"@ {
        NotificationKind::ActivityReplyLike
    } else if tag == "THREAD_COMMENT_MENTION"@ {
        NotificationKind::ThreadCommentMention
    } else if tag == "THREAD_COMMENT_REPLY"@ {
        NotificationKind::ThreadCommentReply
    } else if tag == "THREAD_COMMENT_SUBSCRIBED"@ {
        NotificationKind::ThreadCommentSubscribed
    } else if tag == "THREAD_COMMENT_LIKE"@ {
        NotificationKind::ThreadCommentLike
    } else if tag == "THREAD_LIKE"@ {
        NotificationKind::ThreadLike
    } else if tag == "RELATED_MEDIA_ADDITION"@ {
        NotificationKind::RelatedMediaAddition
    } else if tag == "MEDIA_DATA_CHANGE"@ {
        NotificationKind::MediaDataChange
    } else if tag == "MEDIA_MERGE"@ {
        NotificationKind::MediaMerge
    } else if tag == "MEDIA_DELETION"@ {
        NotificationKind::MediaDeletion
    } else {
        NotificationKind::Unrecognized
    }
}

/// Maps a tag string to its kind.
pub fn kind_of_tag(tag: &str) -> (k: NotificationKind)
    ensures
        k == spec_kind(tag@),
{
    if str_eq(tag, "AIRING") {
        NotificationKind::Airing
    } else if str_eq(tag, "FOLLOWING") {
        NotificationKind::Following
    } else if str_eq(tag, "ACTIVITY_MESSAGE") {
        NotificationKind::ActivityMessage
    } else if str_eq(tag, "ACTIVITY_MENTION") {
        NotificationKind::ActivityMention
    } else if str_eq(tag, "ACTIVITY_REPLY") {
        NotificationKind::ActivityReply
    } else if str_eq(tag, "ACTIVITY_REPLY_SUBSCRIBED") {
        NotificationKind::ActivityReplySubscribed
    } else if str_eq(tag, "ACTIVITY_LIKE") {
        NotificationKind::ActivityLike
    } else if str_eq(tag, "ACTIVITY_REPLY_LIKE") {
        NotificationKind::ActivityReplyLike
    } else if str_eq(tag, "THREAD_COMMENT_MENTION") {
        NotificationKind::ThreadCommentMention
    } else if str_eq(tag, "THREAD_COMMENT_REPLY") {
        NotificationKind::ThreadCommentReply
    } else if str_eq(tag, "THREAD_COMMENT_SUBSCRIBED") {
        NotificationKind::ThreadCommentSubscribed
    } else if str_eq(tag, "THREAD_COMMENT_LIKE") {
        NotificationKind::ThreadCommentLike
    } else if str_eq(tag, "THREAD_LIKE") {
        NotificationKind::ThreadLike
    } else if str_eq(tag, "RELATED_MEDIA_ADDITION") {
        NotificationKind::RelatedMediaAddition
    } else if str_eq(tag, "MEDIA_DATA_CHANGE") {
        NotificationKind::MediaDataChange
    } else if str_eq(tag, "MEDIA_MERGE") {
        NotificationKind::MediaMerge
    } else if str_eq(tag, "MEDIA_DELETION") {
        NotificationKind::MediaDeletion
    } else {
        NotificationKind::Unrecognized
    }
}

/// The field's characters, or the given default when the field is absent.
pub open spec fn str_or(o: Option<String>, d: Seq<char>) -> Seq<char> {
    match o {
        Some(s) => s@,
        None => d,
    }
}

/// The view of an optional string field.
pub open spec fn opt_view(o: Option<String>) -> Option<Seq<char>> {
    match o {
        Some(s) => Some(s@),
        None => None,
    }
}

/// The episode number used in an airing message; absent episodes render
/// as zero.
pub open spec fn episode_of(n: RawNotification) -> nat {
    match n.episode {
        Some(e) => e as nat,
        None => 0,
    }
}

/// The message body of an airing notification: the three context pieces
/// around the episode number and the media title. An absent context piece
/// defaults to the empty string (only the singular `context` field of the
/// other kinds defaults to the "?" marker).
pub open spec fn airing_body(n: RawNotification) -> Seq<char> {
    str_or(n.context0, ""@) + spec_dec(episode_of(n)) + str_or(n.context1, ""@) + str_or(
        n.media_title,
        "Unknown"@,
    ) + str_or(n.context2, ""@)
}

/// The message body of the kinds reported about a user: the user's name
/// followed by the context text.
pub open spec fn user_context_body(n: RawNotification) -> Seq<char> {
    str_or(n.user_name, "Unknown"@) + str_or(n.context, "?"@)
}

/// The message body of the kinds reported about a media entry: the media
/// title followed by the context text.
pub open spec fn media_context_body(n: RawNotification) -> Seq<char> {
    str_or(n.media_title, "Unknown"@) + str_or(n.context, "?"@)
}

/// The message body of a media-deletion notification: the deleted title
/// followed by the context text.
pub open spec fn deletion_body(n: RawNotification) -> Seq<char> {
    str_or(n.deleted_media_title, "Unknown"@) + str_or(n.context, "?"@)
}

/// The formatting table: the outbound message produced for `n`, or `None`
/// when `n`'s tag is outside the recognized set.
pub open spec fn spec_message(n: RawNotification) -> Option<MessageModel> {
    match spec_kind(n.tag@) {
        NotificationKind::Airing => Some(
            MessageModel {
                title: str_or(n.media_title, "Unknown"@),
                message: airing_body(n),
                link: opt_view(n.media_site_url),
            },
        ),
        NotificationKind::Following => Some(
            MessageModel { title: "New Follower"@, message: user_context_body(n), link: None },
        ),
        NotificationKind::ActivityMessage => Some(
            MessageModel {
                title: "New Message"@,
                message: user_context_body(n),
                link: opt_view(n.message_site_url),
            },
        ),
        NotificationKind::ActivityMention => Some(
            MessageModel {
                title: "New Mention"@,
                message: user_context_body(n),
                link: opt_view(n.activity_site_url),
            },
        ),
        NotificationKind::ActivityReply | NotificationKind::ActivityReplySubscribed => Some(
            MessageModel {
                title: "New Reply"@,
                message: user_context_body(n),
                link: opt_view(n.activity_site_url),
            },
        ),
        NotificationKind::ActivityLike | NotificationKind::ActivityReplyLike => Some(
            MessageModel {
                title: "New Like"@,
                message: user_context_body(n),
                link: opt_view(n.activity_site_url),
            },
        ),
        NotificationKind::ThreadCommentMention => Some(
            MessageModel {
                title: "New Mention"@,
                message: user_context_body(n),
                link: opt_view(n.comment_site_url),
            },
        ),
        NotificationKind::ThreadCommentReply | NotificationKind::ThreadCommentSubscribed => Some(
            MessageModel {
                title: "New Reply"@,
                message: user_context_body(n),
                link: opt_view(n.comment_site_url),
            },
        ),
        NotificationKind::ThreadCommentLike | NotificationKind::ThreadLike => Some(
            MessageModel {
                title: "New Like"@,
                message: user_context_body(n),
                link: opt_view(n.comment_site_url),
            },
        ),
        NotificationKind::RelatedMediaAddition => Some(
            MessageModel {
                title: "New Related Media"@,
                message: media_context_body(n),
                link: opt_view(n.media_site_url),
            },
        ),
        NotificationKind::MediaDataChange => Some(
            MessageModel {
                title: "New Data Change"@,
                message: media_context_body(n),
                link: opt_view(n.media_site_url),
            },
        ),
        NotificationKind::MediaMerge => Some(
            MessageModel {
                title: "New Media Merge"@,
                message: media_context_body(n),
                link: opt_view(n.media_site_url),
            },
        ),
        NotificationKind::MediaDeletion => Some(
            MessageModel {
                title: "New Media Deletion"@,
                message: deletion_body(n),
                link: opt_view(n.media_site_url),
            },
        ),
        NotificationKind::Unrecognized => None,
    }
}

/// The kinds whose message body is the user's name followed by the
/// context text.
pub open spec fn is_user_context_kind(k: NotificationKind) -> bool {
    match k {
        NotificationKind::Following => true,
        NotificationKind::ActivityMessage => true,
        NotificationKind::ActivityMention => true,
        NotificationKind::ActivityReply => true,
        NotificationKind::ActivityReplySubscribed => true,
        NotificationKind::ActivityLike => true,
        NotificationKind::ActivityReplyLike => true,
        NotificationKind::ThreadCommentMention => true,
        NotificationKind::ThreadCommentReply => true,
        NotificationKind::ThreadCommentSubscribed => true,
        NotificationKind::ThreadCommentLike => true,
        NotificationKind::ThreadLike => true,
        _ => false,
    }
}

/// A recognized notification whose `context` field is absent falls back
/// to the "?" marker, so its message body always ends in '?'. The airing
/// kind stands outside this law: its message carries no singular
/// `context`, and its context pieces default to the empty string.
pub proof fn lemma_missing_context_ends_with_marker(n: RawNotification)
    requires
        spec_kind(n.tag@) != NotificationKind::Unrecognized,
        spec_kind(n.tag@) != NotificationKind::Airing,
        n.context is None,
    ensures
        spec_message(n) matches Some(m) && m.message.len() > 0 && m.message.last() == '?',
{
    reveal_strlit("?");
    assert(forall|a: Seq<char>, b: Seq<char>|
        b.len() > 0 ==> #[trigger] (a + b).last() == b.last());
}

/// A notification of a kind reported about a user whose user name is
/// absent falls back to the default name, so its message body begins with
/// "Unknown".
pub proof fn lemma_missing_user_name_defaults(n: RawNotification)
    requires
        is_user_context_kind(spec_kind(n.tag@)),
        n.user_name is None,
    ensures
        spec_message(n) matches Some(m) && m.message.len() >= "Unknown"@.len()
            && m.message.subrange(0, "Unknown"@.len() as int) == "Unknown"@,
{
    reveal_strlit("Unknown");
    match spec_message(n) {
        Some(m) => {
            assert(m.message.subrange(0, "Unknown"@.len() as int) =~= "Unknown"@);
        },
        None => {},
    }
}

/// The view of an optional outbound message.
pub open spec fn opt_message_view(r: Option<OutboundMessage>) -> Option<MessageModel> {
    match r {
        Some(m) => Some(m@),
        None => None,
    }
}

fn str_or_default(o: &Option<String>, d: &str) -> (r: String)
    ensures
        r@ == str_or(*o, d@),
{
    match o {
        Some(s) => s.clone(),
        None => d.to_owned(),
    }
}

fn clone_opt(o: &Option<String>) -> (r: Option<String>)
    ensures
        opt_view(r) == opt_view(*o),
{
    match o {
        Some(s) => Some(s.clone()),
        None => None,
    }
}

fn user_context_message(n: &RawNotification) -> (r: String)
    ensures
        r@ == user_context_body(*n),
{
    let mut s = str_or_default(&n.user_name, "Unknown");
    let c = str_or_default(&n.context, "?");
    s.append(c.as_str());
    s
}

fn media_context_message(n: &RawNotification) -> (r: String)
    ensures
        r@ == media_context_body(*n),
{
    let mut s = str_or_default(&n.media_title, "Unknown");
    let c = str_or_default(&n.context, "?");
    s.append(c.as_str());
    s
}

fn airing_message(n: &RawNotification) -> (r: String)
    ensures
        r@ == airing_body(*n),
{
    let mut s = str_or_default(&n.context0, "");
    let episode: u64 = match n.episode {
        Some(e) => e,
        None => 0,
    };
    let rendered = u64_to_dec(episode);
    s.append(rendered.as_str());
    let c1 = str_or_default(&n.context1, "");
    s.append(c1.as_str());
    let title = str_or_default(&n.media_title, "Unknown");
    s.append(title.as_str());
    let c2 = str_or_default(&n.context2, "");
    s.append(c2.as_str());
    s
}

/// Formats one notification according to the formatting table, or returns
/// `None` when its tag is unrecognized.
pub fn format_notification(n: &RawNotification) -> (r: Option<OutboundMessage>)
    ensures
        opt_message_view(r) == spec_message(*n),
{
    match kind_of_tag(n.tag.as_str()) {
        NotificationKind::Airing => Some(
            OutboundMessage {
                title: str_or_default(&n.media_title, "Unknown"),
                message: airing_message(n),
                link: clone_opt(&n.media_site_url),
            },
        ),
        NotificationKind::Following => Some(
            OutboundMessage {
                title: "New Follower".to_owned(),
                message: user_context_message(n),
                link: None,
            },
        ),
        NotificationKind::ActivityMessage => Some(
            OutboundMessage {
                title: "New Message".to_owned(),
                message: user_context_message(n),
                link: clone_opt(&n.message_site_url),
            },
        ),
        NotificationKind::ActivityMention => Some(
            OutboundMessage {
                title: "New Mention".to_owned(),
                message: user_context_message(n),
                link: clone_opt(&n.activity_site_url),
            },
        ),
        NotificationKind::ActivityReply | NotificationKind::ActivityReplySubscribed => Some(
            OutboundMessage {
                title: "New Reply".to_owned(),
                message: user_context_message(n),
                link: clone_opt(&n.activity_site_url),
            },
        ),
        NotificationKind::ActivityLike | NotificationKind::ActivityReplyLike => Some(
            OutboundMessage {
                title: "New Like".to_owned(),
                message: user_context_message(n),
                link: clone_opt(&n.activity_site_url),
            },
        ),
        NotificationKind::ThreadCommentMention => Some(
            OutboundMessage {
                title: "New Mention".to_owned(),
                message: user_context_message(n),
                link: clone_opt(&n.comment_site_url),
            },
        ),
        NotificationKind::ThreadCommentReply | NotificationKind::ThreadCommentSubscribed => Some(
            OutboundMessage {
                title: "New Reply".to_owned(),
                message: user_context_message(n),
                link: clone_opt(&n.comment_site_url),
            },
        ),
        NotificationKind::ThreadCommentLike | NotificationKind::ThreadLike => Some(
            OutboundMessage {
                title: "New Like".to_owned(),
                message: user_context_message(n),
                link: clone_opt(&n.comment_site_url),
            },
        ),
        NotificationKind::RelatedMediaAddition => Some(
            OutboundMessage {
                title: "New Related Media".to_owned(),
                message: media_context_message(n),
                link: clone_opt(&n.media_site_url),
            },
        ),
        NotificationKind::MediaDataChange => Some(
            OutboundMessage {
                title: "New Data Change".to_owned(),
                message: media_context_message(n),
                link: clone_opt(&n.media_site_url),
            },
        ),
        NotificationKind::MediaMerge => Some(
            OutboundMessage {
                title: "New Media Merge".to_owned(),
                message: media_context_message(n),
                link: clone_opt(&n.media_site_url),
            },
        ),
        NotificationKind::MediaDeletion => Some(
            OutboundMessage {
                title: "New Media Deletion".to_owned(),
                message: {
                    let mut s = str_or_default(&n.deleted_media_title, "Unknown");
                    let c = str_or_default(&n.context, "?");
                    s.append(c.as_str());
                    s
                },
                link: clone_opt(&n.media_site_url),
            },
        ),
        NotificationKind::Unrecognized => None,
    }
}

} // verus!
