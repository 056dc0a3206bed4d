//! The classification core: given one page of notifications as the remote
//! system returns it (newest first) and the current watermark, decide which
//! notifications are new, format them oldest first, and report the new
//! watermark.

use vstd::prelude::*;
use crate::notification::{
    format_notification, spec_kind, spec_message, MessageModel, NotificationKind, OutboundMessage,
    RawNotification,
};

verus! {

/// The view of a sequence of outbound messages.
pub open spec fn messages_view(s: Seq<OutboundMessage>) -> Seq<MessageModel> {
    s.map_values(|m: OutboundMessage| m@)
}

/// The classification of a page against a watermark. The page is newest
/// first, so the last element is handled first (oldest first): an id at or
/// below the running watermark is skipped, any other id advances the
/// watermark and, when its kind is recognized, emits one message.
pub open spec fn spec_classify(page: Seq<RawNotification>, w: u32) -> (Seq<MessageModel>, u32)
    decreases page.len(),
{
    if page.len() == 0 {
        (Seq::<MessageModel>::empty(), w)
    } else {
        let n = page.last();
        if n.id <= w {
            spec_classify(page.drop_last(), w)
        } else {
            let rest = spec_classify(page.drop_last(), n.id);
            match spec_message(n) {
                Some(m) => (seq![m] + rest.0, rest.1),
                None => rest,
            }
        }
    }
}

/// The watermark a page leaves behind, defined over the ids alone.
pub open spec fn spec_new_watermark(page: Seq<RawNotification>, w: u32) -> u32
    decreases page.len(),
{
    if page.len() == 0 {
        w
    } else {
        let n = page.last();
        if n.id <= w {
            spec_new_watermark(page.drop_last(), w)
        } else {
            spec_new_watermark(page.drop_last(), n.id)
        }
    }
}

/// The watermark that classification reports depends on the ids alone,
/// never on the kind tags: an unrecognized notification advances it
/// exactly as a recognized one does.
pub proof fn lemma_watermark_ignores_kinds(page: Seq<RawNotification>, w: u32)
    ensures
        spec_classify(page, w).1 == spec_new_watermark(page, w),
    decreases page.len(),
{
    if page.len() > 0 {
        let n = page.last();
        if n.id <= w {
            lemma_watermark_ignores_kinds(page.drop_last(), w);
        } else {
            lemma_watermark_ignores_kinds(page.drop_last(), n.id);
        }
    }
}

/// Classifies one page: returns the messages to deliver, oldest first, and
/// the new watermark.
pub fn classify(page: &Vec<RawNotification>, watermark: u32) -> (r: (Vec<OutboundMessage>, u32))
    ensures
        messages_view(r.0@) == spec_classify(page@, watermark).0,
        r.1 == spec_classify(page@, watermark).1,
{
    let mut messages: Vec<OutboundMessage> = Vec::new();
    let mut w: u32 = watermark;
    let mut i: usize = page.len();
    proof {
        assert(page@.subrange(0, i as int) =~= page@);
    }
    while i > 0
        invariant
            i <= page@.len(),
            spec_classify(page@, watermark).0 == messages_view(messages@) + spec_classify(
                page@.subrange(0, i as int),
                w,
            ).0,
            spec_classify(page@, watermark).1 == spec_classify(page@.subrange(0, i as int), w).1,
        decreases i,
    {
        let ghost prefix = page@.subrange(0, i as int);
        proof {
            assert(prefix.last() == page@[i - 1]);
            assert(prefix.drop_last() =~= page@.subrange(0, i as int - 1));
        }
        let n = &page[i - 1];
        if n.id > w {
            w = n.id;
            match format_notification(n) {
                Some(m) => {
                    proof {
                        assert(messages_view(messages@.push(m)) =~= messages_view(messages@)
                            + seq![m@]);
                        assert((messages_view(messages@) + seq![m@]) + spec_classify(
                            prefix.drop_last(),
                            n.id,
                        ).0 =~= messages_view(messages@) + (seq![m@] + spec_classify(
                            prefix.drop_last(),
                            n.id,
                        ).0));
                    }
                    messages.push(m);
                },
                None => {},
            }
        }
        i = i - 1;
    }
    proof {
        assert(page@.subrange(0, 0) =~= Seq::<RawNotification>::empty());
        assert(messages_view(messages@) + Seq::<MessageModel>::empty() =~= messages_view(
            messages@,
        ));
    }
    (messages, w)
}

/// A page whose every id is at or below the watermark yields no message
/// and leaves the watermark unchanged.
pub proof fn lemma_all_seen_yields_nothing(page: Seq<RawNotification>, w: u32)
    requires
        forall|i: int| 0 <= i < page.len() ==> #[trigger] page[i].id <= w,
    ensures
        spec_classify(page, w).0 == Seq::<MessageModel>::empty(),
        spec_classify(page, w).1 == w,
    decreases page.len(),
{
    if page.len() > 0 {
        assert(page.last() == page[page.len() - 1]);
        assert(forall|i: int|
            0 <= i < page.drop_last().len() ==> #[trigger] page.drop_last()[i].id <= w);
        lemma_all_seen_yields_nothing(page.drop_last(), w);
    }
}

/// The reported watermark is never below the incoming one, and never below
/// any id on the page.
pub proof fn lemma_watermark_bounds(page: Seq<RawNotification>, w: u32)
    ensures
        spec_classify(page, w).1 >= w,
        forall|i: int| 0 <= i < page.len() ==> #[trigger] page[i].id <= spec_classify(page, w).1,
    decreases page.len(),
{
    if page.len() > 0 {
        let n = page.last();
        let rest = page.drop_last();
        let w1 = if n.id <= w {
            w
        } else {
            n.id
        };
        lemma_watermark_bounds(rest, w1);
        assert forall|i: int| 0 <= i < page.len() implies #[trigger] page[i].id <= spec_classify(
            page,
            w,
        ).1 by {
            if i < page.len() - 1 {
                assert(page[i] == rest[i]);
                assert(rest[i].id <= spec_classify(rest, w1).1);
            } else {
                assert(page[i] == n);
            }
        }
    }
}

/// Classification is idempotent: feeding the reported watermark back in
/// on the same page yields no message and the same watermark again.
pub proof fn lemma_classify_idempotent(page: Seq<RawNotification>, w: u32)
    ensures
        spec_classify(page, spec_classify(page, w).1).0 == Seq::<MessageModel>::empty(),
        spec_classify(page, spec_classify(page, w).1).1 == spec_classify(page, w).1,
{
    lemma_watermark_bounds(page, w);
    lemma_all_seen_yields_nothing(page, spec_classify(page, w).1);
}

/// The messages a page would emit if every notification were new,
/// oldest first.
pub open spec fn emitted_messages(page: Seq<RawNotification>) -> Seq<MessageModel>
    decreases page.len(),
{
    if page.len() == 0 {
        Seq::<MessageModel>::empty()
    } else {
        match spec_message(page.last()) {
            Some(m) => seq![m] + emitted_messages(page.drop_last()),
            None => emitted_messages(page.drop_last()),
        }
    }
}

/// On a page that is strictly newest first and whose every id exceeds the
/// watermark, every recognized notification emits its message, oldest
/// first, and the reported watermark is the page's newest id.
pub proof fn lemma_fresh_page_emits_all(page: Seq<RawNotification>, w: u32)
    requires
        forall|i: int| 0 <= i < page.len() ==> #[trigger] page[i].id > w,
        forall|i: int, j: int| 0 <= i < j < page.len() ==> page[i].id > page[j].id,
    ensures
        spec_classify(page, w).0 == emitted_messages(page),
        spec_classify(page, w).1 == if page.len() == 0 {
            w
        } else {
            page[0].id
        },
    decreases page.len(),
{
    if page.len() > 0 {
        let n = page.last();
        assert(n == page[page.len() - 1]);
        assert(n.id > w);
        assert(forall|i: int|
            0 <= i < page.drop_last().len() ==> #[trigger] page.drop_last()[i].id > n.id);
        assert(forall|i: int, j: int|
            0 <= i < j < page.drop_last().len() ==> page.drop_last()[i].id > page.drop_last()[
                j
            ].id) by {
            assert(forall|i: int|
                0 <= i < page.len() - 1 ==> page[i] == #[trigger] page.drop_last()[i]);
        }
        lemma_fresh_page_emits_all(page.drop_last(), n.id);
        if page.len() > 1 {
            assert(page.drop_last()[0] == page[0]);
        }
    }
}

/// A notification with an unrecognized tag never emits a message, yet
/// still advances the watermark when its id exceeds it.
pub proof fn lemma_unrecognized_advances(n: RawNotification, w: u32)
    requires
        spec_kind(n.tag@) == NotificationKind::Unrecognized,
    ensures
        spec_message(n) is None,
        n.id > w ==> spec_classify(seq![n], w) == (Seq::<MessageModel>::empty(), n.id),
        n.id <= w ==> spec_classify(seq![n], w) == (Seq::<MessageModel>::empty(), w),
{
    reveal_with_fuel(spec_classify, 3);
    assert(seq![n].last() == n);
    assert(seq![n].drop_last() =~= Seq::<RawNotification>::empty());
}

} // verus!
