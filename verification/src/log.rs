//! The message log of one room: every message ever appended, ordered by time.
//!
//! Two messages may carry the same timestamp. Neither is lost: the log is a
//! sequence, not a map, and among equal timestamps the message that was
//! appended first comes first.

use vstd::multiset::Multiset;
use vstd::prelude::*;
use crate::message::{message_views, MessageView, UserTextMessage};
use crate::time::Timestamp;

verus! {

/// Timestamps never decrease from one entry to the next.
pub open spec fn sorted(s: Seq<MessageView>) -> bool {
    forall|i: int, j: int| 0 <= i <= j < s.len() ==> s[i].time.key() <= s[j].time.key()
}

/// Holds of the messages written at `t` or earlier.
pub open spec fn is_not_after(t: Timestamp) -> spec_fn(MessageView) -> bool {
    |m: MessageView| m.time.key() <= t.key()
}

/// Holds of the messages written strictly later than `t`.
pub open spec fn is_after(t: Timestamp) -> spec_fn(MessageView) -> bool {
    |m: MessageView| m.time.key() > t.key()
}

/// The messages of `s` written at `t` or earlier, in the order of `s`.
pub open spec fn not_after(s: Seq<MessageView>, t: Timestamp) -> Seq<MessageView> {
    s.filter(is_not_after(t))
}

/// The messages of `s` written strictly later than `t`, in the order of `s`.
pub open spec fn after(s: Seq<MessageView>, t: Timestamp) -> Seq<MessageView> {
    s.filter(is_after(t))
}

/// The log `s` with `m` appended: `m` stands behind every message that is not
/// later than it, and before every message that is.
pub open spec fn with_message(s: Seq<MessageView>, m: MessageView) -> Seq<MessageView> {
    not_after(s, m.time) + seq![m] + after(s, m.time)
}

/// `pos` parts `s` into the messages not later than `t` and those later.
pub open spec fn splits_at(s: Seq<MessageView>, t: Timestamp, pos: int) -> bool {
    &&& 0 <= pos <= s.len()
    &&& forall|i: int| 0 <= i < pos ==> (#[trigger] s[i]).time.key() <= t.key()
    &&& forall|i: int| pos <= i < s.len() ==> (#[trigger] s[i]).time.key() > t.key()
}

/// The log `s` after the messages of `ms` were appended one by one, first to last.
pub open spec fn with_messages(s: Seq<MessageView>, ms: Seq<MessageView>) -> Seq<MessageView>
    decreases ms.len(),
{
    if ms.len() == 0 {
        s
    } else {
        with_message(with_messages(s, ms.drop_last()), ms.last())
    }
}

/// Holds of the messages written exactly at `t`.
pub open spec fn is_at(t: Timestamp) -> spec_fn(MessageView) -> bool {
    |m: MessageView| m.time == t
}

/// The time-ordered messages of one room.
#[derive(Debug)]
pub struct MessageLog {
    entries: Vec<UserTextMessage>,
}

impl View for MessageLog {
    type V = Seq<MessageView>;

    closed spec fn view(&self) -> Seq<MessageView> {
        message_views(self.entries@)
    }
}

impl MessageLog {
    /// The invariant of every log: its messages stand in time order.
    pub open spec fn wf(&self) -> bool {
        sorted(self@)
    }

    /// An empty log.
    pub fn new() -> (log: MessageLog)
        ensures
            log@ == Seq::<MessageView>::empty(),
            log.wf(),
    {
        let log = MessageLog { entries: Vec::new() };
        assert(log@ =~= Seq::<MessageView>::empty());
        log
    }

    /// How many messages the log holds.
    pub fn len(&self) -> (n: usize)
        ensures
            n == self@.len(),
    {
        self.entries.len()
    }

    pub fn is_empty(&self) -> (r: bool)
        ensures
            r == (self@.len() == 0),
    {
        self.entries.len() == 0
    }

    /// The place where `t` parts the log, found by halving.
    fn upper_bound(&self, t: &Timestamp) -> (pos: usize)
        requires
            self.wf(),
        ensures
            splits_at(self@, *t, pos as int),
    {
        let mut lo: usize = 0;
        let mut hi: usize = self.entries.len();
        while lo < hi
            invariant
                lo <= hi <= self.entries.len(),
                sorted(self@),
                self@.len() == self.entries.len(),
                forall|i: int| 0 <= i < lo ==> (#[trigger] self@[i]).time.key() <= t.key(),
                forall|i: int| hi <= i < self@.len() ==> (#[trigger] self@[i]).time.key() > t.key(),
            decreases hi - lo,
        {
            let mid: usize = lo + (hi - lo) / 2;
            assert(self@[mid as int].time == self.entries[mid as int].time);
            if self.entries[mid].time.le(t) {
                lo = mid + 1;
            } else {
                hi = mid;
            }
        }
        lo
    }

    /// Appends `msg`. It is placed by its timestamp, behind the messages that
    /// already carry the same one, so nothing is replaced and nothing is lost.
    pub fn append(&mut self, msg: UserTextMessage)
        requires
            old(self).wf(),
        ensures
            final(self).wf(),
            final(self)@ == with_message(old(self)@, msg@),
    {
        let pos: usize = self.upper_bound(&msg.time);
        proof {
            lemma_with_message_is_insert(self@, msg@, pos as int);
            assert(message_views(self.entries@.insert(pos as int, msg)) =~= self@.insert(
                pos as int,
                msg@,
            ));
        }
        self.entries.insert(pos, msg);
    }

    /// A copy of every message, oldest first.
    pub fn all(&self) -> (out: Vec<UserTextMessage>)
        ensures
            message_views(out@) == self@,
    {
        let out = self.entries.clone();
        assert(out@ =~= self.entries@);
        out
    }

    /// A copy of the messages written strictly later than `t`, oldest first.
    pub fn since(&self, t: Timestamp) -> (out: Vec<UserTextMessage>)
        requires
            self.wf(),
        ensures
            message_views(out@) == after(self@, t),
    {
        let start: usize = self.upper_bound(&t);
        let mut out: Vec<UserTextMessage> = Vec::new();
        let mut i: usize = start;
        while i < self.entries.len()
            invariant
                start <= i <= self.entries.len(),
                out@ == self.entries@.subrange(start as int, i as int),
            decreases self.entries.len() - i,
        {
            out.push(self.entries[i].clone());
            assert(out@ =~= self.entries@.subrange(start as int, i + 1));
            i += 1;
        }
        proof {
            lemma_split(self@, t, start as int);
            assert(message_views(out@) =~= self@.subrange(start as int, self@.len() as int));
        }
        out
    }

    /// The timestamp of the newest message, if there is one.
    pub fn last_time(&self) -> (t: Option<Timestamp>)
        ensures
            t == (if self@.len() == 0 {
                None
            } else {
                Some(self@.last().time)
            }),
    {
        let n: usize = self.entries.len();
        if n == 0 {
            None
        } else {
            Some(self.entries[n - 1].time)
        }
    }
}

proof fn lemma_filter_keeps_all<A>(s: Seq<A>, p: spec_fn(A) -> bool)
    requires
        forall|i: int| 0 <= i < s.len() ==> p(#[trigger] s[i]),
    ensures
        s.filter(p) == s,
    decreases s.len(),
{
    reveal(Seq::filter);
    if s.len() > 0 {
        lemma_filter_keeps_all(s.drop_last(), p);
        assert(s.drop_last().push(s.last()) =~= s);
    }
}

proof fn lemma_filter_drops_all<A>(s: Seq<A>, p: spec_fn(A) -> bool)
    requires
        forall|i: int| 0 <= i < s.len() ==> !p(#[trigger] s[i]),
    ensures
        s.filter(p) == Seq::<A>::empty(),
    decreases s.len(),
{
    reveal(Seq::filter);
    if s.len() > 0 {
        lemma_filter_drops_all(s.drop_last(), p);
    }
}

/// In a log that `pos` parts at `t`, the two filters are the two halves.
pub proof fn lemma_split(s: Seq<MessageView>, t: Timestamp, pos: int)
    requires
        splits_at(s, t, pos),
    ensures
        not_after(s, t) == s.subrange(0, pos),
        after(s, t) == s.subrange(pos, s.len() as int),
{
    let head = s.subrange(0, pos);
    let tail = s.subrange(pos, s.len() as int);
    assert(head + tail =~= s);
    Seq::filter_distributes_over_add(head, tail, is_not_after(t));
    Seq::filter_distributes_over_add(head, tail, is_after(t));
    lemma_filter_keeps_all(head, is_not_after(t));
    lemma_filter_drops_all(tail, is_not_after(t));
    lemma_filter_drops_all(head, is_after(t));
    lemma_filter_keeps_all(tail, is_after(t));
    assert(head + Seq::<MessageView>::empty() =~= head);
    assert(Seq::<MessageView>::empty() + tail =~= tail);
}

/// Appending to a sorted log is inserting at the place where `m.time` parts it,
/// and the log stays sorted.
proof fn lemma_with_message_is_insert(s: Seq<MessageView>, m: MessageView, pos: int)
    requires
        sorted(s),
        splits_at(s, m.time, pos),
    ensures
        with_message(s, m) == s.insert(pos, m),
        sorted(with_message(s, m)),
{
    lemma_split(s, m.time, pos);
    let r = s.insert(pos, m);
    assert(with_message(s, m) =~= r);
    assert forall|i: int, j: int| 0 <= i <= j < r.len() implies r[i].time.key()
        <= r[j].time.key() by {
        let a = if i < pos { i } else { i - 1 };
        let b = if j < pos { j } else { j - 1 };
        if i != pos && j != pos {
            assert(r[i] == s[a] && r[j] == s[b]);
        } else if i == pos && j != pos {
            assert(r[j] == s[b]);
        } else if i != pos && j == pos {
            assert(r[i] == s[a]);
        }
    }
}

/// Every sorted log has a place where `t` parts it: behind the messages that
/// are not later than `t`.
proof fn lemma_split_point(s: Seq<MessageView>, t: Timestamp)
    requires
        sorted(s),
    ensures
        splits_at(s, t, not_after(s, t).len() as int),
    decreases s.len(),
{
    reveal(Seq::filter);
    if s.len() > 0 {
        let front = s.drop_last();
        assert forall|i: int, j: int| 0 <= i <= j < front.len() implies front[i].time.key()
            <= front[j].time.key() by {
            assert(front[i] == s[i] && front[j] == s[j]);
        }
        lemma_split_point(front, t);
        let pos = not_after(front, t).len() as int;
        if s.last().time.key() <= t.key() {
            if pos < front.len() {
                assert(front[pos] == s[pos]);
                assert(s[pos].time.key() <= s[s.len() - 1].time.key());
            }
            assert forall|i: int| 0 <= i < s.len() implies (#[trigger] s[i]).time.key()
                <= t.key() by {
                assert(s[i].time.key() <= s[s.len() - 1].time.key());
            }
        } else {
            assert forall|i: int| 0 <= i < pos implies (#[trigger] s[i]).time.key()
                <= t.key() by {
                assert(front[i] == s[i]);
            }
            assert forall|i: int| pos <= i < s.len() implies (#[trigger] s[i]).time.key()
                > t.key() by {
                if i < front.len() {
                    assert(front[i] == s[i]);
                }
            }
        }
    }
}

proof fn lemma_empty_multiset(s: Seq<MessageView>)
    requires
        s.len() == 0,
    ensures
        s.to_multiset() == Multiset::<MessageView>::empty(),
{
    s.to_multiset_ensures();
    assert(s.to_multiset().len() == 0);
    assert(s.to_multiset() =~= Multiset::<MessageView>::empty());
}

proof fn lemma_single_multiset(m: MessageView)
    ensures
        seq![m].to_multiset() == Multiset::<MessageView>::empty().insert(m),
{
    let e = Seq::<MessageView>::empty();
    lemma_empty_multiset(e);
    vstd::seq_lib::to_multiset_build(e, m);
    assert(e.push(m) =~= seq![m]);
}

proof fn lemma_insert_multiset(head: Seq<MessageView>, tail: Seq<MessageView>, m: MessageView)
    ensures
        (head + seq![m] + tail).to_multiset() == (head + tail).to_multiset().insert(m),
{
    vstd::seq_lib::lemma_multiset_commutative(head + seq![m], tail);
    vstd::seq_lib::lemma_multiset_commutative(head, seq![m]);
    vstd::seq_lib::lemma_multiset_commutative(head, tail);
    lemma_single_multiset(m);
    assert((head + seq![m] + tail).to_multiset() =~= (head + tail).to_multiset().insert(m));
}

proof fn lemma_later_never_at(s: Seq<MessageView>, t: Timestamp)
    ensures
        after(s, t).filter(is_at(t)) == Seq::<MessageView>::empty(),
    decreases s.len(),
{
    reveal(Seq::filter);
    if s.len() > 0 {
        let front = after(s.drop_last(), t);
        lemma_later_never_at(s.drop_last(), t);
        if is_after(t)(s.last()) {
            assert(front.push(s.last()).drop_last() =~= front);
        }
    }
}

proof fn lemma_insert_ties(
    head: Seq<MessageView>,
    tail: Seq<MessageView>,
    m: MessageView,
    t: Timestamp,
)
    requires
        tail.filter(is_at(m.time)) == Seq::<MessageView>::empty(),
    ensures
        (head + seq![m] + tail).filter(is_at(t)) == (head + tail).filter(is_at(t)) + seq![
            m,
        ].filter(is_at(t)),
{
    let p = is_at(t);
    let e = Seq::<MessageView>::empty();
    Seq::filter_distributes_over_add(head + seq![m], tail, p);
    Seq::filter_distributes_over_add(head, seq![m], p);
    Seq::filter_distributes_over_add(head, tail, p);
    if t == m.time {
        assert(head.filter(p) + e =~= head.filter(p));
        assert(head.filter(p) + seq![m].filter(p) + e =~= head.filter(p) + seq![m].filter(p));
    } else {
        assert(seq![m][0] == m);
        lemma_filter_drops_all(seq![m], p);
        assert(head.filter(p) + e =~= head.filter(p));
        assert((head.filter(p) + tail.filter(p)) + e =~= head.filter(p) + tail.filter(p));
    }
}

/// A sorted log is its messages up to `t` followed by its messages after `t`.
pub proof fn lemma_partition(s: Seq<MessageView>, t: Timestamp)
    requires
        sorted(s),
    ensures
        not_after(s, t) + after(s, t) == s,
{
    let pos = not_after(s, t).len() as int;
    lemma_split_point(s, t);
    lemma_split(s, t, pos);
    lemma_halves(s, pos);
}

proof fn lemma_halves<A>(s: Seq<A>, pos: int)
    requires
        0 <= pos <= s.len(),
    ensures
        s.subrange(0, pos) + s.subrange(pos, s.len() as int) == s,
{
    assert(s.subrange(0, pos) + s.subrange(pos, s.len() as int) =~= s);
}

proof fn lemma_append_sorted(s: Seq<MessageView>, m: MessageView)
    requires
        sorted(s),
    ensures
        sorted(with_message(s, m)),
        with_message(s, m).len() == s.len() + 1,
{
    let pos = not_after(s, m.time).len() as int;
    lemma_split_point(s, m.time);
    lemma_with_message_is_insert(s, m, pos);
}

proof fn lemma_append_multiset(s: Seq<MessageView>, m: MessageView)
    requires
        sorted(s),
    ensures
        with_message(s, m).to_multiset() == s.to_multiset().insert(m),
{
    lemma_partition(s, m.time);
    lemma_insert_multiset(not_after(s, m.time), after(s, m.time), m);
}

proof fn lemma_append_ties(s: Seq<MessageView>, m: MessageView, t: Timestamp)
    requires
        sorted(s),
    ensures
        with_message(s, m).filter(is_at(t)) == s.filter(is_at(t)) + seq![m].filter(is_at(t)),
{
    lemma_partition(s, m.time);
    lemma_later_never_at(s, m.time);
    lemma_insert_ties(not_after(s, m.time), after(s, m.time), m, t);
}

/// One append keeps the log sorted, adds exactly the new message, and places
/// it behind the messages that share its timestamp.
pub proof fn lemma_append_keeps_order_and_loses_nothing(s: Seq<MessageView>, m: MessageView)
    requires
        sorted(s),
    ensures
        sorted(with_message(s, m)),
        with_message(s, m).len() == s.len() + 1,
        with_message(s, m).to_multiset() == s.to_multiset().insert(m),
        forall|t: Timestamp|
            #![trigger is_at(t)]
            with_message(s, m).filter(is_at(t)) == s.filter(is_at(t)) + seq![m].filter(is_at(t)),
{
    lemma_append_sorted(s, m);
    lemma_append_multiset(s, m);
    assert forall|t: Timestamp|
        #![trigger is_at(t)]
        with_message(s, m).filter(is_at(t)) == s.filter(is_at(t)) + seq![m].filter(
            is_at(t),
        ) by {
        lemma_append_ties(s, m, t);
    }
}

/// Whatever is appended to a room, in whatever order, the log stays sorted by
/// time, holds every old and every new message exactly as often as it was
/// given, and keeps the messages of one timestamp in the order of their arrival.
pub proof fn lemma_appends_keep_order_and_lose_nothing(s: Seq<MessageView>, ms: Seq<MessageView>)
    requires
        sorted(s),
    ensures
        sorted(with_messages(s, ms)),
        with_messages(s, ms).len() == s.len() + ms.len(),
        with_messages(s, ms).to_multiset() == s.to_multiset().add(ms.to_multiset()),
        forall|t: Timestamp|
            #![trigger is_at(t)]
            with_messages(s, ms).filter(is_at(t)) == s.filter(is_at(t)) + ms.filter(is_at(t)),
    decreases ms.len(),
{
    if ms.len() == 0 {
        lemma_empty_multiset(ms);
        assert(s.to_multiset().add(ms.to_multiset()) =~= s.to_multiset());
        assert forall|t: Timestamp|
            #![trigger is_at(t)]
            s.filter(is_at(t)) == s.filter(is_at(t)) + ms.filter(is_at(t)) by {
            lemma_filter_drops_all(ms, is_at(t));
            assert(s.filter(is_at(t)) + Seq::<MessageView>::empty() =~= s.filter(is_at(t)));
        }
    } else {
        let front = ms.drop_last();
        let m = ms.last();
        let mid = with_messages(s, front);
        lemma_appends_keep_order_and_lose_nothing(s, front);
        lemma_append_keeps_order_and_loses_nothing(mid, m);
        assert(front.push(m) =~= ms);
        assert(with_messages(s, ms).to_multiset() == s.to_multiset().add(ms.to_multiset())) by {
            vstd::seq_lib::to_multiset_build(front, m);
            assert(mid.to_multiset().insert(m) =~= s.to_multiset().add(
                front.to_multiset().insert(m),
            ));
        }
        assert forall|t: Timestamp|
            #![trigger is_at(t)]
            with_messages(s, ms).filter(is_at(t)) == s.filter(is_at(t)) + ms.filter(
                is_at(t),
            ) by {
            let p = is_at(t);
            assert(front + seq![m] =~= ms);
            Seq::filter_distributes_over_add(front, seq![m], p);
            assert(mid.filter(p) == s.filter(p) + front.filter(p));
            assert(with_message(mid, m).filter(p) == mid.filter(p) + seq![m].filter(p));
            assert((s.filter(p) + front.filter(p)) + seq![m].filter(p) =~= s.filter(p) + (
            front.filter(p) + seq![m].filter(p)));
        }
    }
}

} // verus!
