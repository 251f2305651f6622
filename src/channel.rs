//! A multi-producer, single-consumer channel of strings.
//!
//! `Channel` holds the state that the sending handles and the receiving
//! handle share: the values sent and not yet received, oldest first, how many
//! sending handles are alive, and whether the receiving handle still is. The
//! caller decides when a receive that finds the queue empty waits.
use vstd::prelude::*;
use vstd::seq_lib::lemma_multiset_commutative;

verus! {

/// What a receive finds.
pub enum Received {
    /// The oldest value not yet received.
    Value(String),
    /// Nothing is queued, but some sending handle is alive: wait and retry.
    Empty,
    /// Nothing is queued and no sending handle is left: the stream has ended.
    Closed,
}

/// A send that found the receiving handle gone; the value comes back.
pub struct SendError {
    pub value: String,
}

pub struct Channel {
    queue: Vec<String>,
    senders: usize,
    receiver_open: bool,
}

impl Channel {
    /// The values sent and not yet received, oldest first.
    pub closed spec fn pending(&self) -> Seq<String> {
        self.queue@
    }

    /// How many sending handles are alive.
    pub closed spec fn senders(&self) -> nat {
        self.senders as nat
    }

    /// Whether the receiving handle is alive.
    pub closed spec fn receiver_open(&self) -> bool {
        self.receiver_open
    }

    /// A channel with one sending handle, an open receiving handle and
    /// nothing queued.
    pub fn new() -> (r: Channel)
        ensures
            r.pending() == Seq::<String>::empty(),
            r.senders() == 1,
            r.receiver_open(),
    {
        Channel { queue: Vec::new(), senders: 1, receiver_open: true }
    }

    /// Number of sending handles alive.
    pub fn sender_count(&self) -> (r: usize)
        ensures
            r == self.senders(),
    {
        self.senders
    }

    /// Whether the receiving handle is alive.
    pub fn is_receiver_open(&self) -> (r: bool)
        ensures
            r == self.receiver_open(),
    {
        self.receiver_open
    }

    /// Number of values waiting to be received.
    pub fn pending_len(&self) -> (r: usize)
        ensures
            r == self.pending().len(),
    {
        self.queue.len()
    }

    /// A new sending handle, as when a sender is cloned.
    pub fn add_sender(&mut self)
        requires
            old(self).senders() < usize::MAX,
        ensures
            final(self).senders() == old(self).senders() + 1,
            final(self).pending() == old(self).pending(),
            final(self).receiver_open() == old(self).receiver_open(),
    {
        self.senders = self.senders + 1;
    }

    /// A sending handle goes away.
    pub fn drop_sender(&mut self)
        requires
            old(self).senders() > 0,
        ensures
            final(self).senders() == old(self).senders() - 1,
            final(self).pending() == old(self).pending(),
            final(self).receiver_open() == old(self).receiver_open(),
    {
        self.senders = self.senders - 1;
    }

    /// The receiving handle goes away; what was queued is discarded.
    pub fn close_receiver(&mut self)
        ensures
            final(self).senders() == old(self).senders(),
            final(self).pending() == Seq::<String>::empty(),
            !final(self).receiver_open(),
    {
        self.receiver_open = false;
        self.queue = Vec::new();
    }

    /// Sends `value` through a live sending handle. It is queued behind every
    /// value sent before it, unless the receiving handle is gone, in which
    /// case it comes back in the error and nothing changes.
    pub fn send(&mut self, value: String) -> (r: Result<(), SendError>)
        requires
            old(self).senders() > 0,
        ensures
            final(self).senders() == old(self).senders(),
            final(self).receiver_open() == old(self).receiver_open(),
            old(self).receiver_open() ==> r is Ok && final(self).pending() == old(
                self,
            ).pending().push(value),
            !old(self).receiver_open() ==> r is Err && r->Err_0.value == value
                && final(self).pending() == old(self).pending(),
    {
        if self.receiver_open {
            self.queue.push(value);
            Ok(())
        } else {
            Err(SendError { value })
        }
    }

    /// Receives the oldest queued value; `Empty` when nothing is queued but
    /// a sender may still send, `Closed` when nothing is queued and no sender
    /// is left.
    pub fn recv(&mut self) -> (r: Received)
        requires
            old(self).receiver_open(),
        ensures
            final(self).senders() == old(self).senders(),
            final(self).receiver_open(),
            old(self).pending().len() > 0 ==> r == Received::Value(old(self).pending()[0])
                && final(self).pending() == old(self).pending().drop_first(),
            old(self).pending().len() == 0 ==> final(self).pending() == old(self).pending(),
            old(self).pending().len() == 0 && old(self).senders() > 0 ==> r is Empty,
            old(self).pending().len() == 0 && old(self).senders() == 0 ==> r is Closed,
    {
        if self.queue.len() > 0 {
            let v = self.queue.remove(0);
            assert(self.queue@ =~= old(self).queue@.drop_first());
            Received::Value(v)
        } else if self.senders > 0 {
            Received::Empty
        } else {
            Received::Closed
        }
    }
}

/// Two producers send the values of `a` and of `b`, in order, through one
/// channel, their sends completing as `schedule` says (see `merge`); each
/// then drops its sending handle, and the consumer receives until the stream
/// ends. Returns what the consumer received, in order.
pub fn fan_in(a: Vec<String>, b: Vec<String>, schedule: &Vec<bool>) -> (r: Vec<String>)
    ensures
        r@ == merge(a@, b@, schedule@),
{
    let ghost total = merge(a@, b@, schedule@);
    let mut a = a;
    let mut b = b;
    let mut channel = Channel::new();
    channel.add_sender();
    let mut k: usize = 0;
    proof {
        assert(schedule@.skip(0) =~= schedule@);
        assert(channel.pending() + total =~= total);
    }
    while a.len() > 0 || b.len() > 0
        invariant
            k <= schedule@.len(),
            channel.senders() == 2,
            channel.receiver_open(),
            channel.pending() + merge(a@, b@, schedule@.skip(k as int)) == total,
        decreases a@.len() + b@.len(),
    {
        let ghost rest = schedule@.skip(k as int);
        let from_a = if a.len() == 0 {
            false
        } else if b.len() == 0 {
            true
        } else {
            !(k < schedule.len() && !schedule[k])
        };
        if a.len() > 0 && b.len() > 0 && k < schedule.len() {
            k = k + 1;
            assert(schedule_rest(rest) =~= schedule@.skip(k as int));
        }
        let ghost before = channel.pending();
        let ghost a_before = a@;
        let ghost b_before = b@;
        let value = if from_a {
            a.remove(0)
        } else {
            b.remove(0)
        };
        let ghost v = value;
        let _ = channel.send(value);
        proof {
            let next = schedule@.skip(k as int);
            if a_before.len() == 0 {
                assert(next == rest);
                assert(b_before =~= seq![v] + b@);
            } else if b_before.len() == 0 {
                assert(next == rest);
                assert(a_before =~= seq![v] + a@);
            } else {
                assert(next == schedule_rest(rest));
                assert(rest.len() > 0 ==> rest[0] == schedule@[k - 1]);
            }
            assert(merge(a_before, b_before, rest) =~= seq![v] + merge(a@, b@, next));
            assert(channel.pending() + merge(a@, b@, next) =~= before + merge(
                a_before,
                b_before,
                rest,
            ));
        }
    }
    channel.drop_sender();
    channel.drop_sender();
    let mut out: Vec<String> = Vec::new();
    proof {
        assert(merge(a@, b@, schedule@.skip(k as int)) =~= Seq::<String>::empty());
        assert(out@ + channel.pending() =~= total);
    }
    while channel.pending_len() > 0
        invariant
            channel.senders() == 0,
            channel.receiver_open(),
            out@ + channel.pending() == total,
        decreases channel.pending().len(),
    {
        let ghost before = channel.pending();
        match channel.recv() {
            Received::Value(v) => {
                out.push(v);
                assert(out@ + channel.pending() =~= total);
            },
            _ => {},
        }
    }
    assert(out@ =~= total);
    out
}

/// The rest of a schedule once its first entry is used.
pub open spec fn schedule_rest(s: Seq<bool>) -> Seq<bool> {
    if s.len() > 0 {
        s.drop_first()
    } else {
        s
    }
}

/// The order in which the consumer receives the values of two producers, `a`
/// and `b`, when their sends complete as `s` says. While both producers have
/// values left, each entry of `s` says which of them sends next (`true`: `a`);
/// once `s` runs out, `a` goes first. A producer with nothing left uses no
/// entry.
pub open spec fn merge(a: Seq<String>, b: Seq<String>, s: Seq<bool>) -> Seq<String>
    decreases a.len() + b.len(),
{
    if a.len() == 0 {
        b
    } else if b.len() == 0 {
        a
    } else if s.len() > 0 && !s[0] {
        seq![b[0]] + merge(a, b.drop_first(), schedule_rest(s))
    } else {
        seq![a[0]] + merge(a.drop_first(), b, schedule_rest(s))
    }
}

/// For each value of `merge(a, b, s)`, whether it came from `a`.
pub open spec fn merge_origin(a: Seq<String>, b: Seq<String>, s: Seq<bool>) -> Seq<bool>
    decreases a.len() + b.len(),
{
    if a.len() == 0 {
        Seq::new(b.len(), |i: int| false)
    } else if b.len() == 0 {
        Seq::new(a.len(), |i: int| true)
    } else if s.len() > 0 && !s[0] {
        seq![false] + merge_origin(a, b.drop_first(), schedule_rest(s))
    } else {
        seq![true] + merge_origin(a.drop_first(), b, schedule_rest(s))
    }
}

/// The values of `r` at the positions where `tags` holds `side`, in order.
pub open spec fn select(r: Seq<String>, tags: Seq<bool>, side: bool) -> Seq<String>
    decreases r.len(),
{
    if r.len() == 0 || tags.len() == 0 {
        Seq::empty()
    } else if tags[0] == side {
        seq![r[0]] + select(r.drop_first(), tags.drop_first(), side)
    } else {
        select(r.drop_first(), tags.drop_first(), side)
    }
}

proof fn lemma_select_uniform(r: Seq<String>, side: bool)
    ensures
        select(r, Seq::new(r.len(), |i: int| side), side) == r,
        select(r, Seq::new(r.len(), |i: int| side), !side) == Seq::<String>::empty(),
    decreases r.len(),
{
    if r.len() > 0 {
        let tags = Seq::new(r.len(), |i: int| side);
        assert(tags.drop_first() =~= Seq::new(r.drop_first().len(), |i: int| side));
        lemma_select_uniform(r.drop_first(), side);
        assert(r =~= seq![r[0]] + r.drop_first());
    }
}

proof fn lemma_select_cons(x: String, r: Seq<String>, t: bool, tags: Seq<bool>, side: bool)
    ensures
        select(seq![x] + r, seq![t] + tags, side) == if t == side {
            seq![x] + select(r, tags, side)
        } else {
            select(r, tags, side)
        },
{
    assert((seq![x] + r).drop_first() =~= r);
    assert((seq![t] + tags).drop_first() =~= tags);
}

/// Every value of two producers reaches the consumer exactly once, and the
/// values of each producer arrive in the order it sent them: whatever the
/// schedule, the values tagged as coming from `a` are `a`, those tagged as
/// coming from `b` are `b`, and together they are the values of both.
pub proof fn lemma_fan_in_delivers_each_once_in_order(
    a: Seq<String>,
    b: Seq<String>,
    s: Seq<bool>,
)
    ensures
        merge(a, b, s).len() == a.len() + b.len(),
        merge_origin(a, b, s).len() == merge(a, b, s).len(),
        select(merge(a, b, s), merge_origin(a, b, s), true) == a,
        select(merge(a, b, s), merge_origin(a, b, s), false) == b,
        merge(a, b, s).to_multiset() == a.to_multiset().add(b.to_multiset()),
    decreases a.len() + b.len(),
{
    broadcast use vstd::multiset::group_multiset_axioms;

    if a.len() == 0 {
        lemma_select_uniform(b, false);
        assert(a + b =~= b);
        lemma_multiset_commutative(a, b);
        assert(merge(a, b, s).to_multiset() =~= a.to_multiset().add(b.to_multiset()));
    } else if b.len() == 0 {
        lemma_select_uniform(a, true);
        assert(a + b =~= a);
        lemma_multiset_commutative(a, b);
        assert(merge(a, b, s).to_multiset() =~= a.to_multiset().add(b.to_multiset()));
    } else if s.len() > 0 && !s[0] {
        let b2 = b.drop_first();
        let s2 = schedule_rest(s);
        lemma_fan_in_delivers_each_once_in_order(a, b2, s2);
        lemma_select_cons(b[0], merge(a, b2, s2), false, merge_origin(a, b2, s2), true);
        lemma_select_cons(b[0], merge(a, b2, s2), false, merge_origin(a, b2, s2), false);
        assert(b =~= seq![b[0]] + b2);
        lemma_multiset_commutative(seq![b[0]], merge(a, b2, s2));
        lemma_multiset_commutative(seq![b[0]], b2);
        assert(merge(a, b, s).to_multiset() =~= a.to_multiset().add(b.to_multiset()));
    } else {
        let a2 = a.drop_first();
        let s2 = schedule_rest(s);
        lemma_fan_in_delivers_each_once_in_order(a2, b, s2);
        lemma_select_cons(a[0], merge(a2, b, s2), true, merge_origin(a2, b, s2), true);
        lemma_select_cons(a[0], merge(a2, b, s2), true, merge_origin(a2, b, s2), false);
        assert(a =~= seq![a[0]] + a2);
        lemma_multiset_commutative(seq![a[0]], merge(a2, b, s2));
        lemma_multiset_commutative(seq![a[0]], a2);
        assert(merge(a, b, s).to_multiset() =~= a.to_multiset().add(b.to_multiset()));
    }
}

} // verus!
