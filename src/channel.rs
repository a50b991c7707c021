use vstd::prelude::*;

verus! {

/// How many of the most recent messages the channel keeps for readers that
/// have fallen behind.
pub const STATUS_BACKLOG: usize = 16;

/// The index of the oldest message still retained after `published` messages.
pub open spec fn oldest_retained(published: nat) -> nat {
    if published > STATUS_BACKLOG {
        (published - STATUS_BACKLOG) as nat
    } else {
        0
    }
}

/// A single-producer, many-reader broadcast of status texts.
///
/// Every message is appended to one shared backlog of bounded depth; a reader
/// is a cursor into the sequence of all messages ever published, so publishing
/// never waits for, nor depends on, any reader.
pub struct StatusChannel {
    log: Vec<String>,
    base: u64,
    history: Ghost<Seq<Seq<char>>>,
}

/// One reader's independent position in a `StatusChannel`.
pub struct Subscription {
    first: Option<String>,
    cursor: u64,
}

/// The outcome of one read from a subscription.
pub enum Delivery {
    /// The next message for this reader.
    Message(String),
    /// The reader fell behind the backlog; this many messages were skipped.
    Lagged(u64),
    /// Nothing new has been published.
    Empty,
}

impl Subscription {
    /// The index of the next message this reader will take from the channel.
    pub closed spec fn cursor(&self) -> nat {
        self.cursor as nat
    }

    /// A message handed to this reader before anything from the channel.
    pub closed spec fn first(&self) -> Option<Seq<char>> {
        match self.first {
            Some(m) => Some(m@),
            None => None,
        }
    }

    /// A subscription positioned at `cursor` whose first delivery is `first`.
    pub(crate) fn starting_with(first: String, cursor: u64) -> (s: Subscription)
        ensures
            s.first() == Some(first@),
            s.cursor() == cursor,
    {
        Subscription { first: Some(first), cursor }
    }
}

impl StatusChannel {
    /// Every message published on this channel, oldest first.
    pub closed spec fn history(&self) -> Seq<Seq<char>> {
        self.history@
    }

    pub open spec fn published(&self) -> nat {
        self.history().len()
    }

    /// The index of the oldest message still held for late readers.
    pub open spec fn oldest(&self) -> nat {
        oldest_retained(self.published())
    }

    pub closed spec fn wf(&self) -> bool {
        &&& self.log@.len() <= STATUS_BACKLOG
        &&& self.base + self.log@.len() == self.history@.len()
        &&& self.base == oldest_retained(self.history@.len())
        &&& self.history@.len() <= u64::MAX
        &&& forall|i: int| 0 <= i < self.log@.len() ==> #[trigger] self.log@[i]@ == self.history@[self.base + i]
    }

    /// What a subscription still has to read, in order, if it reads until
    /// nothing is left: its first message, then every retained message from
    /// its cursor on (a reader behind the backlog resumes at the oldest).
    pub open spec fn deliveries(&self, s: &Subscription) -> Seq<Seq<char>> {
        let start = if s.cursor() < self.oldest() { self.oldest() } else { s.cursor() };
        let rest = if start <= self.published() {
            self.history().subrange(start as int, self.published() as int)
        } else {
            Seq::empty()
        };
        match s.first() {
            Some(m) => seq![m] + rest,
            None => rest,
        }
    }

    pub fn new() -> (c: StatusChannel)
        ensures
            c.wf(),
            c.history() == Seq::<Seq<char>>::empty(),
    {
        StatusChannel { log: Vec::new(), base: 0, history: Ghost(Seq::empty()) }
    }

    /// Makes `message` available to every subscription; never fails and
    /// never waits on a reader. The oldest message beyond the backlog depth
    /// is dropped.
    pub fn publish(&mut self, message: String)
        requires
            old(self).wf(),
            old(self).published() < u64::MAX,
        ensures
            final(self).wf(),
            final(self).history() == old(self).history().push(message@),
    {
        let ghost m = message@;
        if self.log.len() == STATUS_BACKLOG {
            self.log.remove(0);
            self.base = self.base + 1;
        }
        self.log.push(message);
        self.history = Ghost(self.history@.push(m));
        assert forall|i: int| 0 <= i < self.log@.len() implies #[trigger] self.log@[i]@
            == self.history@[self.base + i] by {
            if i < self.log@.len() - 1 {
                assert(self.history@[self.base + i] == old(self).history@[old(self).base + (
                self.base - old(self).base) + i]);
            }
        }
    }

    /// A new subscription that receives every message published from now on.
    pub fn subscribe(&self) -> (s: Subscription)
        requires
            self.wf(),
        ensures
            s.first() is None,
            s.cursor() == self.published(),
    {
        Subscription { first: None, cursor: self.base + self.log.len() as u64 }
    }

    /// The index the next published message will get.
    pub(crate) fn next_index(&self) -> (n: u64)
        requires
            self.wf(),
        ensures
            n == self.published(),
    {
        self.base + self.log.len() as u64
    }

    /// Takes the next delivery for `sub`.
    pub fn recv(&self, sub: &mut Subscription) -> (r: Delivery)
        requires
            self.wf(),
        ensures
            old(sub).first() is Some ==> r is Message && r->Message_0@ == old(sub).first()->0
                && final(sub).first() is None && final(sub).cursor() == old(sub).cursor(),
            old(sub).first() is None && old(sub).cursor() < self.oldest() ==> r is Lagged
                && r->Lagged_0 == self.oldest() - old(sub).cursor()
                && final(sub).first() is None && final(sub).cursor() == self.oldest(),
            old(sub).first() is None && self.oldest() <= old(sub).cursor() < self.published()
                ==> r is Message && r->Message_0@ == self.history()[old(sub).cursor() as int]
                && final(sub).first() is None && final(sub).cursor() == old(sub).cursor() + 1,
            old(sub).first() is None && old(sub).cursor() >= self.published() ==> r is Empty
                && *final(sub) == *old(sub),
            r is Message ==> self.deliveries(old(sub)) == seq![r->Message_0@] + self.deliveries(
                final(sub)),
            r is Lagged ==> self.deliveries(old(sub)) == self.deliveries(final(sub)),
            r is Empty <==> self.deliveries(old(sub)).len() == 0,
    {
        let first = sub.first.take();
        match first {
            Some(m) => {
                return Delivery::Message(m);
            },
            None => {},
        }
        if sub.cursor < self.base {
            let skipped = self.base - sub.cursor;
            sub.cursor = self.base;
            Delivery::Lagged(skipped)
        } else if sub.cursor - self.base < self.log.len() as u64 {
            let m = self.log[(sub.cursor - self.base) as usize].clone();
            proof {
                let k = (sub.cursor - self.base) as int;
                assert(self.log@[k]@ == self.history@[self.base + k]);
                let rest = self.history().subrange(sub.cursor as int, self.published() as int);
                assert(rest =~= seq![m@] + self.history().subrange(
                    sub.cursor + 1,
                    self.published() as int,
                ));
            }
            sub.cursor = sub.cursor + 1;
            Delivery::Message(m)
        } else {
            Delivery::Empty
        }
    }
}

/// Two readers that start at the same point of a channel read the same
/// messages in the same order: every message published from that point on,
/// as long as neither has fallen behind the backlog.
pub proof fn lemma_readers_agree(c: &StatusChannel, a: &Subscription, b: &Subscription)
    requires
        c.wf(),
        a.first() == b.first(),
        a.cursor() == b.cursor(),
    ensures
        c.deliveries(a) == c.deliveries(b),
        c.oldest() <= a.cursor() <= c.published() && a.first() is None ==> c.deliveries(a)
            == c.history().subrange(a.cursor() as int, c.published() as int),
{
}

/// A reader sees nothing that was published before it subscribed: all that
/// reaches it is its first message, if any, then an unbroken run of the
/// messages published from its cursor on.
pub proof fn lemma_no_replay(c: &StatusChannel, s: &Subscription)
    requires
        c.wf(),
        s.cursor() <= c.published(),
    ensures
        exists|start: int|
            s.cursor() <= start <= c.published() && #[trigger] c.history().subrange(
                start,
                c.published() as int,
            ) == match s.first() {
                Some(m) => c.deliveries(s).drop_first(),
                None => c.deliveries(s),
            },
        s.first() is Some ==> c.deliveries(s)[0] == s.first()->0,
{
    let start: int = if s.cursor() < c.oldest() { c.oldest() as int } else { s.cursor() as int };
    let rest = c.history().subrange(start, c.published() as int);
    if s.first() is Some {
        assert((seq![s.first()->0] + rest).drop_first() =~= rest);
    }
    assert(s.cursor() <= start <= c.published());
}

/// A reader that fell behind loses only the oldest messages: it resumes at the
/// oldest one retained and then reads every later message in order.
pub proof fn lemma_slow_reader_skips_oldest(c: &StatusChannel, s: &Subscription)
    requires
        c.wf(),
        s.first() is None,
        s.cursor() < c.oldest(),
    ensures
        c.deliveries(s) == c.history().subrange(c.oldest() as int, c.published() as int),
        c.published() - c.oldest() == STATUS_BACKLOG,
{
}

} // verus!
