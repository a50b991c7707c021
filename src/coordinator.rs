use vstd::prelude::*;
use vstd::string::*;
use crate::channel::{StatusChannel, Subscription};
use crate::status::WiFiStatus;

verus! {

/// Network credentials pushed by a controller, held only for one attempt.
pub struct Credentials {
    pub network_identifier: String,
    pub secret: String,
}

pub struct CredentialsView {
    pub network_identifier: Seq<char>,
    pub secret: Seq<char>,
}

impl View for Credentials {
    type V = CredentialsView;

    open spec fn view(&self) -> CredentialsView {
        CredentialsView { network_identifier: self.network_identifier@, secret: self.secret@ }
    }
}

impl Credentials {
    pub fn new(network_identifier: String, secret: String) -> (c: Credentials)
        ensures
            c.network_identifier@ == network_identifier@,
            c.secret@ == secret@,
    {
        Credentials { network_identifier, secret }
    }

    pub fn duplicate(&self) -> (c: Credentials)
        ensures
            c@ == self@,
    {
        Credentials {
            network_identifier: self.network_identifier.clone(),
            secret: self.secret.clone(),
        }
    }
}

/// A decoded write: the credentials, or why the payload could not be read.
pub type WriteView = Result<CredentialsView, Seq<char>>;

pub open spec fn write_view(w: Result<Credentials, String>) -> WriteView {
    match w {
        Ok(c) => Ok(c@),
        Err(m) => Err(m@),
    }
}

pub open spec fn fault_view(r: Result<(), String>) -> Option<Seq<char>> {
    match r {
        Ok(_) => None,
        Err(m) => Some(m@),
    }
}

pub open spec fn attachment_view(r: Result<Option<String>, String>) -> Result<
    Option<Seq<char>>,
    Seq<char>,
> {
    match r {
        Ok(Some(id)) => Ok(Some(id@)),
        Ok(None) => Ok(None),
        Err(m) => Err(m@),
    }
}

/// Where the attempt in flight stands.
#[derive(Clone, Copy, PartialEq, Eq, Structural)]
pub enum Phase {
    /// No attempt is in flight.
    Idle,
    /// Waiting for the configuration to be stored.
    WritingConfig,
    /// Waiting for the networking stack to reload it.
    Reloading,
    /// Waiting out the settle interval.
    Settling,
    /// Waiting for the attached network to be reported.
    Verifying,
}

/// The outside work the caller has to do next, and report back.
pub enum Action {
    /// Store these credentials as the active network configuration,
    /// then call `config_written`.
    WriteConfig(Credentials),
    /// Have the networking stack reload its configuration, then call
    /// `config_reloaded`.
    Reload,
    /// Wait `SETTLE_SECS` seconds, then call `settled`.
    Settle,
    /// Query the attached network, then call `verified`.
    Verify,
    /// Nothing is left for this caller to drive.
    Done,
}

/// Seconds to let the link establish before checking it.
pub const SETTLE_SECS: u64 = 5;

/// The abstract state of a coordinator.
pub struct CoordinatorView {
    /// Wire text of the current status.
    pub status: Seq<char>,
    /// Every status text broadcast so far.
    pub history: Seq<Seq<char>>,
    pub phase: Phase,
    /// The credentials of the attempt in flight.
    pub target: Option<CredentialsView>,
    /// Writes waiting for the attempt in flight to end, oldest first.
    pub queue: Seq<WriteView>,
}

impl Action {
    /// The action is the one that the phase of `v` waits for.
    pub open spec fn directs(&self, v: CoordinatorView) -> bool {
        match self {
            Action::WriteConfig(c) => v.phase == Phase::WritingConfig && v.target == Some(c@),
            Action::Reload => v.phase == Phase::Reloading,
            Action::Settle => v.phase == Phase::Settling,
            Action::Verify => v.phase == Phase::Verifying,
            Action::Done => v.phase == Phase::Idle,
        }
    }
}

pub open spec fn error_text(m: Seq<char>) -> Seq<char> {
    "ERROR: "@ + m
}

/// `v` with `s` made current and broadcast, as one step.
pub open spec fn with_status(v: CoordinatorView, s: Seq<char>) -> CoordinatorView {
    CoordinatorView { status: s, history: v.history.push(s), ..v }
}

/// From an idle state, takes queued writes in order: a malformed one makes
/// its error current; the first well-formed one starts an attempt.
pub open spec fn start_next(v: CoordinatorView) -> CoordinatorView
    decreases v.queue.len(),
{
    if v.queue.len() == 0 {
        CoordinatorView { phase: Phase::Idle, target: None, ..v }
    } else {
        let rest = CoordinatorView { queue: v.queue.drop_first(), ..v };
        match v.queue[0] {
            Err(m) => start_next(with_status(rest, error_text(m))),
            Ok(c) => with_status(
                CoordinatorView { phase: Phase::WritingConfig, target: Some(c), ..rest },
                "CONNECTING"@,
            ),
        }
    }
}

/// A write arrives: it is queued, and taken at once when nothing is in flight.
pub open spec fn after_write(v: CoordinatorView, w: WriteView) -> CoordinatorView {
    let queued = CoordinatorView { queue: v.queue.push(w), ..v };
    if v.phase == Phase::Idle {
        start_next(queued)
    } else {
        queued
    }
}

/// The attempt in flight ends with terminal status `s`; the next queued
/// write, if any, is taken.
pub open spec fn finish(v: CoordinatorView, s: Seq<char>) -> CoordinatorView {
    start_next(with_status(CoordinatorView { phase: Phase::Idle, target: None, ..v }, s))
}

pub open spec fn after_config_written(v: CoordinatorView, fault: Option<Seq<char>>) -> CoordinatorView {
    if v.phase != Phase::WritingConfig {
        v
    } else {
        match fault {
            None => CoordinatorView { phase: Phase::Reloading, ..v },
            Some(m) => finish(v, error_text(m)),
        }
    }
}

pub open spec fn after_config_reloaded(v: CoordinatorView, fault: Option<Seq<char>>) -> CoordinatorView {
    if v.phase != Phase::Reloading {
        v
    } else {
        match fault {
            None => CoordinatorView { phase: Phase::Settling, ..v },
            Some(m) => finish(v, error_text(m)),
        }
    }
}

pub open spec fn after_settled(v: CoordinatorView) -> CoordinatorView {
    if v.phase != Phase::Settling {
        v
    } else {
        CoordinatorView { phase: Phase::Verifying, ..v }
    }
}

/// The terminal status for a verification result: connected exactly when the
/// attached network is the requested one.
pub open spec fn verdict(target: Option<CredentialsView>, found: Result<Option<Seq<char>>, Seq<char>>) -> Seq<char> {
    match found {
        Err(m) => error_text(m),
        Ok(Some(id)) => if target is Some && id == target->0.network_identifier {
            "CONNECTED"@
        } else {
            "FAILED"@
        },
        Ok(None) => "FAILED"@,
    }
}

pub open spec fn after_verified(v: CoordinatorView, found: Result<Option<Seq<char>>, Seq<char>>) -> CoordinatorView {
    if v.phase != Phase::Verifying {
        v
    } else {
        finish(v, verdict(v.target, found))
    }
}

/// Owns the current status, runs one configuration attempt at a time, and
/// broadcasts every status change.
pub struct Coordinator {
    status: WiFiStatus,
    channel: StatusChannel,
    phase: Phase,
    target: Option<Credentials>,
    queue: Vec<Result<Credentials, String>>,
}

impl View for Coordinator {
    type V = CoordinatorView;

    closed spec fn view(&self) -> CoordinatorView {
        CoordinatorView {
            status: self.status.wire(),
            history: self.channel.history(),
            phase: self.phase,
            target: match self.target {
                Some(c) => Some(c@),
                None => None,
            },
            queue: self.queue@.map_values(|w: Result<Credentials, String>| write_view(w)),
        }
    }
}

impl Coordinator {
    pub closed spec fn wf(&self) -> bool {
        &&& self.channel.wf()
        &&& (self.phase == Phase::Idle) == (self.target is None)
        &&& self.phase == Phase::Idle ==> self.queue@.len() == 0
        &&& self.status.wire() == if self.channel.published() > 0 {
            self.channel.history().last()
        } else {
            "READY"@
        }
    }

    /// Room left to count broadcasts: the next step publishes at most the
    /// queued writes and two more.
    pub open spec fn has_room_spec(&self) -> bool {
        self@.history.len() + self@.queue.len() + 3 <= u64::MAX
    }

    pub fn new() -> (c: Coordinator)
        ensures
            c.wf(),
            c@.status == "READY"@,
            c@.history == Seq::<Seq<char>>::empty(),
            c@.phase == Phase::Idle,
            c@.queue.len() == 0,
    {
        Coordinator {
            status: WiFiStatus::Ready,
            channel: StatusChannel::new(),
            phase: Phase::Idle,
            target: None,
            queue: Vec::new(),
        }
    }

    pub fn has_room(&self) -> (r: bool)
        requires
            self.wf(),
        ensures
            r == self.has_room_spec(),
    {
        let n = self.channel.next_index();
        let q = self.queue.len() as u64;
        n <= u64::MAX - 3 && q <= u64::MAX - 3 - n
    }

    /// A snapshot of the current status.
    pub fn current_status(&self) -> (s: WiFiStatus)
        ensures
            s.wire() == self@.status,
    {
        self.status.snapshot()
    }

    /// The channel the status changes are broadcast on.
    pub fn channel(&self) -> (c: &StatusChannel)
        requires
            self.wf(),
        ensures
            c.wf(),
            c.history() == self@.history,
    {
        &self.channel
    }

    /// A new reader: it first gets the current status, then every status
    /// broadcast from now on.
    pub fn subscribe_status(&self) -> (s: Subscription)
        requires
            self.wf(),
        ensures
            s.first() == Some(self@.status),
            s.cursor() == self@.history.len(),
    {
        Subscription::starting_with(self.status.to_string(), self.channel.next_index())
    }

    fn set_status(&mut self, s: WiFiStatus)
        requires
            old(self).channel.wf(),
            old(self)@.history.len() < u64::MAX,
        ensures
            final(self).channel.wf(),
            final(self)@ == with_status(old(self)@, s.wire()),
            final(self).phase == old(self).phase,
            final(self).target == old(self).target,
            final(self).queue == old(self).queue,
            final(self).status.wire() == final(self).channel.history().last(),
    {
        let text = s.to_string();
        self.status = s;
        self.channel.publish(text);
    }

    /// Takes queued writes until one starts an attempt or none is left.
    fn start_next(&mut self) -> (r: Action)
        requires
            old(self).channel.wf(),
            old(self).phase == Phase::Idle,
            old(self).target is None,
            old(self).status.wire() == if old(self).channel.published() > 0 {
                old(self).channel.history().last()
            } else {
                "READY"@
            },
            old(self)@.history.len() + old(self)@.queue.len() + 1 <= u64::MAX,
        ensures
            final(self).wf(),
            final(self)@ == start_next(old(self)@),
            r.directs(final(self)@),
    {
        while self.queue.len() > 0
            invariant
                self.channel.wf(),
                self.phase == Phase::Idle,
                self.target is None,
                self.status.wire() == if self.channel.published() > 0 {
                    self.channel.history().last()
                } else {
                    "READY"@
                },
                start_next(self@) == start_next(old(self)@),
                self@.history.len() + self@.queue.len() + 1 <= u64::MAX,
            decreases self.queue@.len(),
        {
            let ghost before = self@;
            let w = self.queue.remove(0);
            proof {
                assert(self@.queue =~= before.queue.drop_first());
            }
            match w {
                Err(m) => {
                    self.set_status(WiFiStatus::Error(m));
                },
                Ok(c) => {
                    self.phase = Phase::WritingConfig;
                    self.target = Some(c.duplicate());
                    self.set_status(WiFiStatus::Connecting);
                    return Action::WriteConfig(c);
                },
            }
        }
        proof {
            assert(self@.queue =~= Seq::<WriteView>::empty());
        }
        Action::Done
    }

    /// Ends the attempt in flight with terminal status `s`.
    fn finish(&mut self, s: WiFiStatus) -> (r: Action)
        requires
            old(self).wf(),
            old(self).phase != Phase::Idle,
            old(self)@.history.len() + old(self)@.queue.len() + 2 <= u64::MAX,
        ensures
            final(self).wf(),
            final(self)@ == finish(old(self)@, s.wire()),
            r.directs(final(self)@),
    {
        self.phase = Phase::Idle;
        self.target = None;
        self.set_status(s);
        self.start_next()
    }

    /// Takes one decoded credentials write. A write that arrives while an
    /// attempt is in flight waits for it to end: attempts never interleave.
    pub fn handle_write(&mut self, w: Result<Credentials, String>) -> (r: Action)
        requires
            old(self).wf(),
            old(self).has_room_spec(),
        ensures
            final(self).wf(),
            final(self)@ == after_write(old(self)@, write_view(w)),
            old(self)@.phase == Phase::Idle ==> r.directs(final(self)@),
            old(self)@.phase != Phase::Idle ==> r is Done,
    {
        let ghost wv = write_view(w);
        let idle = self.phase == Phase::Idle;
        self.queue.push(w);
        proof {
            assert(self@.queue =~= old(self)@.queue.push(wv));
        }
        if idle {
            self.start_next()
        } else {
            Action::Done
        }
    }

    /// The configuration store reports back: a fault ends the attempt with
    /// its error.
    pub fn config_written(&mut self, result: Result<(), String>) -> (r: Action)
        requires
            old(self).wf(),
            old(self).has_room_spec(),
        ensures
            final(self).wf(),
            final(self)@ == after_config_written(old(self)@, fault_view(result)),
            old(self)@.phase == Phase::WritingConfig ==> r.directs(final(self)@),
            old(self)@.phase != Phase::WritingConfig ==> r is Done,
    {
        if self.phase != Phase::WritingConfig {
            return Action::Done;
        }
        match result {
            Ok(()) => {
                self.phase = Phase::Reloading;
                Action::Reload
            },
            Err(m) => self.finish(WiFiStatus::Error(m)),
        }
    }

    /// The networking stack reports back on the reload: a fault ends the
    /// attempt with its error.
    pub fn config_reloaded(&mut self, result: Result<(), String>) -> (r: Action)
        requires
            old(self).wf(),
            old(self).has_room_spec(),
        ensures
            final(self).wf(),
            final(self)@ == after_config_reloaded(old(self)@, fault_view(result)),
            old(self)@.phase == Phase::Reloading ==> r.directs(final(self)@),
            old(self)@.phase != Phase::Reloading ==> r is Done,
    {
        if self.phase != Phase::Reloading {
            return Action::Done;
        }
        match result {
            Ok(()) => {
                self.phase = Phase::Settling;
                Action::Settle
            },
            Err(m) => self.finish(WiFiStatus::Error(m)),
        }
    }

    /// The settle interval has passed.
    pub fn settled(&mut self) -> (r: Action)
        requires
            old(self).wf(),
        ensures
            final(self).wf(),
            final(self)@ == after_settled(old(self)@),
            old(self)@.phase == Phase::Settling ==> r.directs(final(self)@),
            old(self)@.phase != Phase::Settling ==> r is Done,
    {
        if self.phase != Phase::Settling {
            return Action::Done;
        }
        self.phase = Phase::Verifying;
        Action::Verify
    }

    /// The attached network is reported (`None` when there is none): the
    /// attempt ends connected exactly when it is the requested one.
    pub fn verified(&mut self, found: Result<Option<String>, String>) -> (r: Action)
        requires
            old(self).wf(),
            old(self).has_room_spec(),
        ensures
            final(self).wf(),
            final(self)@ == after_verified(old(self)@, attachment_view(found)),
            old(self)@.phase == Phase::Verifying ==> r.directs(final(self)@),
            old(self)@.phase != Phase::Verifying ==> r is Done,
    {
        if self.phase != Phase::Verifying {
            return Action::Done;
        }
        match found {
            Err(m) => self.finish(WiFiStatus::Error(m)),
            Ok(Some(id)) => {
                let matches = match &self.target {
                    Some(c) => c.network_identifier == id,
                    None => false,
                };
                if matches {
                    self.finish(WiFiStatus::Connected)
                } else {
                    self.finish(WiFiStatus::Failed)
                }
            },
            Ok(None) => self.finish(WiFiStatus::Failed),
        }
    }
}

/// The status an attempt ends with, from what each outside step reported.
pub open spec fn attempt_result(
    c: CredentialsView,
    write_fault: Option<Seq<char>>,
    reload_fault: Option<Seq<char>>,
    found: Result<Option<Seq<char>>, Seq<char>>,
) -> Seq<char> {
    match write_fault {
        Some(m) => error_text(m),
        None => match reload_fault {
            Some(m) => error_text(m),
            None => verdict(Some(c), found),
        },
    }
}

pub open spec fn is_terminal_text(t: Seq<char>) -> bool {
    t == "CONNECTED"@ || t == "FAILED"@ || exists|m: Seq<char>| t == error_text(m)
}

/// Taking queued writes only ever adds to what was broadcast; it stops idle
/// with nothing queued, or with an attempt started by a `CONNECTING`.
pub proof fn lemma_start_next_extends(v: CoordinatorView)
    ensures
        start_next(v).history.len() >= v.history.len(),
        start_next(v).history.subrange(0, v.history.len() as int) == v.history,
        start_next(v).phase == Phase::Idle ==> start_next(v).queue.len() == 0
            && start_next(v).target is None,
        start_next(v).phase != Phase::Idle ==> start_next(v).phase == Phase::WritingConfig
            && start_next(v).target is Some && start_next(v).status == "CONNECTING"@,
        start_next(v).history.len() - v.history.len() <= v.queue.len(),
    decreases v.queue.len(),
{
    if v.queue.len() > 0 {
        let rest = CoordinatorView { queue: v.queue.drop_first(), ..v };
        match v.queue[0] {
            Err(m) => {
                let next = with_status(rest, error_text(m));
                lemma_start_next_extends(next);
                assert(next.history.subrange(0, v.history.len() as int) =~= v.history);
                assert(start_next(v).history.subrange(0, v.history.len() as int) =~= start_next(
                    next,
                ).history.subrange(0, next.history.len() as int).subrange(
                    0,
                    v.history.len() as int,
                ));
            },
            Ok(_) => {
                assert(start_next(v).history.subrange(0, v.history.len() as int) =~= v.history);
            },
        }
    } else {
        assert(v.history.subrange(0, v.history.len() as int) =~= v.history);
    }
}

/// A well-formed write to an idle coordinator broadcasts exactly one
/// `CONNECTING` and then, once the outside steps have reported, exactly one
/// terminal status, which becomes current; the attempt is then over.
pub proof fn lemma_attempt_runs_to_terminal(
    v: CoordinatorView,
    c: CredentialsView,
    write_fault: Option<Seq<char>>,
    reload_fault: Option<Seq<char>>,
    found: Result<Option<Seq<char>>, Seq<char>>,
)
    requires
        v.phase == Phase::Idle,
        v.queue.len() == 0,
    ensures
        ({
            let s1 = after_write(v, Ok(c));
            let s5 = after_verified(
                after_settled(after_config_reloaded(after_config_written(s1, write_fault), reload_fault)),
                found,
            );
            let t = attempt_result(c, write_fault, reload_fault, found);
            &&& s1.history == v.history.push("CONNECTING"@)
            &&& s1.phase == Phase::WritingConfig
            &&& s5.history == v.history + seq!["CONNECTING"@, t]
            &&& s5.status == t
            &&& s5.phase == Phase::Idle
            &&& s5.target is None
            &&& s5.queue.len() == 0
            &&& is_terminal_text(t)
            &&& t != "CONNECTING"@
        }),
{
    let s1 = after_write(v, Ok(c));
    let q = CoordinatorView { queue: v.queue.push(Ok(c)), ..v };
    assert(q.queue.drop_first() =~= Seq::<WriteView>::empty());
    let s2 = after_config_written(s1, write_fault);
    let s3 = after_config_reloaded(s2, reload_fault);
    let s4 = after_settled(s3);
    let s5 = after_verified(s4, found);
    let t = attempt_result(c, write_fault, reload_fault, found);
    assert(s1.target == Some(c));
    let ended = with_status(CoordinatorView { phase: Phase::Idle, target: None, ..s1 }, t);
    assert(ended.queue.len() == 0);
    assert(start_next(ended) == (CoordinatorView { phase: Phase::Idle, target: None, ..ended }));
    if write_fault is Some {
        assert(s2 == finish(s1, t));
        assert(s5 == s2);
    } else if reload_fault is Some {
        assert(s3 == finish(s1, t));
        assert(s5 == s3);
    } else {
        assert(s4.target == Some(c));
        assert(s5 == finish(s1, t));
    }
    assert(s5.history =~= v.history + seq!["CONNECTING"@, t]);
    reveal_strlit("CONNECTING");
    reveal_strlit("CONNECTED");
    reveal_strlit("FAILED");
    reveal_strlit("ERROR: ");
    let err = match write_fault {
        Some(m) => Some(m),
        None => match reload_fault {
            Some(m) => Some(m),
            None => match found {
                Err(m) => Some(m),
                Ok(_) => None,
            },
        },
    };
    if err is Some {
        assert(t == error_text(err->0));
        assert(t[0] == 'E');
    } else {
        assert(t == "CONNECTED"@ || t == "FAILED"@);
        assert("CONNECTED"@.len() != "CONNECTING"@.len());
    }
}

/// A malformed write to an idle coordinator makes its error current and
/// broadcasts only that: no `CONNECTING`, no attempt.
pub proof fn lemma_malformed_write(v: CoordinatorView, m: Seq<char>)
    requires
        v.phase == Phase::Idle,
        v.queue.len() == 0,
    ensures
        after_write(v, Err(m)).history == v.history.push(error_text(m)),
        after_write(v, Err(m)).status == error_text(m),
        after_write(v, Err(m)).phase == Phase::Idle,
        after_write(v, Err(m)).queue.len() == 0,
        error_text(m) != "CONNECTING"@,
{
    let q = CoordinatorView { queue: v.queue.push(Err(m)), ..v };
    assert(q.queue.drop_first() =~= Seq::<WriteView>::empty());
    let r = with_status(CoordinatorView { queue: q.queue.drop_first(), ..q }, error_text(m));
    assert(start_next(q) == start_next(r));
    assert(start_next(r) == (CoordinatorView { phase: Phase::Idle, target: None, ..r }));
    reveal_strlit("CONNECTING");
    reveal_strlit("ERROR: ");
    assert(error_text(m)[1] == 'R');
}

/// Writes never interleave with an attempt in flight: such a write only
/// waits in the queue, and when the attempt ends its terminal status is
/// broadcast before anything the waiting writes cause.
pub proof fn lemma_writes_serialized(v: CoordinatorView, w: WriteView, t: Seq<char>)
    requires
        v.phase != Phase::Idle,
    ensures
        after_write(v, w) == (CoordinatorView { queue: v.queue.push(w), ..v }),
        finish(after_write(v, w), t).history.subrange(0, v.history.len() + 1 as int) == v.history.push(t),
{
    let a = after_write(v, w);
    let e = with_status(CoordinatorView { phase: Phase::Idle, target: None, ..a }, t);
    lemma_start_next_extends(e);
    assert(e.history =~= v.history.push(t));
}

/// The current status is always the last one broadcast (`READY` before any),
/// and an attempt is in flight exactly when credentials are held for it.
pub proof fn lemma_status_matches_broadcast(c: &Coordinator)
    requires
        c.wf(),
    ensures
        c@.history.len() > 0 ==> c@.status == c@.history.last(),
        c@.history.len() == 0 ==> c@.status == "READY"@,
        (c@.phase == Phase::Idle) == (c@.target is None),
        c@.phase == Phase::Idle ==> c@.queue.len() == 0,
{
}

} // verus!
