//! Requests that wait for an answer, and agents that are waited for.

use vstd::prelude::*;
use crate::flux::bridge::DispatchEvent;
use crate::keyed;
use crate::keyed::StrMap;
use crate::text;

verus! {

/// How long an answer is kept for a caller that does not wait yet, in seconds.
pub const LANDED_TTL: u64 = 30;

/// How far a request has come. Times are in seconds.
#[derive(Clone, Copy, Debug, PartialEq, Eq, Structural)]
pub enum WaitState {
    /// It was noted down.
    Noted,
    /// Its caller waits.
    Parked,
    /// It was answered at this time, before its caller could wait.
    Landed(u64),
}

/// A request that waits for the answer of a host.
#[derive(Clone, Debug)]
pub struct Waiting {
    pub request_id: String,
    pub host_id: String,
    pub since: u64,
    pub state: WaitState,
}

/// What a `Waiting` says.
#[verifier::ext_equal]
pub struct WaitView {
    pub request_id: Seq<char>,
    pub host_id: Seq<char>,
    pub since: u64,
    pub state: WaitState,
}

impl View for Waiting {
    type V = WaitView;

    open spec fn view(&self) -> WaitView {
        WaitView {
            request_id: self.request_id@,
            host_id: self.host_id@,
            since: self.since,
            state: self.state,
        }
    }
}

/// Whether a request is under way.
pub open spec fn under_way(s: Seq<WaitView>, id: Seq<char>) -> bool {
    exists|i: int| 0 <= i < s.len() && (#[trigger] s[i]).request_id == id
}

/// How far a request has come, where it is under way.
pub open spec fn state_of(s: Seq<WaitView>, id: Seq<char>) -> Option<WaitState>
    decreases s.len(),
{
    if s.len() == 0 {
        None
    } else if s.last().request_id == id {
        Some(s.last().state)
    } else {
        state_of(s.drop_last(), id)
    }
}

/// The requests, of which the one with this id has come so far.
pub open spec fn moved(s: Seq<WaitView>, id: Seq<char>, state: WaitState) -> Seq<WaitView> {
    Seq::new(
        s.len(),
        |i: int|
            if s[i].request_id == id {
                WaitView { state, ..s[i] }
            } else {
                s[i]
            },
    )
}

/// How much time has gone by.
pub open spec fn elapsed(since: u64, now: u64) -> u64 {
    if now > since {
        (now - since) as u64
    } else {
        0
    }
}

/// The requests that are not the one with this id.
pub open spec fn except(s: Seq<WaitView>, id: Seq<char>) -> Seq<WaitView>
    decreases s.len(),
{
    if s.len() == 0 {
        Seq::empty()
    } else if s.last().request_id == id {
        except(s.drop_last(), id)
    } else {
        except(s.drop_last(), id).push(s.last())
    }
}

/// Which requests are given up.
#[derive(Clone, Copy, Debug)]
pub enum Sweep<'a> {
    /// At a time, those that have waited for the whole timeout.
    Overdue { now: u64, timeout: u64 },
    /// Those that wait for a host.
    Host(&'a str),
    /// At a time, those whose answer nobody has come for.
    Uncalled { now: u64 },
}

/// Whether a request is among them. One that has been answered waits no more.
pub open spec fn picks(sweep: Sweep, w: WaitView) -> bool {
    match sweep {
        Sweep::Overdue { now, timeout } => !(w.state is Landed) && elapsed(w.since, now)
            >= timeout,
        Sweep::Host(host) => !(w.state is Landed) && w.host_id == host@,
        Sweep::Uncalled { now } => w.state matches WaitState::Landed(at) && elapsed(at, now)
            >= LANDED_TTL,
    }
}

/// The requests that are given up, or those that are not.
pub open spec fn swept(s: Seq<WaitView>, sweep: Sweep, gone: bool) -> Seq<WaitView>
    decreases s.len(),
{
    if s.len() == 0 {
        Seq::empty()
    } else if picks(sweep, s.last()) == gone {
        swept(s.drop_last(), sweep, gone).push(s.last())
    } else {
        swept(s.drop_last(), sweep, gone)
    }
}

/// The ids of requests.
pub open spec fn ids(s: Seq<WaitView>) -> Seq<Seq<char>> {
    Seq::new(s.len(), |i: int| s[i].request_id)
}

/// What became of a request that was to be noted down.
#[derive(Clone, Copy, Debug, PartialEq, Eq, Structural)]
pub enum InsertOutcome {
    Inserted,
    Duplicate,
    AtCapacity,
}

impl InsertOutcome {
    /// What that means for its dispatch.
    pub fn event(self) -> (r: DispatchEvent)
        ensures
            r == (match self {
                InsertOutcome::Inserted => DispatchEvent::Inserted,
                InsertOutcome::Duplicate => DispatchEvent::Duplicate,
                InsertOutcome::AtCapacity => DispatchEvent::AtCapacity,
            }),
    {
        match self {
            InsertOutcome::Inserted => DispatchEvent::Inserted,
            InsertOutcome::Duplicate => DispatchEvent::Duplicate,
            InsertOutcome::AtCapacity => DispatchEvent::AtCapacity,
        }
    }
}

/// What a caller that comes to wait for a request is told.
#[derive(Clone, Copy, Debug, PartialEq, Eq, Structural)]
pub enum ParkResult {
    Parked,
    AlreadyLanded,
    NotFound,
}

impl ParkResult {
    /// What that means for its dispatch.
    pub fn event(self) -> (r: DispatchEvent)
        ensures
            r == (match self {
                ParkResult::Parked => DispatchEvent::Parked,
                ParkResult::AlreadyLanded => DispatchEvent::Lost,
                ParkResult::NotFound => DispatchEvent::Lost,
            }),
    {
        match self {
            ParkResult::Parked => DispatchEvent::Parked,
            ParkResult::AlreadyLanded => DispatchEvent::Lost,
            ParkResult::NotFound => DispatchEvent::Lost,
        }
    }
}

/// What becomes of an answer.
#[derive(Clone, Copy, Debug, PartialEq, Eq, Structural)]
pub enum Delivery {
    /// It goes to the caller that waits.
    ToCaller,
    /// Its caller does not wait yet: that it came is noted down.
    Kept,
    /// Nothing of its id is under way.
    Unknown,
}

/// The requests that wait, in the order in which they came.
#[derive(Clone, Debug)]
pub struct Pending {
    waiting: Vec<Waiting>,
}

impl View for Pending {
    type V = Seq<WaitView>;

    closed spec fn view(&self) -> Seq<WaitView> {
        Seq::new(self.waiting@.len(), |i: int| self.waiting@[i]@)
    }
}

impl Pending {
    /// No id is under way twice.
    pub open spec fn wf(&self) -> bool {
        ids(self@).no_duplicates()
    }

    pub fn new() -> (r: Self)
        ensures
            r.wf(),
            r@ == Seq::<WaitView>::empty(),
    {
        let r: Self = Pending { waiting: Vec::new() };
        proof {
            assert(r@ =~= Seq::<WaitView>::empty());
        }
        r
    }

    /// The place of a request.
    fn find(&self, request_id: &str) -> (r: Option<usize>)
        requires
            self.wf(),
        ensures
            match r {
                Some(i) => i < self@.len() && self@[i as int].request_id == request_id@
                    && state_of(self@, request_id@) == Some(self@[i as int].state),
                None => !under_way(self@, request_id@) && state_of(self@, request_id@) is None,
            },
    {
        let mut i: usize = 0;
        while i < self.waiting.len()
            invariant
                self.wf(),
                i <= self.waiting@.len() == self@.len(),
                forall|j: int| 0 <= j < i ==> (#[trigger] self@[j]).request_id != request_id@,
            decreases self.waiting@.len() - i,
        {
            proof {
                assert(self@[i as int] == self.waiting@[i as int]@);
            }
            if text::same(self.waiting[i].request_id.as_str(), request_id) {
                proof {
                    state_at(self@, i as int);
                }
                return Some(i);
            }
            i = i + 1;
        }
        proof {
            state_absent(self@, request_id@);
        }
        None
    }

    pub fn contains(&self, request_id: &str) -> (r: bool)
        requires
            self.wf(),
        ensures
            r == under_way(self@, request_id@),
    {
        match self.find(request_id) {
            Some(i) => {
                proof {
                    assert(self@[i as int].request_id == request_id@);
                }
                true
            },
            None => false,
        }
    }

    /// Notes a request down, unless one with its id is under way or `max` are.
    pub fn insert_waiting(
        &mut self,
        request_id: String,
        host_id: String,
        now: u64,
        max: usize,
    ) -> (r: InsertOutcome)
        requires
            old(self).wf(),
        ensures
            final(self).wf(),
            match r {
                InsertOutcome::Duplicate => under_way(old(self)@, request_id@) && final(self)@
                    == old(self)@,
                InsertOutcome::AtCapacity => !under_way(old(self)@, request_id@) && old(
                    self,
                )@.len() >= max && final(self)@ == old(self)@,
                InsertOutcome::Inserted => !under_way(old(self)@, request_id@) && old(self)@.len()
                    < max && final(self)@ == old(self)@.push(
                    (WaitView {
                        request_id: request_id@,
                        host_id: host_id@,
                        since: now,
                        state: WaitState::Noted,
                    }),
                ),
            },
            old(self)@.len() <= max ==> final(self)@.len() <= max,
    {
        if self.contains(request_id.as_str()) {
            return InsertOutcome::Duplicate;
        }
        if self.waiting.len() >= max {
            return InsertOutcome::AtCapacity;
        }
        let ghost s = self@;
        let ghost id = request_id@;
        let ghost host = host_id@;
        self.waiting.push(Waiting { request_id, host_id, since: now, state: WaitState::Noted });
        proof {
            let one = WaitView {
                request_id: id,
                host_id: host,
                since: now,
                state: WaitState::Noted,
            };
            assert(self@ =~= s.push(one));
            assert(ids(s.push(one)) =~= ids(s).push(id));
            assert forall|i: int, j: int|
                0 <= i < ids(self@).len() && 0 <= j < ids(self@).len() && i != j implies ids(
                self@,
            )[i] != ids(self@)[j] by {
                if i < s.len() {
                    assert(ids(self@)[i] == s[i].request_id);
                }
                if j < s.len() {
                    assert(ids(self@)[j] == s[j].request_id);
                }
            }
        }
        InsertOutcome::Inserted
    }

    /// Forgets a request; tells whether it was under way.
    pub fn remove(&mut self, request_id: &str) -> (r: bool)
        requires
            old(self).wf(),
        ensures
            final(self).wf(),
            final(self)@ == except(old(self)@, request_id@),
            r == under_way(old(self)@, request_id@),
    {
        let ghost s = self@;
        let found: bool = self.contains(request_id);
        let mut left: Vec<Waiting> = Vec::new();
        let mut i: usize = 0;
        proof {
            assert(s.take(0) =~= Seq::empty());
        }
        while i < self.waiting.len()
            invariant
                i <= self.waiting@.len() == s.len(),
                s == self@,
                self@ == old(self)@,
                Seq::new(left@.len(), |k: int| left@[k]@) == except(
                    s.take(i as int),
                    request_id@,
                ),
            decreases s.len() - i,
        {
            let ghost before = left@;
            proof {
                assert(s.take(i + 1).drop_last() =~= s.take(i as int));
                assert(s[i as int] == self.waiting@[i as int]@);
            }
            if !text::same(self.waiting[i].request_id.as_str(), request_id) {
                left.push(copy_waiting(&self.waiting[i]));
                proof {
                    assert(Seq::new(left@.len(), |k: int| left@[k]@) =~= Seq::new(
                        before.len(),
                        |k: int| before[k]@,
                    ).push(s[i as int]));
                }
            }
            i = i + 1;
        }
        proof {
            assert(s.take(i as int) =~= s);
            except_unique(s, request_id@);
        }
        self.waiting = left;
        found
    }

    /// Notes down that a request has come so far.
    fn move_to(&mut self, i: usize, state: WaitState)
        requires
            old(self).wf(),
            i < old(self)@.len(),
        ensures
            final(self).wf(),
            final(self)@ == moved(old(self)@, old(self)@[i as int].request_id, state),
    {
        let ghost s = self@;
        let mut w: Waiting = copy_waiting(&self.waiting[i]);
        w.state = state;
        self.waiting.set(i, w);
        proof {
            assert forall|j: int| 0 <= j < s.len() implies self@[j] == moved(
                s,
                s[i as int].request_id,
                state,
            )[j] by {
                assert(ids(s)[j] == s[j].request_id && ids(s)[i as int] == s[i as int].request_id);
            }
            assert(self@ =~= moved(s, s[i as int].request_id, state));
            assert(ids(self@) =~= ids(s));
        }
    }

    /// Lets the caller of a request wait for its answer. One that has been answered already
    /// is forgotten.
    pub fn park(&mut self, request_id: &str) -> (r: ParkResult)
        requires
            old(self).wf(),
        ensures
            final(self).wf(),
            match state_of(old(self)@, request_id@) {
                None => r == ParkResult::NotFound && final(self)@ == old(self)@,
                Some(WaitState::Landed(_)) => r == ParkResult::AlreadyLanded && final(self)@
                    == except(old(self)@, request_id@),
                Some(_) => r == ParkResult::Parked && final(self)@ == moved(
                    old(self)@,
                    request_id@,
                    WaitState::Parked,
                ),
            },
    {
        match self.find(request_id) {
            None => ParkResult::NotFound,
            Some(i) => match self.waiting[i].state {
                WaitState::Landed(_) => {
                    self.remove(request_id);
                    ParkResult::AlreadyLanded
                },
                _ => {
                    self.move_to(i, WaitState::Parked);
                    ParkResult::Parked
                },
            },
        }
    }

    /// Takes in that a request was answered. Where its caller waits, the request is
    /// forgotten; where it does not yet, the first answer is noted down.
    pub fn deliver(&mut self, request_id: &str, now: u64) -> (r: Delivery)
        requires
            old(self).wf(),
        ensures
            final(self).wf(),
            match state_of(old(self)@, request_id@) {
                None => r == Delivery::Unknown && final(self)@ == old(self)@,
                Some(WaitState::Parked) => r == Delivery::ToCaller && final(self)@ == except(
                    old(self)@,
                    request_id@,
                ),
                Some(WaitState::Noted) => r == Delivery::Kept && final(self)@ == moved(
                    old(self)@,
                    request_id@,
                    WaitState::Landed(now),
                ),
                Some(WaitState::Landed(_)) => r == Delivery::Kept && final(self)@ == old(self)@,
            },
    {
        match self.find(request_id) {
            None => Delivery::Unknown,
            Some(i) => match self.waiting[i].state {
                WaitState::Parked => {
                    self.remove(request_id);
                    Delivery::ToCaller
                },
                WaitState::Noted => {
                    self.move_to(i, WaitState::Landed(now));
                    Delivery::Kept
                },
                WaitState::Landed(_) => Delivery::Kept,
            },
        }
    }

    /// Forgets the requests that are given up; hands out their ids.
    fn sweep(&mut self, sweep: Sweep) -> (r: Vec<String>)
        requires
            old(self).wf(),
        ensures
            final(self).wf(),
            final(self)@ == swept(old(self)@, sweep, false),
            text::views(r@) == ids(swept(old(self)@, sweep, true)),
    {
        broadcast use text::views_push;

        let ghost s = self@;
        let mut left: Vec<Waiting> = Vec::new();
        let mut gone: Vec<String> = Vec::new();
        let mut i: usize = 0;
        proof {
            assert(s.take(0) =~= Seq::empty());
            assert(text::views(gone@) =~= ids(swept(s.take(0), sweep, true)));
        }
        while i < self.waiting.len()
            invariant
                i <= self.waiting@.len() == s.len(),
                s == self@,
                self@ == old(self)@,
                Seq::new(left@.len(), |k: int| left@[k]@) == swept(s.take(i as int), sweep, false),
                text::views(gone@) == ids(swept(s.take(i as int), sweep, true)),
            decreases s.len() - i,
        {
            let ghost before = left@;
            let ghost old_ones = swept(s.take(i as int), sweep, true);
            proof {
                assert(s.take(i + 1).drop_last() =~= s.take(i as int));
                assert(s[i as int] == self.waiting@[i as int]@);
                assert(ids(old_ones.push(s[i as int])) =~= ids(old_ones).push(
                    s[i as int].request_id,
                ));
            }
            if picked(sweep, &self.waiting[i]) {
                gone.push(self.waiting[i].request_id.clone());
            } else {
                left.push(copy_waiting(&self.waiting[i]));
                proof {
                    assert(Seq::new(left@.len(), |k: int| left@[k]@) =~= Seq::new(
                        before.len(),
                        |k: int| before[k]@,
                    ).push(s[i as int]));
                }
            }
            i = i + 1;
        }
        proof {
            assert(s.take(i as int) =~= s);
            swept_unique(s, sweep, false);
        }
        self.waiting = left;
        gone
    }

    /// Forgets the requests that have waited for the whole timeout; hands out their ids.
    pub fn drain_expired(&mut self, now: u64, timeout: u64) -> (r: Vec<String>)
        requires
            old(self).wf(),
        ensures
            final(self).wf(),
            final(self)@ == swept(old(self)@, (Sweep::Overdue { now, timeout }), false),
            text::views(r@) == ids(swept(old(self)@, (Sweep::Overdue { now, timeout }), true)),
    {
        self.sweep(Sweep::Overdue { now, timeout })
    }

    /// Forgets the requests that wait for a host whose stream has ended; hands out their ids.
    pub fn drain_host(&mut self, host_id: &str) -> (r: Vec<String>)
        requires
            old(self).wf(),
        ensures
            final(self).wf(),
            final(self)@ == swept(old(self)@, Sweep::Host(host_id), false),
            text::views(r@) == ids(swept(old(self)@, Sweep::Host(host_id), true)),
    {
        self.sweep(Sweep::Host(host_id))
    }

    /// Forgets the requests whose answer nobody has come for; hands out their ids.
    pub fn drain_landed(&mut self, now: u64) -> (r: Vec<String>)
        requires
            old(self).wf(),
        ensures
            final(self).wf(),
            final(self)@ == swept(old(self)@, (Sweep::Uncalled { now }), false),
            text::views(r@) == ids(swept(old(self)@, (Sweep::Uncalled { now }), true)),
    {
        self.sweep(Sweep::Uncalled { now })
    }
}

/// Tells whether a request is given up.
fn picked(sweep: Sweep, w: &Waiting) -> (r: bool)
    ensures
        r == picks(sweep, w@),
{
    match sweep {
        Sweep::Overdue { now, timeout } => match w.state {
            WaitState::Landed(_) => false,
            _ => now.saturating_sub(w.since) >= timeout,
        },
        Sweep::Host(host) => match w.state {
            WaitState::Landed(_) => false,
            _ => text::same(w.host_id.as_str(), host),
        },
        Sweep::Uncalled { now } => match w.state {
            WaitState::Landed(at) => now.saturating_sub(at) >= LANDED_TTL,
            _ => false,
        },
    }
}

fn copy_waiting(w: &Waiting) -> (r: Waiting)
    ensures
        r@ == w@,
{
    Waiting {
        request_id: w.request_id.clone(),
        host_id: w.host_id.clone(),
        since: w.since,
        state: w.state,
    }
}

/// What is known of a request is known by its place.
proof fn state_at(s: Seq<WaitView>, i: int)
    requires
        ids(s).no_duplicates(),
        0 <= i < s.len(),
    ensures
        state_of(s, s[i].request_id) == Some(s[i].state),
        under_way(s, s[i].request_id),
    decreases s.len(),
{
    assert(s[i].request_id == s[i].request_id);
    if i < s.len() - 1 {
        unique_front(s);
        state_at(s.drop_last(), i);
        assert(ids(s)[i] == s[i].request_id && ids(s)[s.len() - 1] == s.last().request_id);
    }
}

proof fn state_absent(s: Seq<WaitView>, id: Seq<char>)
    requires
        !under_way(s, id),
    ensures
        state_of(s, id) is None,
    decreases s.len(),
{
    if s.len() > 0 {
        let t = s.drop_last();
        assert(t.push(s.last()) =~= s);
        under_way_push(t, s.last(), id);
        state_absent(t, id);
    }
}

proof fn except_holds(s: Seq<WaitView>, id: Seq<char>, x: Seq<char>)
    ensures
        under_way(except(s, id), x) <==> under_way(s, x) && x != id,
    decreases s.len(),
{
    if s.len() > 0 {
        let t = s.drop_last();
        except_holds(t, id, x);
        under_way_push(t, s.last(), x);
        assert(t.push(s.last()) =~= s);
        under_way_push(except(t, id), s.last(), x);
    }
}

proof fn under_way_push(s: Seq<WaitView>, w: WaitView, x: Seq<char>)
    ensures
        under_way(s.push(w), x) <==> under_way(s, x) || w.request_id == x,
{
    if under_way(s, x) {
        let i = choose|i: int| 0 <= i < s.len() && (#[trigger] s[i]).request_id == x;
        assert(s.push(w)[i] == s[i]);
    }
    assert(s.push(w)[s.len() as int] == w);
    if under_way(s.push(w), x) {
        let i = choose|i: int|
            0 <= i < s.push(w).len() && (#[trigger] s.push(w)[i]).request_id == x;
        if i < s.len() {
            assert(s[i] == s.push(w)[i]);
        }
    }
}

/// A request of the list with another one behind it, where that one is new.
proof fn unique_push(s: Seq<WaitView>, w: WaitView)
    requires
        ids(s).no_duplicates(),
        !under_way(s, w.request_id),
    ensures
        ids(s.push(w)).no_duplicates(),
{
    let t = ids(s.push(w));
    assert forall|i: int, j: int| 0 <= i < t.len() && 0 <= j < t.len() && i != j implies t[i]
        != t[j] by {
        if i < s.len() {
            assert(t[i] == s[i].request_id && t[i] == ids(s)[i]);
        }
        if j < s.len() {
            assert(t[j] == s[j].request_id && t[j] == ids(s)[j]);
        }
    }
}

proof fn unique_front(s: Seq<WaitView>)
    requires
        s.len() > 0,
        ids(s).no_duplicates(),
    ensures
        ids(s.drop_last()).no_duplicates(),
        !under_way(s.drop_last(), s.last().request_id),
{
    let t = s.drop_last();
    assert forall|i: int, j: int|
        0 <= i < ids(t).len() && 0 <= j < ids(t).len() && i != j implies ids(t)[i] != ids(t)[j] by {
        assert(ids(t)[i] == ids(s)[i] && ids(t)[j] == ids(s)[j]);
    }
    if under_way(t, s.last().request_id) {
        let i = choose|i: int|
            0 <= i < t.len() && (#[trigger] t[i]).request_id == s.last().request_id;
        assert(ids(s)[i] == ids(s)[s.len() - 1]);
    }
}

proof fn except_unique(s: Seq<WaitView>, id: Seq<char>)
    requires
        ids(s).no_duplicates(),
    ensures
        ids(except(s, id)).no_duplicates(),
    decreases s.len(),
{
    if s.len() > 0 {
        unique_front(s);
        except_unique(s.drop_last(), id);
        if s.last().request_id != id {
            except_holds(s.drop_last(), id, s.last().request_id);
            unique_push(except(s.drop_last(), id), s.last());
        }
    }
}

proof fn swept_within(s: Seq<WaitView>, sweep: Sweep, gone: bool, x: Seq<char>)
    ensures
        under_way(swept(s, sweep, gone), x) ==> under_way(s, x),
    decreases s.len(),
{
    if s.len() > 0 {
        let t = s.drop_last();
        swept_within(t, sweep, gone, x);
        under_way_push(t, s.last(), x);
        assert(t.push(s.last()) =~= s);
        under_way_push(swept(t, sweep, gone), s.last(), x);
    }
}

proof fn swept_unique(s: Seq<WaitView>, sweep: Sweep, gone: bool)
    requires
        ids(s).no_duplicates(),
    ensures
        ids(swept(s, sweep, gone)).no_duplicates(),
    decreases s.len(),
{
    if s.len() > 0 {
        unique_front(s);
        swept_unique(s.drop_last(), sweep, gone);
        swept_within(s.drop_last(), sweep, gone, s.last().request_id);
        if picks(sweep, s.last()) == gone {
            unique_push(swept(s.drop_last(), sweep, gone), s.last());
        }
    }
}

/// A request that is forgotten is under way no more, and all others are as before.
pub proof fn forgetting_spares_the_others(s: Seq<WaitView>, id: Seq<char>, x: Seq<char>)
    ensures
        under_way(except(s, id), x) <==> under_way(s, x) && x != id,
{
    except_holds(s, id, x);
}

/// Exactly the requests that a sweep is about are given up (those that have waited for the
/// whole timeout, those of a host whose stream has ended, those whose answer nobody has come
/// for), and exactly the others stay under way.
pub proof fn sweeps_split_the_requests(s: Seq<WaitView>, sweep: Sweep, i: int)
    requires
        ids(s).no_duplicates(),
        0 <= i < s.len(),
    ensures
        under_way(swept(s, sweep, true), s[i].request_id) == picks(sweep, s[i]),
        under_way(swept(s, sweep, false), s[i].request_id) == !picks(sweep, s[i]),
    decreases s.len(),
{
    let t = s.drop_last();
    let x = s[i].request_id;
    unique_front(s);
    swept_within(t, sweep, true, x);
    swept_within(t, sweep, false, x);
    under_way_push(swept(t, sweep, true), s.last(), x);
    under_way_push(swept(t, sweep, false), s.last(), x);
    assert(ids(s)[i] == x && ids(s)[s.len() - 1] == s.last().request_id);
    if i < t.len() {
        sweeps_split_the_requests(t, sweep, i);
    }
}

/// An answer that beats its caller is not lost on the sweep for timeouts: it is kept until
/// its caller comes, or until nobody has come for it in time.
pub proof fn landed_answers_are_kept(s: Seq<WaitView>, i: int, at: u64, now: u64, timeout: u64)
    requires
        ids(s).no_duplicates(),
        0 <= i < s.len(),
        s[i].state == WaitState::Landed(at),
    ensures
        under_way(swept(s, (Sweep::Overdue { now, timeout }), false), s[i].request_id),
        under_way(swept(s, (Sweep::Uncalled { now }), false), s[i].request_id) <==> elapsed(at, now)
            < LANDED_TTL,
{
    sweeps_split_the_requests(s, Sweep::Overdue { now, timeout }, i);
    sweeps_split_the_requests(s, Sweep::Uncalled { now }, i);
}

/// When an agent was last heard of, and whether it is taken for unreachable.
#[derive(Clone, Copy, Debug, PartialEq, Eq, Structural)]
pub struct Beat {
    pub last: u64,
    pub stale: bool,
}

/// Whether an agent has been silent for too long.
pub open spec fn silent(b: Beat, now: u64, timeout: u64) -> bool {
    elapsed(b.last, now) > timeout
}

/// The agents once those that have been silent for too long are taken for unreachable.
pub open spec fn marked(s: Seq<(Seq<char>, Beat)>, now: u64, timeout: u64) -> Seq<
    (Seq<char>, Beat),
> {
    Seq::new(
        s.len(),
        |i: int|
            (
                s[i].0,
                Beat { last: s[i].1.last, stale: s[i].1.stale || silent(s[i].1, now, timeout) },
            ),
    )
}

/// The agents that are taken for unreachable then and were not before.
pub open spec fn newly_silent(s: Seq<(Seq<char>, Beat)>, now: u64, timeout: u64) -> Seq<Seq<char>>
    decreases s.len(),
{
    if s.len() == 0 {
        Seq::empty()
    } else if !s.last().1.stale && silent(s.last().1, now, timeout) {
        newly_silent(s.drop_last(), now, timeout).push(s.last().0)
    } else {
        newly_silent(s.drop_last(), now, timeout)
    }
}

/// The agents that are connected, by their hosts.
#[derive(Clone, Debug)]
pub struct Heartbeats {
    pub seen: StrMap<Beat>,
}

impl Heartbeats {
    pub fn new() -> (r: Self)
        ensures
            r.seen@ == Seq::<(Seq<char>, Beat)>::empty(),
    {
        Heartbeats { seen: StrMap::new() }
    }

    pub fn connected(&mut self, host_id: String, now: u64)
        ensures
            final(self).seen@ == keyed::put(
                old(self).seen@,
                host_id@,
                (Beat { last: now, stale: false }),
            ),
    {
        self.seen.insert(host_id, Beat { last: now, stale: false });
    }

    pub fn disconnected(&mut self, host_id: &str)
        ensures
            final(self).seen@ == keyed::without(old(self).seen@, host_id@),
    {
        let _gone: bool = self.seen.remove(host_id);
    }

    /// Notes that an agent was heard of; tells whether it had been taken for unreachable.
    pub fn touch(&mut self, host_id: &str, now: u64) -> (r: bool)
        ensures
            match keyed::lookup(old(self).seen@, host_id@) {
                Some(b) => r == b.stale && final(self).seen@ == keyed::put(
                    old(self).seen@,
                    host_id@,
                    (Beat { last: now, stale: false }),
                ),
                None => !r && final(self).seen@ == old(self).seen@,
            },
    {
        let stale: bool = match self.seen.get(host_id) {
            Some(b) => b.stale,
            None => return false,
        };
        self.seen.insert(host_id.to_owned(), Beat { last: now, stale: false });
        stale
    }

    /// Takes those that have been silent for too long for unreachable; hands out the new ones.
    pub fn mark_stale(&mut self, now: u64, timeout: u64) -> (r: Vec<String>)
        ensures
            final(self).seen@ == marked(old(self).seen@, now, timeout),
            text::views(r@) == newly_silent(old(self).seen@, now, timeout),
    {
        broadcast use text::views_push;

        let ghost s = self.seen@;
        let mut gone: Vec<String> = Vec::new();
        let mut i: usize = 0;
        proof {
            assert(s.take(0) =~= Seq::empty());
            assert(text::views(gone@) =~= Seq::empty());
        }
        while i < self.seen.len()
            invariant
                i <= s.len() == self.seen@.len(),
                s == old(self).seen@,
                forall|j: int|
                    0 <= j < i ==> #[trigger] self.seen@[j] == marked(s, now, timeout)[j],
                forall|j: int| i <= j < s.len() ==> #[trigger] self.seen@[j] == s[j],
                text::views(gone@) == newly_silent(s.take(i as int), now, timeout),
            decreases s.len() - i,
        {
            proof {
                assert(s.take(i + 1).drop_last() =~= s.take(i as int));
            }
            let b: Beat = *self.seen.value(i);
            if !b.stale && now.saturating_sub(b.last) > timeout {
                gone.push(self.seen.key(i).clone());
                self.seen.set_value(i, Beat { last: b.last, stale: true });
            }
            i = i + 1;
        }
        proof {
            assert(s.take(i as int) =~= s);
            assert(self.seen@ =~= marked(s, now, timeout));
        }
        gone
    }
}

proof fn newly_silent_holds(s: Seq<(Seq<char>, Beat)>, now: u64, timeout: u64, x: Seq<char>)
    ensures
        newly_silent(s, now, timeout).contains(x) <==> exists|i: int|
            0 <= i < s.len() && (#[trigger] s[i]).0 == x && !s[i].1.stale && silent(
                s[i].1,
                now,
                timeout,
            ),
    decreases s.len(),
{
    if s.len() > 0 {
        let t = s.drop_last();
        newly_silent_holds(t, now, timeout, x);
        crate::cli::init::contains_push(newly_silent(t, now, timeout), s.last().0, x);
        assert(s[s.len() - 1] == s.last());
        if exists|i: int|
            0 <= i < t.len() && (#[trigger] t[i]).0 == x && !t[i].1.stale && silent(
                t[i].1,
                now,
                timeout,
            ) {
            let i = choose|i: int|
                0 <= i < t.len() && (#[trigger] t[i]).0 == x && !t[i].1.stale && silent(
                    t[i].1,
                    now,
                    timeout,
                );
            assert(s[i] == t[i]);
        }
        if exists|i: int|
            0 <= i < s.len() && (#[trigger] s[i]).0 == x && !s[i].1.stale && silent(
                s[i].1,
                now,
                timeout,
            ) {
            let i = choose|i: int|
                0 <= i < s.len() && (#[trigger] s[i]).0 == x && !s[i].1.stale && silent(
                    s[i].1,
                    now,
                    timeout,
                );
            if i < t.len() {
                assert(t[i] == s[i]);
            }
        }
    }
}

/// An agent is reported silent once: while nothing is heard of it, it is not reported again,
/// however much later.
pub proof fn silence_is_reported_once(
    s: Seq<(Seq<char>, Beat)>,
    now: u64,
    later: u64,
    timeout: u64,
    x: Seq<char>,
)
    requires
        keyed::sorted(s),
        newly_silent(s, now, timeout).contains(x),
    ensures
        !newly_silent(marked(s, now, timeout), later, timeout).contains(x),
{
    let m = marked(s, now, timeout);
    newly_silent_holds(s, now, timeout, x);
    newly_silent_holds(m, later, timeout, x);
    let i = choose|i: int|
        0 <= i < s.len() && (#[trigger] s[i]).0 == x && !s[i].1.stale && silent(
            s[i].1,
            now,
            timeout,
        );
    assert forall|j: int| 0 <= j < m.len() && (#[trigger] m[j]).0 == x implies m[j].1.stale by {
        assert(m[j].0 == s[j].0);
        keyed::before_irreflexive(x);
        assert(i == j) by {
            if i < j {
                assert(keyed::before(s[i].0, s[j].0));
            }
            if j < i {
                assert(keyed::before(s[j].0, s[i].0));
            }
        }
    }
}

} // verus!
