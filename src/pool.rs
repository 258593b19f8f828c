use vstd::prelude::*;

use crate::config::{PoolConfig, RecyclingMethod, Timeouts};
use crate::error::Error;

verus! {

/// Where a checkout guard stands.
#[derive(Clone, Copy, Debug, PartialEq, Eq, Structural)]
pub enum State {
    /// No slot held yet.
    Waiting,
    /// Slot held; deciding between reuse and creation.
    Receiving,
    /// Slot held; a new session is being opened.
    Creating,
    /// Slot held; an idle session is being validated.
    Recycling,
    /// Slot and session held; usable by the caller.
    Ready,
    /// Slot held; the session was taken out by the caller.
    Taken,
    /// Terminal: everything was given back.
    Dropped,
}

/// Whether a guard in this state owns one slot.
pub open spec fn holds_slot(s: State) -> bool {
    s != State::Waiting && s != State::Dropped
}

/// Whether a guard in this state owns a session that may go back to the idle queue.
pub open spec fn holds_session(s: State) -> bool {
    s == State::Recycling || s == State::Ready
}

/// What giving a guard back does to the pool.
#[derive(Clone, Copy, Debug, PartialEq, Eq, Structural)]
pub enum DropAction {
    /// Nothing was acquired, or it was given back already.
    Nothing,
    /// Give back the slot.
    Release,
    /// Requeue the session if its configuration is still current, and give back the slot.
    RequeueAndRelease,
}

pub fn drop_action(s: State) -> (r: DropAction)
    ensures
        r == DropAction::Nothing <==> !holds_slot(s),
        r == DropAction::RequeueAndRelease <==> holds_session(s),
        r == DropAction::Release <==> holds_slot(s) && !holds_session(s),
{
    match s {
        State::Waiting | State::Dropped => DropAction::Nothing,
        State::Receiving | State::Creating | State::Taken => DropAction::Release,
        State::Recycling | State::Ready => DropAction::RequeueAndRelease,
    }
}

/// What moves a checkout guard from one state to the next.
#[derive(Clone, Copy, Debug, PartialEq, Eq, Structural)]
pub enum Event {
    /// A slot was granted.
    Acquired,
    /// An idle session was found and moved into the guard.
    FoundIdle,
    /// The idle queue was empty.
    FoundNone,
    /// The idle session passed recycling.
    RecycleOk,
    /// The idle session failed recycling and was discarded.
    RecycleFailed,
    /// A new session was opened.
    Created,
    /// The caller took the session out.
    Took,
    /// The guard was given back.
    Retired,
}

/// The guard's transitions; `None` where an event cannot happen.
pub open spec fn step(s: State, e: Event) -> Option<State> {
    match e {
        Event::Acquired => if s == State::Waiting { Some(State::Receiving) } else { None },
        Event::FoundIdle => if s == State::Receiving { Some(State::Recycling) } else { None },
        Event::FoundNone => if s == State::Receiving { Some(State::Creating) } else { None },
        Event::RecycleOk => if s == State::Recycling { Some(State::Ready) } else { None },
        Event::RecycleFailed => if s == State::Recycling { Some(State::Receiving) } else { None },
        Event::Created => if s == State::Creating { Some(State::Ready) } else { None },
        Event::Took => if s == State::Ready { Some(State::Taken) } else { None },
        Event::Retired => if s != State::Dropped { Some(State::Dropped) } else { None },
    }
}

/// The state after a sequence of events, if each can happen in turn.
pub open spec fn run(s: State, evs: Seq<Event>) -> Option<State>
    decreases evs.len(),
{
    if evs.len() == 0 {
        Some(s)
    } else {
        match step(s, evs[0]) {
            Some(t) => run(t, evs.drop_first()),
            None => None,
        }
    }
}

pub open spec fn slot_count(s: State) -> int {
    if holds_slot(s) {
        1
    } else {
        0
    }
}

/// Slots taken along a sequence of events.
pub open spec fn slots_taken(s: State, evs: Seq<Event>) -> int
    decreases evs.len(),
{
    if evs.len() == 0 {
        0
    } else {
        match step(s, evs[0]) {
            Some(t) => (if evs[0] == Event::Acquired { 1int } else { 0int }) + slots_taken(t, evs.drop_first()),
            None => 0,
        }
    }
}

/// Slots given back along a sequence of events.
pub open spec fn slots_given(s: State, evs: Seq<Event>) -> int
    decreases evs.len(),
{
    if evs.len() == 0 {
        0
    } else {
        match step(s, evs[0]) {
            Some(t) => (if evs[0] == Event::Retired && holds_slot(s) { 1int } else { 0int })
                + slots_given(t, evs.drop_first()),
            None => 0,
        }
    }
}

proof fn lemma_slot_balance(s: State, evs: Seq<Event>)
    requires
        run(s, evs) is Some,
    ensures
        slots_taken(s, evs) - slots_given(s, evs) == slot_count(run(s, evs)->0) - slot_count(s),
        slots_taken(s, evs) <= if s == State::Waiting { 1int } else { 0int },
        slots_taken(s, evs) >= 0,
        slots_given(s, evs) >= 0,
        s != State::Waiting ==> run(s, evs)->0 != State::Waiting,
    decreases evs.len(),
{
    if evs.len() > 0 {
        let t = step(s, evs[0])->0;
        lemma_slot_balance(t, evs.drop_first());
    }
}

/// Slot accounting of a checkout: along any sequence of events that a
/// guard can go through from `Waiting`, at most one slot is taken; the guard
/// holds a slot exactly when it took one and has not been retired; and a
/// guard that is retired has given back exactly the slots it took.
pub proof fn permit_accounting(evs: Seq<Event>)
    requires
        run(State::Waiting, evs) is Some,
    ensures
        0 <= slots_taken(State::Waiting, evs) <= 1,
        slots_taken(State::Waiting, evs) - slots_given(State::Waiting, evs) == slot_count(
            run(State::Waiting, evs)->0,
        ),
        run(State::Waiting, evs)->0 == State::Dropped ==> slots_taken(State::Waiting, evs) == slots_given(
            State::Waiting,
            evs,
        ),
{
    lemma_slot_balance(State::Waiting, evs);
}

/// A session that failed recycling is not in the guard afterwards: the
/// failure leads back to deciding, where only a session found idle and
/// recycled anew, or a newly created one, makes the guard ready.
pub proof fn recycle_failure_discards(s: State)
    requires
        step(s, Event::RecycleFailed) is Some,
    ensures
        s == State::Recycling,
        step(s, Event::RecycleFailed) == Some(State::Receiving),
        !holds_session(State::Receiving),
        forall|e: Event| #[trigger] step(State::Receiving, e) matches Some(t) ==> t != State::Ready,
{
}

/// A session together with the configuration generation it was opened under.
pub struct Idle<C> {
    pub client: C,
    pub config_id: u64,
}

/// How a checkout waits for a slot.
#[derive(Clone, Copy, Debug, PartialEq, Eq, Structural)]
pub enum WaitMode {
    /// Fail at once when no slot is free.
    NonBlocking,
    /// Wait as long as it takes.
    Unbounded,
    /// Wait at most this many milliseconds.
    Deadline(u64),
}

pub fn wait_mode(timeouts: &Timeouts) -> (r: WaitMode)
    ensures
        r == match timeouts.wait {
            None => WaitMode::Unbounded,
            Some(t) => if t == 0 { WaitMode::NonBlocking } else { WaitMode::Deadline(t) },
        },
{
    match timeouts.wait {
        None => WaitMode::Unbounded,
        Some(t) => if t == 0 {
            WaitMode::NonBlocking
        } else {
            WaitMode::Deadline(t)
        },
    }
}

/// What recycling an idle session asks for.
#[derive(Clone, Copy, Debug, PartialEq, Eq)]
pub enum RecyclePlan {
    /// The session reports itself closed: it fails without a query.
    Reject,
    /// Nothing to run: the session passes.
    Accept,
    /// Run this statement; the session passes if it succeeds.
    Run(&'static str),
}

pub fn recycle_plan(is_closed: bool, method: RecyclingMethod) -> (r: RecyclePlan)
    ensures
        is_closed ==> r == RecyclePlan::Reject,
        !is_closed && method == RecyclingMethod::Fast ==> r == RecyclePlan::Accept,
        !is_closed && method == RecyclingMethod::Verified ==> (r matches RecyclePlan::Run(q)
            && q@ == ""@),
        !is_closed && method == RecyclingMethod::Clean ==> (r matches RecyclePlan::Run(q)
            && q@ == crate::config::CLEAN_SCRIPT@),
{
    if is_closed {
        return RecyclePlan::Reject;
    }
    match method.query() {
        Some(sql) => RecyclePlan::Run(sql),
        None => RecyclePlan::Accept,
    }
}

/// The outcome of recycling, given whether the statement it ran succeeded.
pub fn recycle_result(plan: RecyclePlan, query_ok: bool) -> (r: Result<(), Error>)
    ensures
        r is Ok <==> (plan == RecyclePlan::Accept || (plan is Run && query_ok)),
        r is Err ==> r == Err::<(), Error>(Error::RecyclingError),
{
    match plan {
        RecyclePlan::Reject => Err(Error::RecyclingError),
        RecyclePlan::Accept => Ok(()),
        RecyclePlan::Run(_) => if query_ok {
            Ok(())
        } else {
            Err(Error::RecyclingError)
        },
    }
}

/// A checkout guard: the state reached and, while it has one, the session.
pub struct Object<C> {
    state: State,
    inner: Option<Idle<C>>,
}

impl<C> Object<C> {
    pub closed spec fn spec_state(&self) -> State {
        self.state
    }

    pub closed spec fn spec_inner(&self) -> Option<Idle<C>> {
        self.inner
    }

    /// A guard holds a session exactly in the states that own one.
    pub open spec fn wf(&self) -> bool {
        holds_session(self.spec_state()) <==> self.spec_inner() is Some
    }

    pub fn new() -> (r: Self)
        ensures
            r.wf(),
            r.spec_state() == State::Waiting,
            r.spec_inner() is None,
    {
        Object { state: State::Waiting, inner: None }
    }

    pub fn state(&self) -> (r: State)
        ensures
            r == self.spec_state(),
    {
        self.state
    }

    /// The session of a guard that holds one.
    pub fn client(&self) -> (r: &C)
        requires
            self.wf(),
            holds_session(self.spec_state()),
        ensures
            *r == self.spec_inner()->0.client,
    {
        match &self.inner {
            Some(idle) => &idle.client,
            None => vstd::pervasive::unreached(),
        }
    }

    /// Mutable access to the session of a guard that holds one.
    pub fn client_mut(&mut self) -> (r: &mut C)
        requires
            old(self).wf(),
            holds_session(old(self).spec_state()),
        ensures
            *r == old(self).spec_inner()->0.client,
            final(self).spec_state() == old(self).spec_state(),
            final(self).spec_inner() == Some(Idle { client: *final(r), config_id: old(self).spec_inner()->0.config_id }),
    {
        match &mut self.inner {
            Some(idle) => &mut idle.client,
            None => vstd::pervasive::unreached(),
        }
    }

    /// The outcome of recycling the held session: on success the guard is
    /// ready; on failure the session is handed back for disposal and the
    /// guard returns to deciding, still holding its slot.
    pub fn recycled(&mut self, ok: bool) -> (discarded: Option<C>)
        requires
            old(self).wf(),
            old(self).spec_state() == State::Recycling,
        ensures
            final(self).wf(),
            ok ==> final(self).spec_state() == State::Ready && final(self).spec_inner() == old(self).spec_inner()
                && discarded is None,
            !ok ==> final(self).spec_state() == State::Receiving && final(self).spec_inner() is None
                && discarded == Some(old(self).spec_inner()->0.client),
            final(self).spec_state() == step(
                old(self).spec_state(),
                if ok { Event::RecycleOk } else { Event::RecycleFailed },
            )->0,
    {
        if ok {
            self.state = State::Ready;
            None
        } else {
            self.state = State::Receiving;
            match self.inner.take() {
                Some(idle) => Some(idle.client),
                None => None,
            }
        }
    }

    /// A new session was opened under configuration generation `config_id`.
    pub fn created(&mut self, client: C, config_id: u64)
        requires
            old(self).wf(),
            old(self).spec_state() == State::Creating,
        ensures
            final(self).wf(),
            final(self).spec_state() == State::Ready,
            final(self).spec_state() == step(old(self).spec_state(), Event::Created)->0,
            final(self).spec_inner() == Some(Idle { client, config_id }),
    {
        self.state = State::Ready;
        self.inner = Some(Idle { client, config_id });
    }

    /// Takes the session out for ownership elsewhere. The guard keeps its
    /// slot until it is given back.
    pub fn take(&mut self) -> (r: C)
        requires
            old(self).wf(),
            old(self).spec_state() == State::Ready,
        ensures
            final(self).wf(),
            final(self).spec_state() == State::Taken,
            final(self).spec_state() == step(old(self).spec_state(), Event::Took)->0,
            final(self).spec_inner() is None,
            r == old(self).spec_inner()->0.client,
    {
        self.state = State::Taken;
        match self.inner.take() {
            Some(idle) => idle.client,
            None => vstd::pervasive::unreached(),
        }
    }
}

/// The pool's bookkeeping: slots, the idle queue and the current configuration.
pub struct Pool<C> {
    config: PoolConfig,
    config_id: u64,
    capacity: usize,
    in_use: usize,
    closed: bool,
    queue: std::collections::VecDeque<Idle<C>>,
}

impl<C> Pool<C> {
    pub closed spec fn spec_config(&self) -> PoolConfig {
        self.config
    }

    /// Identity of the current configuration: it changes on every effective replacement.
    pub closed spec fn spec_config_id(&self) -> u64 {
        self.config_id
    }

    /// Slots that exist.
    pub closed spec fn spec_capacity(&self) -> nat {
        self.capacity as nat
    }

    /// Slots currently held by guards.
    pub closed spec fn spec_in_use(&self) -> nat {
        self.in_use as nat
    }

    pub closed spec fn spec_closed(&self) -> bool {
        self.closed
    }

    /// The idle queue, front first.
    pub closed spec fn spec_idle(&self) -> Seq<Idle<C>> {
        self.queue@
    }

    /// What a request for a slot that does not wait comes to.
    pub open spec fn spec_acquire_outcome(&self) -> Result<(), Error> {
        if self.spec_closed() {
            Err(Error::Closed)
        } else if self.spec_in_use() >= self.spec_capacity() {
            Err(Error::Timeout)
        } else {
            Ok(())
        }
    }

    /// Never more slots held than exist, and every idle session belongs to
    /// the current configuration.
    pub open spec fn wf(&self) -> bool {
        &&& self.spec_in_use() <= self.spec_capacity()
        &&& forall|i: int|
            0 <= i < self.spec_idle().len() ==> #[trigger] self.spec_idle()[i].config_id
                == self.spec_config_id()
    }

    pub fn new(config: PoolConfig) -> (r: Self)
        ensures
            r.wf(),
            r.spec_config() == config,
            r.spec_config_id() == 0,
            r.spec_capacity() == config.max_connections,
            r.spec_in_use() == 0,
            !r.spec_closed(),
            r.spec_idle().len() == 0,
    {
        Pool {
            config,
            config_id: 0,
            capacity: config.max_connections,
            in_use: 0,
            closed: false,
            queue: std::collections::VecDeque::new(),
        }
    }

    pub fn config(&self) -> (r: PoolConfig)
        ensures
            r == self.spec_config(),
    {
        self.config
    }

    pub fn config_id(&self) -> (r: u64)
        ensures
            r == self.spec_config_id(),
    {
        self.config_id
    }

    pub fn in_use(&self) -> (r: usize)
        ensures
            r == self.spec_in_use(),
    {
        self.in_use
    }

    pub fn capacity(&self) -> (r: usize)
        ensures
            r == self.spec_capacity(),
    {
        self.capacity
    }

    pub fn is_closed(&self) -> (r: bool)
        ensures
            r == self.spec_closed(),
    {
        self.closed
    }

    pub fn idle_len(&self) -> (r: usize)
        ensures
            r == self.spec_idle().len(),
    {
        self.queue.len()
    }

    /// The deadlines of a plain checkout.
    pub fn get_timeouts(&self) -> (r: Timeouts)
        ensures
            r == self.spec_config().timeouts,
    {
        self.config.timeouts
    }

    /// The deadlines of a checkout that must not wait for a slot.
    pub fn try_get_timeouts(&self) -> (r: Timeouts)
        ensures
            r == (Timeouts { wait: Some(0u64), ..self.spec_config().timeouts }),
            r.spec_is_non_blocking(),
    {
        self.config.timeouts.wait(0)
    }

    /// Installs `config` as a new configuration, whether or not it equals
    /// the current one (settings held outside the pool may have changed),
    /// and empties the idle queue. The number of slots stays as it was.
    pub fn install_config(&mut self, config: PoolConfig)
        requires
            old(self).wf(),
            old(self).spec_config_id() < u64::MAX,
        ensures
            final(self).wf(),
            final(self).spec_config() == config,
            final(self).spec_config_id() == old(self).spec_config_id() + 1,
            final(self).spec_idle().len() == 0,
            final(self).spec_capacity() == old(self).spec_capacity(),
            final(self).spec_in_use() == old(self).spec_in_use(),
            final(self).spec_closed() == old(self).spec_closed(),
    {
        self.config = config;
        self.config_id = self.config_id + 1;
        self.queue.clear();
    }

    /// Swaps in `config` if it differs from the current one, and then empties
    /// the idle queue so that no session of the old configuration is reused.
    /// The number of slots stays as it was.
    pub fn replace_config(&mut self, config: PoolConfig) -> (changed: bool)
        requires
            old(self).wf(),
            old(self).spec_config_id() < u64::MAX,
        ensures
            final(self).wf(),
            changed == (config != old(self).spec_config()),
            changed ==> final(self).spec_config() == config
                && final(self).spec_config_id() == old(self).spec_config_id() + 1
                && final(self).spec_idle().len() == 0,
            !changed ==> final(self).spec_config() == old(self).spec_config()
                && final(self).spec_config_id() == old(self).spec_config_id()
                && final(self).spec_idle() == old(self).spec_idle(),
            final(self).spec_capacity() == old(self).spec_capacity(),
            final(self).spec_in_use() == old(self).spec_in_use(),
            final(self).spec_closed() == old(self).spec_closed(),
    {
        if self.config != config {
            self.install_config(config);
            true
        } else {
            false
        }
    }

    /// Takes one slot without waiting.
    pub fn try_acquire(&mut self) -> (r: Result<(), Error>)
        requires
            old(self).wf(),
        ensures
            final(self).wf(),
            r == old(self).spec_acquire_outcome(),
            old(self).spec_closed() ==> r == Err::<(), Error>(Error::Closed),
            !old(self).spec_closed() && old(self).spec_in_use() == old(self).spec_capacity() ==> r
                == Err::<(), Error>(Error::Timeout),
            r is Ok <==> !old(self).spec_closed() && old(self).spec_in_use() < old(self).spec_capacity(),
            r is Ok ==> final(self).spec_in_use() == old(self).spec_in_use() + 1,
            r is Err ==> final(self).spec_in_use() == old(self).spec_in_use(),
            final(self).spec_capacity() == old(self).spec_capacity(),
            final(self).spec_closed() == old(self).spec_closed(),
            final(self).spec_idle() == old(self).spec_idle(),
            final(self).spec_config() == old(self).spec_config(),
            final(self).spec_config_id() == old(self).spec_config_id(),
    {
        if self.closed {
            Err(Error::Closed)
        } else if self.in_use == self.capacity {
            Err(Error::Timeout)
        } else {
            self.in_use = self.in_use + 1;
            assert(self.spec_idle() == old(self).spec_idle());
            Ok(())
        }
    }
    /// Gives the guard a slot without waiting: the first step of a checkout.
    pub fn acquire(&mut self, obj: &mut Object<C>) -> (r: Result<(), Error>)
        requires
            old(self).wf(),
            old(obj).wf(),
            old(obj).spec_state() == State::Waiting,
        ensures
            final(self).wf(),
            final(obj).wf(),
            old(self).spec_closed() ==> r == Err::<(), Error>(Error::Closed),
            !old(self).spec_closed() && old(self).spec_in_use() == old(self).spec_capacity() ==> r
                == Err::<(), Error>(Error::Timeout),
            r is Ok <==> !old(self).spec_closed() && old(self).spec_in_use() < old(self).spec_capacity(),
            r is Ok ==> final(self).spec_in_use() == old(self).spec_in_use() + 1
                && final(obj).spec_state() == State::Receiving
                && final(obj).spec_state() == step(old(obj).spec_state(), Event::Acquired)->0,
            r is Err ==> final(self).spec_in_use() == old(self).spec_in_use() && *final(obj) == *old(obj),
            final(obj).spec_inner() is None,
            final(self).spec_capacity() == old(self).spec_capacity(),
            final(self).spec_closed() == old(self).spec_closed(),
            final(self).spec_idle() == old(self).spec_idle(),
            final(self).spec_config() == old(self).spec_config(),
            final(self).spec_config_id() == old(self).spec_config_id(),
    {
        let r = self.try_acquire();
        if r.is_ok() {
            obj.state = State::Receiving;
        }
        r
    }

    /// Decides between reuse and creation for a guard that holds a slot:
    /// the front of the idle queue, if any, moves into the guard for
    /// recycling (`true`); otherwise the guard goes on to create (`false`).
    pub fn receive(&mut self, obj: &mut Object<C>) -> (recycle: bool)
        requires
            old(self).wf(),
            old(obj).wf(),
            old(obj).spec_state() == State::Receiving,
        ensures
            final(self).wf(),
            final(obj).wf(),
            recycle == (old(self).spec_idle().len() > 0),
            final(obj).spec_state() == step(
                old(obj).spec_state(),
                if recycle { Event::FoundIdle } else { Event::FoundNone },
            )->0,
            recycle ==> final(obj).spec_state() == State::Recycling
                && final(obj).spec_inner() == Some(old(self).spec_idle()[0])
                && final(self).spec_idle() == old(self).spec_idle().drop_first(),
            !recycle ==> final(obj).spec_state() == State::Creating
                && final(obj).spec_inner() is None
                && final(self).spec_idle() == old(self).spec_idle(),
            final(self).spec_in_use() == old(self).spec_in_use(),
            final(self).spec_capacity() == old(self).spec_capacity(),
            final(self).spec_closed() == old(self).spec_closed(),
            final(self).spec_config() == old(self).spec_config(),
            final(self).spec_config_id() == old(self).spec_config_id(),
    {
        match self.queue.pop_front() {
            Some(idle) => {
                obj.state = State::Recycling;
                obj.inner = Some(idle);
                assert(self.spec_idle() =~= old(self).spec_idle().drop_first());
                assert forall|i: int| 0 <= i < self.spec_idle().len() implies #[trigger] self.spec_idle()[i].config_id
                    == self.spec_config_id() by {
                    assert(self.spec_idle()[i] == old(self).spec_idle()[i + 1]);
                }
                true
            },
            None => {
                obj.state = State::Creating;
                false
            },
        }
    }

    /// Gives a guard back, whatever state it reached: its slot, if it holds
    /// one, is released; its session, if it holds one, goes to the back of
    /// the idle queue when it was opened under the current configuration.
    /// A session that is not requeued is handed back for disposal.
    pub fn retire(&mut self, obj: Object<C>) -> (discarded: Option<C>)
        requires
            old(self).wf(),
            obj.wf(),
            holds_slot(obj.spec_state()) ==> old(self).spec_in_use() > 0,
        ensures
            final(self).wf(),
            final(self).spec_in_use() == if holds_slot(obj.spec_state()) {
                old(self).spec_in_use() - 1
            } else {
                old(self).spec_in_use() as int
            },
            holds_session(obj.spec_state()) && obj.spec_inner()->0.config_id == old(self).spec_config_id()
                ==> final(self).spec_idle() == old(self).spec_idle().push(obj.spec_inner()->0)
                && discarded is None,
            !(holds_session(obj.spec_state()) && obj.spec_inner()->0.config_id == old(self).spec_config_id())
                ==> final(self).spec_idle() == old(self).spec_idle()
                && discarded == match obj.spec_inner() {
                Some(idle) => Some(idle.client),
                None => None,
            },
            final(self).spec_capacity() == old(self).spec_capacity(),
            final(self).spec_closed() == old(self).spec_closed(),
            final(self).spec_config() == old(self).spec_config(),
            final(self).spec_config_id() == old(self).spec_config_id(),
    {
        let mut discarded: Option<C> = None;
        match drop_action(obj.state) {
            DropAction::Nothing => {},
            DropAction::Release => {
                self.in_use = self.in_use - 1;
            },
            DropAction::RequeueAndRelease => {
                match obj.inner {
                    Some(idle) => {
                        if idle.config_id == self.config_id {
                            self.queue.push_back(idle);
                            assert forall|i: int| 0 <= i < self.spec_idle().len() implies #[trigger] self.spec_idle()[i].config_id
                                == self.spec_config_id() by {
                                if i < old(self).spec_idle().len() {
                                    assert(self.spec_idle()[i] == old(self).spec_idle()[i]);
                                }
                            }
                        } else {
                            discarded = Some(idle.client);
                        }
                    },
                    None => {},
                }
                self.in_use = self.in_use - 1;
            },
        }
        discarded
    }

    /// Closes the pool: every later request for a slot fails, and the idle
    /// sessions are let go.
    pub fn close(&mut self)
        requires
            old(self).wf(),
        ensures
            final(self).wf(),
            final(self).spec_closed(),
            final(self).spec_idle().len() == 0,
            final(self).spec_in_use() == old(self).spec_in_use(),
            final(self).spec_capacity() == old(self).spec_capacity(),
            final(self).spec_config() == old(self).spec_config(),
            final(self).spec_config_id() == old(self).spec_config_id(),
    {
        self.closed = true;
        self.queue.clear();
    }
}

/// Slot bound: every ready guard holds a slot; a pool never has more slots
/// in use than it has; a granted request leaves the count within the
/// capacity; and once every slot is held, a further request that does not
/// wait fails with `Timeout`.
pub proof fn slot_bound<C>(p: Pool<C>)
    requires
        p.wf(),
    ensures
        holds_slot(State::Ready),
        p.spec_in_use() <= p.spec_capacity(),
        p.spec_acquire_outcome() is Ok ==> p.spec_in_use() + 1 <= p.spec_capacity(),
        !p.spec_closed() && p.spec_in_use() == p.spec_capacity() ==> p.spec_acquire_outcome()
            == Err::<(), Error>(Error::Timeout),
{
}

/// A request that does not wait fails at once when it cannot be granted:
/// with `Closed` on a closed pool, and with `Timeout` on an open pool whose
/// slots are all held.
pub proof fn zero_wait<C>(p: Pool<C>)
    requires
        p.wf(),
    ensures
        p.spec_closed() ==> p.spec_acquire_outcome() == Err::<(), Error>(Error::Closed),
        !p.spec_closed() && p.spec_in_use() == p.spec_capacity() ==> p.spec_acquire_outcome()
            == Err::<(), Error>(Error::Timeout),
        p.spec_acquire_outcome() is Ok <==> !p.spec_closed() && p.spec_in_use() < p.spec_capacity(),
{
}

/// Requeue validity: every idle session was opened under the current
/// configuration, so the session a checkout receives from the queue is
/// one; a session of any earlier configuration is never in the queue.
pub proof fn requeue_validity<C>(p: Pool<C>, e: Idle<C>)
    requires
        p.wf(),
    ensures
        p.spec_idle().contains(e) ==> e.config_id == p.spec_config_id(),
        e.config_id != p.spec_config_id() ==> !p.spec_idle().contains(e),
        p.spec_idle().len() > 0 ==> p.spec_idle()[0].config_id == p.spec_config_id(),
{
    if p.spec_idle().contains(e) {
        let i = choose|i: int| 0 <= i < p.spec_idle().len() && p.spec_idle()[i] == e;
        assert(p.spec_idle()[i].config_id == p.spec_config_id());
    }
}

} // verus!
