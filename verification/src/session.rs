//! The lifecycle of one proxied connection.
//!
//! A session starts with the client connection in hand. It asks its driver to
//! dial the upstream within the configured time. When the dial succeeds it
//! runs two copy loops, one for each direction, over the client/upstream
//! pair. The two loops share nothing but their end: the first one to stop
//! closes the session, and with it both connections. A dial that fails or
//! times out closes the session before any byte is copied.
//!
//! Nothing is retried, and a closed session stays closed.

use crate::config::RelayConfig;
use crate::forwarder::{Action, ActionView, Event, EventView, Failure, Forwarder, ForwarderState, Phase};
use vstd::prelude::*;

verus! {

/// One of the two directions of a session.
#[derive(Clone, Copy, Debug, PartialEq, Eq, Structural)]
pub enum Direction {
    /// From the client's read side to the upstream's write side.
    ClientToServer,
    /// From the upstream's read side to the client's write side.
    ServerToClient,
}

impl Direction {
    /// The direction's name, as it appears in diagnostics.
    pub fn name(&self) -> (s: &'static str)
        ensures
            *self == Direction::ClientToServer ==> s@ == "client to server"@,
            *self == Direction::ServerToClient ==> s@ == "server to client"@,
    {
        match self {
            Direction::ClientToServer => "client to server",
            Direction::ServerToClient => "server to client",
        }
    }

    /// The direction that runs the other way.
    pub open spec fn reverse(self) -> Direction {
        match self {
            Direction::ClientToServer => Direction::ServerToClient,
            Direction::ServerToClient => Direction::ClientToServer,
        }
    }
}

/// Why a session was closed.
#[derive(Debug, PartialEq, Eq)]
pub enum Cause<E> {
    /// The upstream could not be reached.
    DialFailed(E),
    /// The upstream did not answer within the configured time.
    DialTimedOut,
    /// The copy loop of this direction stopped.
    DirectionFailed(Direction, Failure<E>),
}

/// What the driver reports to a session.
#[derive(Debug, PartialEq, Eq)]
pub enum SessionEvent<E> {
    /// The upstream connection is open.
    DialSucceeded,
    /// The dial failed.
    DialFailed(E),
    /// The dial did not finish in time and was abandoned.
    DialTimedOut,
    /// The outcome of the last read or write of one direction.
    Io(Direction, Event<E>),
}

/// A [`SessionEvent`] as a mathematical value.
pub enum SessionEventView<E> {
    DialSucceeded,
    DialFailed(E),
    DialTimedOut,
    Io(Direction, EventView<E>),
}

impl<E> View for SessionEvent<E> {
    type V = SessionEventView<E>;

    open spec fn view(&self) -> SessionEventView<E> {
        match *self {
            SessionEvent::DialSucceeded => SessionEventView::DialSucceeded,
            SessionEvent::DialFailed(e) => SessionEventView::DialFailed(e),
            SessionEvent::DialTimedOut => SessionEventView::DialTimedOut,
            SessionEvent::Io(direction, event) => SessionEventView::Io(direction, event@),
        }
    }
}

/// What the driver of a session has to do.
#[derive(Clone, Copy, Debug, PartialEq, Eq, Structural)]
pub enum SessionAction {
    /// Open a connection to the upstream address, giving up after
    /// `timeout_ms` milliseconds. Then report [`SessionEvent::DialSucceeded`],
    /// [`SessionEvent::DialFailed`] or [`SessionEvent::DialTimedOut`].
    Dial { timeout_ms: u64 },
    /// Serve both directions at once: for each, carry out
    /// [`Session::io_action`] and report the outcome as [`SessionEvent::Io`].
    Relay,
    /// Close whichever connections are open and end the session.
    Close,
}

/// Where a session stands.
pub enum Stage<E> {
    /// The client is connected; the upstream is being dialled.
    Dialing,
    /// Both connections are open and the two copy loops run.
    Relaying { up: ForwarderState<E>, down: ForwarderState<E> },
    /// The session has ended and holds no connection.
    Closed(Cause<E>),
}

/// The mathematical state of a [`Session`].
pub struct SessionState<E> {
    pub config: RelayConfig,
    pub stage: Stage<E>,
}

impl<E> SessionState<E> {
    /// The state of a session that has just been handed its client connection.
    pub open spec fn start(config: RelayConfig) -> Self {
        SessionState { config, stage: Stage::Dialing }
    }

    /// The same session in another stage.
    pub open spec fn with(self, stage: Stage<E>) -> Self {
        SessionState { config: self.config, stage }
    }

    /// While the session relays, both copy loops are sound, use the
    /// configured buffer size and are still running.
    pub open spec fn wf(self) -> bool {
        self.stage matches Stage::Relaying { up, down } ==> {
            &&& up.wf()
            &&& down.wf()
            &&& up.buffer_size == self.config.buffer_size
            &&& down.buffer_size == self.config.buffer_size
            &&& !(up.phase is Stopped)
            &&& !(down.phase is Stopped)
        }
    }

    /// The session owns the client connection.
    pub open spec fn holds_client(self) -> bool {
        !(self.stage is Closed)
    }

    /// The session owns an upstream connection: from a successful dial until
    /// the session is closed.
    pub open spec fn holds_upstream(self) -> bool {
        self.stage is Relaying
    }

    /// The copy loop of `direction`, while the session relays.
    pub open spec fn forwarder(self, direction: Direction) -> Option<ForwarderState<E>> {
        match self.stage {
            Stage::Relaying { up, down } => Some(
                match direction {
                    Direction::ClientToServer => up,
                    Direction::ServerToClient => down,
                },
            ),
            _ => None,
        }
    }

    /// What becomes of a relaying session whose copy loop of `direction` has
    /// moved to `moved`: if the loop has stopped the session is closed, with
    /// the loop's failure as the cause; otherwise the session goes on with the
    /// loop in its new state, the other loop untouched.
    pub open spec fn settle(self, direction: Direction, moved: ForwarderState<E>) -> Self {
        match self.stage {
            Stage::Relaying { up, down } => match moved.phase {
                Phase::Stopped(failure) => self.with(
                    Stage::Closed(Cause::DirectionFailed(direction, failure)),
                ),
                _ => match direction {
                    Direction::ClientToServer => self.with(Stage::Relaying { up: moved, down }),
                    Direction::ServerToClient => self.with(Stage::Relaying { up, down: moved }),
                },
            },
            _ => self,
        }
    }

    /// The transition function. An event that the current stage does not wait
    /// for changes nothing, and neither does any event once the session is
    /// closed.
    pub open spec fn step(self, event: SessionEventView<E>) -> Self {
        match (self.stage, event) {
            (Stage::Dialing, SessionEventView::DialSucceeded) => self.with(
                Stage::Relaying {
                    up: ForwarderState::start(self.config.buffer_size as nat),
                    down: ForwarderState::start(self.config.buffer_size as nat),
                },
            ),
            (Stage::Dialing, SessionEventView::DialFailed(e)) => self.with(
                Stage::Closed(Cause::DialFailed(e)),
            ),
            (Stage::Dialing, SessionEventView::DialTimedOut) => self.with(
                Stage::Closed(Cause::DialTimedOut),
            ),
            (Stage::Relaying { .. }, SessionEventView::Io(direction, io)) => self.settle(
                direction,
                self.forwarder(direction)->0.step(io),
            ),
            _ => self,
        }
    }

    /// The bytes that `event` brings in from the source of `direction`.
    pub open spec fn taken(self, event: SessionEventView<E>, direction: Direction) -> Seq<u8> {
        match (self.forwarder(direction), event) {
            (Some(forwarder), SessionEventView::Io(d, io)) if d == direction => forwarder.taken(io),
            _ => Seq::empty(),
        }
    }

    /// The bytes that the destination of `direction` has taken according to
    /// `event`.
    pub open spec fn accepted(self, event: SessionEventView<E>, direction: Direction) -> Seq<u8> {
        match (self.forwarder(direction), event) {
            (Some(forwarder), SessionEventView::Io(d, io)) if d == direction => forwarder.accepted(
                io,
            ),
            _ => Seq::empty(),
        }
    }

    /// What the driver is asked to do in this state.
    pub open spec fn action(self) -> SessionAction {
        match self.stage {
            Stage::Dialing => SessionAction::Dial { timeout_ms: self.config.dial_timeout_ms },
            Stage::Relaying { .. } => SessionAction::Relay,
            Stage::Closed(_) => SessionAction::Close,
        }
    }

    /// What the driver is asked to do for `direction`: the action of that
    /// copy loop while the session relays, and nothing otherwise.
    pub open spec fn io_action(self, direction: Direction) -> ActionView {
        match self.forwarder(direction) {
            Some(forwarder) => forwarder.action(),
            None => ActionView::Stop,
        }
    }
}

/// The state that `events`, taken in order, lead to from `s`.
pub open spec fn run<E>(s: SessionState<E>, events: Seq<SessionEventView<E>>) -> SessionState<E>
    decreases events.len(),
{
    if events.len() == 0 {
        s
    } else {
        run(s, events.drop_last()).step(events.last())
    }
}

/// All the bytes that the source of `direction` handed over while `events`
/// took place from `s` on, in the order in which they were read.
pub open spec fn received<E>(
    s: SessionState<E>,
    events: Seq<SessionEventView<E>>,
    direction: Direction,
) -> Seq<u8>
    decreases events.len(),
{
    if events.len() == 0 {
        Seq::empty()
    } else {
        received(s, events.drop_last(), direction) + run(s, events.drop_last()).taken(
            events.last(),
            direction,
        )
    }
}

/// All the bytes that the destination of `direction` took while `events` took
/// place from `s` on, in the order in which it took them.
pub open spec fn delivered<E>(
    s: SessionState<E>,
    events: Seq<SessionEventView<E>>,
    direction: Direction,
) -> Seq<u8>
    decreases events.len(),
{
    if events.len() == 0 {
        Seq::empty()
    } else {
        delivered(s, events.drop_last(), direction) + run(s, events.drop_last()).accepted(
            events.last(),
            direction,
        )
    }
}

/// The events of `events` that belong to the copy loop of `direction`, in order.
pub open spec fn events_of<E>(events: Seq<SessionEventView<E>>, direction: Direction) -> Seq<
    EventView<E>,
>
    decreases events.len(),
{
    if events.len() == 0 {
        Seq::empty()
    } else {
        let before = events_of(events.drop_last(), direction);
        match events.last() {
            SessionEventView::Io(d, io) if d == direction => before.push(io),
            _ => before,
        }
    }
}

/// How far the destination of `direction` may lag behind its source in state
/// `end`, when `inp` has come in and `out` has gone out since the session
/// began.
pub open spec fn in_step<E>(
    end: SessionState<E>,
    direction: Direction,
    inp: Seq<u8>,
    out: Seq<u8>,
) -> bool {
    &&& out.is_prefix_of(inp)
    &&& match end.stage {
        Stage::Dialing => inp.len() == 0,
        Stage::Relaying { .. } => crate::forwarder::in_step(end.forwarder(direction)->0, inp, out),
        Stage::Closed(Cause::DirectionFailed(d, Failure::UnexpectedEof)) => d == direction ==> out
            == inp,
        Stage::Closed(Cause::DirectionFailed(d, Failure::Read(_))) => d == direction ==> out == inp,
        Stage::Closed(_) => true,
    }
}

/// A session is transparent in both directions. From the moment a session is
/// created, whatever the events, the bytes that the destination of a
/// direction has taken are a prefix of the bytes read from that direction's
/// source: the same values in the same order, none added and none skipped.
/// Before the dial is over no byte is read. While the session relays, what a
/// destination has not taken yet is exactly what its copy loop is holding for
/// the next write. When the session is closed because a source closed or
/// failed, the destination of that direction has taken every byte that the
/// source handed over before.
pub proof fn lemma_transparency<E>(
    config: RelayConfig,
    events: Seq<SessionEventView<E>>,
    direction: Direction,
)
    ensures
        ({
            let s = SessionState::<E>::start(config);
            in_step(
                run(s, events),
                direction,
                received(s, events, direction),
                delivered(s, events, direction),
            )
        }),
    decreases events.len(),
{
    let s = SessionState::<E>::start(config);
    if events.len() == 0 {
        assert(delivered(s, events, direction) =~= received(s, events, direction));
    } else {
        let before = events.drop_last();
        lemma_transparency(config, before, direction);
        let mid = run(s, before);
        let inp = received(s, before, direction);
        let out = delivered(s, before, direction);
        let inp2 = received(s, events, direction);
        let out2 = delivered(s, events, direction);
        match (mid.stage, events.last()) {
            (Stage::Relaying { up, down }, SessionEventView::Io(d, io)) => {
                if d == direction {
                    crate::forwarder::lemma_step_in_step(mid.forwarder(d)->0, io, inp, out);
                } else {
                    assert(inp2 =~= inp);
                    assert(out2 =~= out);
                }
            },
            _ => {
                assert(inp2 =~= inp);
                assert(out2 =~= out);
            },
        }
    }
}

/// The two copy loops of a session do not wait for each other. As long as the
/// session relays, each loop is where its own events alone have led it, and
/// has taken in and handed over the bytes that those events alone account
/// for, however the events of the two directions were interleaved: traffic
/// one way neither holds up nor alters traffic the other way.
pub proof fn lemma_directions_independent<E>(
    s: SessionState<E>,
    events: Seq<SessionEventView<E>>,
    direction: Direction,
)
    requires
        s.stage is Relaying,
        run(s, events).stage is Relaying,
    ensures
        ({
            let alone = s.forwarder(direction)->0;
            let own = events_of(events, direction);
            &&& run(s, events).forwarder(direction) == Some(crate::forwarder::run(alone, own))
            &&& received(s, events, direction) == crate::forwarder::received(alone, own)
            &&& delivered(s, events, direction) == crate::forwarder::delivered(alone, own)
        }),
    decreases events.len(),
{
    if events.len() > 0 {
        let before = events.drop_last();
        lemma_never_back_to_dial(s, before);
        lemma_directions_independent(s, before, direction);
        match events.last() {
            SessionEventView::Io(d, io) if d == direction => {
                assert(events_of(events, direction).drop_last() =~= events_of(before, direction));
            },
            _ => {
                assert(received(s, events, direction) =~= received(s, before, direction));
                assert(delivered(s, events, direction) =~= delivered(s, before, direction));
            },
        }
    }
}

/// A sound session stays sound, whatever happens to it: while it relays,
/// neither of its copy loops has stopped.
pub proof fn lemma_run_wf<E>(s: SessionState<E>, events: Seq<SessionEventView<E>>)
    requires
        s.wf(),
    ensures
        run(s, events).wf(),
    decreases events.len(),
{
    if events.len() > 0 {
        lemma_run_wf(s, events.drop_last());
    }
}

/// Once the dial is over it is over.
pub proof fn lemma_never_back_to_dial<E>(s: SessionState<E>, events: Seq<SessionEventView<E>>)
    requires
        !(s.stage is Dialing),
    ensures
        !(run(s, events).stage is Dialing),
    decreases events.len(),
{
    if events.len() > 0 {
        lemma_never_back_to_dial(s, events.drop_last());
    }
}

/// Teardown is final and can be asked for any number of times. No event
/// reopens a closed session or changes why it was closed, so a second failure
/// that arrives after the first (both directions failing at nearly the same
/// moment) is absorbed; and no byte moves any more.
pub proof fn lemma_closed_is_final<E>(
    s: SessionState<E>,
    events: Seq<SessionEventView<E>>,
    direction: Direction,
)
    requires
        s.stage is Closed,
    ensures
        run(s, events) == s,
        !run(s, events).holds_client(),
        !run(s, events).holds_upstream(),
        received(s, events, direction) == Seq::<u8>::empty(),
        delivered(s, events, direction) == Seq::<u8>::empty(),
    decreases events.len(),
{
    if events.len() > 0 {
        lemma_closed_is_final(s, events.drop_last(), direction);
    }
}

/// A session that dials asks for exactly the configured time. When the
/// driver reports that this time ran out, the session is closed at
/// once with that cause: it holds neither connection, asks for nothing but
/// the close, copies no byte, and stays so whatever is reported later.
pub proof fn lemma_dial_timeout_closes<E>(
    s: SessionState<E>,
    later: Seq<SessionEventView<E>>,
    direction: Direction,
)
    requires
        s.stage is Dialing,
    ensures
        s.action() == (SessionAction::Dial { timeout_ms: s.config.dial_timeout_ms }),
        !s.holds_upstream(),
        ({
            let t = s.step(SessionEventView::DialTimedOut);
            &&& t.stage == Stage::<E>::Closed(Cause::DialTimedOut)
            &&& !t.holds_client()
            &&& !t.holds_upstream()
            &&& t.action() == SessionAction::Close
            &&& t.io_action(direction) == ActionView::Stop
            &&& run(t, later) == t
            &&& received(t, later, direction) == Seq::<u8>::empty()
            &&& delivered(t, later, direction) == Seq::<u8>::empty()
        }),
{
    lemma_closed_is_final(s.step(SessionEventView::DialTimedOut), later, direction);
}

/// The end of one direction is the end of the session. When an event stops
/// the copy loop of either direction, the session is closed with that
/// direction and the loop's failure as the cause: both connections are let
/// go, and the other direction is told to stop as well.
pub proof fn lemma_stop_closes_session<E>(
    s: SessionState<E>,
    direction: Direction,
    io: EventView<E>,
)
    requires
        s.stage is Relaying,
        s.forwarder(direction)->0.step(io).phase is Stopped,
    ensures
        ({
            let t = s.step(SessionEventView::Io(direction, io));
            &&& t.stage == Stage::Closed(
                Cause::DirectionFailed(direction, s.forwarder(direction)->0.step(io).phase->Stopped_0),
            )
            &&& !t.holds_client()
            &&& !t.holds_upstream()
            &&& t.action() == SessionAction::Close
            &&& t.io_action(direction) == ActionView::Stop
            &&& t.io_action(direction.reverse()) == ActionView::Stop
        }),
{
}

/// An orderly close goes through to the other side. When the peer that a
/// direction reads from shuts down its write side or disconnects, the pending
/// read of that direction returns no bytes. That ends the direction with an unexpected end of
/// stream, and the session closes both connections, the one to the other
/// peer included.
pub proof fn lemma_orderly_close_propagates<E>(s: SessionState<E>, direction: Direction)
    requires
        s.stage is Relaying,
        s.forwarder(direction)->0.phase is Reading,
    ensures
        ({
            let t = s.step(SessionEventView::Io(direction, EventView::ReadDone(Seq::empty())));
            &&& t.stage == Stage::<E>::Closed(
                Cause::DirectionFailed(direction, Failure::UnexpectedEof),
            )
            &&& !t.holds_client()
            &&& !t.holds_upstream()
            &&& t.action() == SessionAction::Close
        }),
{
}

/// An orderly close is not lost while a write is under way. If the peer that
/// a direction reads from has closed while the direction was still writing,
/// the close is found by the next read: once the destination has taken what
/// was left, that read returns no bytes and the session closes both
/// connections.
pub proof fn lemma_orderly_close_after_write<E>(s: SessionState<E>, direction: Direction)
    requires
        s.wf(),
        s.stage is Relaying,
        s.forwarder(direction)->0.phase is Writing,
    ensures
        ({
            let left = s.forwarder(direction)->0.unsent();
            let t = s.step(SessionEventView::Io(direction, EventView::WriteDone(left.len()))).step(
                SessionEventView::Io(direction, EventView::ReadDone(Seq::empty())),
            );
            &&& t.stage == Stage::<E>::Closed(
                Cause::DirectionFailed(direction, Failure::UnexpectedEof),
            )
            &&& !t.holds_client()
            &&& !t.holds_upstream()
            &&& t.action() == SessionAction::Close
        }),
{
}

/// What becomes of several sessions, side by side, when `event` is reported
/// to the one at `index`.
pub open spec fn deliver<E>(
    sessions: Seq<SessionState<E>>,
    index: int,
    event: SessionEventView<E>,
) -> Seq<SessionState<E>> {
    sessions.update(index, sessions[index].step(event))
}

/// Sessions do not touch each other. What is reported to one session, be it
/// traffic or the failure that closes it, leaves every other session as it was, and what
/// a session makes of an event does not depend on what was reported to
/// another before: events of different sessions can be taken in any order.
pub proof fn lemma_sessions_independent<E>(
    sessions: Seq<SessionState<E>>,
    i: int,
    j: int,
    a: SessionEventView<E>,
    b: SessionEventView<E>,
)
    requires
        0 <= i < sessions.len(),
        0 <= j < sessions.len(),
        i != j,
    ensures
        deliver(sessions, i, a)[j] == sessions[j],
        deliver(deliver(sessions, i, a), j, b)[j] == sessions[j].step(b),
        deliver(deliver(sessions, i, a), j, b) == deliver(deliver(sessions, j, b), i, a),
{
    assert(deliver(deliver(sessions, i, a), j, b) =~= deliver(deliver(sessions, j, b), i, a));
}

enum Inner<E> {
    Dialing,
    Relaying { up: Forwarder<E>, down: Forwarder<E> },
    Closed(Cause<E>),
}

/// One proxied connection.
pub struct Session<E> {
    config: RelayConfig,
    inner: Inner<E>,
}

impl<E> View for Session<E> {
    type V = SessionState<E>;

    closed spec fn view(&self) -> SessionState<E> {
        SessionState {
            config: self.config,
            stage: match self.inner {
                Inner::Dialing => Stage::Dialing,
                Inner::Relaying { up, down } => Stage::Relaying { up: up@, down: down@ },
                Inner::Closed(cause) => Stage::Closed(cause),
            },
        }
    }
}

impl<E> Session<E> {
    #[verifier::type_invariant]
    spec fn inv(self) -> bool {
        self@.wf()
    }

    /// A session for a client that has just connected.
    pub fn new(config: RelayConfig) -> (s: Session<E>)
        ensures
            s@ == SessionState::<E>::start(config),
    {
        Session { config, inner: Inner::Dialing }
    }

    /// The configuration that the session was made with.
    pub fn config(&self) -> (c: RelayConfig)
        ensures
            c == self@.config,
    {
        self.config
    }

    /// What the driver has to do next.
    pub fn action(&self) -> (a: SessionAction)
        ensures
            a == self@.action(),
            self@.wf(),
    {
        proof {
            use_type_invariant(self);
        }
        match &self.inner {
            Inner::Dialing => SessionAction::Dial { timeout_ms: self.config.dial_timeout_ms },
            Inner::Relaying { .. } => SessionAction::Relay,
            Inner::Closed(_) => SessionAction::Close,
        }
    }

    /// What the driver has to do next for `direction`.
    pub fn io_action(&self, direction: Direction) -> (a: Action<'_>)
        ensures
            a@ == self@.io_action(direction),
    {
        match &self.inner {
            Inner::Relaying { up, down } => match direction {
                Direction::ClientToServer => up.action(),
                Direction::ServerToClient => down.action(),
            },
            _ => Action::Stop,
        }
    }

    /// Takes in an event and moves to the next state.
    pub fn step(self, event: SessionEvent<E>) -> (next: Session<E>)
        ensures
            next@ == self@.step(event@),
            next@.wf(),
    {
        proof {
            use_type_invariant(&self);
        }
        let Session { config, inner } = self;
        match inner {
            Inner::Dialing => match event {
                SessionEvent::DialSucceeded => {
                    let up = Forwarder::new(config.buffer_size);
                    let down = Forwarder::new(config.buffer_size);
                    Session { config, inner: Inner::Relaying { up, down } }
                },
                SessionEvent::DialFailed(e) => Session {
                    config,
                    inner: Inner::Closed(Cause::DialFailed(e)),
                },
                SessionEvent::DialTimedOut => Session {
                    config,
                    inner: Inner::Closed(Cause::DialTimedOut),
                },
                SessionEvent::Io(_, _) => Session { config, inner: Inner::Dialing },
            },
            Inner::Relaying { up, down } => match event {
                SessionEvent::Io(Direction::ClientToServer, io) => {
                    let moved = up.step(io);
                    if moved.is_stopped() {
                        let failure = moved.into_failure().unwrap();
                        Session {
                            config,
                            inner: Inner::Closed(
                                Cause::DirectionFailed(Direction::ClientToServer, failure),
                            ),
                        }
                    } else {
                        Session { config, inner: Inner::Relaying { up: moved, down } }
                    }
                },
                SessionEvent::Io(Direction::ServerToClient, io) => {
                    let moved = down.step(io);
                    if moved.is_stopped() {
                        let failure = moved.into_failure().unwrap();
                        Session {
                            config,
                            inner: Inner::Closed(
                                Cause::DirectionFailed(Direction::ServerToClient, failure),
                            ),
                        }
                    } else {
                        Session { config, inner: Inner::Relaying { up, down: moved } }
                    }
                },
                _ => Session { config, inner: Inner::Relaying { up, down } },
            },
            Inner::Closed(cause) => Session { config, inner: Inner::Closed(cause) },
        }
    }

    /// Tells whether the session has ended.
    pub fn is_closed(&self) -> (b: bool)
        ensures
            b == (self@.stage is Closed),
    {
        match &self.inner {
            Inner::Closed(_) => true,
            _ => false,
        }
    }

    /// Tells whether the session owns the client connection.
    pub fn holds_client(&self) -> (b: bool)
        ensures
            b == self@.holds_client(),
    {
        !self.is_closed()
    }

    /// Tells whether the session owns an upstream connection.
    pub fn holds_upstream(&self) -> (b: bool)
        ensures
            b == self@.holds_upstream(),
    {
        match &self.inner {
            Inner::Relaying { .. } => true,
            _ => false,
        }
    }

    /// Why the session was closed, or `None` while it is open.
    pub fn cause(&self) -> (r: Option<&Cause<E>>)
        ensures
            match self@.stage {
                Stage::Closed(cause) => r == Some(&cause),
                _ => r is None,
            },
    {
        match &self.inner {
            Inner::Closed(cause) => Some(cause),
            _ => None,
        }
    }

    /// Ends the session's life and hands out why it was closed, or `None` if
    /// it was still open.
    pub fn into_cause(self) -> (r: Option<Cause<E>>)
        ensures
            match self@.stage {
                Stage::Closed(cause) => r == Some(cause),
                _ => r is None,
            },
    {
        match self.inner {
            Inner::Closed(cause) => Some(cause),
            _ => None,
        }
    }
}

} // verus!
