//! One direction of a session: the copy loop, as a state machine.
//!
//! A forwarder never touches a socket. It tells its driver what to do next
//! ([`Forwarder::action`]) and is told what came of it ([`Forwarder::step`]):
//!
//! 1. read at most `buffer_size` bytes from the source;
//! 2. offer exactly those bytes to the destination, again and again until the
//!    destination has taken all of them;
//! 3. go back to 1.
//!
//! The loop has no successful end. It stops when a read returns nothing (the
//! peer closed its write side), when the destination takes nothing, or when
//! either side reports an error.

use vstd::prelude::*;

verus! {

/// Why a copy loop stopped. `E` is the driver's I/O error type; the forwarder
/// carries such a value through and never looks inside it.
#[derive(Debug, PartialEq, Eq)]
pub enum Failure<E> {
    /// A read returned zero bytes: the peer shut down its write side.
    UnexpectedEof,
    /// The source reported an error.
    Read(E),
    /// The destination took none of the bytes it was offered.
    WriteZero,
    /// The destination reported an error.
    Write(E),
}

/// What the driver reports back after it has carried out an [`Action`].
#[derive(Debug, PartialEq, Eq)]
pub enum Event<E> {
    /// A read returned these bytes. An empty vector is an orderly close.
    ReadDone(Vec<u8>),
    /// A read failed.
    ReadFailed(E),
    /// The destination took this many of the bytes offered, counted from the first.
    WriteDone(usize),
    /// A write failed.
    WriteFailed(E),
}

/// An [`Event`] as a mathematical value.
pub enum EventView<E> {
    ReadDone(Seq<u8>),
    ReadFailed(E),
    WriteDone(nat),
    WriteFailed(E),
}

impl<E> View for Event<E> {
    type V = EventView<E>;

    open spec fn view(&self) -> EventView<E> {
        match *self {
            Event::ReadDone(data) => EventView::ReadDone(data@),
            Event::ReadFailed(e) => EventView::ReadFailed(e),
            Event::WriteDone(n) => EventView::WriteDone(n as nat),
            Event::WriteFailed(e) => EventView::WriteFailed(e),
        }
    }
}

/// What the driver has to do next.
#[derive(Debug, PartialEq, Eq)]
pub enum Action<'a> {
    /// Read at most `max` bytes from the source, then report
    /// [`Event::ReadDone`] or [`Event::ReadFailed`].
    Read { max: usize },
    /// Offer these bytes to the destination, then report
    /// [`Event::WriteDone`] or [`Event::WriteFailed`].
    Write(&'a [u8]),
    /// Nothing more: the loop has stopped, see [`Forwarder::failure`].
    Stop,
}

/// An [`Action`] as a mathematical value.
pub enum ActionView {
    Read { max: nat },
    Write(Seq<u8>),
    Stop,
}

impl<'a> View for Action<'a> {
    type V = ActionView;

    open spec fn view(&self) -> ActionView {
        match *self {
            Action::Read { max } => ActionView::Read { max: max as nat },
            Action::Write(bytes) => ActionView::Write(bytes@),
            Action::Stop => ActionView::Stop,
        }
    }
}

/// Where a copy loop stands.
pub enum Phase<E> {
    /// Waiting for the result of a read. Nothing is buffered.
    Reading,
    /// Waiting for the result of a write of these bytes, which were read and
    /// have not yet been taken by the destination.
    Writing(Seq<u8>),
    /// Stopped for good.
    Stopped(Failure<E>),
}

/// The mathematical state of a [`Forwarder`].
pub struct ForwarderState<E> {
    /// The most that one read may return.
    pub buffer_size: nat,
    pub phase: Phase<E>,
}

impl<E> ForwarderState<E> {
    /// The state of a fresh copy loop: about to read, nothing buffered.
    pub open spec fn start(buffer_size: nat) -> Self {
        ForwarderState { buffer_size, phase: Phase::Reading }
    }

    /// A write always has something to offer.
    pub open spec fn wf(self) -> bool {
        self.phase matches Phase::Writing(pending) ==> pending.len() > 0
    }

    /// The same loop in another phase.
    pub open spec fn with(self, phase: Phase<E>) -> Self {
        ForwarderState { buffer_size: self.buffer_size, phase }
    }

    /// The bytes read from the source that the destination has not taken yet.
    pub open spec fn unsent(self) -> Seq<u8> {
        match self.phase {
            Phase::Writing(pending) => pending,
            _ => Seq::empty(),
        }
    }

    /// The transition function. An event that does not answer the action of
    /// the current phase changes nothing, and neither does any event once the
    /// loop has stopped.
    pub open spec fn step(self, event: EventView<E>) -> Self {
        match (self.phase, event) {
            (Phase::Reading, EventView::ReadDone(data)) => if data.len() == 0 {
                self.with(Phase::Stopped(Failure::UnexpectedEof))
            } else {
                self.with(Phase::Writing(data))
            },
            (Phase::Reading, EventView::ReadFailed(e)) => self.with(Phase::Stopped(Failure::Read(e))),
            (Phase::Writing(pending), EventView::WriteDone(n)) => if n == 0 {
                self.with(Phase::Stopped(Failure::WriteZero))
            } else if n >= pending.len() {
                self.with(Phase::Reading)
            } else {
                self.with(Phase::Writing(pending.skip(n as int)))
            },
            (Phase::Writing(_), EventView::WriteFailed(e)) => self.with(
                Phase::Stopped(Failure::Write(e)),
            ),
            _ => self,
        }
    }

    /// What the driver is asked to do in this state.
    pub open spec fn action(self) -> ActionView {
        match self.phase {
            Phase::Reading => ActionView::Read { max: self.buffer_size },
            Phase::Writing(pending) => ActionView::Write(pending),
            Phase::Stopped(_) => ActionView::Stop,
        }
    }

    /// The bytes that `event` brings in from the source, if it is the answer
    /// to a read that this state asked for.
    pub open spec fn taken(self, event: EventView<E>) -> Seq<u8> {
        match (self.phase, event) {
            (Phase::Reading, EventView::ReadDone(data)) => data,
            _ => Seq::empty(),
        }
    }

    /// The bytes that the destination has taken according to `event`, if it is
    /// the answer to a write that this state asked for: the first `n` of the
    /// bytes offered.
    pub open spec fn accepted(self, event: EventView<E>) -> Seq<u8> {
        match (self.phase, event) {
            (Phase::Writing(pending), EventView::WriteDone(n)) => if n >= pending.len() {
                pending
            } else {
                pending.take(n as int)
            },
            _ => Seq::empty(),
        }
    }
}

/// The state that `events`, taken in order, lead to from `s`.
pub open spec fn run<E>(s: ForwarderState<E>, events: Seq<EventView<E>>) -> ForwarderState<E>
    decreases events.len(),
{
    if events.len() == 0 {
        s
    } else {
        run(s, events.drop_last()).step(events.last())
    }
}

/// All the bytes that the source handed over while `events` took place from
/// `s` on, in the order in which they were read.
pub open spec fn received<E>(s: ForwarderState<E>, events: Seq<EventView<E>>) -> Seq<u8>
    decreases events.len(),
{
    if events.len() == 0 {
        Seq::empty()
    } else {
        received(s, events.drop_last()) + run(s, events.drop_last()).taken(events.last())
    }
}

/// All the bytes that the destination took while `events` took place from `s`
/// on, in the order in which it took them.
pub open spec fn delivered<E>(s: ForwarderState<E>, events: Seq<EventView<E>>) -> Seq<u8>
    decreases events.len(),
{
    if events.len() == 0 {
        Seq::empty()
    } else {
        delivered(s, events.drop_last()) + run(s, events.drop_last()).accepted(events.last())
    }
}

/// How far the destination may lag behind the source in state `end`, when
/// `inp` has come in and `out` has gone out.
pub open spec fn in_step<E>(end: ForwarderState<E>, inp: Seq<u8>, out: Seq<u8>) -> bool {
    &&& out.is_prefix_of(inp)
    &&& match end.phase {
        Phase::Reading => out == inp,
        Phase::Writing(pending) => out + pending == inp,
        Phase::Stopped(Failure::UnexpectedEof) => out == inp,
        Phase::Stopped(Failure::Read(_)) => out == inp,
        Phase::Stopped(Failure::WriteZero) => true,
        Phase::Stopped(Failure::Write(_)) => true,
    }
}

/// One event keeps source and destination in step.
pub proof fn lemma_step_in_step<E>(
    s: ForwarderState<E>,
    event: EventView<E>,
    inp: Seq<u8>,
    out: Seq<u8>,
)
    requires
        in_step(s, inp, out),
    ensures
        in_step(s.step(event), inp + s.taken(event), out + s.accepted(event)),
{
    let inp2 = inp + s.taken(event);
    let out2 = out + s.accepted(event);
    match (s.phase, event) {
        (Phase::Reading, EventView::ReadDone(data)) => {
            assert(out2 =~= out);
            assert(out.is_prefix_of(inp2));
        },
        (Phase::Writing(pending), EventView::WriteDone(n)) => {
            assert(inp2 =~= inp);
            if n >= pending.len() {
                assert(out2 =~= inp);
            } else {
                assert(pending.take(n as int) + pending.skip(n as int) =~= pending);
                assert(out2 + pending.skip(n as int) =~= out + pending);
                assert(out2 =~= inp.subrange(0, out2.len() as int));
            }
        },
        _ => {
            assert(inp2 =~= inp);
            assert(out2 =~= out);
        },
    }
}

/// A copy loop is transparent, whatever state it starts in. After any events,
/// the bytes that the destination has taken are the first bytes of what the
/// loop held at the start followed by what the source handed over since: the
/// same values in the same order, none added and none skipped. In every state
/// but a stop on a failed or empty write, the only bytes not yet taken are the
/// ones the loop is holding for the next write.
pub proof fn lemma_transparency_from<E>(s: ForwarderState<E>, events: Seq<EventView<E>>)
    ensures
        in_step(run(s, events), s.unsent() + received(s, events), delivered(s, events)),
    decreases events.len(),
{
    if events.len() == 0 {
        assert(s.unsent() + received(s, events) =~= s.unsent());
        assert(delivered(s, events) + s.unsent() =~= s.unsent());
        assert(delivered(s, events).is_prefix_of(s.unsent()));
    } else {
        let before = events.drop_last();
        lemma_transparency_from(s, before);
        let mid = run(s, before);
        lemma_step_in_step(
            mid,
            events.last(),
            s.unsent() + received(s, before),
            delivered(s, before),
        );
        assert(s.unsent() + received(s, events) =~= (s.unsent() + received(s, before))
            + mid.taken(events.last()));
    }
}

/// A fresh copy loop is transparent. After any events, the destination has
/// taken a prefix of the bytes read from the source. Each time the loop is
/// about to read, and when it stops because the source closed or failed, the
/// destination has taken every byte that was read, in order and unaltered;
/// while a write is under way, what is missing is exactly what the loop offers.
pub proof fn lemma_transparency<E>(buffer_size: nat, events: Seq<EventView<E>>)
    ensures
        ({
            let s = ForwarderState::<E>::start(buffer_size);
            let end = run(s, events);
            let inp = received(s, events);
            let out = delivered(s, events);
            &&& out.is_prefix_of(inp)
            &&& end.phase is Reading ==> out == inp
            &&& end.phase matches Phase::Writing(pending) ==> out + pending == inp
            &&& end.phase == Phase::<E>::Stopped(Failure::UnexpectedEof) ==> out == inp
            &&& end.phase matches Phase::Stopped(Failure::Read(_)) ==> out == inp
        }),
{
    let s = ForwarderState::<E>::start(buffer_size);
    lemma_transparency_from(s, events);
    assert(s.unsent() + received(s, events) =~= received(s, events));
}

/// A well-formed loop stays well-formed, whatever happens to it.
pub proof fn lemma_run_wf<E>(s: ForwarderState<E>, events: Seq<EventView<E>>)
    requires
        s.wf(),
    ensures
        run(s, events).wf(),
    decreases events.len(),
{
    if events.len() > 0 {
        lemma_run_wf(s, events.drop_last());
    }
}

/// A stop is final: no event moves a stopped loop, and none makes it take or
/// hand over another byte.
pub proof fn lemma_stopped_is_final<E>(s: ForwarderState<E>, events: Seq<EventView<E>>)
    requires
        s.phase is Stopped,
    ensures
        run(s, events) == s,
        received(s, events) == Seq::<u8>::empty(),
        delivered(s, events) == Seq::<u8>::empty(),
    decreases events.len(),
{
    if events.len() > 0 {
        lemma_stopped_is_final(s, events.drop_last());
    }
}

enum Inner<E> {
    Reading,
    Writing(Vec<u8>),
    Stopped(Failure<E>),
}

/// The copy loop of one direction.
pub struct Forwarder<E> {
    buffer_size: usize,
    inner: Inner<E>,
}

impl<E> View for Forwarder<E> {
    type V = ForwarderState<E>;

    closed spec fn view(&self) -> ForwarderState<E> {
        ForwarderState {
            buffer_size: self.buffer_size as nat,
            phase: match self.inner {
                Inner::Reading => Phase::Reading,
                Inner::Writing(pending) => Phase::Writing(pending@),
                Inner::Stopped(failure) => Phase::Stopped(failure),
            },
        }
    }
}

impl<E> Forwarder<E> {
    #[verifier::type_invariant]
    spec fn inv(self) -> bool {
        self@.wf()
    }

    /// A fresh copy loop whose reads return at most `buffer_size` bytes.
    pub fn new(buffer_size: usize) -> (f: Forwarder<E>)
        ensures
            f@ == ForwarderState::<E>::start(buffer_size as nat),
    {
        Forwarder { buffer_size, inner: Inner::Reading }
    }

    /// What the driver has to do next.
    pub fn action(&self) -> (a: Action<'_>)
        ensures
            a@ == self@.action(),
            self@.wf(),
    {
        proof {
            use_type_invariant(self);
        }
        match &self.inner {
            Inner::Reading => Action::Read { max: self.buffer_size },
            Inner::Writing(pending) => Action::Write(pending.as_slice()),
            Inner::Stopped(_) => Action::Stop,
        }
    }

    /// Takes in the outcome of the last action and moves to the next state.
    pub fn step(self, event: Event<E>) -> (next: Forwarder<E>)
        ensures
            next@ == self@.step(event@),
            next@.wf(),
    {
        proof {
            use_type_invariant(&self);
        }
        let Forwarder { buffer_size, inner } = self;
        match inner {
            Inner::Reading => match event {
                Event::ReadDone(data) => {
                    if data.len() == 0 {
                        Forwarder { buffer_size, inner: Inner::Stopped(Failure::UnexpectedEof) }
                    } else {
                        Forwarder { buffer_size, inner: Inner::Writing(data) }
                    }
                },
                Event::ReadFailed(e) => Forwarder {
                    buffer_size,
                    inner: Inner::Stopped(Failure::Read(e)),
                },
                _ => Forwarder { buffer_size, inner: Inner::Reading },
            },
            Inner::Writing(mut pending) => match event {
                Event::WriteDone(n) => {
                    if n == 0 {
                        Forwarder { buffer_size, inner: Inner::Stopped(Failure::WriteZero) }
                    } else if n >= pending.len() {
                        Forwarder { buffer_size, inner: Inner::Reading }
                    } else {
                        let rest = pending.split_off(n);
                        Forwarder { buffer_size, inner: Inner::Writing(rest) }
                    }
                },
                Event::WriteFailed(e) => Forwarder {
                    buffer_size,
                    inner: Inner::Stopped(Failure::Write(e)),
                },
                _ => Forwarder { buffer_size, inner: Inner::Writing(pending) },
            },
            Inner::Stopped(failure) => Forwarder { buffer_size, inner: Inner::Stopped(failure) },
        }
    }

    /// Tells whether the loop has stopped.
    pub fn is_stopped(&self) -> (b: bool)
        ensures
            b == (self@.phase is Stopped),
    {
        match &self.inner {
            Inner::Stopped(_) => true,
            _ => false,
        }
    }

    /// Why the loop stopped, or `None` while it runs.
    pub fn failure(&self) -> (r: Option<&Failure<E>>)
        ensures
            match self@.phase {
                Phase::Stopped(failure) => r == Some(&failure),
                _ => r is None,
            },
    {
        match &self.inner {
            Inner::Stopped(failure) => Some(failure),
            _ => None,
        }
    }

    /// Ends the loop's life and hands out why it stopped, or `None` if it was
    /// still running.
    pub fn into_failure(self) -> (r: Option<Failure<E>>)
        ensures
            match self@.phase {
                Phase::Stopped(failure) => r == Some(failure),
                _ => r is None,
            },
    {
        match self.inner {
            Inner::Stopped(failure) => Some(failure),
            _ => None,
        }
    }
}

} // verus!
