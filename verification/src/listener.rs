//! The accept loop.
//!
//! A listener binds once. If that fails there is nothing to serve and the
//! process has to give up. Once bound it accepts connections without end:
//! each connection is handed to a session of its own, which the driver runs
//! independently, and the loop goes straight back to accepting. A failed
//! accept costs that one connection and nothing else.
//!
//! The loop keeps no record of the sessions it has started and puts no limit
//! on their number.

use crate::config::RelayConfig;
use crate::session::{Session, SessionState};
use vstd::prelude::*;

verus! {

/// What the driver reports to a listener.
#[derive(Debug, PartialEq, Eq)]
pub enum ListenerEvent<E> {
    /// The listening socket is bound.
    Bound,
    /// The listening socket could not be bound.
    BindFailed(E),
    /// A client has connected.
    Accepted,
    /// An accept failed.
    AcceptFailed(E),
    /// The session for the last accepted connection is on its way.
    Spawned,
}

/// What the driver of a listener has to do.
#[derive(Clone, Copy, Debug, PartialEq, Eq, Structural)]
pub enum ListenerAction {
    /// Bind the listening socket, then report [`ListenerEvent::Bound`] or
    /// [`ListenerEvent::BindFailed`].
    Bind,
    /// Wait for the next connection, then report [`ListenerEvent::Accepted`]
    /// or [`ListenerEvent::AcceptFailed`].
    Accept,
    /// Start a task that runs [`Listener::session`] on the connection just
    /// accepted, do not wait for it, and report [`ListenerEvent::Spawned`].
    Spawn,
    /// Give up: the listener could not be bound, see [`Listener::error`].
    Exit,
}

/// Where a listener stands.
pub enum ListenerStage<E> {
    /// Not bound yet.
    Binding,
    /// Bound, and waiting for a connection.
    Accepting,
    /// Bound, with a fresh connection that has no session yet.
    Handing,
    /// The bind failed.
    Failed(E),
}

/// The mathematical state of a [`Listener`].
pub struct ListenerState<E> {
    /// The configuration that every session of this listener starts with.
    pub config: RelayConfig,
    pub stage: ListenerStage<E>,
}

impl<E> ListenerState<E> {
    /// The state of a listener that has not tried to bind yet.
    pub open spec fn start(config: RelayConfig) -> Self {
        ListenerState { config, stage: ListenerStage::Binding }
    }

    /// The same listener in another stage.
    pub open spec fn with(self, stage: ListenerStage<E>) -> Self {
        ListenerState { config: self.config, stage }
    }

    /// The listening socket is bound.
    pub open spec fn bound(self) -> bool {
        self.stage is Accepting || self.stage is Handing
    }

    /// The transition function. An event that the current stage does not wait
    /// for changes nothing.
    pub open spec fn step(self, event: ListenerEvent<E>) -> Self {
        match (self.stage, event) {
            (ListenerStage::Binding, ListenerEvent::Bound) => self.with(ListenerStage::Accepting),
            (ListenerStage::Binding, ListenerEvent::BindFailed(e)) => self.with(
                ListenerStage::Failed(e),
            ),
            (ListenerStage::Accepting, ListenerEvent::Accepted) => self.with(ListenerStage::Handing),
            (ListenerStage::Accepting, ListenerEvent::AcceptFailed(_)) => self,
            (ListenerStage::Handing, ListenerEvent::Spawned) => self.with(ListenerStage::Accepting),
            _ => self,
        }
    }

    /// What the driver is asked to do in this state.
    pub open spec fn action(self) -> ListenerAction {
        match self.stage {
            ListenerStage::Binding => ListenerAction::Bind,
            ListenerStage::Accepting => ListenerAction::Accept,
            ListenerStage::Handing => ListenerAction::Spawn,
            ListenerStage::Failed(_) => ListenerAction::Exit,
        }
    }
}

/// The state that `events`, taken in order, lead to from `s`.
pub open spec fn run<E>(s: ListenerState<E>, events: Seq<ListenerEvent<E>>) -> ListenerState<E>
    decreases events.len(),
{
    if events.len() == 0 {
        s
    } else {
        run(s, events.drop_last()).step(events.last())
    }
}

/// The number of sessions that the driver was asked to start while `events`
/// took place from `s` on.
pub open spec fn spawned<E>(s: ListenerState<E>, events: Seq<ListenerEvent<E>>) -> nat
    decreases events.len(),
{
    if events.len() == 0 {
        0
    } else {
        let before = run(s, events.drop_last());
        let one: nat = if before.stage is Handing && events.last() is Spawned {
            1
        } else {
            0
        };
        spawned(s, events.drop_last()) + one
    }
}

/// The number of connections accepted while `events` took place from `s` on.
pub open spec fn accepted<E>(s: ListenerState<E>, events: Seq<ListenerEvent<E>>) -> nat
    decreases events.len(),
{
    if events.len() == 0 {
        0
    } else {
        let before = run(s, events.drop_last());
        let one: nat = if before.stage is Accepting && events.last() is Accepted {
            1
        } else {
            0
        };
        accepted(s, events.drop_last()) + one
    }
}

/// A bound listener serves for ever. Whatever is reported to it, failed
/// accepts included, it stays bound and never asks to exit: only a failed
/// bind ends the loop.
pub proof fn lemma_bound_listener_never_exits<E>(s: ListenerState<E>, events: Seq<ListenerEvent<E>>)
    requires
        s.bound(),
    ensures
        run(s, events).bound(),
        run(s, events).action() != ListenerAction::Exit,
        run(s, events).config == s.config,
    decreases events.len(),
{
    if events.len() > 0 {
        lemma_bound_listener_never_exits(s, events.drop_last());
    }
}

/// One session for each connection. A listener that has not bound yet has,
/// after any events, asked for a session for every connection it accepted, but
/// for the last one while that is still waiting to be handed over.
pub proof fn lemma_every_connection_is_served<E>(
    config: RelayConfig,
    events: Seq<ListenerEvent<E>>,
)
    ensures
        ({
            let s = ListenerState::<E>::start(config);
            let waiting: nat = if run(s, events).stage is Handing {
                1
            } else {
                0
            };
            accepted(s, events) == spawned(s, events) + waiting
        }),
    decreases events.len(),
{
    if events.len() > 0 {
        lemma_every_connection_is_served(config, events.drop_last());
    }
}

enum Inner<E> {
    Binding,
    Accepting,
    Handing,
    Failed(E),
}

/// The accept loop of a relay.
pub struct Listener<E> {
    config: RelayConfig,
    inner: Inner<E>,
}

impl<E> View for Listener<E> {
    type V = ListenerState<E>;

    closed spec fn view(&self) -> ListenerState<E> {
        ListenerState {
            config: self.config,
            stage: match self.inner {
                Inner::Binding => ListenerStage::Binding,
                Inner::Accepting => ListenerStage::Accepting,
                Inner::Handing => ListenerStage::Handing,
                Inner::Failed(e) => ListenerStage::Failed(e),
            },
        }
    }
}

impl<E> Listener<E> {
    /// A listener whose sessions will run with `config`.
    pub fn new(config: RelayConfig) -> (l: Listener<E>)
        ensures
            l@ == ListenerState::<E>::start(config),
    {
        Listener { config, inner: Inner::Binding }
    }

    /// What the driver has to do next.
    pub fn action(&self) -> (a: ListenerAction)
        ensures
            a == self@.action(),
    {
        match &self.inner {
            Inner::Binding => ListenerAction::Bind,
            Inner::Accepting => ListenerAction::Accept,
            Inner::Handing => ListenerAction::Spawn,
            Inner::Failed(_) => ListenerAction::Exit,
        }
    }

    /// Takes in an event and moves to the next state.
    pub fn step(self, event: ListenerEvent<E>) -> (next: Listener<E>)
        ensures
            next@ == self@.step(event),
    {
        let Listener { config, inner } = self;
        match inner {
            Inner::Binding => match event {
                ListenerEvent::Bound => Listener { config, inner: Inner::Accepting },
                ListenerEvent::BindFailed(e) => Listener { config, inner: Inner::Failed(e) },
                _ => Listener { config, inner: Inner::Binding },
            },
            Inner::Accepting => match event {
                ListenerEvent::Accepted => Listener { config, inner: Inner::Handing },
                _ => Listener { config, inner: Inner::Accepting },
            },
            Inner::Handing => match event {
                ListenerEvent::Spawned => Listener { config, inner: Inner::Accepting },
                _ => Listener { config, inner: Inner::Handing },
            },
            Inner::Failed(e) => Listener { config, inner: Inner::Failed(e) },
        }
    }

    /// A new session for a connection of this listener. Every call gives a
    /// session of its own, in its first state, that shares nothing with the
    /// listener or with any other session.
    pub fn session<F>(&self) -> (s: Session<F>)
        ensures
            s@ == SessionState::<F>::start(self@.config),
    {
        Session::new(self.config)
    }

    /// Why the listener gave up, or `None` if it has not.
    pub fn error(&self) -> (r: Option<&E>)
        ensures
            match self@.stage {
                ListenerStage::Failed(e) => r == Some(&e),
                _ => r is None,
            },
    {
        match &self.inner {
            Inner::Failed(e) => Some(e),
            _ => None,
        }
    }

    /// Ends the listener's life and hands out why it gave up, or `None` if it
    /// has not.
    pub fn into_error(self) -> (r: Option<E>)
        ensures
            match self@.stage {
                ListenerStage::Failed(e) => r == Some(e),
                _ => r is None,
            },
    {
        match self.inner {
            Inner::Failed(e) => Some(e),
            _ => None,
        }
    }
}

} // verus!
