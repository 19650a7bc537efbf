//! The logic side of the bridge: the application's callbacks, and the state
//! machine that decides what the logic thread does with each thing it
//! receives.
//!
//! The logic thread blocks on the forward channel. Whatever comes out of it, an
//! event or the news that the platform thread is gone, goes to
//! [`Engine::receive`], which answers with the ordered list of
//! [`LogicAction`]s to carry out. Once the list ends in `Stop` the thread
//! leaves its loop, and the engine answers nothing more.

use vstd::prelude::*;
use winit::keyboard::KeyCode;
use crate::config::{AppConfig, PantheonEvent};
use crate::io::IOEvent;
use crate::keys::same_key;
use crate::log::LogLevel;

verus! {

/// What an application offers to the logic thread. The three callbacks do
/// nothing unless the application says otherwise.
pub trait Application {
    /// The application's name, author and version.
    fn app_config(&self) -> AppConfig;

    /// Called when the window exists.
    fn on_start(&self) {
    }

    /// Called when the window's size changed.
    fn on_update(&self) {
    }

    /// Called when the logic thread is about to end in good order.
    fn on_exit(&self) {
    }
}

/// One of the application's callbacks.
#[derive(Clone, Copy, Debug, PartialEq, Eq, Structural)]
pub enum Callback {
    OnStart,
    OnUpdate,
    OnExit,
}

/// What a blocking receive on the forward channel gave.
#[derive(Clone, Copy, Debug, PartialEq)]
pub enum Delivery<T> {
    /// The next event.
    Event(IOEvent<T>),
    /// The platform thread dropped its sender: no event will come again.
    Disconnected,
}

/// One thing that the logic thread must do, as the engine decided.
#[derive(Clone, Copy, Debug, PartialEq, Eq, Structural)]
pub enum LogicAction {
    /// Call this callback of the application.
    Invoke(Callback),
    /// Send this signal to the platform thread. If that fails, carry out what
    /// [`Engine::send_failed`] asks and go on with the list.
    Send(PantheonEvent),
    /// Write a diagnostic of this level.
    Log(LogLevel),
    /// Leave the loop.
    Stop,
}

/// Whether `event` ends the logic loop: a close request does, and so does the
/// quit key where one is set.
pub open spec fn is_closing<T>(quit_key: Option<KeyCode>, event: IOEvent<T>) -> bool {
    match event {
        IOEvent::CloseRequested => true,
        IOEvent::KeyPressed(key) => quit_key == Some(key),
        _ => false,
    }
}

/// What the logic loop does with one delivery: whether it has stopped
/// afterwards, and its actions in order.
pub open spec fn logic_step<T>(quit_key: Option<KeyCode>, stopped: bool, delivery: Delivery<T>) -> (
    bool,
    Seq<LogicAction>,
) {
    if stopped {
        (true, seq![])
    } else {
        match delivery {
            Delivery::Disconnected => (
                true,
                seq![LogicAction::Log(LogLevel::Fatal), LogicAction::Stop],
            ),
            Delivery::Event(event) => if is_closing(quit_key, event) {
                (
                    true,
                    seq![
                        LogicAction::Send(PantheonEvent::Shutdown),
                        LogicAction::Invoke(Callback::OnExit),
                        LogicAction::Stop,
                    ],
                )
            } else {
                match event {
                    IOEvent::Started => (false, seq![LogicAction::Invoke(Callback::OnStart)]),
                    IOEvent::PhysicalResize(_) | IOEvent::LogicalResize(_) => (
                        false,
                        seq![LogicAction::Invoke(Callback::OnUpdate)],
                    ),
                    _ => (false, seq![]),
                }
            },
        }
    }
}

/// What the logic loop does with `deliveries`, one after the other: whether it
/// has stopped afterwards, and all its actions in order.
pub open spec fn logic_run<T>(
    quit_key: Option<KeyCode>,
    stopped: bool,
    deliveries: Seq<Delivery<T>>,
) -> (bool, Seq<LogicAction>)
    decreases deliveries.len(),
{
    if deliveries.len() == 0 {
        (stopped, seq![])
    } else {
        let first = logic_step(quit_key, stopped, deliveries[0]);
        let rest = logic_run(quit_key, first.0, deliveries.drop_first());
        (rest.0, first.1 + rest.1)
    }
}

/// The same events as they come out of a receive that never fails.
pub open spec fn delivered<T>(events: Seq<IOEvent<T>>) -> Seq<Delivery<T>> {
    Seq::new(events.len(), |i: int| Delivery::Event(events[i]))
}

/// How many times `actions` sends `Shutdown`.
pub open spec fn shutdowns_sent(actions: Seq<LogicAction>) -> nat
    decreases actions.len(),
{
    if actions.len() == 0 {
        0
    } else {
        let earlier = shutdowns_sent(actions.drop_last());
        if actions.last() == LogicAction::Send(PantheonEvent::Shutdown) {
            earlier + 1
        } else {
            earlier
        }
    }
}

/// Sending is counted piece by piece.
pub proof fn lemma_shutdowns_sent_concat(first: Seq<LogicAction>, second: Seq<LogicAction>)
    ensures
        shutdowns_sent(first + second) == shutdowns_sent(first) + shutdowns_sent(second),
    decreases second.len(),
{
    if second.len() == 0 {
        assert(first + second =~= first);
    } else {
        assert((first + second).drop_last() =~= first + second.drop_last());
        assert((first + second).last() == second.last());
        lemma_shutdowns_sent_concat(first, second.drop_last());
    }
}

/// A run over two batches is the run over the first, continued over the
/// second from where the first left off.
pub proof fn lemma_logic_run_concat<T>(
    quit_key: Option<KeyCode>,
    stopped: bool,
    first: Seq<Delivery<T>>,
    second: Seq<Delivery<T>>,
)
    ensures
        logic_run(quit_key, stopped, first + second) == ({
            let head = logic_run(quit_key, stopped, first);
            let tail = logic_run(quit_key, head.0, second);
            (tail.0, head.1 + tail.1)
        }),
    decreases first.len(),
{
    let head = logic_run(quit_key, stopped, first);
    let tail = logic_run(quit_key, head.0, second);
    if first.len() == 0 {
        assert(first + second =~= second);
        assert(head.1 + tail.1 =~= tail.1);
    } else {
        let step = logic_step(quit_key, stopped, first[0]);
        assert((first + second)[0] == first[0]);
        assert((first + second).drop_first() =~= first.drop_first() + second);
        lemma_logic_run_concat(quit_key, step.0, first.drop_first(), second);
        let inner = logic_run(quit_key, step.0, first.drop_first());
        assert(step.1 + (inner.1 + tail.1) =~= (step.1 + inner.1) + tail.1);
    }
}

/// A run over one delivery is one step.
pub proof fn lemma_logic_run_one<T>(quit_key: Option<KeyCode>, stopped: bool, delivery: Delivery<T>)
    ensures
        logic_run(quit_key, stopped, seq![delivery]) == logic_step(quit_key, stopped, delivery),
{
    reveal_with_fuel(logic_run, 2);
    let step = logic_step(quit_key, stopped, delivery);
    assert(seq![delivery].drop_first() =~= Seq::<Delivery<T>>::empty());
    assert(step.1 + Seq::<LogicAction>::empty() =~= step.1);
}

/// A loop that has stopped stays stopped and does nothing, whatever arrives.
pub proof fn lemma_stopped_is_final<T>(quit_key: Option<KeyCode>, deliveries: Seq<Delivery<T>>)
    ensures
        logic_run(quit_key, true, deliveries) == (true, Seq::<LogicAction>::empty()),
    decreases deliveries.len(),
{
    if deliveries.len() > 0 {
        lemma_stopped_is_final(quit_key, deliveries.drop_first());
        assert(Seq::<LogicAction>::empty() + Seq::<LogicAction>::empty() =~= Seq::<
            LogicAction,
        >::empty());
    }
}

/// As long as no close request and no press of the quit key arrives, the
/// logic loop sends no `Shutdown` and does not stop.
pub proof fn lemma_runs_on_without_close<T>(quit_key: Option<KeyCode>, events: Seq<IOEvent<T>>)
    requires
        forall|i: int| 0 <= i < events.len() ==> !is_closing(quit_key, #[trigger] events[i]),
    ensures
        !logic_run(quit_key, false, delivered(events)).0,
        shutdowns_sent(logic_run(quit_key, false, delivered(events)).1) == 0,
        !logic_run(quit_key, false, delivered(events)).1.contains(LogicAction::Stop),
        !logic_run(quit_key, false, delivered(events)).1.contains(
            LogicAction::Send(PantheonEvent::Shutdown),
        ),
    decreases events.len(),
{
    if events.len() > 0 {
        let rest = events.drop_first();
        assert(delivered(events).drop_first() =~= delivered(rest));
        assert forall|i: int| 0 <= i < rest.len() implies !is_closing(
            quit_key,
            #[trigger] rest[i],
        ) by {
            assert(rest[i] == events[i + 1]);
        }
        lemma_runs_on_without_close(quit_key, rest);
        assert(!is_closing(quit_key, events[0]));
        let step = logic_step(quit_key, false, delivered(events)[0]);
        let tail = logic_run(quit_key, false, delivered(rest));
        assert(shutdowns_sent(step.1) == 0) by {
            reveal_with_fuel(shutdowns_sent, 3);
        }
        lemma_shutdowns_sent_concat(step.1, tail.1);
    }
}

/// One close request, or one press of the quit key, ends the logic loop: it
/// sends `Shutdown` exactly once, calls `on_exit`, stops, and takes up
/// nothing that arrives later.
pub proof fn lemma_close_stops_once<T>(
    quit_key: Option<KeyCode>,
    before: Seq<IOEvent<T>>,
    closing: IOEvent<T>,
    after: Seq<Delivery<T>>,
)
    requires
        forall|i: int| 0 <= i < before.len() ==> !is_closing(quit_key, #[trigger] before[i]),
        is_closing(quit_key, closing),
    ensures
        logic_run(quit_key, false, delivered(before.push(closing)) + after).0,
        shutdowns_sent(logic_run(quit_key, false, delivered(before.push(closing)) + after).1)
            == 1,
        logic_run(quit_key, false, delivered(before.push(closing)) + after) == logic_run(
            quit_key,
            false,
            delivered(before.push(closing)),
        ),
        logic_run(quit_key, false, delivered(before.push(closing))).1 == logic_run(
            quit_key,
            false,
            delivered(before),
        ).1 + seq![
            LogicAction::Send(PantheonEvent::Shutdown),
            LogicAction::Invoke(Callback::OnExit),
            LogicAction::Stop,
        ],
{
    let last = seq![Delivery::Event(closing)];
    let quiet = logic_run(quit_key, false, delivered(before));
    let close = logic_run(quit_key, false, last);
    let through = logic_run(quit_key, false, delivered(before.push(closing)));
    lemma_runs_on_without_close(quit_key, before);
    assert(delivered(before.push(closing)) =~= delivered(before) + last);
    lemma_logic_run_concat(quit_key, false, delivered(before), last);
    lemma_logic_run_one(quit_key, false, Delivery::Event(closing));
    assert(shutdowns_sent(close.1) == 1) by {
        reveal_with_fuel(shutdowns_sent, 4);
    }
    lemma_shutdowns_sent_concat(quiet.1, close.1);
    lemma_logic_run_concat(quit_key, false, delivered(before.push(closing)), after);
    lemma_stopped_is_final(quit_key, after);
    assert(through.1 + Seq::<LogicAction>::empty() =~= through.1);
}

/// Pressing the quit key is a close request: put either in the same place of
/// the same stream, and the logic loop does the same.
pub proof fn lemma_quit_key_is_close<T>(
    key: KeyCode,
    stopped: bool,
    before: Seq<Delivery<T>>,
    after: Seq<Delivery<T>>,
)
    ensures
        logic_step(Some(key), stopped, Delivery::<T>::Event(IOEvent::KeyPressed(key)))
            == logic_step(Some(key), stopped, Delivery::<T>::Event(IOEvent::CloseRequested)),
        logic_run(
            Some(key),
            stopped,
            before.push(Delivery::Event(IOEvent::KeyPressed(key))) + after,
        ) == logic_run(
            Some(key),
            stopped,
            before.push(Delivery::Event(IOEvent::CloseRequested)) + after,
        ),
    decreases before.len(),
{
    let pressed = before.push(Delivery::Event(IOEvent::KeyPressed(key))) + after;
    let closed = before.push(Delivery::Event(IOEvent::CloseRequested)) + after;
    if before.len() == 0 {
        assert(pressed.drop_first() =~= after);
        assert(closed.drop_first() =~= after);
    } else {
        let rest = before.drop_first();
        assert(pressed.drop_first() =~= rest.push(Delivery::Event(IOEvent::KeyPressed(key)))
            + after);
        assert(closed.drop_first() =~= rest.push(Delivery::Event(IOEvent::CloseRequested))
            + after);
        lemma_quit_key_is_close(
            key,
            logic_step(Some(key), stopped, before[0]).0,
            rest,
            after,
        );
    }
}

/// The logic side: the application, the key that ends the run if there is
/// one, and whether the loop has stopped.
pub struct Engine<A: Application> {
    pub app: A,
    pub quit_key: Option<KeyCode>,
    pub stopped: bool,
}

impl<A: Application> Engine<A> {
    /// An engine for `app` that has not stopped and knows no quit key: only a
    /// close request ends its run.
    pub fn new(app: A) -> (engine: Self)
        ensures
            engine.app == app,
            engine.quit_key.is_none(),
            !engine.stopped,
    {
        Engine { app, quit_key: None, stopped: false }
    }

    /// The same engine, for which pressing `key` ends the run as a close
    /// request does.
    pub fn with_quit_key(self, key: KeyCode) -> (engine: Self)
        ensures
            engine.app == self.app,
            engine.quit_key == Some(key),
            engine.stopped == self.stopped,
    {
        Engine { app: self.app, quit_key: Some(key), stopped: self.stopped }
    }

    /// Whether `event` ends the run of this engine.
    pub fn ends_run<T>(&self, event: &IOEvent<T>) -> (ends: bool)
        ensures
            ends == is_closing(self.quit_key, *event),
    {
        match event {
            IOEvent::CloseRequested => true,
            IOEvent::KeyPressed(key) => match &self.quit_key {
                Some(quit) => same_key(quit, key),
                None => false,
            },
            _ => false,
        }
    }

    /// Decides what the logic thread does with what it received.
    ///
    /// `Started` calls `on_start`, a new size calls `on_update`. A close
    /// request or the quit key sends `Shutdown`, calls `on_exit` and stops. A
    /// lost platform thread is fatal: it is reported and the loop stops, with
    /// no `Shutdown`, which nobody would receive. Once stopped, the engine
    /// asks for nothing.
    pub fn receive<T>(&mut self, delivery: Delivery<T>) -> (actions: Vec<LogicAction>)
        ensures
            final(self).app == old(self).app,
            final(self).quit_key == old(self).quit_key,
            final(self).stopped == logic_step(old(self).quit_key, old(self).stopped, delivery).0,
            actions@ == logic_step(old(self).quit_key, old(self).stopped, delivery).1,
    {
        let mut actions: Vec<LogicAction> = Vec::new();
        if !self.stopped {
            match delivery {
                Delivery::Disconnected => {
                    self.stopped = true;
                    actions.push(LogicAction::Log(LogLevel::Fatal));
                    actions.push(LogicAction::Stop);
                },
                Delivery::Event(event) => {
                    if self.ends_run(&event) {
                        self.stopped = true;
                        actions.push(LogicAction::Send(PantheonEvent::Shutdown));
                        actions.push(LogicAction::Invoke(Callback::OnExit));
                        actions.push(LogicAction::Stop);
                    } else {
                        match event {
                            IOEvent::Started => {
                                actions.push(LogicAction::Invoke(Callback::OnStart));
                            },
                            IOEvent::PhysicalResize(_) | IOEvent::LogicalResize(_) => {
                                actions.push(LogicAction::Invoke(Callback::OnUpdate));
                            },
                            _ => {},
                        }
                    }
                },
            }
        }
        proof {
            assert(actions@ =~= logic_step(old(self).quit_key, old(self).stopped, delivery).1);
        }
        actions
    }

    /// Decides what the logic thread does with `deliveries`, taken one after
    /// the other: all its actions in order. What arrives after the loop has
    /// stopped adds nothing.
    pub fn receive_all<T: Copy>(&mut self, deliveries: &Vec<Delivery<T>>) -> (actions: Vec<
        LogicAction,
    >)
        ensures
            final(self).app == old(self).app,
            final(self).quit_key == old(self).quit_key,
            final(self).stopped == logic_run(old(self).quit_key, old(self).stopped, deliveries@).0,
            actions@ == logic_run(old(self).quit_key, old(self).stopped, deliveries@).1,
    {
        let mut actions: Vec<LogicAction> = Vec::new();
        let mut at: usize = 0;
        proof {
            assert(deliveries@.take(0) =~= Seq::<Delivery<T>>::empty());
        }
        while at < deliveries.len()
            invariant
                at <= deliveries.len(),
                self.app == old(self).app,
                self.quit_key == old(self).quit_key,
                logic_run(old(self).quit_key, old(self).stopped, deliveries@.take(at as int)) == (
                    self.stopped,
                    actions@,
                ),
            decreases deliveries.len() - at,
        {
            let ghost before = self.stopped;
            let mut more = self.receive(deliveries[at]);
            actions.append(&mut more);
            proof {
                lemma_logic_run_concat(
                    old(self).quit_key,
                    old(self).stopped,
                    deliveries@.take(at as int),
                    seq![deliveries@[at as int]],
                );
                lemma_logic_run_one(self.quit_key, before, deliveries@[at as int]);
                assert(deliveries@.take(at as int + 1) =~= deliveries@.take(at as int) + seq![
                    deliveries@[at as int],
                ]);
            }
            at += 1;
        }
        proof {
            assert(deliveries@.take(at as int) =~= deliveries@);
        }
        actions
    }

    /// A signal could not be sent: the platform thread's receiver is gone.
    /// The loop is ending when it sends, so this does not fail the run: it is
    /// reported as a warning and nothing else is asked, whatever state the
    /// engine is in.
    pub fn send_failed(&self) -> (actions: Vec<LogicAction>)
        ensures
            actions@ == seq![LogicAction::Log(LogLevel::Warn)],
    {
        let mut actions: Vec<LogicAction> = Vec::new();
        actions.push(LogicAction::Log(LogLevel::Warn));
        proof {
            assert(actions@ =~= seq![LogicAction::Log(LogLevel::Warn)]);
        }
        actions
    }

    /// Calls `callback` on the application.
    pub fn invoke(&self, callback: Callback) {
        match callback {
            Callback::OnStart => self.app.on_start(),
            Callback::OnUpdate => self.app.on_update(),
            Callback::OnExit => self.app.on_exit(),
        }
    }
}

} // verus!
