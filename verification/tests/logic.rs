use pantheon::{
    AppConfig, Application, Callback, Delivery, Engine, IOEvent, LogLevel, LogicAction,
    PantheonEvent, Vec2,
};
use std::cell::Cell;
use winit::keyboard::KeyCode;

struct Counting {
    starts: Cell<u32>,
    updates: Cell<u32>,
    exits: Cell<u32>,
}

impl Counting {
    fn new() -> Self {
        Counting { starts: Cell::new(0), updates: Cell::new(0), exits: Cell::new(0) }
    }
}

impl Application for Counting {
    fn app_config(&self) -> AppConfig {
        AppConfig::new().name("Counting")
    }

    fn on_start(&self) {
        self.starts.set(self.starts.get() + 1);
    }

    fn on_update(&self) {
        self.updates.set(self.updates.get() + 1);
    }

    fn on_exit(&self) {
        self.exits.set(self.exits.get() + 1);
    }
}

struct Silent;

impl Application for Silent {
    fn app_config(&self) -> AppConfig {
        AppConfig::new()
    }
}

/// What the logic thread does with a stream: every action in order, and the
/// number of deliveries taken up before the loop stopped.
fn run<A: Application>(
    engine: &mut Engine<A>,
    deliveries: &[Delivery<f32>],
) -> (Vec<LogicAction>, usize) {
    let mut done = Vec::new();
    let mut taken = 0;
    for delivery in deliveries {
        if engine.stopped {
            break;
        }
        taken += 1;
        for action in engine.receive(*delivery) {
            if let LogicAction::Invoke(callback) = action {
                engine.invoke(callback);
            }
            done.push(action);
        }
    }
    (done, taken)
}

fn shutdowns(actions: &[LogicAction]) -> usize {
    actions.iter().filter(|a| **a == LogicAction::Send(PantheonEvent::Shutdown)).count()
}

const CLOSING: [LogicAction; 3] = [
    LogicAction::Send(PantheonEvent::Shutdown),
    LogicAction::Invoke(Callback::OnExit),
    LogicAction::Stop,
];

#[test]
fn new_engine_runs_and_has_no_quit_key() {
    let engine = Engine::new(Silent);
    assert!(!engine.stopped);
    assert_eq!(engine.quit_key, None);
    let engine = engine.with_quit_key(KeyCode::KeyW);
    assert!(!engine.stopped);
    assert_eq!(engine.quit_key, Some(KeyCode::KeyW));
}

#[test]
fn started_calls_on_start() {
    let mut engine = Engine::new(Counting::new());
    let (actions, _) = run(&mut engine, &[Delivery::Event(IOEvent::Started)]);
    assert_eq!(actions, vec![LogicAction::Invoke(Callback::OnStart)]);
    assert_eq!(engine.app.starts.get(), 1);
    assert_eq!(engine.app.exits.get(), 0);
    assert!(!engine.stopped);
}

#[test]
fn resizes_call_on_update() {
    let mut engine = Engine::new(Counting::new());
    let stream = [
        Delivery::Event(IOEvent::PhysicalResize(Vec2::new(800.0, 600.0))),
        Delivery::Event(IOEvent::LogicalResize(Vec2::new(400.0, 300.0))),
    ];
    let (actions, _) = run(&mut engine, &stream);
    assert_eq!(
        actions,
        vec![LogicAction::Invoke(Callback::OnUpdate), LogicAction::Invoke(Callback::OnUpdate)]
    );
    assert_eq!(engine.app.updates.get(), 2);
}

#[test]
fn stream_without_close_never_sends_shutdown_nor_stops() {
    let mut engine = Engine::new(Counting::new()).with_quit_key(KeyCode::KeyW);
    let stream = [
        Delivery::Event(IOEvent::Started),
        Delivery::Event(IOEvent::KeyPressed(KeyCode::KeyA)),
        Delivery::Event(IOEvent::PhysicalResize(Vec2::new(1.0, 2.0))),
        Delivery::Event(IOEvent::LogicalResize(Vec2::new(1.0, 2.0))),
        Delivery::Event(IOEvent::KeyPressed(KeyCode::KeyS)),
        Delivery::Event(IOEvent::Started),
    ];
    let (actions, taken) = run(&mut engine, &stream);
    assert_eq!(shutdowns(&actions), 0);
    assert!(!actions.contains(&LogicAction::Stop));
    assert!(!engine.stopped);
    assert_eq!(taken, stream.len());
    assert_eq!(engine.app.exits.get(), 0);
}

#[test]
fn close_request_sends_one_shutdown_and_stops() {
    let mut engine = Engine::new(Counting::new());
    let stream = [
        Delivery::Event(IOEvent::Started),
        Delivery::Event(IOEvent::CloseRequested),
        Delivery::Event(IOEvent::PhysicalResize(Vec2::new(1.0, 2.0))),
        Delivery::Event(IOEvent::CloseRequested),
    ];
    let (actions, taken) = run(&mut engine, &stream);
    assert_eq!(shutdowns(&actions), 1);
    assert_eq!(actions[1..], CLOSING);
    assert_eq!(actions.len(), 4);
    assert!(engine.stopped);
    assert_eq!(taken, 2);
    assert_eq!(engine.app.exits.get(), 1);
    assert_eq!(engine.app.updates.get(), 0);
}

#[test]
fn stopped_engine_asks_for_nothing() {
    let mut engine = Engine::new(Silent);
    assert_eq!(engine.receive(Delivery::<f32>::Event(IOEvent::CloseRequested)), CLOSING);
    assert_eq!(engine.receive(Delivery::<f32>::Event(IOEvent::CloseRequested)), vec![]);
    assert_eq!(engine.receive(Delivery::<f32>::Event(IOEvent::Started)), vec![]);
    assert_eq!(engine.receive(Delivery::<f32>::Disconnected), vec![]);
    assert!(engine.stopped);
}

#[test]
fn quit_key_ends_the_run_as_a_close_request_does() {
    let mut by_key = Engine::new(Counting::new()).with_quit_key(KeyCode::KeyW);
    let mut by_close = Engine::new(Counting::new()).with_quit_key(KeyCode::KeyW);
    let pressed = [
        Delivery::Event(IOEvent::Started),
        Delivery::Event(IOEvent::KeyPressed(KeyCode::KeyW)),
    ];
    let closed = [Delivery::Event(IOEvent::Started), Delivery::Event(IOEvent::CloseRequested)];
    let (key_actions, key_taken) = run(&mut by_key, &pressed);
    let (close_actions, close_taken) = run(&mut by_close, &closed);
    assert_eq!(key_actions, close_actions);
    assert_eq!(key_taken, close_taken);
    assert_eq!(shutdowns(&key_actions), 1);
    assert_eq!(key_actions[0], LogicAction::Invoke(Callback::OnStart));
    assert_eq!(key_actions[1..], CLOSING);
    assert!(by_key.stopped);
    assert!(by_close.stopped);
    assert_eq!(by_key.app.exits.get(), 1);
}

#[test]
fn other_keys_do_not_end_the_run() {
    let mut engine = Engine::new(Silent).with_quit_key(KeyCode::KeyW);
    assert_eq!(engine.receive(Delivery::<f32>::Event(IOEvent::KeyPressed(KeyCode::KeyQ))), vec![]);
    assert!(!engine.stopped);
    assert!(!engine.ends_run(&IOEvent::<f32>::KeyPressed(KeyCode::KeyQ)));
    assert!(engine.ends_run(&IOEvent::<f32>::KeyPressed(KeyCode::KeyW)));
    assert!(engine.ends_run(&IOEvent::<f32>::CloseRequested));
    assert!(!engine.ends_run(&IOEvent::<f32>::Started));
}

#[test]
fn without_a_quit_key_no_key_ends_the_run() {
    let mut engine = Engine::new(Silent);
    assert_eq!(engine.receive(Delivery::<f32>::Event(IOEvent::KeyPressed(KeyCode::KeyW))), vec![]);
    assert!(!engine.stopped);
}

#[test]
fn lost_platform_thread_is_fatal_and_sends_no_shutdown() {
    let mut engine = Engine::new(Counting::new());
    let stream = [Delivery::Event(IOEvent::Started), Delivery::Disconnected];
    let (actions, _) = run(&mut engine, &stream);
    assert_eq!(
        actions,
        vec![
            LogicAction::Invoke(Callback::OnStart),
            LogicAction::Log(LogLevel::Fatal),
            LogicAction::Stop,
        ]
    );
    assert_eq!(shutdowns(&actions), 0);
    assert!(engine.stopped);
    assert_eq!(engine.app.exits.get(), 0);
}

#[test]
fn invoke_calls_the_named_callback() {
    let engine = Engine::new(Counting::new());
    engine.invoke(Callback::OnUpdate);
    engine.invoke(Callback::OnExit);
    engine.invoke(Callback::OnExit);
    assert_eq!(engine.app.starts.get(), 0);
    assert_eq!(engine.app.updates.get(), 1);
    assert_eq!(engine.app.exits.get(), 2);
}

#[test]
fn callbacks_do_nothing_by_default() {
    let engine = Engine::new(Silent);
    engine.invoke(Callback::OnStart);
    engine.invoke(Callback::OnUpdate);
    engine.invoke(Callback::OnExit);
    assert_eq!(engine.app.app_config().name, "Unkown");
}

#[test]
fn logic_loop_over_a_real_channel_answers_a_close_request() {
    let (tx_io, rx_io) = std::sync::mpsc::channel::<IOEvent<f32>>();
    let (tx_pe, rx_pe) = std::sync::mpsc::channel::<PantheonEvent>();
    tx_io.send(IOEvent::Started).unwrap();
    tx_io.send(IOEvent::CloseRequested).unwrap();
    tx_io.send(IOEvent::Started).unwrap();
    let mut engine = Engine::new(Counting::new());
    while !engine.stopped {
        let delivery = match rx_io.recv() {
            Ok(event) => Delivery::Event(event),
            Err(_) => Delivery::Disconnected,
        };
        for action in engine.receive(delivery) {
            match action {
                LogicAction::Invoke(callback) => engine.invoke(callback),
                LogicAction::Send(signal) => tx_pe.send(signal).unwrap(),
                LogicAction::Log(_) | LogicAction::Stop => {}
            }
        }
    }
    let answers: Vec<PantheonEvent> = rx_pe.try_iter().collect();
    assert_eq!(answers, vec![PantheonEvent::Shutdown]);
    assert_eq!(engine.app.starts.get(), 1);
    assert_eq!(engine.app.exits.get(), 1);
    assert_eq!(rx_io.try_iter().count(), 1);
}

#[test]
fn receive_all_decides_for_a_whole_stream() {
    let mut engine = Engine::new(Silent).with_quit_key(KeyCode::Escape);
    let stream = vec![
        Delivery::Event(IOEvent::Started),
        Delivery::Event(IOEvent::PhysicalResize(Vec2::new(800.0, 600.0))),
        Delivery::Event(IOEvent::LogicalResize(Vec2::new(400.0, 300.0))),
        Delivery::Event(IOEvent::KeyPressed(KeyCode::KeyW)),
        Delivery::Event(IOEvent::KeyPressed(KeyCode::Escape)),
        Delivery::Event(IOEvent::Started),
        Delivery::Disconnected,
    ];
    let actions = engine.receive_all(&stream);
    assert_eq!(
        actions,
        vec![
            LogicAction::Invoke(Callback::OnStart),
            LogicAction::Invoke(Callback::OnUpdate),
            LogicAction::Invoke(Callback::OnUpdate),
            LogicAction::Send(PantheonEvent::Shutdown),
            LogicAction::Invoke(Callback::OnExit),
            LogicAction::Stop,
        ]
    );
    assert!(engine.stopped);
    assert_eq!(engine.quit_key, Some(KeyCode::Escape));
}

#[test]
fn receive_all_agrees_with_receive() {
    let stream = vec![
        Delivery::Event(IOEvent::Started),
        Delivery::Event(IOEvent::LogicalResize(Vec2::new(1.0, 1.0))),
        Delivery::Event(IOEvent::CloseRequested),
        Delivery::Event(IOEvent::Started),
    ];
    let mut at_once = Engine::new(Silent);
    let mut one_by_one = Engine::new(Counting::new());
    let (actions, _) = run(&mut one_by_one, &stream);
    assert_eq!(at_once.receive_all(&stream), actions);
    assert_eq!(at_once.stopped, one_by_one.stopped);
}

#[test]
fn receive_all_of_nothing_changes_nothing() {
    let mut engine = Engine::new(Silent);
    assert_eq!(engine.receive_all(&Vec::<Delivery<f32>>::new()), vec![]);
    assert!(!engine.stopped);
}

#[test]
fn failed_send_of_the_shutdown_is_a_warning_and_nothing_more() {
    let mut engine = Engine::new(Counting::new());
    assert_eq!(engine.send_failed(), vec![LogicAction::Log(LogLevel::Warn)]);
    assert!(!engine.stopped);
    engine.receive(Delivery::<f32>::Event(IOEvent::CloseRequested));
    assert_eq!(engine.send_failed(), vec![LogicAction::Log(LogLevel::Warn)]);
    assert!(engine.stopped);
}

#[test]
fn close_request_is_answered_in_good_order_though_nobody_receives_the_shutdown() {
    let (tx_pe, rx_pe) = std::sync::mpsc::channel::<PantheonEvent>();
    drop(rx_pe);
    let mut engine = Engine::new(Counting::new());
    let mut done = Vec::new();
    let mut pending = engine.receive(Delivery::<f32>::Event(IOEvent::CloseRequested));
    pending.reverse();
    while let Some(action) = pending.pop() {
        match action {
            LogicAction::Invoke(callback) => engine.invoke(callback),
            LogicAction::Send(signal) => {
                if tx_pe.send(signal).is_err() {
                    let mut more = engine.send_failed();
                    more.reverse();
                    pending.extend(more);
                }
            }
            LogicAction::Log(_) | LogicAction::Stop => {}
        }
        done.push(action);
    }
    assert_eq!(
        done,
        vec![
            LogicAction::Send(PantheonEvent::Shutdown),
            LogicAction::Log(LogLevel::Warn),
            LogicAction::Invoke(Callback::OnExit),
            LogicAction::Stop,
        ]
    );
    assert_eq!(engine.app.exits.get(), 1);
    assert!(engine.stopped);
}
