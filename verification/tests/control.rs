use botvana_control::control::{
    run_control_loop, BotnodeStatus, ControlAction, ControlEngine, ControlEngineError,
    ControlEvent, PING_INTERVAL_SECS, RETRY_DELAY_SECS, WARM_UP_SECS,
};
use botvana_control::engine::{Engine, StartAction, StartEvent};
use botvana_control::error::EngineError;
use botvana_control::msg::{BotConfiguration, BotId, IndicatorConfig, Message, PeerBot};
use botvana_control::outbox::CONSUMER_LIMIT;

fn configuration(tag: u64) -> BotConfiguration {
    BotConfiguration {
        bot_id: BotId(1),
        peer_bots: vec![PeerBot { bot_id: BotId(1) }, PeerBot { bot_id: BotId(tag) }],
        market_data: vec!["ETH/USD".to_string()],
        indicators: vec![IndicatorConfig { name: "midprice".to_string() }],
    }
}

#[test]
fn new_engine_is_offline_and_empty() {
    let engine = ControlEngine::new(BotId(1), "127.0.0.1:7978");
    assert_eq!(engine.bot_id(), BotId(1));
    assert_eq!(engine.server_addr(), "127.0.0.1:7978");
    assert_eq!(engine.status(), BotnodeStatus::Offline);
    assert_eq!(engine.ping_interval(), 5);
    assert_eq!(PING_INTERVAL_SECS, 5);
    assert_eq!(*engine.bot_configuration(), None);
    assert!(engine.data_txs().is_empty());
}

#[test]
fn consumers_are_numbered_from_zero() {
    let mut engine = ControlEngine::new(BotId(1), "server");
    assert_eq!(CONSUMER_LIMIT, 16);
    for expected in 0..CONSUMER_LIMIT {
        assert_eq!(engine.data_rx(), expected);
        assert_eq!(engine.data_txs().len(), expected + 1);
    }
    assert!(engine.data_txs().iter().all(|slot| slot.is_none()));
}

#[test]
fn seventeenth_consumer_is_not_registered() {
    let mut engine = ControlEngine::new(BotId(1), "server");
    for expected in 0..16 {
        assert_eq!(engine.try_data_rx(), Some(expected));
    }
    engine.push_value(configuration(3));
    assert_eq!(engine.try_data_rx(), None);
    assert_eq!(engine.try_data_rx(), None);
    assert_eq!(engine.data_txs().len(), 16);
    assert!(engine.data_txs().iter().all(|slot| *slot == Some(configuration(3))));
}

#[test]
fn engine_has_a_name() {
    let engine = ControlEngine::new(BotId(1), "server");
    assert_eq!(ControlEngine::NAME, "control-engine");
    assert_eq!(engine.name(), "control-engine");
}

fn register_and_publish<E: Engine>(engine: &mut E, consumers: usize, val: E::Data) -> usize {
    for _ in 0..consumers {
        engine.data_rx();
    }
    engine.push_value(val);
    engine.data_txs().iter().filter(|slot| slot.is_some()).count()
}

#[test]
fn engine_is_driven_through_its_trait() {
    let mut engine = ControlEngine::new(BotId(1), "server");
    assert_eq!(register_and_publish(&mut engine, 5, configuration(8)), 5);
    assert_eq!(engine.take(4), Some(configuration(8)));
    assert_eq!(register_and_publish(&mut engine, 11, configuration(9)), 16);
    assert_eq!(engine.take(4), Some(configuration(9)));
    assert_eq!(engine.start(StartEvent::DelayElapsed), StartAction::Attempt);
}

#[test]
fn attempt_begins_by_dialling() {
    let mut engine = ControlEngine::new(BotId(1), "10.0.0.1:7978");
    let action = run_control_loop(&mut engine, ControlEvent::AttemptStarted, 0);
    assert_eq!(action, ControlAction::Dial("10.0.0.1:7978".to_string()));
    assert_eq!(engine.status(), BotnodeStatus::Connecting);
}

#[test]
fn attempt_fails_when_shutdown_is_in_progress() {
    let mut engine = ControlEngine::new(BotId(1), "server");
    let action = run_control_loop(&mut engine, ControlEvent::ShutdownInProgress, 0);
    assert_eq!(action, ControlAction::Finish(Err(EngineError::ShutdownInProgress)));
    assert_eq!(engine.status(), BotnodeStatus::Offline);
}

#[test]
fn attempt_fails_when_the_server_cannot_be_reached() {
    let mut engine = ControlEngine::new(BotId(1), "server");
    run_control_loop(&mut engine, ControlEvent::AttemptStarted, 0);
    let action = run_control_loop(&mut engine, ControlEvent::DialFailed, 0);
    assert_eq!(action, ControlAction::Finish(Err(EngineError::DialError)));
    assert_eq!(engine.status(), BotnodeStatus::Connecting);
}

#[test]
fn engine_says_hello_once_connected() {
    let mut engine = ControlEngine::new(BotId(31), "server");
    run_control_loop(&mut engine, ControlEvent::AttemptStarted, 0);
    let action = run_control_loop(&mut engine, ControlEvent::Connected, 0);
    assert_eq!(action, ControlAction::Hello(Message::hello(BotId(31))));
    assert_eq!(engine.status(), BotnodeStatus::Connecting);
}

#[test]
fn hello_that_cannot_be_sent_does_not_end_the_attempt() {
    let mut engine = ControlEngine::new(BotId(1), "server");
    run_control_loop(&mut engine, ControlEvent::AttemptStarted, 0);
    run_control_loop(&mut engine, ControlEvent::Connected, 0);
    let action = run_control_loop(&mut engine, ControlEvent::HelloFailed, 0);
    assert_eq!(action, ControlAction::Continue);
}

#[test]
fn any_frame_makes_the_engine_online() {
    let mut engine = ControlEngine::new(BotId(1), "server");
    let action = run_control_loop(&mut engine, ControlEvent::Frame(Message::Pong(3)), 0);
    assert_eq!(action, ControlAction::Continue);
    assert_eq!(engine.status(), BotnodeStatus::Online);

    let mut engine = ControlEngine::new(BotId(1), "server");
    run_control_loop(&mut engine, ControlEvent::AttemptStarted, 0);
    assert_eq!(engine.status(), BotnodeStatus::Connecting);
    run_control_loop(&mut engine, ControlEvent::Frame(Message::Other(9)), 0);
    assert_eq!(engine.status(), BotnodeStatus::Online);
    run_control_loop(&mut engine, ControlEvent::Frame(Message::Ping(9)), 0);
    assert_eq!(engine.status(), BotnodeStatus::Online);
    assert_eq!(*engine.bot_configuration(), None);
}

#[test]
fn configuration_reaches_each_of_sixteen_consumers() {
    let mut engine = ControlEngine::new(BotId(1), "server");
    let consumers: Vec<usize> = (0..16).map(|_| engine.data_rx()).collect();
    run_control_loop(&mut engine, ControlEvent::AttemptStarted, 0);
    run_control_loop(&mut engine, ControlEvent::Connected, 0);
    let frame = ControlEvent::Frame(Message::BotConfiguration(configuration(7)));
    let action = run_control_loop(&mut engine, frame, 0);
    assert_eq!(action, ControlAction::Publish);
    assert_eq!(engine.status(), BotnodeStatus::Online);
    assert_eq!(*engine.bot_configuration(), Some(configuration(7)));
    for _ in 0..3 {
        let action = run_control_loop(&mut engine, ControlEvent::PingDue, 5);
        assert_eq!(action, ControlAction::Ping(Message::Ping(5)));
    }
    assert_eq!(engine.data_txs().len(), 16);
    assert!(engine.data_txs().iter().all(|slot| *slot == Some(configuration(7))));
    for consumer in consumers {
        assert_eq!(engine.take(consumer), Some(configuration(7)));
        assert_eq!(engine.take(consumer), None);
    }
    assert_eq!(*engine.bot_configuration(), Some(configuration(7)));
}

#[test]
fn configuration_without_consumers_is_kept() {
    let mut engine = ControlEngine::new(BotId(1), "server");
    let frame = ControlEvent::Frame(Message::BotConfiguration(configuration(2)));
    assert_eq!(run_control_loop(&mut engine, frame, 0), ControlAction::Publish);
    assert_eq!(*engine.bot_configuration(), Some(configuration(2)));
    assert!(engine.data_txs().is_empty());
}

#[test]
fn newer_configuration_overwrites_the_one_that_waits() {
    let mut engine = ControlEngine::new(BotId(1), "server");
    let slow = engine.data_rx();
    let fast = engine.data_rx();
    engine.push_value(configuration(1));
    assert_eq!(engine.take(fast), Some(configuration(1)));
    engine.push_value(configuration(2));
    assert_eq!(engine.take(slow), Some(configuration(2)));
    assert_eq!(engine.take(fast), Some(configuration(2)));
    assert_eq!(engine.take(slow), None);
}

#[test]
fn consumer_that_registers_late_gets_the_next_configuration() {
    let mut engine = ControlEngine::new(BotId(1), "server");
    let early = engine.data_rx();
    engine.push_value(configuration(1));
    let late = engine.data_rx();
    assert_eq!(engine.data_txs().len(), 2);
    assert_eq!(engine.data_txs()[early], Some(configuration(1)));
    assert_eq!(engine.data_txs()[late], None);
    engine.push_value(configuration(2));
    assert_eq!(engine.take(late), Some(configuration(2)));
    assert_eq!(engine.take(early), Some(configuration(2)));
}

#[test]
fn take_of_an_unknown_consumer_gives_nothing() {
    let mut engine = ControlEngine::new(BotId(1), "server");
    assert_eq!(engine.take(0), None);
    let only = engine.data_rx();
    engine.push_value(configuration(1));
    assert_eq!(engine.take(only + 1), None);
    assert_eq!(engine.take(usize::MAX), None);
    assert_eq!(engine.take(only), Some(configuration(1)));
}

#[test]
fn ping_goes_out_when_due() {
    let mut engine = ControlEngine::new(BotId(1), "server");
    let action = run_control_loop(&mut engine, ControlEvent::PingDue, 99);
    assert_eq!(action, ControlAction::Ping(Message::Ping(99)));
    assert_eq!(engine.status(), BotnodeStatus::Offline);
}

#[test]
fn failures_end_the_attempt() {
    let mut engine = ControlEngine::new(BotId(1), "server");
    let action = run_control_loop(&mut engine, ControlEvent::ReadFailed, 0);
    assert_eq!(action, ControlAction::Finish(Err(EngineError::ReadError)));
    let action = run_control_loop(&mut engine, ControlEvent::PingFailed, 0);
    assert_eq!(action, ControlAction::Finish(Err(EngineError::WriteError)));
    let action = run_control_loop(&mut engine, ControlEvent::EndOfStream, 0);
    assert_eq!(
        action,
        ControlAction::Finish(Err(EngineError::Control(ControlEngineError::disconnected())))
    );
}

#[test]
fn shutdown_ends_the_attempt_with_success() {
    let mut engine = ControlEngine::new(BotId(1), "server");
    run_control_loop(&mut engine, ControlEvent::AttemptStarted, 0);
    let action = run_control_loop(&mut engine, ControlEvent::ShutdownTriggered, 0);
    assert_eq!(action, ControlAction::Finish(Ok(())));
    assert_eq!(engine.start(StartEvent::AttemptEnded(Ok(()))), StartAction::Return(Ok(())));
}

#[test]
fn server_that_closes_after_hello_is_dialled_again() {
    let mut engine = ControlEngine::new(BotId(1), "server:1");
    assert_eq!(engine.start(StartEvent::Started), StartAction::Sleep(1));
    assert_eq!(engine.start(StartEvent::DelayElapsed), StartAction::Attempt);
    for _ in 0..5 {
        let action = run_control_loop(&mut engine, ControlEvent::AttemptStarted, 0);
        assert_eq!(action, ControlAction::Dial("server:1".to_string()));
        let action = run_control_loop(&mut engine, ControlEvent::Connected, 0);
        assert_eq!(action, ControlAction::Hello(Message::hello(BotId(1))));
        let result = match run_control_loop(&mut engine, ControlEvent::EndOfStream, 0) {
            ControlAction::Finish(result) => result,
            other => panic!("unexpected action {:?}", other),
        };
        assert_eq!(result, Err(EngineError::Control(ControlEngineError::disconnected())));
        assert_eq!(engine.start(StartEvent::AttemptEnded(result)), StartAction::Sleep(1));
        assert_eq!(engine.start(StartEvent::DelayElapsed), StartAction::Attempt);
    }
}

#[test]
fn start_waits_and_retries_after_every_failure() {
    let engine = ControlEngine::new(BotId(1), "server");
    assert_eq!(WARM_UP_SECS, 1);
    assert_eq!(RETRY_DELAY_SECS, 1);
    assert_eq!(engine.start(StartEvent::Started), StartAction::Sleep(1));
    let errors = [
        EngineError::ShutdownInProgress,
        EngineError::DialError,
        EngineError::ReadError,
        EngineError::WriteError,
        EngineError::Control(ControlEngineError::disconnected()),
    ];
    for error in errors {
        assert_eq!(engine.start(StartEvent::AttemptEnded(Err(error))), StartAction::Sleep(1));
    }
}

#[test]
fn engine_error_texts() {
    assert_eq!(ControlEngineError::disconnected().to_string(), "Disconnected from botvana-server");
    assert_eq!(
        EngineError::Control(ControlEngineError::disconnected()).to_string(),
        "Disconnected from botvana-server"
    );
    assert_eq!(EngineError::ShutdownInProgress.to_string(), "shutdown in progress");
    assert_eq!(EngineError::DialError.to_string(), "cannot reach the server");
    assert_eq!(EngineError::ReadError.to_string(), "error while reading from the server");
    assert_eq!(EngineError::WriteError.to_string(), "error while writing to the server");
}
