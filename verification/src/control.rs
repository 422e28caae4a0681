//! The bot's side of the control connection: the engine that registers with
//! the server, keeps the configuration that it receives and hands it to the
//! local consumers, as a function from the engine's state and one event to
//! the next state and what to do.

use crate::engine::{slot_view, Engine, StartAction, StartEvent};
use crate::error::EngineError;
use crate::msg::{BotConfiguration, BotConfigurationView, BotId, BotMetadata, Message, MessageView};
use crate::outbox::{
    new_slots, push_slot, slot_count, slots, slots_as_mut_slice, slots_as_slice, CONSUMER_LIMIT,
};
use arrayvec::ArrayVec;
use vstd::prelude::*;

verus! {

/// The seconds between two heartbeats.
pub const PING_INTERVAL_SECS: u64 = 5;

/// The seconds that an engine waits before its first attempt.
pub const WARM_UP_SECS: u64 = 1;

/// The seconds that an engine waits after a failed attempt.
pub const RETRY_DELAY_SECS: u64 = 1;

/// The error of the control engine itself.
#[derive(Debug, Clone, Copy, PartialEq, Eq)]
pub struct ControlEngineError {
    msg: &'static str,
}

/// The error that says that the server closed the connection.
pub closed spec fn disconnected_error() -> ControlEngineError {
    ControlEngineError { msg: "Disconnected from botvana-server" }
}

impl ControlEngineError {
    /// The text of the error.
    pub closed spec fn text(&self) -> Seq<char> {
        self.msg@
    }

    /// The error that says that the server closed the connection.
    pub fn disconnected() -> (error: ControlEngineError)
        ensures
            error == disconnected_error(),
    {
        ControlEngineError { msg: "Disconnected from botvana-server" }
    }

    /// The error in words.
    pub fn to_string(&self) -> (text: String)
        ensures
            text@ == self.text(),
    {
        self.msg.to_owned()
    }
}

/// The text of `disconnected_error`.
pub proof fn lemma_disconnected_text()
    ensures
        disconnected_error().text() == "Disconnected from botvana-server"@,
{
}

/// How far the engine has come with the server.
#[derive(Clone, Copy, Debug, PartialEq, Eq, Structural)]
pub enum BotnodeStatus {
    Connecting,
    Online,
    Offline,
}

/// What happened to the engine's attempt since the last step.
#[derive(Debug, PartialEq, Eq)]
pub enum ControlEvent {
    /// An attempt begins, and the shutdown is delayed for its sake.
    AttemptStarted,
    /// An attempt was to begin, but the process is shutting down already.
    ShutdownInProgress,
    /// The server was reached.
    Connected,
    /// The server could not be reached.
    DialFailed,
    /// The `Hello` could not be sent.
    HelloFailed,
    /// A frame from the server was decoded.
    Frame(Message),
    /// The stream or the decoder failed.
    ReadFailed,
    /// The server closed the stream.
    EndOfStream,
    /// The ping interval has passed.
    PingDue,
    /// A `Ping` could not be sent.
    PingFailed,
    /// The process was told to shut down.
    ShutdownTriggered,
}

/// What the caller does after a step of an attempt.
#[derive(Debug, PartialEq, Eq)]
pub enum ControlAction {
    /// Connect to the server at this address.
    Dial(String),
    /// Send this `Hello`, then wait for the next event.
    Hello(Message),
    /// Send this `Ping`, then wait for the next event.
    Ping(Message),
    /// Wait for the next event.
    Continue,
    /// Hand the configuration in each output slot to its consumer, then wait
    /// for the next event.
    Publish,
    /// End the attempt with this result.
    Finish(Result<(), EngineError>),
}

/// A `ControlEvent` as a mathematical value.
pub enum ControlEventView {
    AttemptStarted,
    ShutdownInProgress,
    Connected,
    DialFailed,
    HelloFailed,
    Frame(MessageView),
    ReadFailed,
    EndOfStream,
    PingDue,
    PingFailed,
    ShutdownTriggered,
}

/// A `ControlAction` as a mathematical value.
pub enum ControlActionView {
    Dial(Seq<char>),
    Hello(MessageView),
    Ping(MessageView),
    Continue,
    Publish,
    Finish(Result<(), EngineError>),
}

impl View for ControlEvent {
    type V = ControlEventView;

    open spec fn view(&self) -> ControlEventView {
        match *self {
            ControlEvent::AttemptStarted => ControlEventView::AttemptStarted,
            ControlEvent::ShutdownInProgress => ControlEventView::ShutdownInProgress,
            ControlEvent::Connected => ControlEventView::Connected,
            ControlEvent::DialFailed => ControlEventView::DialFailed,
            ControlEvent::HelloFailed => ControlEventView::HelloFailed,
            ControlEvent::Frame(msg) => ControlEventView::Frame(msg@),
            ControlEvent::ReadFailed => ControlEventView::ReadFailed,
            ControlEvent::EndOfStream => ControlEventView::EndOfStream,
            ControlEvent::PingDue => ControlEventView::PingDue,
            ControlEvent::PingFailed => ControlEventView::PingFailed,
            ControlEvent::ShutdownTriggered => ControlEventView::ShutdownTriggered,
        }
    }
}

impl View for ControlAction {
    type V = ControlActionView;

    open spec fn view(&self) -> ControlActionView {
        match *self {
            ControlAction::Dial(addr) => ControlActionView::Dial(addr@),
            ControlAction::Hello(msg) => ControlActionView::Hello(msg@),
            ControlAction::Ping(msg) => ControlActionView::Ping(msg@),
            ControlAction::Continue => ControlActionView::Continue,
            ControlAction::Publish => ControlActionView::Publish,
            ControlAction::Finish(result) => ControlActionView::Finish(result),
        }
    }
}

/// A control engine as a mathematical value.
pub struct ControlEngineView {
    pub bot_id: BotId,
    pub server_addr: Seq<char>,
    pub status: BotnodeStatus,
    /// The seconds between two heartbeats.
    pub ping_interval: u64,
    /// One slot for each consumer, in the order in which they registered: the
    /// configuration that waits for the consumer, if any.
    pub config_txs: Seq<Option<BotConfigurationView>>,
    /// The configuration that was received last.
    pub bot_configuration: Option<BotConfigurationView>,
}

/// The outcome of one step of an attempt.
pub struct Stepped {
    pub engine: ControlEngineView,
    pub action: ControlActionView,
}

/// The outcome of taking from a slot.
pub struct Taken {
    pub engine: ControlEngineView,
    pub value: Option<BotConfigurationView>,
}

/// The engine as `ControlEngine::new` makes it.
pub open spec fn new_engine(bot_id: BotId, server_addr: Seq<char>) -> ControlEngineView {
    ControlEngineView {
        bot_id,
        server_addr,
        status: BotnodeStatus::Offline,
        ping_interval: PING_INTERVAL_SECS,
        config_txs: Seq::empty(),
        bot_configuration: None,
    }
}

/// The engine after one more consumer has registered: its slot is the last,
/// and empty.
pub open spec fn data_rx_spec(engine: ControlEngineView) -> ControlEngineView {
    ControlEngineView { config_txs: engine.config_txs.push(None), ..engine }
}

/// The engine after `val` was put into every slot. A configuration that
/// still waited in a slot is overwritten: only the latest one counts.
pub open spec fn push_value_spec(
    engine: ControlEngineView,
    val: BotConfigurationView,
) -> ControlEngineView {
    ControlEngineView {
        config_txs: Seq::new(engine.config_txs.len(), |i: int| Some(val)),
        ..engine
    }
}

/// What the consumer of slot `consumer` gets, and the engine after that: the
/// slot is empty. A consumer that never registered gets nothing.
pub open spec fn take_spec(engine: ControlEngineView, consumer: int) -> Taken {
    if 0 <= consumer < engine.config_txs.len() {
        Taken {
            engine: ControlEngineView {
                config_txs: engine.config_txs.update(consumer, None),
                ..engine
            },
            value: engine.config_txs[consumer],
        }
    } else {
        Taken { engine, value: None }
    }
}

/// The status after a frame has arrived: whoever was not online is now.
pub open spec fn status_after_frame(status: BotnodeStatus) -> BotnodeStatus {
    match status {
        BotnodeStatus::Offline | BotnodeStatus::Connecting => BotnodeStatus::Online,
        BotnodeStatus::Online => BotnodeStatus::Online,
    }
}

/// What one event does to an attempt of the engine, at time `now`.
///
/// An attempt begins by connecting, unless the process shuts down already.
/// Once connected the engine says `Hello`; that this cannot be sent does not
/// end the attempt. Every frame makes the engine online; a configuration is
/// kept and put into every output slot. Every ping interval a `Ping` goes
/// out. The attempt fails when the server cannot be reached, when reading or
/// sending a `Ping` fails, and when the server closes the stream. It ends
/// with success only when the process is told to shut down.
pub open spec fn run_control_loop_spec(
    engine: ControlEngineView,
    event: ControlEventView,
    now: u128,
) -> Stepped {
    match event {
        ControlEventView::AttemptStarted => Stepped {
            engine: ControlEngineView { status: BotnodeStatus::Connecting, ..engine },
            action: ControlActionView::Dial(engine.server_addr),
        },
        ControlEventView::ShutdownInProgress => Stepped {
            engine,
            action: ControlActionView::Finish(Err(EngineError::ShutdownInProgress)),
        },
        ControlEventView::Connected => Stepped {
            engine,
            action: ControlActionView::Hello(MessageView::Hello(engine.bot_id, BotMetadata(0))),
        },
        ControlEventView::DialFailed => Stepped {
            engine,
            action: ControlActionView::Finish(Err(EngineError::DialError)),
        },
        ControlEventView::HelloFailed => Stepped { engine, action: ControlActionView::Continue },
        ControlEventView::Frame(msg) => {
            let online = ControlEngineView { status: status_after_frame(engine.status), ..engine };
            match msg {
                MessageView::BotConfiguration(cfg) => Stepped {
                    engine: push_value_spec(
                        ControlEngineView { bot_configuration: Some(cfg), ..online },
                        cfg,
                    ),
                    action: ControlActionView::Publish,
                },
                _ => Stepped { engine: online, action: ControlActionView::Continue },
            }
        },
        ControlEventView::ReadFailed => Stepped {
            engine,
            action: ControlActionView::Finish(Err(EngineError::ReadError)),
        },
        ControlEventView::EndOfStream => Stepped {
            engine,
            action: ControlActionView::Finish(Err(EngineError::Control(disconnected_error()))),
        },
        ControlEventView::PingDue => Stepped {
            engine,
            action: ControlActionView::Ping(MessageView::Ping(now)),
        },
        ControlEventView::PingFailed => Stepped {
            engine,
            action: ControlActionView::Finish(Err(EngineError::WriteError)),
        },
        ControlEventView::ShutdownTriggered => Stepped {
            engine,
            action: ControlActionView::Finish(Ok(())),
        },
    }
}

/// What one event does to the engine as a whole.
///
/// The engine waits `WARM_UP_SECS` seconds, then runs attempts. After an
/// attempt that failed it waits `RETRY_DELAY_SECS` seconds and runs the next
/// one, however many have failed. It stops only after an attempt that ended
/// with success, and with success.
pub open spec fn start_spec(event: StartEvent) -> StartAction {
    match event {
        StartEvent::Started => StartAction::Sleep(WARM_UP_SECS),
        StartEvent::DelayElapsed => StartAction::Attempt,
        StartEvent::AttemptEnded(Ok(())) => StartAction::Return(Ok(())),
        StartEvent::AttemptEnded(Err(_)) => StartAction::Sleep(RETRY_DELAY_SECS),
    }
}

/// The control engine of a bot: it keeps the connection to the server.
pub struct ControlEngine {
    bot_id: BotId,
    server_addr: String,
    status: BotnodeStatus,
    ping_interval: u64,
    config_txs: ArrayVec<Option<BotConfiguration>, CONSUMER_LIMIT>,
    bot_configuration: Option<BotConfiguration>,
}

impl View for ControlEngine {
    type V = ControlEngineView;

    closed spec fn view(&self) -> ControlEngineView {
        ControlEngineView {
            bot_id: self.bot_id,
            server_addr: self.server_addr@,
            status: self.status,
            ping_interval: self.ping_interval,
            config_txs: Seq::new(
                slots(self.config_txs).len(),
                |i: int| slot_view(slots(self.config_txs)[i]),
            ),
            bot_configuration: slot_view(self.bot_configuration),
        }
    }
}

impl ControlEngine {
    /// The name of the engine in diagnostics.
    pub const NAME: &'static str = "control-engine";

    /// An engine for `bot_id` that is offline, has no consumer and no
    /// configuration, and will connect to `server_addr`.
    pub fn new(bot_id: BotId, server_addr: &str) -> (engine: ControlEngine)
        ensures
            engine@ == new_engine(bot_id, server_addr@),
    {
        let engine = ControlEngine {
            bot_id,
            server_addr: server_addr.to_owned(),
            status: BotnodeStatus::Offline,
            ping_interval: PING_INTERVAL_SECS,
            config_txs: new_slots(),
            bot_configuration: None,
        };
        assert(engine@.config_txs =~= Seq::empty());
        engine
    }

    /// The bot that this engine speaks for.
    pub fn bot_id(&self) -> (id: BotId)
        ensures
            id == self@.bot_id,
    {
        self.bot_id
    }

    /// The address of the server.
    pub fn server_addr(&self) -> (addr: &str)
        ensures
            addr@ == self@.server_addr,
    {
        self.server_addr.as_str()
    }

    /// How far the engine has come with the server.
    pub fn status(&self) -> (status: BotnodeStatus)
        ensures
            status == self@.status,
    {
        self.status
    }

    /// The seconds between two heartbeats.
    pub fn ping_interval(&self) -> (secs: u64)
        ensures
            secs == self@.ping_interval,
    {
        self.ping_interval
    }

    /// The configuration that was received last.
    pub fn bot_configuration(&self) -> (cfg: &Option<BotConfiguration>)
        ensures
            slot_view(*cfg) == self@.bot_configuration,
    {
        &self.bot_configuration
    }

    /// Registers one more consumer if fewer than `CONSUMER_LIMIT` have
    /// registered, and returns its number; registers nobody otherwise.
    pub fn try_data_rx(&mut self) -> (consumer: Option<usize>)
        ensures
            old(self)@.config_txs.len() < CONSUMER_LIMIT ==> {
                &&& final(self)@ == data_rx_spec(old(self)@)
                &&& consumer == Some(old(self)@.config_txs.len() as usize)
            },
            old(self)@.config_txs.len() >= CONSUMER_LIMIT ==> {
                &&& final(self)@ == old(self)@
                &&& consumer is None
            },
    {
        if slot_count(&self.config_txs) < CONSUMER_LIMIT {
            Some(self.data_rx())
        } else {
            None
        }
    }

    /// Takes what waits in the slot of `consumer`, and leaves the slot empty.
    pub fn take(&mut self, consumer: usize) -> (value: Option<BotConfiguration>)
        ensures
            final(self)@ == take_spec(old(self)@, consumer as int).engine,
            slot_view(value) == take_spec(old(self)@, consumer as int).value,
    {
        if consumer < slot_count(&self.config_txs) {
            let all = slots_as_mut_slice(&mut self.config_txs);
            let mut value: Option<BotConfiguration> = None;
            core::mem::swap(&mut all[consumer], &mut value);
            assert(self@.config_txs =~= old(self)@.config_txs.update(consumer as int, None));
            value
        } else {
            None
        }
    }
}

impl Engine for ControlEngine {
    type Data = BotConfiguration;

    open spec fn outputs(&self) -> Seq<Option<BotConfigurationView>> {
        self@.config_txs
    }

    fn name(&self) -> (name: &'static str)
        ensures
            name == ControlEngine::NAME,
    {
        ControlEngine::NAME
    }

    /// Takes the engine as a whole one step further.
    ///
    /// The caller reports that the engine was started, that a delay has
    /// passed and how each attempt ended, and performs the action that is
    /// returned.
    fn start(&self, event: StartEvent) -> (action: StartAction)
        ensures
            action == start_spec(event),
    {
        match event {
            StartEvent::Started => StartAction::Sleep(WARM_UP_SECS),
            StartEvent::DelayElapsed => StartAction::Attempt,
            StartEvent::AttemptEnded(Ok(())) => StartAction::Return(Ok(())),
            StartEvent::AttemptEnded(Err(_)) => StartAction::Sleep(RETRY_DELAY_SECS),
        }
    }

    /// Registers one more consumer and returns its number, by which it takes
    /// what is published for it.
    fn data_rx(&mut self) -> (consumer: usize)
        ensures
            final(self)@ == data_rx_spec(old(self)@),
            consumer == old(self)@.config_txs.len(),
    {
        let consumer = slot_count(&self.config_txs);
        push_slot(&mut self.config_txs, None);
        assert(self@.config_txs =~= old(self)@.config_txs.push(None));
        consumer
    }

    /// The output slots, one for each consumer.
    fn data_txs(&self) -> (txs: &[Option<BotConfiguration>])
        ensures
            txs@.len() == self@.config_txs.len(),
            txs@.len() <= CONSUMER_LIMIT,
            forall|i: int|
                #![trigger txs@[i]]
                #![trigger self@.config_txs[i]]
                0 <= i < txs@.len() ==> slot_view(txs@[i]) == self@.config_txs[i],
    {
        let _ = slot_count(&self.config_txs);
        slots_as_slice(&self.config_txs)
    }

    /// Puts `val` into the slot of every consumer.
    fn push_value(&mut self, val: BotConfiguration)
        ensures
            final(self)@ == push_value_spec(old(self)@, val@),
    {
        let n = slot_count(&self.config_txs);
        let mut i: usize = 0;
        while i < n
            invariant
                i <= n,
                n == slots(self.config_txs).len(),
                self.bot_id == old(self).bot_id,
                self.server_addr == old(self).server_addr,
                self.status == old(self).status,
                self.ping_interval == old(self).ping_interval,
                self.bot_configuration == old(self).bot_configuration,
                n == slots(old(self).config_txs).len(),
                forall|k: int| 0 <= k < i ==> slot_view(slots(self.config_txs)[k]) == Some(val@),
            decreases n - i,
        {
            let all = slots_as_mut_slice(&mut self.config_txs);
            all[i] = Some(val.clone());
            i += 1;
        }
        assert(self@.config_txs =~= push_value_spec(old(self)@, val@).config_txs);
    }
}

/// Takes one attempt of the engine one step further: `event` is what
/// happened, `now` the time.
///
/// The caller begins each attempt by asking to delay the shutdown and reports
/// whether that was granted. It then waits for a frame, the ping interval
/// or the shutdown signal, whichever comes first, reports it, and performs
/// the action that is returned, until the attempt is finished.
pub fn run_control_loop(control: &mut ControlEngine, event: ControlEvent, now: u128) -> (action:
    ControlAction)
    ensures
        final(control)@ == run_control_loop_spec(old(control)@, event@, now).engine,
        action@ == run_control_loop_spec(old(control)@, event@, now).action,
{
    match event {
        ControlEvent::AttemptStarted => {
            control.status = BotnodeStatus::Connecting;
            ControlAction::Dial(control.server_addr.clone())
        },
        ControlEvent::ShutdownInProgress => ControlAction::Finish(
            Err(EngineError::ShutdownInProgress),
        ),
        ControlEvent::Connected => ControlAction::Hello(Message::hello(control.bot_id)),
        ControlEvent::DialFailed => ControlAction::Finish(Err(EngineError::DialError)),
        ControlEvent::HelloFailed => ControlAction::Continue,
        ControlEvent::Frame(msg) => {
            match control.status {
                BotnodeStatus::Offline | BotnodeStatus::Connecting => {
                    control.status = BotnodeStatus::Online;
                },
                BotnodeStatus::Online => {},
            }
            if let Message::BotConfiguration(bot_config) = msg {
                control.bot_configuration = Some(bot_config.clone());
                control.push_value(bot_config);
                ControlAction::Publish
            } else {
                ControlAction::Continue
            }
        },
        ControlEvent::ReadFailed => ControlAction::Finish(Err(EngineError::ReadError)),
        ControlEvent::EndOfStream => ControlAction::Finish(
            Err(EngineError::Control(ControlEngineError::disconnected())),
        ),
        ControlEvent::PingDue => ControlAction::Ping(Message::ping(now)),
        ControlEvent::PingFailed => ControlAction::Finish(Err(EngineError::WriteError)),
        ControlEvent::ShutdownTriggered => ControlAction::Finish(Ok(())),
    }
}

/// The engine after the attempt has seen `events`, in order.
pub open spec fn after_control_events(
    engine: ControlEngineView,
    events: Seq<ControlEventView>,
    now: u128,
) -> ControlEngineView
    decreases events.len(),
{
    if events.len() == 0 {
        engine
    } else {
        run_control_loop_spec(
            after_control_events(engine, events.drop_last(), now),
            events.last(),
            now,
        ).engine
    }
}

/// The engine after `n` consumers have registered with a new engine.
pub open spec fn with_consumers(engine: ControlEngineView, n: nat) -> ControlEngineView
    decreases n,
{
    if n == 0 {
        engine
    } else {
        data_rx_spec(with_consumers(engine, (n - 1) as nat))
    }
}

/// Consumers that register one after the other get the numbers from zero up,
/// and each an empty slot of its own; the slots of the others are not
/// touched.
pub proof fn law_consumers_are_independent(engine: ControlEngineView, n: nat)
    ensures
        with_consumers(engine, n).config_txs.len() == engine.config_txs.len() + n,
        forall|i: int|
            0 <= i < engine.config_txs.len() ==> with_consumers(engine, n).config_txs[i]
                == engine.config_txs[i],
        forall|i: int|
            engine.config_txs.len() <= i < engine.config_txs.len() + n ==> with_consumers(
                engine,
                n,
            ).config_txs[i] == None::<BotConfigurationView>,
    decreases n,
{
    if n > 0 {
        law_consumers_are_independent(engine, (n - 1) as nat);
    }
}

/// Once the server has sent a configuration and nothing after it, every
/// consumer that has registered finds that configuration in its slot,
/// whatever else happens to the attempt, and the engine keeps it as the
/// latest.
pub proof fn law_configuration_reaches_every_consumer(
    engine: ControlEngineView,
    cfg: BotConfigurationView,
    later: Seq<ControlEventView>,
    now: u128,
    consumer: int,
)
    requires
        0 <= consumer < engine.config_txs.len(),
        forall|i: int| 0 <= i < later.len() ==> !(later[i] is Frame),
    ensures
        ({
            let events = seq![ControlEventView::Frame(MessageView::BotConfiguration(cfg))] + later;
            let after = after_control_events(engine, events, now);
            &&& after.config_txs.len() == engine.config_txs.len()
            &&& after.config_txs[consumer] == Some(cfg)
            &&& take_spec(after, consumer).value == Some(cfg)
            &&& after.bot_configuration == Some(cfg)
        }),
    decreases later.len(),
{
    let first = seq![ControlEventView::Frame(MessageView::BotConfiguration(cfg))];
    let events = first + later;
    if later.len() == 0 {
        assert(events =~= first);
        assert(events.drop_last() =~= Seq::<ControlEventView>::empty());
        assert(after_control_events(engine, events.drop_last(), now) == engine);
    } else {
        assert(events.drop_last() =~= first + later.drop_last());
        assert(events.last() == later.last());
        law_configuration_reaches_every_consumer(engine, cfg, later.drop_last(), now, consumer);
    }
}

/// When the server closes the connection the attempt fails as disconnected.
/// After an attempt that failed, for whatever reason, the engine does not
/// stop: it waits `RETRY_DELAY_SECS` seconds and then runs a new attempt,
/// which begins by connecting to the server again.
pub proof fn law_lost_connection_is_retried(
    engine: ControlEngineView,
    error: EngineError,
    now: u128,
)
    ensures
        run_control_loop_spec(engine, ControlEventView::EndOfStream, now).action
            == ControlActionView::Finish(Err(EngineError::Control(disconnected_error()))),
        start_spec(StartEvent::AttemptEnded(Err(error))) == StartAction::Sleep(RETRY_DELAY_SECS),
        start_spec(StartEvent::DelayElapsed) == StartAction::Attempt,
        run_control_loop_spec(engine, ControlEventView::AttemptStarted, now).action
            == ControlActionView::Dial(engine.server_addr),
        run_control_loop_spec(engine, ControlEventView::AttemptStarted, now).engine.status
            == BotnodeStatus::Connecting,
{
}

/// The engine stops only by way of the shutdown: an attempt ends with
/// success only when the process is told to shut down, and the engine
/// returns only after such an attempt, with success.
pub proof fn law_start_returns_only_on_shutdown(
    engine: ControlEngineView,
    event: ControlEventView,
    outcome: StartEvent,
    now: u128,
)
    ensures
        run_control_loop_spec(engine, event, now).action == ControlActionView::Finish(Ok(()))
            <==> event is ShutdownTriggered,
        start_spec(outcome) is Return <==> (outcome matches StartEvent::AttemptEnded(result)
            && result is Ok),
        start_spec(outcome) is Return ==> start_spec(outcome) == StartAction::Return(Ok(())),
{
}

} // verus!
