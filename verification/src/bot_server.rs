//! The server's side of one bot connection: the registration handshake, the
//! answers to heartbeats, the upkeep of the registry and the end of a
//! connection, as a function from the connection's state and one event to the
//! next state and what to do.

use crate::msg::{configuration_for, BotConfiguration, BotId, Message, MessageView, PeerBot};
use crate::permits::{
    acquire_spec, fresh_pool, grants, hands_over, pool_wf, release_spec, PermitPool,
    PermitPoolView,
};
use crate::state::{lemma_with_bot, lemma_without_bot, with_bot, without_bot, GlobalState};
use vstd::prelude::*;

verus! {

/// A connection that stays without an inbound frame for this many seconds is
/// closed.
pub const ACTIVITY_TIMEOUT_SECS: u64 = 15;

/// Why the server gave up a connection.
#[derive(Clone, Copy, Debug, PartialEq, Eq, Structural)]
pub enum BotServerError {
    ReadError,
    WriteError,
    Timeout,
    DuplicateHello,
}

/// What happened on a connection since the last step.
#[derive(Debug, PartialEq, Eq)]
pub enum ConnectionEvent {
    /// A frame was decoded.
    Frame(Message),
    /// The peer closed the stream.
    EndOfStream,
    /// The stream or the decoder failed.
    ReadFailed,
    /// The reply of the last step could not be sent.
    WriteFailed,
    /// No frame has arrived for this many seconds.
    Idle(u64),
}

/// What the caller does after a step.
#[derive(Debug, PartialEq, Eq)]
pub enum ConnectionStep {
    /// Wait for the next event.
    Continue,
    /// Send this message, then wait for the next event.
    Reply(Message),
    /// Close the connection with this result.
    Closed(Result<(), BotServerError>),
}

/// A `ConnectionEvent` as a mathematical value.
pub enum ConnectionEventView {
    Frame(MessageView),
    EndOfStream,
    ReadFailed,
    WriteFailed,
    Idle(u64),
}

/// A `ConnectionStep` as a mathematical value.
pub enum ConnectionStepView {
    Continue,
    Reply(MessageView),
    Closed(Result<(), BotServerError>),
}

impl View for ConnectionEvent {
    type V = ConnectionEventView;

    open spec fn view(&self) -> ConnectionEventView {
        match *self {
            ConnectionEvent::Frame(msg) => ConnectionEventView::Frame(msg@),
            ConnectionEvent::EndOfStream => ConnectionEventView::EndOfStream,
            ConnectionEvent::ReadFailed => ConnectionEventView::ReadFailed,
            ConnectionEvent::WriteFailed => ConnectionEventView::WriteFailed,
            ConnectionEvent::Idle(secs) => ConnectionEventView::Idle(secs),
        }
    }
}

impl View for ConnectionStep {
    type V = ConnectionStepView;

    open spec fn view(&self) -> ConnectionStepView {
        match *self {
            ConnectionStep::Continue => ConnectionStepView::Continue,
            ConnectionStep::Reply(msg) => ConnectionStepView::Reply(msg@),
            ConnectionStep::Closed(result) => ConnectionStepView::Closed(result),
        }
    }
}

/// The text of each error.
pub open spec fn error_text(error: BotServerError) -> Seq<char> {
    match error {
        BotServerError::ReadError => "error while reading socket"@,
        BotServerError::WriteError => "error while reading socket"@,
        BotServerError::Timeout => "timeout: no activity"@,
        BotServerError::DuplicateHello => "duplicate hello sent by the client"@,
    }
}

impl BotServerError {
    /// The error in words.
    pub fn to_string(&self) -> (text: String)
        ensures
            text@ == error_text(*self),
    {
        match self {
            BotServerError::ReadError => "error while reading socket".to_owned(),
            BotServerError::WriteError => "error while reading socket".to_owned(),
            BotServerError::Timeout => "timeout: no activity".to_owned(),
            BotServerError::DuplicateHello => "duplicate hello sent by the client".to_owned(),
        }
    }
}

/// The outcome of one message: the connection's bot, the registry, and the
/// reply that is owed or the error that ends the connection.
pub struct Processed {
    pub conn_bot_id: Option<BotId>,
    pub bots: Seq<BotId>,
    pub reply: Result<Option<MessageView>, BotServerError>,
}

/// The outcome of one event: the connection's bot, the registry and the step.
pub struct Handled {
    pub conn_bot_id: Option<BotId>,
    pub bots: Seq<BotId>,
    pub step: ConnectionStepView,
}

/// The reply of `process_bot_message` as a mathematical value.
pub open spec fn reply_view(reply: Result<Option<Message>, BotServerError>) -> Result<
    Option<MessageView>,
    BotServerError,
> {
    match reply {
        Ok(Some(msg)) => Ok(Some(msg@)),
        Ok(None) => Ok(None),
        Err(error) => Err(error),
    }
}

/// The registry once the bot of a connection, if it has one, is taken off.
pub open spec fn forget(conn_bot_id: Option<BotId>, bots: Seq<BotId>) -> Seq<BotId> {
    match conn_bot_id {
        Some(id) => without_bot(bots, id),
        None => bots,
    }
}

/// What one message does on a connection whose bot is `conn_bot_id` (`None`
/// before the first `Hello`), with `bots` connected, at time `now`.
///
/// The first `Hello` registers the bot and is answered with its
/// configuration, which lists every connected bot, the newcomer included. A
/// second `Hello` takes the connection's bot off the registry and ends the
/// connection. A `Ping` is answered with a `Pong`. Anything else is ignored.
pub open spec fn process_bot_message_spec(
    conn_bot_id: Option<BotId>,
    bots: Seq<BotId>,
    msg: MessageView,
    now: u128,
) -> Processed {
    match msg {
        MessageView::Hello(id, _) => match conn_bot_id {
            Some(known) => Processed {
                conn_bot_id,
                bots: without_bot(bots, known),
                reply: Err(BotServerError::DuplicateHello),
            },
            None => Processed {
                conn_bot_id: Some(id),
                bots: with_bot(bots, id),
                reply: Ok(
                    Some(MessageView::BotConfiguration(configuration_for(id, with_bot(bots, id)))),
                ),
            },
        },
        MessageView::Ping(_) => Processed {
            conn_bot_id,
            bots,
            reply: Ok(Some(MessageView::Pong(now))),
        },
        _ => Processed { conn_bot_id, bots, reply: Ok(None) },
    }
}

/// What one event does on a connection.
///
/// A frame is processed as `process_bot_message_spec` says: a reply is sent,
/// an error closes the connection. The end of the stream closes the
/// connection, as a success for a registered bot and as a read error before
/// that. A failed read or write closes it with that error, and so do
/// `ACTIVITY_TIMEOUT_SECS` seconds without a frame. However the connection
/// closes, its bot is taken off the registry.
pub open spec fn handle_connection_spec(
    conn_bot_id: Option<BotId>,
    bots: Seq<BotId>,
    event: ConnectionEventView,
    now: u128,
) -> Handled {
    match event {
        ConnectionEventView::Frame(msg) => {
            let done = process_bot_message_spec(conn_bot_id, bots, msg, now);
            Handled {
                conn_bot_id: done.conn_bot_id,
                bots: done.bots,
                step: match done.reply {
                    Ok(Some(reply)) => ConnectionStepView::Reply(reply),
                    Ok(None) => ConnectionStepView::Continue,
                    Err(error) => ConnectionStepView::Closed(Err(error)),
                },
            }
        },
        ConnectionEventView::EndOfStream => Handled {
            conn_bot_id,
            bots: forget(conn_bot_id, bots),
            step: ConnectionStepView::Closed(
                if conn_bot_id is Some {
                    Ok(())
                } else {
                    Err(BotServerError::ReadError)
                },
            ),
        },
        ConnectionEventView::ReadFailed => Handled {
            conn_bot_id,
            bots: forget(conn_bot_id, bots),
            step: ConnectionStepView::Closed(Err(BotServerError::ReadError)),
        },
        ConnectionEventView::WriteFailed => Handled {
            conn_bot_id,
            bots: forget(conn_bot_id, bots),
            step: ConnectionStepView::Closed(Err(BotServerError::WriteError)),
        },
        ConnectionEventView::Idle(secs) => if secs >= ACTIVITY_TIMEOUT_SECS {
            Handled {
                conn_bot_id,
                bots: forget(conn_bot_id, bots),
                step: ConnectionStepView::Closed(Err(BotServerError::Timeout)),
            }
        } else {
            Handled { conn_bot_id, bots, step: ConnectionStepView::Continue }
        },
    }
}

/// The configuration for `bot_id` when `registered` lists the connected bots.
fn build_configuration(bot_id: BotId, registered: &Vec<BotId>) -> (cfg: BotConfiguration)
    ensures
        cfg@ == configuration_for(bot_id, registered@),
{
    let mut peer_bots: Vec<PeerBot> = Vec::new();
    let mut i: usize = 0;
    while i < registered.len()
        invariant
            i <= registered@.len(),
            peer_bots@.len() == i,
            forall|k: int| 0 <= k < i ==> peer_bots@[k] == (PeerBot { bot_id: registered@[k] }),
        decreases registered@.len() - i,
    {
        peer_bots.push(PeerBot { bot_id: registered[i] });
        i += 1;
    }
    let mut market_data: Vec<String> = Vec::new();
    market_data.push("ETH/USD".to_owned());
    let cfg = BotConfiguration { bot_id, peer_bots, market_data, indicators: Vec::new() };
    proof {
        let want = configuration_for(bot_id, registered@);
        assert(cfg@.peer_bots =~= want.peer_bots);
        assert(cfg@.market_data =~= want.market_data);
        assert(cfg@.indicators =~= want.indicators);
    }
    cfg
}

/// Takes the bot of a connection, if it has one, off the registry.
fn forget_bot(conn_bot_id: Option<BotId>, global_state: &mut GlobalState)
    ensures
        final(global_state)@ == forget(conn_bot_id, old(global_state)@),
{
    if let Some(id) = conn_bot_id {
        global_state.remove_bot(id);
    }
}

/// Processes one message that a bot sent, at time `now`.
///
/// Returns the reply to send, if one is owed, or the error that ends the
/// connection.
pub fn process_bot_message(
    conn_bot_id: &mut Option<BotId>,
    global_state: &mut GlobalState,
    msg: Message,
    now: u128,
) -> (reply: Result<Option<Message>, BotServerError>)
    ensures
        *final(conn_bot_id) == process_bot_message_spec(
            *old(conn_bot_id),
            old(global_state)@,
            msg@,
            now,
        ).conn_bot_id,
        final(global_state)@ == process_bot_message_spec(
            *old(conn_bot_id),
            old(global_state)@,
            msg@,
            now,
        ).bots,
        reply_view(reply) == process_bot_message_spec(
            *old(conn_bot_id),
            old(global_state)@,
            msg@,
            now,
        ).reply,
{
    match msg {
        Message::Hello(bot_id, _) => {
            if let Some(known) = *conn_bot_id {
                global_state.remove_bot(known);
                return Err(BotServerError::DuplicateHello);
            }
            *conn_bot_id = Some(bot_id);
            global_state.add_bot(bot_id);
            let bots = global_state.connected_bots();
            let cfg = build_configuration(bot_id, &bots);
            Ok(Some(Message::BotConfiguration(cfg)))
        },
        Message::Ping(_) => Ok(Some(Message::pong(now))),
        _ => Ok(None),
    }
}

/// Takes one connection one step further: `event` is what happened on it,
/// `conn_bot_id` the bot that it has registered, `now` the time.
///
/// The caller waits for the next frame for at most `ACTIVITY_TIMEOUT_SECS`
/// seconds and reports what came first; it performs the step that is
/// returned, and stops at `Closed`.
pub fn handle_connection(
    conn_bot_id: &mut Option<BotId>,
    global_state: &mut GlobalState,
    event: ConnectionEvent,
    now: u128,
) -> (step: ConnectionStep)
    ensures
        *final(conn_bot_id) == handle_connection_spec(
            *old(conn_bot_id),
            old(global_state)@,
            event@,
            now,
        ).conn_bot_id,
        final(global_state)@ == handle_connection_spec(
            *old(conn_bot_id),
            old(global_state)@,
            event@,
            now,
        ).bots,
        step@ == handle_connection_spec(*old(conn_bot_id), old(global_state)@, event@, now).step,
{
    match event {
        ConnectionEvent::Frame(msg) => {
            match process_bot_message(conn_bot_id, global_state, msg, now) {
                Ok(Some(reply)) => ConnectionStep::Reply(reply),
                Ok(None) => ConnectionStep::Continue,
                Err(error) => ConnectionStep::Closed(Err(error)),
            }
        },
        ConnectionEvent::EndOfStream => {
            forget_bot(*conn_bot_id, global_state);
            if conn_bot_id.is_some() {
                ConnectionStep::Closed(Ok(()))
            } else {
                ConnectionStep::Closed(Err(BotServerError::ReadError))
            }
        },
        ConnectionEvent::ReadFailed => {
            forget_bot(*conn_bot_id, global_state);
            ConnectionStep::Closed(Err(BotServerError::ReadError))
        },
        ConnectionEvent::WriteFailed => {
            forget_bot(*conn_bot_id, global_state);
            ConnectionStep::Closed(Err(BotServerError::WriteError))
        },
        ConnectionEvent::Idle(secs) => {
            if secs >= ACTIVITY_TIMEOUT_SECS {
                forget_bot(*conn_bot_id, global_state);
                ConnectionStep::Closed(Err(BotServerError::Timeout))
            } else {
                ConnectionStep::Continue
            }
        },
    }
}

/// What happened at the acceptor since the last step.
#[derive(Clone, Copy, Debug, PartialEq, Eq, Structural)]
pub enum AcceptorEvent {
    /// A connection was accepted: a handler is to be started for it.
    Accepted,
    /// Accepting failed.
    AcceptFailed,
    /// A handler that held a permit has ended, in whatever way.
    HandlerExited,
}

/// What the acceptor does after a step.
#[derive(Clone, Copy, Debug, PartialEq, Eq, Structural)]
pub enum AcceptorAction {
    /// Start the handler of the new connection and let it run: it holds a permit.
    Run,
    /// Start the handler of the new connection and let it wait for a permit.
    Park,
    /// Let the handler that has waited longest run: the permit is now its own.
    Wake,
    /// Nothing to do.
    Idle,
    /// Stop accepting and report the failure. Handlers that run go on.
    Stop,
}

/// The outcome of one step of the acceptor.
pub struct Served {
    pub pool: PermitPoolView,
    pub action: AcceptorAction,
}

/// What one event does at the acceptor whose permits are `pool`.
///
/// Every accepted connection gets a handler, which runs once it holds a
/// permit. A handler that ends gives its permit back, whether it failed or
/// not. A failure to accept ends the acceptor.
pub open spec fn serve_spec(pool: PermitPoolView, event: AcceptorEvent) -> Served {
    match event {
        AcceptorEvent::Accepted => Served {
            pool: acquire_spec(pool),
            action: if grants(pool) {
                AcceptorAction::Run
            } else {
                AcceptorAction::Park
            },
        },
        AcceptorEvent::HandlerExited => Served {
            pool: release_spec(pool),
            action: if hands_over(pool) {
                AcceptorAction::Wake
            } else {
                AcceptorAction::Idle
            },
        },
        AcceptorEvent::AcceptFailed => Served { pool, action: AcceptorAction::Stop },
    }
}

/// Takes the acceptor one step further: `event` is what happened, `permits`
/// the pool that was made with the limit of connections.
///
/// The caller accepts connections and reports each, reports every handler
/// that ends, and performs the action that is returned.
pub fn serve(permits: &mut PermitPool, event: AcceptorEvent) -> (action: AcceptorAction)
    requires
        event == AcceptorEvent::Accepted ==> old(permits)@.waiting < usize::MAX,
    ensures
        final(permits)@ == serve_spec(old(permits)@, event).pool,
        action == serve_spec(old(permits)@, event).action,
{
    match event {
        AcceptorEvent::Accepted => {
            if permits.acquire() {
                AcceptorAction::Run
            } else {
                AcceptorAction::Park
            }
        },
        AcceptorEvent::HandlerExited => {
            if permits.release() {
                AcceptorAction::Wake
            } else {
                AcceptorAction::Idle
            }
        },
        AcceptorEvent::AcceptFailed => AcceptorAction::Stop,
    }
}

/// The bot that a `Hello` names.
pub open spec fn hello_id(msg: MessageView) -> BotId {
    match msg {
        MessageView::Hello(id, _) => id,
        _ => BotId(0),
    }
}

/// The bots that a list of `Hello` messages names, in order.
pub open spec fn hello_ids(hellos: Seq<MessageView>) -> Seq<BotId> {
    Seq::new(hellos.len(), |i: int| hello_id(hellos[i]))
}

/// The outcome of the last of `msgs` on a connection that has received them
/// all, in order.
pub open spec fn after_messages(
    conn_bot_id: Option<BotId>,
    bots: Seq<BotId>,
    msgs: Seq<MessageView>,
    now: u128,
) -> Processed
    decreases msgs.len(),
{
    if msgs.len() == 0 {
        Processed { conn_bot_id, bots, reply: Ok(None) }
    } else {
        let before = after_messages(conn_bot_id, bots, msgs.drop_last(), now);
        process_bot_message_spec(before.conn_bot_id, before.bots, msgs.last(), now)
    }
}

/// The registry after each of `hellos` has arrived on a connection of its
/// own, in this order.
pub open spec fn after_joining(bots: Seq<BotId>, hellos: Seq<MessageView>, now: u128) -> Seq<BotId>
    decreases hellos.len(),
{
    if hellos.len() == 0 {
        bots
    } else {
        process_bot_message_spec(
            None,
            after_joining(bots, hellos.drop_last(), now),
            hellos.last(),
            now,
        ).bots
    }
}

/// The permits after the acceptor has seen `events`, in order.
pub open spec fn after_events(pool: PermitPoolView, events: Seq<AcceptorEvent>) -> PermitPoolView
    decreases events.len(),
{
    if events.len() == 0 {
        pool
    } else {
        serve_spec(after_events(pool, events.drop_last()), events.last()).pool
    }
}

/// Of the `Hello` messages that arrive on one connection only the first is
/// accepted: it registers its bot and is answered with the configuration.
/// Each later one is refused as a duplicate, and after it the registry does
/// not hold the connection's bot.
pub proof fn law_only_first_hello_accepted(
    bots: Seq<BotId>,
    hellos: Seq<MessageView>,
    now: u128,
    k: int,
)
    requires
        bots.no_duplicates(),
        forall|i: int| 0 <= i < hellos.len() ==> hellos[i] is Hello,
        1 <= k <= hellos.len(),
    ensures
        ({
            let first = hello_id(hellos[0]);
            let after = after_messages(None, bots, hellos.take(k), now);
            &&& after.conn_bot_id == Some(first)
            &&& after.bots.no_duplicates()
            &&& k == 1 ==> {
                &&& after.bots == with_bot(bots, first)
                &&& after.reply == Ok::<Option<MessageView>, BotServerError>(
                    Some(
                        MessageView::BotConfiguration(
                            configuration_for(first, with_bot(bots, first)),
                        ),
                    ),
                )
            }
            &&& k > 1 ==> {
                &&& after.reply == Err::<Option<MessageView>, BotServerError>(
                    BotServerError::DuplicateHello,
                )
                &&& !after.bots.contains(first)
            }
        }),
    decreases k,
{
    let first = hello_id(hellos[0]);
    assert(hellos.take(k).drop_last() =~= hellos.take(k - 1));
    assert(hellos.take(k).last() == hellos[k - 1]);
    if k == 1 {
        assert(hellos.take(0).len() == 0);
        lemma_with_bot(bots, first);
    } else {
        law_only_first_hello_accepted(bots, hellos, now, k - 1);
        let before = after_messages(None, bots, hellos.take(k - 1), now);
        lemma_without_bot(before.bots, first);
    }
}

/// When bots with different identities have each said `Hello` on a
/// connection of their own, in whatever order, and none has left, the
/// registry that was empty before holds exactly these bots, each once.
pub proof fn law_all_joined_bots_registered(hellos: Seq<MessageView>, now: u128)
    requires
        forall|i: int| 0 <= i < hellos.len() ==> hellos[i] is Hello,
        hello_ids(hellos).no_duplicates(),
    ensures
        after_joining(Seq::empty(), hellos, now) == hello_ids(hellos),
        after_joining(Seq::empty(), hellos, now).len() == hellos.len(),
        after_joining(Seq::empty(), hellos, now).no_duplicates(),
        after_joining(Seq::empty(), hellos, now).to_set() == hello_ids(hellos).to_set(),
    decreases hellos.len(),
{
    let ids = hello_ids(hellos);
    if hellos.len() == 0 {
        assert(ids =~= Seq::<BotId>::empty());
    } else {
        let earlier = hellos.drop_last();
        let earlier_ids = ids.drop_last();
        assert(hello_ids(earlier) =~= earlier_ids);
        assert forall|i: int, j: int|
            0 <= i < earlier_ids.len() && 0 <= j < earlier_ids.len() && i != j implies earlier_ids[i]
            != earlier_ids[j] by {
            assert(earlier_ids[i] == ids[i]);
            assert(earlier_ids[j] == ids[j]);
        }
        law_all_joined_bots_registered(earlier, now);
        let before = after_joining(Seq::empty(), earlier, now);
        let newcomer = hello_id(hellos.last());
        assert(newcomer == ids[ids.len() - 1]);
        if before.contains(newcomer) {
            let at = before.index_of(newcomer);
            assert(ids[at] == newcomer);
            assert(false);
        }
        assert(before.push(newcomer) =~= ids);
    }
}

/// Whenever a step closes the connection of a registered bot (the stream
/// ended, a read or a write failed, a second `Hello` came, or the connection
/// stayed idle), the registry no longer holds that bot afterwards, and holds
/// every other bot that it held before.
pub proof fn law_closing_forgets_bot(
    id: BotId,
    bots: Seq<BotId>,
    event: ConnectionEventView,
    now: u128,
)
    requires
        bots.no_duplicates(),
        handle_connection_spec(Some(id), bots, event, now).step is Closed,
    ensures
        !handle_connection_spec(Some(id), bots, event, now).bots.contains(id),
        handle_connection_spec(Some(id), bots, event, now).bots.no_duplicates(),
        forall|other: BotId|
            other != id ==> (handle_connection_spec(Some(id), bots, event, now).bots.contains(other)
                <==> bots.contains(other)),
        event is EndOfStream ==> handle_connection_spec(Some(id), bots, event, now).step
            == ConnectionStepView::Closed(Ok(())),
{
    lemma_without_bot(bots, id);
}

/// A connection that has stayed without a frame for `ACTIVITY_TIMEOUT_SECS`
/// seconds or more is closed with `Timeout`, whether a bot has registered on
/// it or not, and its bot is taken off the registry.
pub proof fn law_idle_connection_times_out(
    conn_bot_id: Option<BotId>,
    bots: Seq<BotId>,
    secs: u64,
    now: u128,
)
    requires
        secs >= ACTIVITY_TIMEOUT_SECS,
    ensures
        handle_connection_spec(conn_bot_id, bots, ConnectionEventView::Idle(secs), now).step
            == ConnectionStepView::Closed(Err(BotServerError::Timeout)),
        handle_connection_spec(conn_bot_id, bots, ConnectionEventView::Idle(secs), now).bots
            == forget(conn_bot_id, bots),
{
}

/// Whatever the acceptor sees, in whatever order, no more handlers hold a
/// permit than the limit of connections allows, and no handler waits while a
/// permit is free.
pub proof fn law_permits_bound_handlers(max_connections: nat, events: Seq<AcceptorEvent>)
    ensures
        after_events(fresh_pool(max_connections), events).capacity == max_connections,
        after_events(fresh_pool(max_connections), events).held <= max_connections,
        pool_wf(after_events(fresh_pool(max_connections), events)),
    decreases events.len(),
{
    if events.len() > 0 {
        law_permits_bound_handlers(max_connections, events.drop_last());
    }
}

/// A permit that comes back while handlers wait passes to one of them: with
/// a limit above zero, a handler that ends always lets a waiting one run.
pub proof fn law_exit_admits_waiting_handler(pool: PermitPoolView)
    requires
        pool_wf(pool),
        pool.capacity > 0,
        pool.waiting > 0,
    ensures
        serve_spec(pool, AcceptorEvent::HandlerExited).action == AcceptorAction::Wake,
        serve_spec(pool, AcceptorEvent::HandlerExited).pool.waiting == pool.waiting - 1,
        serve_spec(pool, AcceptorEvent::HandlerExited).pool.held == pool.held,
{
}

/// How often `event` occurs in `events`.
pub open spec fn occurrences(events: Seq<AcceptorEvent>, event: AcceptorEvent) -> nat
    decreases events.len(),
{
    if events.len() == 0 {
        0
    } else {
        occurrences(events.drop_last(), event) + if events.last() == event {
            1nat
        } else {
            0nat
        }
    }
}

/// No permit leaks: as long as only handlers that were started end, the
/// handlers that hold a permit and those that wait for one are together
/// exactly the handlers that were started and have not ended. Once the last
/// of them has ended, every permit is free again.
pub proof fn law_every_handler_is_counted(max_connections: nat, events: Seq<AcceptorEvent>)
    requires
        max_connections > 0,
        forall|k: int|
            0 <= k <= events.len() ==> occurrences(
                #[trigger] events.take(k),
                AcceptorEvent::HandlerExited,
            ) <= occurrences(events.take(k), AcceptorEvent::Accepted),
    ensures
        after_events(fresh_pool(max_connections), events).held + after_events(
            fresh_pool(max_connections),
            events,
        ).waiting == occurrences(events, AcceptorEvent::Accepted) - occurrences(
            events,
            AcceptorEvent::HandlerExited,
        ),
    decreases events.len(),
{
    assert(events.take(events.len() as int) =~= events);
    if events.len() > 0 {
        let earlier = events.drop_last();
        assert forall|k: int| 0 <= k <= earlier.len() implies occurrences(
            #[trigger] earlier.take(k),
            AcceptorEvent::HandlerExited,
        ) <= occurrences(earlier.take(k), AcceptorEvent::Accepted) by {
            assert(earlier.take(k) =~= events.take(k));
        }
        law_every_handler_is_counted(max_connections, earlier);
        law_permits_bound_handlers(max_connections, earlier);
    }
}

} // verus!
