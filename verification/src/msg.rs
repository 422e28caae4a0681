//! The vocabulary that bots and the server exchange: identities, the
//! configuration payload and the message variants, each with the mathematical
//! view that the contracts of the other modules speak of.

use vstd::prelude::*;

verus! {

/// Identity of one bot process in the fleet.
#[derive(Clone, Copy, Debug, PartialEq, Eq, Hash, Structural)]
pub struct BotId(pub u64);

/// What a bot tells about itself when it registers. The server only records it.
#[derive(Clone, Copy, Debug, PartialEq, Eq, Structural)]
pub struct BotMetadata(pub u64);

/// One registered bot, as it is shown to a bot that has just joined.
#[derive(Clone, Copy, Debug, PartialEq, Eq, Structural)]
pub struct PeerBot {
    pub bot_id: BotId,
}

/// Settings of one indicator that a bot is asked to compute.
#[derive(Debug, PartialEq, Eq)]
pub struct IndicatorConfig {
    pub name: String,
}

/// The configuration that the server hands to a bot in answer to its `Hello`.
#[derive(Debug, PartialEq, Eq)]
pub struct BotConfiguration {
    pub bot_id: BotId,
    pub peer_bots: Vec<PeerBot>,
    pub market_data: Vec<String>,
    pub indicators: Vec<IndicatorConfig>,
}

/// A message on the wire.
#[derive(Debug, PartialEq, Eq)]
pub enum Message {
    /// Registration of a bot: valid once per connection.
    Hello(BotId, BotMetadata),
    /// Heartbeat, with the sender's timestamp.
    Ping(u128),
    /// Answer to a heartbeat, with the sender's timestamp.
    Pong(u128),
    /// Configuration for the bot that said `Hello`.
    BotConfiguration(BotConfiguration),
    /// Any other kind of message, named by its tag. The control plane ignores it.
    Other(u32),
}

/// A `BotConfiguration` as a mathematical value.
pub struct BotConfigurationView {
    pub bot_id: BotId,
    pub peer_bots: Seq<PeerBot>,
    pub market_data: Seq<Seq<char>>,
    pub indicators: Seq<Seq<char>>,
}

/// A `Message` as a mathematical value.
pub enum MessageView {
    Hello(BotId, BotMetadata),
    Ping(u128),
    Pong(u128),
    BotConfiguration(BotConfigurationView),
    Other(u32),
}

/// The symbol that every bot is told to follow.
pub open spec fn default_market() -> Seq<char> {
    "ETH/USD"@
}

/// The peer entries for a list of identities, in the same order.
pub open spec fn peers_of(ids: Seq<BotId>) -> Seq<PeerBot> {
    Seq::new(ids.len(), |i: int| PeerBot { bot_id: ids[i] })
}

/// The configuration that answers the `Hello` of `bot_id` when `registered`
/// lists the bots that the registry holds.
pub open spec fn configuration_for(bot_id: BotId, registered: Seq<BotId>) -> BotConfigurationView {
    BotConfigurationView {
        bot_id,
        peer_bots: peers_of(registered),
        market_data: seq![default_market()],
        indicators: Seq::empty(),
    }
}

impl View for IndicatorConfig {
    type V = Seq<char>;

    open spec fn view(&self) -> Seq<char> {
        self.name@
    }
}

impl View for BotConfiguration {
    type V = BotConfigurationView;

    open spec fn view(&self) -> BotConfigurationView {
        BotConfigurationView {
            bot_id: self.bot_id,
            peer_bots: self.peer_bots@,
            market_data: Seq::new(self.market_data@.len(), |i: int| self.market_data@[i]@),
            indicators: Seq::new(self.indicators@.len(), |i: int| self.indicators@[i]@),
        }
    }
}

impl View for Message {
    type V = MessageView;

    open spec fn view(&self) -> MessageView {
        match *self {
            Message::Hello(id, meta) => MessageView::Hello(id, meta),
            Message::Ping(t) => MessageView::Ping(t),
            Message::Pong(t) => MessageView::Pong(t),
            Message::BotConfiguration(cfg) => MessageView::BotConfiguration(cfg@),
            Message::Other(tag) => MessageView::Other(tag),
        }
    }
}

impl BotId {
    pub fn new(raw: u64) -> (id: BotId)
        ensures
            id == BotId(raw),
    {
        BotId(raw)
    }
}

impl BotMetadata {
    pub fn new(raw: u64) -> (meta: BotMetadata)
        ensures
            meta == BotMetadata(raw),
    {
        BotMetadata(raw)
    }
}

impl PeerBot {
    pub fn new(bot_id: BotId) -> (peer: PeerBot)
        ensures
            peer == (PeerBot { bot_id }),
    {
        PeerBot { bot_id }
    }
}

impl Clone for IndicatorConfig {
    fn clone(&self) -> (res: IndicatorConfig)
        ensures
            res@ == self@,
    {
        IndicatorConfig { name: self.name.clone() }
    }
}

impl Clone for BotConfiguration {
    fn clone(&self) -> (res: BotConfiguration)
        ensures
            res@ == self@,
    {
        let mut peer_bots: Vec<PeerBot> = Vec::new();
        let mut i: usize = 0;
        while i < self.peer_bots.len()
            invariant
                i <= self.peer_bots@.len(),
                peer_bots@ == self.peer_bots@.subrange(0, i as int),
            decreases self.peer_bots@.len() - i,
        {
            peer_bots.push(self.peer_bots[i]);
            i += 1;
        }
        let mut market_data: Vec<String> = Vec::new();
        let mut j: usize = 0;
        while j < self.market_data.len()
            invariant
                j <= self.market_data@.len(),
                market_data@.len() == j,
                forall|k: int| 0 <= k < j ==> market_data@[k]@ == self.market_data@[k]@,
            decreases self.market_data@.len() - j,
        {
            market_data.push(self.market_data[j].clone());
            j += 1;
        }
        let mut indicators: Vec<IndicatorConfig> = Vec::new();
        let mut n: usize = 0;
        while n < self.indicators.len()
            invariant
                n <= self.indicators@.len(),
                indicators@.len() == n,
                forall|k: int| 0 <= k < n ==> indicators@[k]@ == self.indicators@[k]@,
            decreases self.indicators@.len() - n,
        {
            indicators.push(self.indicators[n].clone());
            n += 1;
        }
        let res = BotConfiguration { bot_id: self.bot_id, peer_bots, market_data, indicators };
        assert(res@.peer_bots =~= self@.peer_bots);
        assert(res@.market_data =~= self@.market_data);
        assert(res@.indicators =~= self@.indicators);
        res
    }
}

impl Clone for Message {
    fn clone(&self) -> (res: Message)
        ensures
            res@ == self@,
    {
        match self {
            Message::Hello(id, meta) => Message::Hello(*id, *meta),
            Message::Ping(t) => Message::Ping(*t),
            Message::Pong(t) => Message::Pong(*t),
            Message::BotConfiguration(cfg) => Message::BotConfiguration(cfg.clone()),
            Message::Other(tag) => Message::Other(*tag),
        }
    }
}

impl Message {
    /// The registration message of `bot_id`.
    pub fn hello(bot_id: BotId) -> (msg: Message)
        ensures
            msg@ == MessageView::Hello(bot_id, BotMetadata(0)),
    {
        Message::Hello(bot_id, BotMetadata(0))
    }

    /// A heartbeat stamped with `now`.
    pub fn ping(now: u128) -> (msg: Message)
        ensures
            msg@ == MessageView::Ping(now),
    {
        Message::Ping(now)
    }

    /// The answer to a heartbeat, stamped with `now`.
    pub fn pong(now: u128) -> (msg: Message)
        ensures
            msg@ == MessageView::Pong(now),
    {
        Message::Pong(now)
    }
}

} // verus!
