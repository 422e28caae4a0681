//! The server as a whole: every connection that it has accepted, and the
//! registry that they share. What is proved here is that the registry lists
//! exactly the bots that have an open connection on which they said `Hello`.

use crate::bot_server::{handle_connection_spec, ConnectionEventView};
use crate::msg::{BotId, MessageView};
use crate::state::{lemma_with_bot, lemma_without_bot, with_bot, without_bot};
use vstd::prelude::*;

verus! {

/// One connection, as the server sees it.
pub enum LinkView {
    /// Open, and no `Hello` has arrived.
    Unregistered,
    /// Open, and this bot has said `Hello`.
    Registered(BotId),
    /// Closed, for good.
    Closed,
}

/// All connections, in the order in which they were accepted, and the
/// registry.
pub struct FleetView {
    pub links: Seq<LinkView>,
    pub bots: Seq<BotId>,
}

/// The bot that has registered on a connection.
pub open spec fn link_bot(link: LinkView) -> Option<BotId> {
    match link {
        LinkView::Registered(id) => Some(id),
        _ => None,
    }
}

/// A server that has accepted nothing yet.
pub open spec fn new_fleet() -> FleetView {
    FleetView { links: Seq::empty(), bots: Seq::empty() }
}

/// The server after it has accepted one more connection.
pub open spec fn fleet_accept(fleet: FleetView) -> FleetView {
    FleetView { links: fleet.links.push(LinkView::Unregistered), ..fleet }
}

/// The server after `event` has happened on its connection number `link`.
/// Nothing happens on a connection that is closed.
pub open spec fn fleet_step(
    fleet: FleetView,
    link: int,
    event: ConnectionEventView,
    now: u128,
) -> FleetView {
    if 0 <= link < fleet.links.len() && !(fleet.links[link] is Closed) {
        let handled = handle_connection_spec(link_bot(fleet.links[link]), fleet.bots, event, now);
        let next = if handled.step is Closed {
            LinkView::Closed
        } else {
            match handled.conn_bot_id {
                Some(id) => LinkView::Registered(id),
                None => LinkView::Unregistered,
            }
        };
        FleetView { links: fleet.links.update(link, next), bots: handled.bots }
    } else {
        fleet
    }
}

/// Whether `event` on connection `link` is the `Hello` of a bot that the
/// registry lists already.
pub open spec fn joins_twice(fleet: FleetView, link: int, event: ConnectionEventView) -> bool {
    &&& 0 <= link < fleet.links.len()
    &&& fleet.links[link] is Unregistered
    &&& event matches ConnectionEventView::Frame(MessageView::Hello(id, _))
    &&& fleet.bots.contains(id)
}

/// The registry lists no bot twice, and it lists a bot if and only if the bot
/// has registered on a connection that is open; no two open connections
/// belong to the same bot.
pub open spec fn registry_mirrors_links(fleet: FleetView) -> bool {
    &&& fleet.bots.no_duplicates()
    &&& forall|id: BotId|
        fleet.bots.contains(id) <==> fleet.links.contains(LinkView::Registered(id))
    &&& forall|i: int, j: int|
        0 <= i < j < fleet.links.len() && fleet.links[i] is Registered ==> fleet.links[i]
            != fleet.links[j]
}

/// The registry of a new server mirrors its connections: there are none.
pub proof fn law_new_fleet_mirrors()
    ensures
        registry_mirrors_links(new_fleet()),
{
}

/// Accepting a connection leaves the registry as it is, and in step with the
/// connections.
pub proof fn law_accept_keeps_mirror(fleet: FleetView)
    requires
        registry_mirrors_links(fleet),
    ensures
        registry_mirrors_links(fleet_accept(fleet)),
{
    let after = fleet_accept(fleet);
    assert forall|id: BotId| after.bots.contains(id) <==> after.links.contains(
        LinkView::Registered(id),
    ) by {
        if fleet.links.contains(LinkView::Registered(id)) {
            let i = fleet.links.index_of(LinkView::Registered(id));
            assert(after.links[i] == LinkView::Registered(id));
        }
        if after.links.contains(LinkView::Registered(id)) {
            let i = after.links.index_of(LinkView::Registered(id));
            assert(fleet.links[i] == LinkView::Registered(id));
        }
    }
}

/// As long as no bot says `Hello` under an identity that is connected
/// already, whatever happens on whichever connection, the registry lists
/// exactly the bots that have registered on a connection that is still open,
/// each once.
pub proof fn law_registry_mirrors_connections(
    fleet: FleetView,
    link: int,
    event: ConnectionEventView,
    now: u128,
)
    requires
        registry_mirrors_links(fleet),
        !joins_twice(fleet, link, event),
    ensures
        registry_mirrors_links(fleet_step(fleet, link, event, now)),
{
    let after = fleet_step(fleet, link, event, now);
    if 0 <= link < fleet.links.len() && !(fleet.links[link] is Closed) {
        let before = fleet.links[link];
        let handled = handle_connection_spec(link_bot(before), fleet.bots, event, now);
        let next = after.links[link];
        assert(after.links.len() == fleet.links.len());
        assert forall|i: int| 0 <= i < fleet.links.len() && i != link implies after.links[i]
            == fleet.links[i] by {}
        if next == before {
            assert(after.links =~= fleet.links);
            assert(after.bots == fleet.bots) by {
                if before is Registered {
                    lemma_without_bot(fleet.bots, before->0);
                }
            }
        } else if before is Registered {
            // A registered bot leaves: its connection closes.
            let left = before->0;
            assert(next is Closed);
            assert(after.bots == without_bot(fleet.bots, left));
            lemma_without_bot(fleet.bots, left);
            assert forall|id: BotId| after.bots.contains(id) <==> after.links.contains(
                LinkView::Registered(id),
            ) by {
                if after.bots.contains(id) {
                    assert(id != left);
                    assert(fleet.bots.contains(id));
                    assert(fleet.links.contains(LinkView::Registered(id)));
                    let i = fleet.links.index_of(LinkView::Registered(id));
                    assert(fleet.links[i] == LinkView::Registered(id));
                    assert(i != link);
                    assert(after.links[i] == LinkView::Registered(id));
                }
                if after.links.contains(LinkView::Registered(id)) {
                    let i = after.links.index_of(LinkView::Registered(id));
                    assert(after.links[i] == LinkView::Registered(id));
                    assert(i != link);
                    assert(fleet.links[i] == LinkView::Registered(id));
                    if i < link {
                        assert(fleet.links[i] != fleet.links[link]);
                    } else {
                        assert(fleet.links[link] != fleet.links[i]);
                    }
                    assert(id != left);
                    assert(fleet.links.contains(LinkView::Registered(id)));
                    assert(fleet.bots.contains(id));
                }
            }
        } else if next is Registered {
            // A bot joins on a connection that had none.
            let joined = next->0;
            assert(before is Unregistered);
            assert(!fleet.bots.contains(joined));
            assert(after.bots == with_bot(fleet.bots, joined));
            lemma_with_bot(fleet.bots, joined);
            assert forall|id: BotId| after.bots.contains(id) <==> after.links.contains(
                LinkView::Registered(id),
            ) by {
                if id == joined {
                    assert(after.links[link] == LinkView::Registered(id));
                } else {
                    if after.bots.contains(id) {
                        assert(fleet.bots.contains(id));
                        assert(fleet.links.contains(LinkView::Registered(id)));
                        let i = fleet.links.index_of(LinkView::Registered(id));
                        assert(fleet.links[i] == LinkView::Registered(id));
                        assert(i != link);
                        assert(after.links[i] == LinkView::Registered(id));
                    }
                    if after.links.contains(LinkView::Registered(id)) {
                        let i = after.links.index_of(LinkView::Registered(id));
                        assert(after.links[i] == LinkView::Registered(id));
                        assert(i != link);
                        assert(fleet.links[i] == LinkView::Registered(id));
                        assert(fleet.links.contains(LinkView::Registered(id)));
                        assert(fleet.bots.contains(id));
                    }
                }
            }
            assert forall|i: int, j: int|
                0 <= i < j < after.links.len() && after.links[i] is Registered implies after.links[i]
                != after.links[j] by {
                if i == link && after.links[j] == LinkView::Registered(joined) {
                    assert(fleet.links[j] == LinkView::Registered(joined));
                    assert(fleet.links.contains(LinkView::Registered(joined)));
                }
                if j == link && after.links[i] == LinkView::Registered(joined) {
                    assert(fleet.links[i] == LinkView::Registered(joined));
                    assert(fleet.links.contains(LinkView::Registered(joined)));
                }
            }
        } else {
            // A connection without a bot closes.
            assert(before is Unregistered && next is Closed);
            assert(after.bots == fleet.bots);
            assert forall|id: BotId| after.bots.contains(id) <==> after.links.contains(
                LinkView::Registered(id),
            ) by {
                if fleet.links.contains(LinkView::Registered(id)) {
                    let i = fleet.links.index_of(LinkView::Registered(id));
                    assert(after.links[i] == LinkView::Registered(id));
                }
                if after.links.contains(LinkView::Registered(id)) {
                    let i = after.links.index_of(LinkView::Registered(id));
                    assert(fleet.links[i] == LinkView::Registered(id));
                }
            }
        }
    }
}

} // verus!
