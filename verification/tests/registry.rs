use botvana_control::msg::BotId;
use botvana_control::state::GlobalState;

#[test]
fn new_registry_is_empty() {
    let state = GlobalState::new();
    assert_eq!(state.len(), 0);
    assert!(state.connected_bots().is_empty());
    assert!(!state.contains(BotId(1)));
}

#[test]
fn add_bot_lists_the_bot_once() {
    let mut state = GlobalState::new();
    state.add_bot(BotId(7));
    state.add_bot(BotId(7));
    assert_eq!(state.connected_bots(), vec![BotId(7)]);
    assert_eq!(state.len(), 1);
    assert!(state.contains(BotId(7)));
}

#[test]
fn connected_bots_keeps_the_order_of_joining() {
    let mut state = GlobalState::new();
    state.add_bot(BotId(3));
    state.add_bot(BotId(1));
    state.add_bot(BotId(2));
    assert_eq!(state.connected_bots(), vec![BotId(3), BotId(1), BotId(2)]);
}

#[test]
fn remove_bot_keeps_the_others() {
    let mut state = GlobalState::new();
    state.add_bot(BotId(3));
    state.add_bot(BotId(1));
    state.add_bot(BotId(2));
    state.remove_bot(BotId(1));
    assert_eq!(state.connected_bots(), vec![BotId(3), BotId(2)]);
    assert!(!state.contains(BotId(1)));
    state.remove_bot(BotId(3));
    assert_eq!(state.connected_bots(), vec![BotId(2)]);
    state.remove_bot(BotId(2));
    assert_eq!(state.len(), 0);
}

#[test]
fn remove_bot_that_is_not_listed_changes_nothing() {
    let mut state = GlobalState::new();
    state.add_bot(BotId(5));
    state.remove_bot(BotId(6));
    assert_eq!(state.connected_bots(), vec![BotId(5)]);
    let mut empty = GlobalState::new();
    empty.remove_bot(BotId(6));
    assert_eq!(empty.len(), 0);
}

#[test]
fn snapshot_does_not_follow_later_changes() {
    let mut state = GlobalState::new();
    state.add_bot(BotId(1));
    let snapshot = state.connected_bots();
    state.add_bot(BotId(2));
    state.remove_bot(BotId(1));
    assert_eq!(snapshot, vec![BotId(1)]);
    assert_eq!(state.connected_bots(), vec![BotId(2)]);
}

#[test]
fn many_distinct_bots_are_all_listed() {
    let mut state = GlobalState::new();
    let mut expected = Vec::new();
    for raw in 0..200u64 {
        state.add_bot(BotId(raw * 3));
        expected.push(BotId(raw * 3));
    }
    assert_eq!(state.len(), 200);
    assert_eq!(state.connected_bots(), expected);
}
