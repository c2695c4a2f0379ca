use tradeterm::nav::NavigationStack;
use tradeterm::route::{blocks_of, cycle_block, is_valid_block, Block, HoverDirection, Route, Screen};

#[test]
fn push_then_pop_returns_home() {
    let mut s = NavigationStack::new();
    assert_eq!(s.len(), 1);
    s.push(Screen::Search, Block::Input, Block::Input);
    assert_eq!(s.len(), 2);
    assert_eq!(s.current().screen, Screen::Search);
    let popped = s.pop();
    assert_eq!(popped.screen, Screen::Search);
    assert_eq!(popped.active_block, Block::Input);
    assert_eq!(s.len(), 1);
    assert_eq!(s.current().screen, Screen::Home);
}

#[test]
fn pop_on_single_route_is_noop() {
    let mut s = NavigationStack::new();
    for _ in 0..5 {
        let r = s.pop();
        assert_eq!(r, Route::home());
        assert_eq!(s.len(), 1);
        assert_eq!(*s.current(), Route::home());
    }
}

#[test]
fn many_pops_never_empty_the_history() {
    let mut s = NavigationStack::new();
    s.push(Screen::Search, Block::SearchResults, Block::Input);
    s.push(Screen::TickerDetail, Block::TickerDetail, Block::TickerDetail);
    s.push(Screen::OrderForm, Block::OrderForm, Block::Input);
    let mut seen = Vec::new();
    for _ in 0..10 {
        seen.push(s.pop().screen);
        assert!(s.len() >= 1);
    }
    assert_eq!(seen[0], Screen::OrderForm);
    assert_eq!(seen[1], Screen::TickerDetail);
    assert_eq!(seen[2], Screen::Search);
    assert_eq!(seen[3], Screen::Home);
    assert_eq!(s.current().screen, Screen::Home);
}

#[test]
fn push_with_foreign_block_falls_back_to_home() {
    let mut s = NavigationStack::new();
    s.push(Screen::OrderForm, Block::WatchList, Block::OrderForm);
    assert_eq!(s.len(), 2);
    assert_eq!(*s.current(), Route::home());
    let r = Route::new(Screen::Search, Block::SearchResults, Block::TickerDetail);
    assert_eq!(r, Route::home());
}

#[test]
fn set_focus_changes_top_only() {
    let mut s = NavigationStack::new();
    s.push(Screen::Search, Block::SearchResults, Block::SearchResults);
    s.set_hovered(Block::Portfolio);
    s.set_active(Block::Input);
    assert_eq!(s.len(), 2);
    assert!(s.is_hovered(Block::Portfolio));
    assert!(s.is_active(Block::Input));
    s.set_active(Block::OrderForm);
    assert!(s.is_active(Block::Input));
    s.pop();
    assert!(s.is_active(Block::Home));
    assert!(s.is_hovered(Block::Home));
}

#[test]
fn cycle_hover_wraps_on_home() {
    let mut s = NavigationStack::new();
    s.set_hovered(Block::WatchList);
    s.cycle_hover(HoverDirection::Next);
    assert_eq!(s.current().hovered_block, Block::Portfolio);
    s.cycle_hover(HoverDirection::Next);
    assert_eq!(s.current().hovered_block, Block::Input);
    s.cycle_hover(HoverDirection::Next);
    assert_eq!(s.current().hovered_block, Block::Home);
    assert_eq!(s.current().active_block, Block::Home);
    s.cycle_hover(HoverDirection::Prev);
    assert_eq!(s.current().hovered_block, Block::Input);
}

#[test]
fn activate_takes_hovered_block() {
    let mut s = NavigationStack::new();
    s.cycle_hover(HoverDirection::Next);
    assert!(s.is_active(Block::Home));
    s.activate_hovered();
    assert!(s.is_active(Block::WatchList));
}

#[test]
fn blocks_per_screen() {
    assert_eq!(
        blocks_of(Screen::Home),
        vec![Block::Home, Block::WatchList, Block::Portfolio, Block::Input]
    );
    assert_eq!(blocks_of(Screen::OrderForm), vec![Block::OrderForm, Block::Input]);
    assert_eq!(blocks_of(Screen::Error), vec![Block::Home]);
    assert!(!is_valid_block(Screen::OrderForm, Block::WatchList));
    assert!(is_valid_block(Screen::Search, Block::SearchResults));
    assert_eq!(cycle_block(Screen::OrderForm, Block::Input, HoverDirection::Next), Block::OrderForm);
    assert_eq!(cycle_block(Screen::Error, Block::Home, HoverDirection::Prev), Block::Home);
    assert_eq!(cycle_block(Screen::Search, Block::SearchResults, HoverDirection::Prev), Block::Input);
}
