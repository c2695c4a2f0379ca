use tradeterm::dashboard::{App, InputEvent, Request, SubmitOutcome};
use tradeterm::market::Quote;
use tradeterm::order::{parse_quantity, DraftOrder, OrderAction, OrderFormState, OrderType};
use tradeterm::route::{Block, Screen};

fn quote(symbol: &str) -> Quote {
    let s = |x: &str| x.to_string();
    Quote {
        symbol: s(symbol),
        primary_exchange: s("NASDAQ"),
        date_time: s("10:00"),
        bid: s("1.00"),
        ask: s("1.01"),
        open: s("1.00"),
        eps: s("0.5"),
        pe: s("20"),
        beta: s("1.1"),
        high52: s("2.00"),
        high52_date: s("2021-01-01"),
        low52: s("0.50"),
        low52_date: s("2020-03-01"),
        dividend: s("0.01"),
        ex_dividend_date: s("2021-02-01"),
    }
}

fn type_text(app: &mut App, text: &str) {
    for c in text.chars() {
        assert!(matches!(app.handle_event(InputEvent::Char(c)), Request::Nothing));
    }
}

fn app_in_submit(qty: &str) -> App {
    let mut app = App::new();
    app.show_ticker(quote("AAPL"));
    app.enter_order_form(OrderAction::Buy, OrderType::Market);
    type_text(&mut app, qty);
    assert!(matches!(app.handle_event(InputEvent::Confirm), Request::Nothing));
    assert_eq!(app.order_form_state(), OrderFormState::Submit);
    app
}

#[test]
fn quantity_ignores_non_digits() {
    let mut app = App::new();
    app.enter_order_form(OrderAction::Buy, OrderType::Market);
    assert_eq!(app.order_form_state(), OrderFormState::Quantity);
    assert_eq!(app.draft().unwrap().quantity, None);
    type_text(&mut app, "12a3");
    assert_eq!(app.input(), &vec!['1', '2', '3']);
    app.handle_event(InputEvent::Confirm);
    assert_eq!(app.order_form_state(), OrderFormState::Submit);
    assert_eq!(app.draft().unwrap().quantity, Some(123));
    assert!(app.input().is_empty());
}

#[test]
fn confirm_with_empty_or_zero_quantity_stays() {
    let mut app = App::new();
    app.enter_order_form(OrderAction::Sell, OrderType::Limit);
    app.handle_event(InputEvent::Confirm);
    assert_eq!(app.order_form_state(), OrderFormState::Quantity);
    type_text(&mut app, "00");
    app.handle_event(InputEvent::Confirm);
    assert_eq!(app.order_form_state(), OrderFormState::Quantity);
    assert_eq!(app.draft().unwrap().quantity, None);
    assert_eq!(app.input(), &vec!['0', '0']);
}

#[test]
fn submit_failure_keeps_draft() {
    let mut app = app_in_submit("10");
    let routes_before = app.history_len();
    let ticket = match app.handle_event(InputEvent::Confirm) {
        Request::SubmitOrder(t, d) => {
            assert_eq!(d.quantity, Some(10));
            assert_eq!(d.symbol.as_deref(), Some("AAPL"));
            t
        }
        _ => panic!("expected a submission"),
    };
    app.order_outcome(ticket, SubmitOutcome::Failure("insufficient funds".to_string()));
    assert_eq!(app.order_form_state(), OrderFormState::Submit);
    assert_eq!(app.draft().unwrap().quantity, Some(10));
    assert_eq!(app.draft().unwrap().action, OrderAction::Buy);
    assert_eq!(app.order_error().map(|e| e.as_str()), Some("insufficient funds"));
    assert_eq!(app.history_len(), routes_before);
    assert_eq!(app.get_current_route().screen, Screen::OrderForm);
    assert_eq!(app.in_flight(), None);
}

#[test]
fn submit_success_resets_and_pops() {
    let mut app = app_in_submit("5");
    let ticket = match app.handle_event(InputEvent::Confirm) {
        Request::SubmitOrder(t, _) => t,
        _ => panic!("expected a submission"),
    };
    app.order_outcome(ticket, SubmitOutcome::Accepted);
    assert_eq!(app.order_form_state(), OrderFormState::Quantity);
    assert!(app.draft().is_none());
    assert_eq!(app.get_current_route().screen, Screen::TickerDetail);
    assert_eq!(app.history_len(), 2);
}

#[test]
fn second_confirm_in_flight_sends_nothing() {
    let mut app = app_in_submit("7");
    assert!(matches!(app.handle_event(InputEvent::Confirm), Request::SubmitOrder(_, _)));
    assert!(matches!(app.handle_event(InputEvent::Confirm), Request::Nothing));
    assert!(matches!(app.handle_event(InputEvent::Confirm), Request::Nothing));
}

#[test]
fn retry_after_failure_uses_new_ticket() {
    let mut app = app_in_submit("7");
    let t1 = match app.handle_event(InputEvent::Confirm) {
        Request::SubmitOrder(t, _) => t,
        _ => panic!("expected a submission"),
    };
    app.order_outcome(t1, SubmitOutcome::Failure("down".to_string()));
    let t2 = match app.handle_event(InputEvent::Confirm) {
        Request::SubmitOrder(t, _) => t,
        _ => panic!("expected a submission"),
    };
    assert_ne!(t1, t2);
    app.order_outcome(t1, SubmitOutcome::Accepted);
    assert_eq!(app.order_form_state(), OrderFormState::Submit);
    assert_eq!(app.in_flight(), Some(t2));
}

#[test]
fn late_answer_after_cancel_is_ignored() {
    let mut app = app_in_submit("3");
    let ticket = match app.handle_event(InputEvent::Confirm) {
        Request::SubmitOrder(t, _) => t,
        _ => panic!("expected a submission"),
    };
    app.handle_event(InputEvent::Cancel);
    assert!(app.draft().is_none());
    assert_eq!(app.get_current_route().screen, Screen::TickerDetail);
    app.order_outcome(ticket, SubmitOutcome::Accepted);
    assert_eq!(app.get_current_route().screen, Screen::TickerDetail);
    assert_eq!(app.history_len(), 2);
    app.order_outcome(ticket, SubmitOutcome::Failure("late".to_string()));
    assert!(app.order_error().is_none());
}

#[test]
fn order_round_trip_restores_route() {
    let mut app = App::new();
    app.show_ticker(quote("MSFT"));
    app.handle_event(InputEvent::HoverNext);
    let before = *app.get_current_route();
    let len_before = app.history_len();
    app.enter_order_form(OrderAction::Sell, OrderType::Limit);
    assert_eq!(app.get_current_route().screen, Screen::OrderForm);
    type_text(&mut app, "42");
    app.handle_event(InputEvent::Confirm);
    assert_eq!(app.order_form_state(), OrderFormState::Submit);
    app.handle_event(InputEvent::Cancel);
    assert_eq!(*app.get_current_route(), before);
    assert_eq!(app.history_len(), len_before);
    assert!(app.draft().is_none());
    assert_eq!(app.order_form_state(), OrderFormState::Quantity);
}

#[test]
fn backspace_is_locked_in_submit() {
    let mut app = App::new();
    app.enter_order_form(OrderAction::Buy, OrderType::Market);
    type_text(&mut app, "12");
    app.handle_event(InputEvent::Backspace);
    assert_eq!(app.input(), &vec!['1']);
    app.handle_event(InputEvent::Confirm);
    type_text(&mut app, "9");
    assert!(app.input().is_empty());
}

#[test]
fn parse_quantity_values() {
    let v = |s: &str| s.chars().collect::<Vec<char>>();
    assert_eq!(parse_quantity(&v("123")), Some(123));
    assert_eq!(parse_quantity(&v("007")), Some(7));
    assert_eq!(parse_quantity(&v("")), None);
    assert_eq!(parse_quantity(&v("0")), None);
    assert_eq!(parse_quantity(&v("1a")), None);
    assert_eq!(parse_quantity(&v("18446744073709551615")), Some(u64::MAX));
    assert_eq!(parse_quantity(&v("18446744073709551616")), None);
}

#[test]
fn labels_and_draft_copy() {
    assert_eq!(OrderAction::Buy.label(), "BUY");
    assert_eq!(OrderAction::Sell.label(), "SELL");
    assert_eq!(OrderType::Market.label(), "MARKET");
    assert_eq!(OrderType::Limit.label(), "LIMIT");
    let d = DraftOrder::new(OrderAction::Sell, OrderType::Limit, Some("IBM".to_string()));
    let c = d.duplicate();
    assert_eq!(c.symbol.as_deref(), Some("IBM"));
    assert_eq!(c.quantity, None);
    assert_eq!(c.action, OrderAction::Sell);
}

#[test]
fn order_form_focus_blocks() {
    let mut app = App::new();
    app.enter_order_form(OrderAction::Buy, OrderType::Market);
    assert!(app.is_active(Block::OrderForm));
    app.handle_event(InputEvent::HoverNext);
    assert!(app.is_hovered(Block::Input));
    app.handle_event(InputEvent::HoverNext);
    assert!(app.is_hovered(Block::OrderForm));
}
