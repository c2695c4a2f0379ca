//! The application state: navigation, focus, the order workflow, the input
//! buffer and the reference caches, and the routing of input events.

use vstd::prelude::*;
use crate::listing::{SelectableList, initial_selection, next_selection, prev_selection};
use crate::market::{Account, Quote};
use crate::nav::{NavigationStack, history_wf, popped};
use crate::order::{
    DraftOrder, DraftOrderView, OrderAction, OrderFormState, OrderType, all_digits, digits_value,
    is_digit, is_digit_char, parse_quantity, quantity_of,
};
use crate::view::{RouteView, input_title, input_title_of, route_view, route_view_of};
use crate::route::{Block, HoverDirection, Route, Screen, cycled_block, valid_blocks};

verus! {

/// A discrete input from the user, in arrival order.
#[derive(Clone, Copy, Debug, PartialEq, Eq, Structural)]
pub enum InputEvent {
    Char(char),
    Backspace,
    Confirm,
    Cancel,
    HoverNext,
    HoverPrev,
    Activate,
    SelectNext,
    SelectPrev,
}

/// What an input event asks of the outside services.
#[derive(Debug)]
pub enum Request {
    Nothing,
    /// Look up tickers matching the query.
    Search(Vec<char>),
    /// Send the draft order; the ticket identifies the answer.
    SubmitOrder(u64, DraftOrder),
}

/// The mathematical content of a request.
pub enum RequestView {
    Nothing,
    Search(Seq<char>),
    SubmitOrder(u64, DraftOrderView),
}

impl View for Request {
    type V = RequestView;

    open spec fn view(&self) -> RequestView {
        match self {
            Request::Nothing => RequestView::Nothing,
            Request::Search(q) => RequestView::Search(q@),
            Request::SubmitOrder(t, d) => RequestView::SubmitOrder(*t, d@),
        }
    }
}

/// The answer of the order service to a submission.
#[derive(Clone, Debug)]
pub enum SubmitOutcome {
    Accepted,
    Failure(String),
}

/// The mathematical content of the application state.
pub struct AppView {
    pub routes: Seq<Route>,
    pub form_state: OrderFormState,
    pub draft: Option<DraftOrderView>,
    pub input: Seq<char>,
    pub in_flight: Option<u64>,
    pub next_ticket: u64,
    pub error: Option<Seq<char>>,
    pub search_results: (Seq<String>, Option<usize>),
    pub portfolio: (Seq<String>, Option<usize>),
    pub watch_list: (Seq<String>, Option<usize>),
    pub accounts: Option<Seq<Account>>,
    pub selected_ticker: Option<Quote>,
}

/// The selection, if any, points at an item.
pub open spec fn selection_wf(l: (Seq<String>, Option<usize>)) -> bool {
    match l.1 {
        Some(i) => i < l.0.len(),
        None => true,
    }
}

/// The current route.
pub open spec fn top(v: AppView) -> Route {
    v.routes.last()
}

/// Whether the order form is shown.
pub open spec fn in_order_form(v: AppView) -> bool {
    top(v).screen == Screen::OrderForm
}

/// The invariants of the application state: a valid history, selections
/// inside their snapshots, a quantity exactly in the confirmation step, a
/// submission only from that step, and a draft only on the order form.
pub open spec fn app_wf(v: AppView) -> bool {
    &&& history_wf(v.routes)
    &&& selection_wf(v.search_results)
    &&& selection_wf(v.portfolio)
    &&& selection_wf(v.watch_list)
    &&& (v.form_state == OrderFormState::Submit) == (v.draft is Some
        && v.draft.unwrap().quantity is Some)
    &&& v.in_flight is Some ==> v.form_state == OrderFormState::Submit
    &&& v.draft is Some ==> in_order_form(v)
}

/// The ticket after `t`.
pub open spec fn bump(t: u64) -> u64 {
    if t < u64::MAX {
        (t + 1) as u64
    } else {
        0
    }
}

/// The workflow back at its start: no draft, no submission, empty buffer.
pub open spec fn reset_order(v: AppView) -> AppView {
    AppView {
        form_state: OrderFormState::Quantity,
        draft: None,
        in_flight: None,
        input: Seq::empty(),
        error: None,
        ..v
    }
}

/// The workflow is discarded when the order form is left.
pub open spec fn leave_order_form(v: AppView) -> AppView {
    if in_order_form(v) {
        reset_order(v)
    } else {
        v
    }
}

/// A typed character: a digit goes to the quantity while it is asked for;
/// on other screens every character goes to the search text.
pub open spec fn after_char(v: AppView, c: char) -> AppView {
    if in_order_form(v) {
        if v.form_state == OrderFormState::Quantity && is_digit(c) {
            AppView { input: v.input.push(c), ..v }
        } else {
            v
        }
    } else {
        AppView { input: v.input.push(c), ..v }
    }
}

/// Backspace removes the last character, except while an order awaits
/// confirmation.
pub open spec fn after_backspace(v: AppView) -> AppView {
    if (in_order_form(v) && v.form_state == OrderFormState::Submit) || v.input.len() == 0 {
        v
    } else {
        AppView { input: v.input.drop_last(), ..v }
    }
}

/// Confirm: accept the quantity, send the order once, or start a search.
pub open spec fn after_confirm(v: AppView) -> (AppView, RequestView) {
    if in_order_form(v) {
        match v.form_state {
            OrderFormState::Quantity => {
                if v.draft is Some && quantity_of(v.input) is Some {
                    (
                        AppView {
                            form_state: OrderFormState::Submit,
                            draft: Some(
                                DraftOrderView { quantity: quantity_of(v.input), ..v.draft.unwrap() },
                            ),
                            input: Seq::empty(),
                            ..v
                        },
                        RequestView::Nothing,
                    )
                } else {
                    (v, RequestView::Nothing)
                }
            },
            OrderFormState::Submit => {
                if v.in_flight is None && v.draft is Some {
                    (
                        AppView { in_flight: Some(v.next_ticket), next_ticket: bump(v.next_ticket), ..v },
                        RequestView::SubmitOrder(v.next_ticket, v.draft.unwrap()),
                    )
                } else {
                    (v, RequestView::Nothing)
                }
            },
        }
    } else if v.input.len() > 0 {
        (v, RequestView::Search(v.input))
    } else {
        (v, RequestView::Nothing)
    }
}

/// Cancel goes back one screen, discarding the order workflow when it
/// leaves the order form.
pub open spec fn after_cancel(v: AppView) -> AppView {
    let w = leave_order_form(v);
    AppView { routes: popped(v.routes), ..w }
}

/// The state with the current route replaced by `r`.
pub open spec fn set_top(v: AppView, r: Route) -> AppView {
    AppView { routes: v.routes.update(v.routes.len() - 1, r), ..v }
}

/// Hovering moves to the neighbouring block of the current screen.
pub open spec fn after_hover(v: AppView, dir: HoverDirection) -> AppView {
    set_top(
        v,
        Route { hovered_block: cycled_block(top(v).screen, top(v).hovered_block, dir), ..top(v) },
    )
}

/// Activation gives input focus to the hovered block.
pub open spec fn after_activate(v: AppView) -> AppView {
    set_top(v, Route { active_block: top(v).hovered_block, ..top(v) })
}

/// A list with its selection moved down or up by one, clamped.
pub open spec fn moved_selection(l: (Seq<String>, Option<usize>), down: bool) -> (
    Seq<String>,
    Option<usize>,
) {
    if down {
        (l.0, next_selection(l.1, l.0.len()))
    } else {
        (l.0, prev_selection(l.1, l.0.len()))
    }
}

/// Moving the selection acts on the list that holds input focus.
pub open spec fn after_select(v: AppView, down: bool) -> AppView {
    match top(v).active_block {
        Block::WatchList => AppView { watch_list: moved_selection(v.watch_list, down), ..v },
        Block::Portfolio => AppView { portfolio: moved_selection(v.portfolio, down), ..v },
        Block::SearchResults => AppView {
            search_results: moved_selection(v.search_results, down),
            ..v
        },
        _ => v,
    }
}

/// A route to `screen` with `block` both active and hovered.
pub open spec fn focused_route(screen: Screen, block: Block) -> Route {
    Route { screen, active_block: block, hovered_block: block }
}

/// The symbol of the selected ticker, if any.
pub open spec fn ticker_symbol(v: AppView) -> Option<Seq<char>> {
    match v.selected_ticker {
        Some(q) => Some(q.symbol@),
        None => None,
    }
}

/// Navigates to a new route, discarding the order workflow if the order
/// form is left.
pub open spec fn navigated(v: AppView, r: Route) -> AppView {
    let w = leave_order_form(v);
    AppView { routes: w.routes.push(r), ..w }
}

/// Opening the order form for the selected ticker: a fresh draft without
/// quantity, an empty buffer, and the quantity step.
pub open spec fn after_enter(v: AppView, action: OrderAction, order_type: OrderType) -> AppView {
    let w = navigated(v, focused_route(Screen::OrderForm, Block::OrderForm));
    AppView {
        form_state: OrderFormState::Quantity,
        draft: Some(
            DraftOrderView { action, order_type, quantity: None, symbol: ticker_symbol(v) },
        ),
        input: Seq::empty(),
        in_flight: None,
        error: None,
        ..w
    }
}

/// The answer to submission `ticket`. Only the submission in flight is
/// answered: success ends the workflow and leaves the order form, failure
/// keeps the draft and shows the reason. Any other answer is ignored.
pub open spec fn after_outcome(v: AppView, ticket: u64, outcome: SubmitOutcome) -> AppView {
    if v.in_flight == Some(ticket) {
        match outcome {
            SubmitOutcome::Accepted => AppView { routes: popped(v.routes), ..reset_order(v) },
            SubmitOutcome::Failure(reason) => AppView {
                in_flight: None,
                error: Some(reason@),
                ..v
            },
        }
    } else {
        v
    }
}

/// The state after an input event, and the request it makes.
pub open spec fn step(v: AppView, ev: InputEvent) -> (AppView, RequestView) {
    match ev {
        InputEvent::Char(c) => (after_char(v, c), RequestView::Nothing),
        InputEvent::Backspace => (after_backspace(v), RequestView::Nothing),
        InputEvent::Confirm => after_confirm(v),
        InputEvent::Cancel => (after_cancel(v), RequestView::Nothing),
        InputEvent::HoverNext => (after_hover(v, HoverDirection::Next), RequestView::Nothing),
        InputEvent::HoverPrev => (after_hover(v, HoverDirection::Prev), RequestView::Nothing),
        InputEvent::Activate => (after_activate(v), RequestView::Nothing),
        InputEvent::SelectNext => (after_select(v, true), RequestView::Nothing),
        InputEvent::SelectPrev => (after_select(v, false), RequestView::Nothing),
    }
}

/// The state after typing the characters of `s` one by one.
pub open spec fn typed(v: AppView, s: Seq<char>) -> AppView
    decreases s.len(),
{
    if s.len() == 0 {
        v
    } else {
        after_char(typed(v, s.drop_last()), s.last())
    }
}

/// The digits of `s`, in order.
pub open spec fn keep_digits(s: Seq<char>) -> Seq<char>
    decreases s.len(),
{
    if s.len() == 0 {
        s
    } else if is_digit(s.last()) {
        keep_digits(s.drop_last()).push(s.last())
    } else {
        keep_digits(s.drop_last())
    }
}

/// While the quantity is asked for, typing adds the digits of what is
/// typed to the buffer and ignores every other character; nothing else of
/// the state changes.
pub proof fn lemma_quantity_keeps_digits(v: AppView, s: Seq<char>)
    requires
        app_wf(v),
        in_order_form(v),
        v.form_state == OrderFormState::Quantity,
    ensures
        typed(v, s) == (AppView { input: v.input + keep_digits(s), ..v }),
    decreases s.len(),
{
    if s.len() == 0 {
        assert(v.input + keep_digits(s) =~= v.input);
    } else {
        lemma_quantity_keeps_digits(v, s.drop_last());
        if is_digit(s.last()) {
            assert((v.input + keep_digits(s.drop_last())).push(s.last()) =~= v.input + keep_digits(
                s,
            ));
        }
    }
}

/// A string of digits keeps all of its characters.
pub proof fn lemma_keep_digits_of_digits(s: Seq<char>)
    requires
        all_digits(s),
    ensures
        keep_digits(s) == s,
    decreases s.len(),
{
    if s.len() > 0 {
        let d = s.drop_last();
        assert(all_digits(d)) by {
            assert forall|i: int| 0 <= i < d.len() implies is_digit(#[trigger] d[i]) by {
                assert(d[i] == s[i]);
            }
        }
        lemma_keep_digits_of_digits(d);
        assert(is_digit(s[s.len() - 1]));
        assert(d.push(s.last()) =~= s);
    }
}

/// Typing a non-empty string of digits into an empty quantity buffer and
/// confirming records the number those digits write, when it is positive
/// and fits, and moves to the confirmation step.
pub proof fn lemma_quantity_confirm(v: AppView, s: Seq<char>)
    requires
        app_wf(v),
        in_order_form(v),
        v.form_state == OrderFormState::Quantity,
        v.draft is Some,
        v.input.len() == 0,
        s.len() > 0,
        all_digits(s),
        0 < digits_value(s) <= u64::MAX,
    ensures
        step(typed(v, s), InputEvent::Confirm).0.form_state == OrderFormState::Submit,
        step(typed(v, s), InputEvent::Confirm).0.draft.unwrap().quantity == Some(
            digits_value(s) as u64,
        ),
        step(typed(v, s), InputEvent::Confirm).0.input.len() == 0,
{
    lemma_quantity_keeps_digits(v, s);
    lemma_keep_digits_of_digits(s);
    assert(v.input + s =~= s);
}

/// While a submission is in flight, confirming again sends nothing: of two
/// confirms in a row in the confirmation step, the second never makes a
/// request.
pub proof fn lemma_confirm_single_flight(v: AppView)
    requires
        app_wf(v),
        in_order_form(v),
        v.form_state == OrderFormState::Submit,
    ensures
        (step(v, InputEvent::Confirm).1 is SubmitOrder) == (v.in_flight is None),
        v.in_flight is Some ==> step(v, InputEvent::Confirm) == (v, RequestView::Nothing),
        step(step(v, InputEvent::Confirm).0, InputEvent::Confirm).1 is Nothing,
{
}

/// Opening the order form, entering a valid quantity, confirming it and
/// then cancelling brings back exactly the history, with its focus, from
/// before the order form was opened, and discards the draft.
pub proof fn lemma_order_round_trip(
    v: AppView,
    action: OrderAction,
    order_type: OrderType,
    s: Seq<char>,
)
    requires
        app_wf(v),
        s.len() > 0,
        all_digits(s),
        0 < digits_value(s) <= u64::MAX,
    ensures
        step(typed(after_enter(v, action, order_type), s), InputEvent::Confirm).0.form_state
            == OrderFormState::Submit,
        step(
            step(typed(after_enter(v, action, order_type), s), InputEvent::Confirm).0,
            InputEvent::Cancel,
        ).0.routes == v.routes,
        step(
            step(typed(after_enter(v, action, order_type), s), InputEvent::Confirm).0,
            InputEvent::Cancel,
        ).0.draft is None,
{
    let v1 = after_enter(v, action, order_type);
    let r = focused_route(Screen::OrderForm, Block::OrderForm);
    assert(valid_blocks(Screen::OrderForm)[0] == Block::OrderForm);
    assert(r.wf());
    assert(v1.routes == v.routes.push(r));
    assert(history_wf(v1.routes)) by {
        assert forall|i: int| 0 <= i < v1.routes.len() implies (#[trigger] v1.routes[i]).wf() by {
            if i < v.routes.len() {
                assert(v1.routes[i] == v.routes[i]);
            }
        }
    }
    assert(app_wf(v1));
    lemma_quantity_confirm(v1, s);
    lemma_quantity_keeps_digits(v1, s);
    assert(v.routes.push(r).drop_last() =~= v.routes);
}

/// The application state.
pub struct App {
    nav: NavigationStack,
    form_state: OrderFormState,
    draft: Option<DraftOrder>,
    input: Vec<char>,
    in_flight: Option<u64>,
    next_ticket: u64,
    error: Option<String>,
    search_results: SelectableList<String>,
    portfolio: SelectableList<String>,
    watch_list: SelectableList<String>,
    accounts: Option<Vec<Account>>,
    selected_ticker: Option<Quote>,
}

impl View for App {
    type V = AppView;

    closed spec fn view(&self) -> AppView {
        AppView {
            routes: self.nav@,
            form_state: self.form_state,
            draft: match self.draft {
                Some(d) => Some(d@),
                None => None,
            },
            input: self.input@,
            in_flight: self.in_flight,
            next_ticket: self.next_ticket,
            error: match self.error {
                Some(e) => Some(e@),
                None => None,
            },
            search_results: self.search_results@,
            portfolio: self.portfolio@,
            watch_list: self.watch_list@,
            accounts: match self.accounts {
                Some(a) => Some(a@),
                None => None,
            },
            selected_ticker: self.selected_ticker,
        }
    }
}

impl App {
    /// The invariants hold of the state.
    pub open spec fn wf(&self) -> bool {
        app_wf(self@)
    }

    /// A fresh state on the home screen with empty caches.
    pub fn new() -> (a: App)
        ensures
            a.wf(),
            a@.routes == seq![Route::home_spec()],
            a@.form_state == OrderFormState::Quantity,
            a@.draft is None,
            a@.input == Seq::<char>::empty(),
            a@.in_flight is None,
            a@.error is None,
            a@.search_results == (Seq::<String>::empty(), None::<usize>),
            a@.portfolio == (Seq::<String>::empty(), None::<usize>),
            a@.watch_list == (Seq::<String>::empty(), None::<usize>),
            a@.accounts is None,
            a@.selected_ticker is None,
    {
        App {
            nav: NavigationStack::new(),
            form_state: OrderFormState::Quantity,
            draft: None,
            input: Vec::new(),
            in_flight: None,
            next_ticket: 0,
            error: None,
            search_results: SelectableList::new(),
            portfolio: SelectableList::new(),
            watch_list: SelectableList::new(),
            accounts: None,
            selected_ticker: None,
        }
    }

    /// The current route.
    pub fn get_current_route(&self) -> (r: &Route)
        requires
            self.wf(),
        ensures
            *r == top(self@),
    {
        self.nav.current()
    }

    fn reset_order(&mut self)
        requires
            history_wf(old(self)@.routes),
        ensures
            final(self)@ == reset_order(old(self)@),
    {
        self.form_state = OrderFormState::Quantity;
        self.draft = None;
        self.in_flight = None;
        self.input = Vec::new();
        self.error = None;
    }

    fn leave_order_form(&mut self)
        requires
            history_wf(old(self)@.routes),
        ensures
            final(self)@ == leave_order_form(old(self)@),
    {
        if self.nav.current().screen == Screen::OrderForm {
            self.reset_order();
        }
    }

    /// Routes one input event: applies its effect and returns the request,
    /// if any, that it makes of the outside services.
    pub fn handle_event(&mut self, ev: InputEvent) -> (r: Request)
        requires
            old(self).wf(),
        ensures
            final(self).wf(),
            (final(self)@, r@) == step(old(self)@, ev),
    {
        match ev {
            InputEvent::Char(c) => {
                self.type_char(c);
                Request::Nothing
            },
            InputEvent::Backspace => {
                self.backspace();
                Request::Nothing
            },
            InputEvent::Confirm => self.confirm(),
            InputEvent::Cancel => {
                self.cancel();
                Request::Nothing
            },
            InputEvent::HoverNext => {
                self.nav.cycle_hover(HoverDirection::Next);
                Request::Nothing
            },
            InputEvent::HoverPrev => {
                self.nav.cycle_hover(HoverDirection::Prev);
                Request::Nothing
            },
            InputEvent::Activate => {
                self.nav.activate_hovered();
                Request::Nothing
            },
            InputEvent::SelectNext => {
                self.select(true);
                Request::Nothing
            },
            InputEvent::SelectPrev => {
                self.select(false);
                Request::Nothing
            },
        }
    }

    fn type_char(&mut self, c: char)
        requires
            old(self).wf(),
        ensures
            final(self).wf(),
            final(self)@ == after_char(old(self)@, c),
    {
        if self.nav.current().screen == Screen::OrderForm {
            if self.form_state == OrderFormState::Quantity && is_digit_char(c) {
                self.input.push(c);
            }
        } else {
            self.input.push(c);
        }
    }

    fn backspace(&mut self)
        requires
            old(self).wf(),
        ensures
            final(self).wf(),
            final(self)@ == after_backspace(old(self)@),
    {
        let locked = self.nav.current().screen == Screen::OrderForm && self.form_state
            == OrderFormState::Submit;
        if !locked && self.input.len() > 0 {
            self.input.pop();
        }
    }

    fn confirm(&mut self) -> (r: Request)
        requires
            old(self).wf(),
        ensures
            final(self).wf(),
            (final(self)@, r@) == after_confirm(old(self)@),
    {
        if self.nav.current().screen == Screen::OrderForm {
            match self.form_state {
                OrderFormState::Quantity => {
                    let q = parse_quantity(&self.input);
                    if self.draft.is_some() && q.is_some() {
                        let mut d = self.draft.take().unwrap();
                        d.quantity = q;
                        self.draft = Some(d);
                        self.form_state = OrderFormState::Submit;
                        self.input = Vec::new();
                    }
                    Request::Nothing
                },
                OrderFormState::Submit => {
                    if self.in_flight.is_none() && self.draft.is_some() {
                        let t = self.next_ticket;
                        self.in_flight = Some(t);
                        self.next_ticket = if t < u64::MAX {
                            t + 1
                        } else {
                            0
                        };
                        let d = self.draft.as_ref().unwrap().duplicate();
                        Request::SubmitOrder(t, d)
                    } else {
                        Request::Nothing
                    }
                },
            }
        } else if self.input.len() > 0 {
            Request::Search(self.input.clone())
        } else {
            Request::Nothing
        }
    }

    fn cancel(&mut self)
        requires
            old(self).wf(),
        ensures
            final(self).wf(),
            final(self)@ == after_cancel(old(self)@),
    {
        self.leave_order_form();
        self.nav.pop();
    }

    /// Opens the order form for the selected ticker with a fresh draft.
    pub fn enter_order_form(&mut self, action: OrderAction, order_type: OrderType)
        requires
            old(self).wf(),
        ensures
            final(self).wf(),
            final(self)@ == after_enter(old(self)@, action, order_type),
    {
        let symbol = match &self.selected_ticker {
            Some(q) => Some(q.symbol.clone()),
            None => None,
        };
        self.navigate(Screen::OrderForm, Block::OrderForm);
        self.form_state = OrderFormState::Quantity;
        self.draft = Some(DraftOrder::new(action, order_type, symbol));
        self.input = Vec::new();
        self.in_flight = None;
        self.error = None;
    }

    fn navigate(&mut self, screen: Screen, block: Block)
        requires
            old(self).wf(),
            focused_route(screen, block).wf(),
        ensures
            final(self).wf(),
            final(self)@ == navigated(old(self)@, focused_route(screen, block)),
    {
        self.leave_order_form();
        self.nav.push_route(Route { screen, active_block: block, hovered_block: block });
    }

    /// Shows the detail of `quote`.
    pub fn show_ticker(&mut self, quote: Quote)
        requires
            old(self).wf(),
        ensures
            final(self).wf(),
            final(self)@ == (AppView {
                selected_ticker: Some(quote),
                ..navigated(old(self)@, focused_route(Screen::TickerDetail, Block::TickerDetail))
            }),
    {
        self.navigate(Screen::TickerDetail, Block::TickerDetail);
        self.selected_ticker = Some(quote);
    }

    /// Shows the search results.
    pub fn show_search(&mut self)
        requires
            old(self).wf(),
        ensures
            final(self).wf(),
            final(self)@ == navigated(
                old(self)@,
                focused_route(Screen::Search, Block::SearchResults),
            ),
    {
        self.navigate(Screen::Search, Block::SearchResults);
    }

    /// Replaces the search results with a new snapshot.
    pub fn set_search_results(&mut self, items: Vec<String>)
        requires
            old(self).wf(),
        ensures
            final(self).wf(),
            final(self)@ == (AppView {
                search_results: (items@, initial_selection(items@.len())),
                ..old(self)@
            }),
    {
        self.search_results.replace(items);
    }

    /// A failed search leaves the user where they are, with no results.
    pub fn search_failed(&mut self)
        requires
            old(self).wf(),
        ensures
            final(self).wf(),
            final(self)@ == (AppView {
                search_results: (Seq::<String>::empty(), None::<usize>),
                ..old(self)@
            }),
    {
        self.search_results.replace(Vec::new());
    }

    /// Replaces the portfolio tickers with a new snapshot.
    pub fn set_portfolio(&mut self, items: Vec<String>)
        requires
            old(self).wf(),
        ensures
            final(self).wf(),
            final(self)@ == (AppView {
                portfolio: (items@, initial_selection(items@.len())),
                ..old(self)@
            }),
    {
        self.portfolio.replace(items);
    }

    /// Replaces the watch list with a new snapshot.
    pub fn set_watch_list(&mut self, items: Vec<String>)
        requires
            old(self).wf(),
        ensures
            final(self).wf(),
            final(self)@ == (AppView {
                watch_list: (items@, initial_selection(items@.len())),
                ..old(self)@
            }),
    {
        self.watch_list.replace(items);
    }

    /// Replaces the accounts with a new snapshot.
    pub fn set_accounts(&mut self, accounts: Vec<Account>)
        requires
            old(self).wf(),
        ensures
            final(self).wf(),
            final(self)@ == (AppView { accounts: Some(accounts@), ..old(self)@ }),
    {
        self.accounts = Some(accounts);
    }

    /// Without accounts nothing can go on: the accounts become empty and the
    /// error screen is shown.
    pub fn accounts_failed(&mut self)
        requires
            old(self).wf(),
        ensures
            final(self).wf(),
            final(self)@ == (AppView {
                accounts: Some(Seq::<Account>::empty()),
                ..navigated(old(self)@, focused_route(Screen::Error, Block::Home))
            }),
    {
        assert(valid_blocks(Screen::Error)[0] == Block::Home);
        self.navigate(Screen::Error, Block::Home);
        self.accounts = Some(Vec::new());
    }

    /// Takes the order service's answer to submission `ticket`.
    pub fn order_outcome(&mut self, ticket: u64, outcome: SubmitOutcome)
        requires
            old(self).wf(),
        ensures
            final(self).wf(),
            final(self)@ == after_outcome(old(self)@, ticket, outcome),
    {
        if self.in_flight == Some(ticket) {
            match outcome {
                SubmitOutcome::Accepted => {
                    self.reset_order();
                    self.nav.pop();
                },
                SubmitOutcome::Failure(reason) => {
                    self.in_flight = None;
                    self.error = Some(reason);
                },
            }
        }
    }

    /// Number of routes in the history.
    pub fn history_len(&self) -> (n: usize)
        ensures
            n == self@.routes.len(),
    {
        self.nav.len()
    }

    /// Whether `block` holds input focus on the current route.
    pub fn is_active(&self, block: Block) -> (r: bool)
        requires
            self.wf(),
        ensures
            r == (top(self@).active_block == block),
    {
        self.nav.is_active(block)
    }

    /// Whether `block` is the hover candidate on the current route.
    pub fn is_hovered(&self, block: Block) -> (r: bool)
        requires
            self.wf(),
        ensures
            r == (top(self@).hovered_block == block),
    {
        self.nav.is_hovered(block)
    }

    /// The view of the main area for the current route.
    pub fn current_view(&self) -> (r: RouteView)
        requires
            self.wf(),
        ensures
            r == route_view_of(top(self@).screen, self@.selected_ticker is Some),
    {
        route_view(self.nav.current().screen, self.selected_ticker.is_some())
    }

    /// The title of the input box for the current state.
    pub fn input_box_title(&self) -> (r: &'static str)
        requires
            self.wf(),
        ensures
            r@ == input_title_of(top(self@).screen, self@.form_state),
    {
        input_title(self.nav.current().screen, self.form_state)
    }

    /// The step of the order workflow.
    pub fn order_form_state(&self) -> (r: OrderFormState)
        ensures
            r == self@.form_state,
    {
        self.form_state
    }

    /// The draft order, if one is being composed.
    pub fn draft(&self) -> (r: Option<&DraftOrder>)
        ensures
            match r {
                Some(d) => self@.draft == Some(d@),
                None => self@.draft is None,
            },
    {
        self.draft.as_ref()
    }

    /// The text typed so far.
    pub fn input(&self) -> (r: &Vec<char>)
        ensures
            r@ == self@.input,
    {
        &self.input
    }

    /// The ticket of the submission awaiting an answer.
    pub fn in_flight(&self) -> (r: Option<u64>)
        ensures
            r == self@.in_flight,
    {
        self.in_flight
    }

    /// The reason the last submission failed, while it is shown.
    pub fn order_error(&self) -> (r: Option<&String>)
        ensures
            match r {
                Some(e) => self@.error == Some(e@),
                None => self@.error is None,
            },
    {
        self.error.as_ref()
    }

    /// The latest search results and their selection.
    pub fn search_results(&self) -> (r: &SelectableList<String>)
        ensures
            r@ == self@.search_results,
    {
        &self.search_results
    }

    /// The portfolio tickers and their selection.
    pub fn portfolio(&self) -> (r: &SelectableList<String>)
        ensures
            r@ == self@.portfolio,
    {
        &self.portfolio
    }

    /// The watch list and its selection.
    pub fn watch_list(&self) -> (r: &SelectableList<String>)
        ensures
            r@ == self@.watch_list,
    {
        &self.watch_list
    }

    /// The accounts, once they have been loaded.
    pub fn accounts(&self) -> (r: Option<&Vec<Account>>)
        ensures
            match r {
                Some(a) => self@.accounts == Some(a@),
                None => self@.accounts is None,
            },
    {
        self.accounts.as_ref()
    }

    /// The ticker whose detail was last shown.
    pub fn selected_ticker(&self) -> (r: Option<&Quote>)
        ensures
            match r {
                Some(q) => self@.selected_ticker == Some(*q),
                None => self@.selected_ticker is None,
            },
    {
        self.selected_ticker.as_ref()
    }

    fn select(&mut self, down: bool)
        requires
            old(self).wf(),
        ensures
            final(self).wf(),
            final(self)@ == after_select(old(self)@, down),
    {
        match self.nav.current().active_block {
            Block::WatchList => if down {
                self.watch_list.select_next()
            } else {
                self.watch_list.select_prev()
            },
            Block::Portfolio => if down {
                self.portfolio.select_next()
            } else {
                self.portfolio.select_prev()
            },
            Block::SearchResults => if down {
                self.search_results.select_next()
            } else {
                self.search_results.select_prev()
            },
            _ => {},
        }
    }
}

} // verus!
