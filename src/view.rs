//! What the renderer shows for a given state: the view of the main area,
//! the title of the input box and the highlighting of a block.

use vstd::prelude::*;
use crate::order::OrderFormState;
use crate::route::{Block, Route, Screen};

verus! {

/// The content of the main area.
#[derive(Clone, Copy, Debug, PartialEq, Eq, Structural)]
pub enum RouteView {
    Error,
    OrderForm,
    TickerDetail,
    Search,
    Home,
}

/// The view of the main area for `screen`: the ticker detail needs a
/// selected ticker, and anything that cannot be shown falls back to home.
pub open spec fn route_view_of(screen: Screen, has_ticker: bool) -> RouteView {
    match screen {
        Screen::Error => RouteView::Error,
        Screen::OrderForm => RouteView::OrderForm,
        Screen::TickerDetail => if has_ticker {
            RouteView::TickerDetail
        } else {
            RouteView::Home
        },
        Screen::Search => RouteView::Search,
        Screen::Home => RouteView::Home,
    }
}

/// Picks the view of the main area.
pub fn route_view(screen: Screen, has_ticker: bool) -> (r: RouteView)
    ensures
        r == route_view_of(screen, has_ticker),
{
    match screen {
        Screen::Error => RouteView::Error,
        Screen::OrderForm => RouteView::OrderForm,
        Screen::TickerDetail => if has_ticker {
            RouteView::TickerDetail
        } else {
            RouteView::Home
        },
        Screen::Search => RouteView::Search,
        Screen::Home => RouteView::Home,
    }
}

/// The title of the input box: what the buffer currently means.
pub open spec fn input_title_of(screen: Screen, state: OrderFormState) -> Seq<char> {
    match screen {
        Screen::OrderForm => match state {
            OrderFormState::Quantity => "No. of shares"@,
            OrderFormState::Submit => "Preview Order"@,
        },
        _ => "Search"@,
    }
}

/// Picks the title of the input box.
pub fn input_title(screen: Screen, state: OrderFormState) -> (r: &'static str)
    ensures
        r@ == input_title_of(screen, state),
{
    match screen {
        Screen::OrderForm => match state {
            OrderFormState::Quantity => "No. of shares",
            OrderFormState::Submit => "Preview Order",
        },
        _ => "Search",
    }
}

/// Whether `block` is active and whether it is hovered on `route`.
pub fn highlight_state(route: &Route, block: Block) -> (r: (bool, bool))
    ensures
        r == (route.active_block == block, route.hovered_block == block),
{
    (route.active_block == block, route.hovered_block == block)
}

/// One row of a table: the symbol it belongs to and its cells.
pub struct TableItem {
    id: String,
    data: Vec<String>,
}

impl TableItem {
    /// A row for symbol `id` with the given cells.
    pub fn new(id: String, data: Vec<String>) -> (t: TableItem)
        ensures
            t.id() == id@,
            t.data() == data@,
    {
        TableItem { id, data }
    }

    /// The symbol of the row.
    pub closed spec fn id(&self) -> Seq<char> {
        self.id@
    }

    /// The cells of the row.
    pub closed spec fn data(&self) -> Seq<String> {
        self.data@
    }

    /// The symbol of the row.
    pub fn symbol(&self) -> (r: &String)
        ensures
            r@ == self.id(),
    {
        &self.id
    }

    /// The cells of the row.
    pub fn cells(&self) -> (r: &Vec<String>)
        ensures
            r@ == self.data(),
    {
        &self.data
    }
}

} // verus!
