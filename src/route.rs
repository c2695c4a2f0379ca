//! Screens, focusable blocks and navigation routes.

use vstd::prelude::*;

verus! {

/// A top-level view of the dashboard.
#[derive(Clone, Copy, Debug, PartialEq, Eq, Structural)]
pub enum Screen {
    Home,
    Search,
    TickerDetail,
    OrderForm,
    Error,
}

/// A focusable or highlightable region of the dashboard.
#[derive(Clone, Copy, Debug, PartialEq, Eq, Structural)]
pub enum Block {
    Home,
    WatchList,
    Portfolio,
    Input,
    SearchResults,
    TickerDetail,
    OrderForm,
}

/// The main block that a screen shows beside the sidebar and the input box.
pub open spec fn main_block(screen: Screen) -> Block {
    match screen {
        Screen::Home => Block::Home,
        Screen::Search => Block::SearchResults,
        Screen::TickerDetail => Block::TickerDetail,
        Screen::OrderForm => Block::OrderForm,
        Screen::Error => Block::Home,
    }
}

/// The blocks that may be active or hovered while `screen` is shown, in
/// the order in which hovering cycles through them.
pub open spec fn valid_blocks(screen: Screen) -> Seq<Block> {
    match screen {
        Screen::OrderForm => seq![Block::OrderForm, Block::Input],
        Screen::Error => seq![Block::Home],
        _ => seq![main_block(screen), Block::WatchList, Block::Portfolio, Block::Input],
    }
}

/// No block occurs twice among the blocks of a screen.
pub proof fn lemma_valid_blocks_distinct(screen: Screen)
    ensures
        forall|i: int, j: int|
            0 <= i < valid_blocks(screen).len() && 0 <= j < valid_blocks(screen).len()
                && valid_blocks(screen)[i] == valid_blocks(screen)[j] ==> i == j,
{
}

/// Direction in which hovering moves through the blocks of a screen.
#[derive(Clone, Copy, Debug, PartialEq, Eq, Structural)]
pub enum HoverDirection {
    Next,
    Prev,
}

/// The block that hovering reaches from `hovered` on `screen`, wrapping
/// around at either end.
pub open spec fn cycled_block(screen: Screen, hovered: Block, dir: HoverDirection) -> Block {
    let bs = valid_blocks(screen);
    let n = bs.len() as int;
    let i = bs.index_of(hovered);
    match dir {
        HoverDirection::Next => bs[(i + 1) % n],
        HoverDirection::Prev => bs[(i + n - 1) % n],
    }
}

/// Whether `block` may be focused while `screen` is shown.
pub open spec fn block_valid_for(screen: Screen, block: Block) -> bool {
    valid_blocks(screen).contains(block)
}

/// One entry of the navigation history.
#[derive(Clone, Copy, Debug, PartialEq, Eq, Structural)]
pub struct Route {
    pub screen: Screen,
    pub active_block: Block,
    pub hovered_block: Block,
}

impl Route {
    /// Both blocks of the route belong to its screen.
    pub open spec fn wf(self) -> bool {
        block_valid_for(self.screen, self.active_block) && block_valid_for(
            self.screen,
            self.hovered_block,
        )
    }

    /// The base route: the home screen with the home block focused.
    pub open spec fn home_spec() -> Route {
        Route { screen: Screen::Home, active_block: Block::Home, hovered_block: Block::Home }
    }

    /// Builds the base route.
    pub fn home() -> (r: Route)
        ensures
            r == Route::home_spec(),
            r.wf(),
    {
        let r = Route { screen: Screen::Home, active_block: Block::Home, hovered_block: Block::Home };
        assert(valid_blocks(Screen::Home)[0] == Block::Home);
        r
    }

    /// A route to `screen` with the given focus, or the home route where a
    /// block does not belong to `screen`.
    pub fn new(screen: Screen, active_block: Block, hovered_block: Block) -> (r: Route)
        ensures
            r == (if block_valid_for(screen, active_block) && block_valid_for(screen, hovered_block) {
                Route { screen, active_block, hovered_block }
            } else {
                Route::home_spec()
            }),
            r.wf(),
    {
        if is_valid_block(screen, active_block) && is_valid_block(screen, hovered_block) {
            Route { screen, active_block, hovered_block }
        } else {
            Route::home()
        }
    }
}

/// The blocks valid on `screen`, in hover order.
pub fn blocks_of(screen: Screen) -> (r: Vec<Block>)
    ensures
        r@ == valid_blocks(screen),
{
    let r = match screen {
        Screen::OrderForm => vec![Block::OrderForm, Block::Input],
        Screen::Error => vec![Block::Home],
        Screen::Home => vec![Block::Home, Block::WatchList, Block::Portfolio, Block::Input],
        Screen::Search => vec![Block::SearchResults, Block::WatchList, Block::Portfolio, Block::Input],
        Screen::TickerDetail => vec![Block::TickerDetail, Block::WatchList, Block::Portfolio, Block::Input],
    };
    assert(r@ =~= valid_blocks(screen));
    r
}

/// Position of `block` among the blocks of `screen`, if it is one of them.
pub fn block_index(screen: Screen, block: Block) -> (r: Option<usize>)
    ensures
        match r {
            Some(i) => i < valid_blocks(screen).len() && valid_blocks(screen)[i as int] == block,
            None => !block_valid_for(screen, block),
        },
{
    let blocks = blocks_of(screen);
    let mut i: usize = 0;
    while i < blocks.len()
        invariant
            blocks@ == valid_blocks(screen),
            i <= blocks@.len(),
            forall|j: int| 0 <= j < i ==> blocks@[j] != block,
        decreases blocks.len() - i,
    {
        if blocks[i] == block {
            return Some(i);
        }
        i = i + 1;
    }
    None
}

/// The block that hovering reaches from `hovered` in direction `dir`.
pub fn cycle_block(screen: Screen, hovered: Block, dir: HoverDirection) -> (r: Block)
    requires
        block_valid_for(screen, hovered),
    ensures
        r == cycled_block(screen, hovered, dir),
        block_valid_for(screen, r),
{
    let blocks = blocks_of(screen);
    let n = blocks.len();
    let i = match block_index(screen, hovered) {
        Some(i) => i,
        None => 0,
    };
    proof {
        lemma_valid_blocks_distinct(screen);
        assert(valid_blocks(screen)[i as int] == hovered);
        assert(valid_blocks(screen).index_of(hovered) == i);
    }
    let k = match dir {
        HoverDirection::Next => if i + 1 == n { 0 } else { i + 1 },
        HoverDirection::Prev => if i == 0 { n - 1 } else { i - 1 },
    };
    proof {
        let ni = n as int;
        let ii = i as int;
        let ki = k as int;
        assert(0 <= ii < ni);
        match dir {
            HoverDirection::Next => {
                assert(ki == (ii + 1) % ni) by (nonlinear_arith)
                    requires
                        0 <= ii < ni,
                        ii + 1 == ni ==> ki == 0,
                        ii + 1 != ni ==> ki == ii + 1,
                ;
            },
            HoverDirection::Prev => {
                assert(ki == (ii + ni - 1) % ni) by (nonlinear_arith)
                    requires
                        0 <= ii < ni,
                        ii == 0 ==> ki == ni - 1,
                        ii != 0 ==> ki == ii - 1,
                ;
            },
        }
    }
    blocks[k]
}

/// Whether `block` may be focused while `screen` is shown.
pub fn is_valid_block(screen: Screen, block: Block) -> (r: bool)
    ensures
        r == block_valid_for(screen, block),
{
    block_index(screen, block).is_some()
}

} // verus!
