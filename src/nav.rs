//! The navigation history and the focus state carried by its top route.

use vstd::prelude::*;
use crate::route::{
    Block, HoverDirection, Route, Screen, block_valid_for, cycle_block, cycled_block,
    is_valid_block,
};

verus! {

/// The history after going back once: the last route removed, unless it is
/// the only one.
pub open spec fn popped(s: Seq<Route>) -> Seq<Route> {
    if s.len() > 1 {
        s.drop_last()
    } else {
        s
    }
}

/// The history after going back `k` times.
pub open spec fn popped_times(s: Seq<Route>, k: nat) -> Seq<Route>
    decreases k,
{
    if k == 0 {
        s
    } else {
        popped(popped_times(s, (k - 1) as nat))
    }
}

/// However many times one goes back, the history keeps at least one route,
/// so a current route always exists, and what remains is the start of the
/// original history.
pub proof fn lemma_pops_never_empty(s: Seq<Route>, k: nat)
    requires
        s.len() >= 1,
    ensures
        popped_times(s, k).len() >= 1,
        popped_times(s, k).len() <= s.len(),
        popped_times(s, k) == s.subrange(0, popped_times(s, k).len() as int),
    decreases k,
{
    if k > 0 {
        lemma_pops_never_empty(s, (k - 1) as nat);
        let p = popped_times(s, (k - 1) as nat);
        if p.len() > 1 {
            assert(p.drop_last() =~= s.subrange(0, p.len() - 1));
        }
    } else {
        assert(s =~= s.subrange(0, s.len() as int));
    }
}

/// Never empty, and every route pairs its screen with valid blocks.
pub open spec fn history_wf(s: Seq<Route>) -> bool {
    &&& s.len() >= 1
    &&& forall|i: int| 0 <= i < s.len() ==> (#[trigger] s[i]).wf()
}

/// An ordered history of visited routes; the last one is current.
pub struct NavigationStack {
    routes: Vec<Route>,
}

impl View for NavigationStack {
    type V = Seq<Route>;

    closed spec fn view(&self) -> Seq<Route> {
        self.routes@
    }
}

impl NavigationStack {
    pub open spec fn wf(&self) -> bool {
        history_wf(self@)
    }

    /// The route on top of the history.
    pub open spec fn top(&self) -> Route {
        self@.last()
    }

    /// A history holding the home route alone.
    pub fn new() -> (s: NavigationStack)
        ensures
            s.wf(),
            s@ == seq![Route::home_spec()],
    {
        let s = NavigationStack { routes: vec![Route::home()] };
        assert(s@ =~= seq![Route::home_spec()]);
        s
    }

    /// Number of routes in the history.
    pub fn len(&self) -> (n: usize)
        ensures
            n == self@.len(),
    {
        self.routes.len()
    }

    /// The current route.
    pub fn current(&self) -> (r: &Route)
        requires
            self.wf(),
        ensures
            *r == self.top(),
            r.wf(),
    {
        let n = self.routes.len();
        &self.routes[n - 1]
    }

    /// Navigates to `screen` with the given focus. A block that does not
    /// belong to `screen` sends the history to the home route instead.
    pub fn push(&mut self, screen: Screen, active_block: Block, hovered_block: Block)
        requires
            old(self).wf(),
        ensures
            final(self).wf(),
            final(self)@ == old(self)@.push(
                if block_valid_for(screen, active_block) && block_valid_for(screen, hovered_block) {
                    Route { screen, active_block, hovered_block }
                } else {
                    Route::home_spec()
                },
            ),
    {
        let r = Route::new(screen, active_block, hovered_block);
        self.push_route(r);
    }

    /// Appends a well-formed route.
    pub fn push_route(&mut self, r: Route)
        requires
            old(self).wf(),
            r.wf(),
        ensures
            final(self).wf(),
            final(self)@ == old(self)@.push(r),
    {
        self.routes.push(r);
        assert forall|i: int| 0 <= i < self@.len() implies (#[trigger] self@[i]).wf() by {
            if i < old(self)@.len() {
                assert(self@[i] == old(self)@[i]);
            }
        }
    }

    /// Goes back one screen: removes and returns the top route, unless it is
    /// the only one, in which case the history stays as it is and that route
    /// is returned.
    pub fn pop(&mut self) -> (r: Route)
        requires
            old(self).wf(),
        ensures
            final(self).wf(),
            r == old(self).top(),
            final(self)@ == popped(old(self)@),
    {
        let n = self.routes.len();
        if n > 1 {
            let r = self.routes.pop().unwrap();
            assert forall|i: int| 0 <= i < self@.len() implies (#[trigger] self@[i]).wf() by {
                assert(self@[i] == old(self)@[i]);
            }
            r
        } else {
            self.routes[0]
        }
    }

    /// Replaces the top route, keeping the rest of the history.
    fn set_top(&mut self, r: Route)
        requires
            old(self).wf(),
            r.wf(),
        ensures
            final(self).wf(),
            final(self)@ == old(self)@.update(old(self)@.len() - 1, r),
    {
        let n = self.routes.len();
        self.routes.set(n - 1, r);
        assert forall|i: int| 0 <= i < self@.len() implies (#[trigger] self@[i]).wf() by {
            if i < n - 1 {
                assert(self@[i] == old(self)@[i]);
            }
        }
    }

    /// Moves the hover mark of the current screen to `block`; a block that
    /// the screen does not show leaves the history unchanged.
    pub fn set_hovered(&mut self, block: Block)
        requires
            old(self).wf(),
        ensures
            final(self).wf(),
            final(self)@ == (if block_valid_for(old(self).top().screen, block) {
                old(self)@.update(
                    old(self)@.len() - 1,
                    Route { hovered_block: block, ..old(self).top() },
                )
            } else {
                old(self)@
            }),
    {
        let cur = *self.current();
        if is_valid_block(cur.screen, block) {
            self.set_top(Route { hovered_block: block, ..cur });
        }
    }

    /// Gives input focus on the current screen to `block`; a block that the
    /// screen does not show leaves the history unchanged.
    pub fn set_active(&mut self, block: Block)
        requires
            old(self).wf(),
        ensures
            final(self).wf(),
            final(self)@ == (if block_valid_for(old(self).top().screen, block) {
                old(self)@.update(
                    old(self)@.len() - 1,
                    Route { active_block: block, ..old(self).top() },
                )
            } else {
                old(self)@
            }),
    {
        let cur = *self.current();
        if is_valid_block(cur.screen, block) {
            self.set_top(Route { active_block: block, ..cur });
        }
    }

    /// Whether `block` holds input focus on the current route.
    pub fn is_active(&self, block: Block) -> (r: bool)
        requires
            self.wf(),
        ensures
            r == (self.top().active_block == block),
    {
        self.current().active_block == block
    }

    /// Whether `block` is the hover candidate on the current route.
    pub fn is_hovered(&self, block: Block) -> (r: bool)
        requires
            self.wf(),
        ensures
            r == (self.top().hovered_block == block),
    {
        self.current().hovered_block == block
    }

    /// Moves the hover mark to the neighbouring block of the current screen,
    /// wrapping around; input focus stays where it is.
    pub fn cycle_hover(&mut self, dir: HoverDirection)
        requires
            old(self).wf(),
        ensures
            final(self).wf(),
            final(self)@ == old(self)@.update(
                old(self)@.len() - 1,
                Route {
                    hovered_block: cycled_block(
                        old(self).top().screen,
                        old(self).top().hovered_block,
                        dir,
                    ),
                    ..old(self).top()
                },
            ),
    {
        let cur = *self.current();
        let next = cycle_block(cur.screen, cur.hovered_block, dir);
        self.set_top(Route { hovered_block: next, ..cur });
    }

    /// Gives input focus to the hovered block of the current route.
    pub fn activate_hovered(&mut self)
        requires
            old(self).wf(),
        ensures
            final(self).wf(),
            final(self)@ == old(self)@.update(
                old(self)@.len() - 1,
                Route { active_block: old(self).top().hovered_block, ..old(self).top() },
            ),
    {
        let cur = *self.current();
        self.set_top(Route { active_block: cur.hovered_block, ..cur });
    }
}

} // verus!
