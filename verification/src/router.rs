//! A stack-of-stacks page router. A page owns an ordered sequence of units
//! (front = drawn first); the router owns an ordered sequence of pages
//! (front = active). Each tick draws the front page's units front to back,
//! and the first unit whose content yields a non-`Nothing` action decides
//! the single structural mutation applied this tick.

use vstd::prelude::*;

use std::collections::VecDeque;

verus! {

/// The closed set of outcomes a unit's content draw may request for a tick.
pub enum PageAction<U> {
    /// No structural change.
    Nothing,
    /// Insert a new page at the front; it takes the next id.
    AddPage(Page<U>),
    /// Remove the page with the given id, or the front page if none given.
    RemovePage(Option<usize>),
    /// Swap the page with the given id for a new page, which takes over the
    /// displaced page's id.
    ModifyPage(usize, Page<U>),
    /// Show a transient overlay; the flag says whether the rest of the UI
    /// stays interactive meanwhile. Advisory state for the host.
    OpenWindow(bool),
    /// Dismiss the overlay and re-enable the UI.
    CloseWindow,
}

impl<U> PageAction<U> {
    /// Two actions are alike when they request the same kind of mutation,
    /// whatever their payloads.
    pub open spec fn same_kind(&self, other: &Self) -> bool {
        match (self, other) {
            (PageAction::Nothing, PageAction::Nothing) => true,
            (PageAction::AddPage(_), PageAction::AddPage(_)) => true,
            (PageAction::RemovePage(_), PageAction::RemovePage(_)) => true,
            (PageAction::ModifyPage(_, _), PageAction::ModifyPage(_, _)) => true,
            (PageAction::OpenWindow(_), PageAction::OpenWindow(_)) => true,
            (PageAction::CloseWindow, PageAction::CloseWindow) => true,
            _ => false,
        }
    }
}

impl<U> PartialEq for PageAction<U> {
    /// Actions compare by the kind of mutation they request alone.
    fn eq(&self, other: &Self) -> (r: bool) {
        match (self, other) {
            (PageAction::Nothing, PageAction::Nothing) => true,
            (PageAction::AddPage(_), PageAction::AddPage(_)) => true,
            (PageAction::RemovePage(_), PageAction::RemovePage(_)) => true,
            (PageAction::ModifyPage(_, _), PageAction::ModifyPage(_, _)) => true,
            (PageAction::OpenWindow(_), PageAction::OpenWindow(_)) => true,
            (PageAction::CloseWindow, PageAction::CloseWindow) => true,
            _ => false,
        }
    }
}

impl<U> vstd::std_specs::cmp::PartialEqSpecImpl for PageAction<U> {
    open spec fn obeys_eq_spec() -> bool {
        true
    }

    open spec fn eq_spec(&self, other: &Self) -> bool {
        self.same_kind(other)
    }
}

/// A composable piece of UI: a title bar, a status bar, content that may
/// request one router mutation per tick, and an identity (its own id and
/// the id of the owning page, a back-reference used only for lookup).
/// An implementer also describes each of its steps as a function of the
/// unit's state — what each drawing step leaves behind and which action
/// the content draw yields — so the router's dispatch contracts can say
/// which action a draw pass produces and what state it leaves. Drawing
/// may change a unit's inner state but never its identity.
pub trait BasePage: Sized {
    /// The unit's id within its page.
    spec fn spec_id(&self) -> usize;

    /// The id of the owning page.
    spec fn spec_pid(&self) -> usize;

    /// This unit with its id replaced and nothing else changed.
    spec fn with_id(self, id: usize) -> Self;

    /// This unit with its parent id replaced and nothing else changed.
    spec fn with_pid(self, pid: usize) -> Self;

    /// The unit's state after drawing the title bar.
    spec fn title_bar_next(&self) -> Self;

    /// The unit's state after drawing the status bar.
    spec fn status_bar_next(&self) -> Self;

    /// The unit's state after a content draw.
    spec fn content_next(&self) -> Self;

    /// The action a content draw yields from this state.
    spec fn content_action(&self) -> PageAction<Self>;

    /// Sets the unit's id, used to recognise the unit within its page.
    fn set_id(&mut self, id: usize)
        ensures
            *final(self) == old(self).with_id(id),
            final(self).spec_id() == id,
            final(self).spec_pid() == old(self).spec_pid(),
    ;

    /// The unit's id.
    fn get_id(&self) -> (r: usize)
        ensures
            r == self.spec_id(),
    ;

    /// Links the unit to its owning page.
    fn set_pid(&mut self, pid: usize)
        ensures
            *final(self) == old(self).with_pid(pid),
            final(self).spec_pid() == pid,
            final(self).spec_id() == old(self).spec_id(),
    ;

    /// The id of the owning page.
    fn get_pid(&self) -> (r: usize)
        ensures
            r == self.spec_pid(),
    ;

    /// Draws the title bar.
    fn title_bar(&mut self)
        ensures
            *final(self) == old(self).title_bar_next(),
            final(self).spec_id() == old(self).spec_id(),
            final(self).spec_pid() == old(self).spec_pid(),
    ;

    /// Draws the status bar.
    fn status_bar(&mut self)
        ensures
            *final(self) == old(self).status_bar_next(),
            final(self).spec_id() == old(self).spec_id(),
            final(self).spec_pid() == old(self).spec_pid(),
    ;

    /// Draws the content and yields the unit's action for this tick.
    fn content(&mut self) -> (r: PageAction<Self>)
        ensures
            *final(self) == old(self).content_next(),
            r == old(self).content_action(),
            final(self).spec_id() == old(self).spec_id(),
            final(self).spec_pid() == old(self).spec_pid(),
    ;

    /// Refreshes the unit's data between ticks.
    fn update(&mut self)
        ensures
            final(self).spec_id() == old(self).spec_id(),
            final(self).spec_pid() == old(self).spec_pid(),
    {
    }

    /// One draw pass: title bar, status bar, then content, each drawn
    /// once in that order; the content's action is the unit's action for
    /// this tick.
    fn draw(&mut self) -> (r: PageAction<Self>)
        ensures
            *final(self) == old(self).title_bar_next().status_bar_next().content_next(),
            r == old(self).title_bar_next().status_bar_next().content_action(),
            final(self).spec_id() == old(self).spec_id(),
            final(self).spec_pid() == old(self).spec_pid(),
    {
        self.title_bar();
        self.status_bar();
        self.content()
    }
}

/// The action one full draw pass of a unit yields: the content's action
/// once the title and status bars have drawn.
pub open spec fn pass_action<U: BasePage>(u: U) -> PageAction<U> {
    u.title_bar_next().status_bar_next().content_action()
}

/// A unit's state after one full draw pass.
pub open spec fn pass_next<U: BasePage>(u: U) -> U {
    u.title_bar_next().status_bar_next().content_next()
}

/// The position of the first unit, front to back, whose draw pass yields
/// a structural action.
pub open spec fn first_acting<U: BasePage>(units: Seq<U>) -> Option<int>
    decreases units.len(),
{
    if units.len() == 0 {
        None
    } else if !(pass_action(units.first()) is Nothing) {
        Some(0)
    } else {
        match first_acting(units.drop_first()) {
            Some(i) => Some(i + 1),
            None => None,
        }
    }
}

/// Whether the unit at a position is drawn this pass: every unit up to
/// and including the first acting one, or all of them when none acts.
pub open spec fn drawn<U: BasePage>(units: Seq<U>, j: int) -> bool {
    match first_acting(units) {
        Some(i) => j <= i,
        None => true,
    }
}

/// A page's units after one draw pass: the drawn units move to their
/// post-draw state, the units after the first acting one are untouched.
pub open spec fn drawn_units<U: BasePage>(units: Seq<U>) -> Seq<U> {
    Seq::new(
        units.len(),
        |j: int| if drawn(units, j) {
            pass_next(units[j])
        } else {
            units[j]
        },
    )
}

/// The action one draw pass of a page yields: the first structural
/// result of its units, front to back, if any unit yields one.
pub open spec fn units_action<U: BasePage>(units: Seq<U>) -> Option<PageAction<U>> {
    match first_acting(units) {
        Some(i) => Some(pass_action(units[i])),
        None => None,
    }
}

/// The action a tick honors for these units: their first structural
/// result, or the no-op when every unit is quiescent.
pub open spec fn honored_action<U: BasePage>(units: Seq<U>) -> PageAction<U> {
    match units_action(units) {
        Some(a) => a,
        None => PageAction::Nothing,
    }
}

/// A scan that stopped at the first acting unit agrees with
/// `first_acting`.
proof fn lemma_first_acting_at<U: BasePage>(units: Seq<U>, i: int)
    requires
        0 <= i < units.len(),
        !(pass_action(units[i]) is Nothing),
        forall|p: int| 0 <= p < i ==> pass_action(units[p]) is Nothing,
    ensures
        first_acting(units) == Some(i),
    decreases i,
{
    if i > 0 {
        assert(forall|p: int|
            0 <= p < units.drop_first().len() ==> units.drop_first()[p] == units[p + 1]);
        lemma_first_acting_at(units.drop_first(), i - 1);
    }
}

/// A scan that found no acting unit agrees with `first_acting`.
proof fn lemma_first_acting_none<U: BasePage>(units: Seq<U>)
    requires
        forall|p: int| 0 <= p < units.len() ==> pass_action(units[p]) is Nothing,
    ensures
        first_acting(units) is None,
    decreases units.len(),
{
    if units.len() > 0 {
        assert(forall|p: int|
            0 <= p < units.drop_first().len() ==> units.drop_first()[p] == units[p + 1]);
        lemma_first_acting_none(units.drop_first());
    }
}

/// A page: the addressable unit of navigation, owning an ordered sequence
/// of units (front = most recently added = drawn first).
pub struct Page<U> {
    id: usize,
    pid: usize,
    base_pages: VecDeque<U>,
}

impl<U> Page<U> {
    /// The page's id within the router.
    pub closed spec fn spec_id(&self) -> usize {
        self.id
    }

    /// The id of the parent page, a non-owning back-reference.
    pub closed spec fn spec_pid(&self) -> usize {
        self.pid
    }

    /// The units, front first.
    pub closed spec fn units(&self) -> Seq<U> {
        self.base_pages@
    }

    /// The page's id.
    pub fn get_id(&self) -> (r: usize)
        ensures
            r == self.spec_id(),
    {
        self.id
    }

    /// The id of the parent page.
    pub fn get_pid(&self) -> (r: usize)
        ensures
            r == self.spec_pid(),
    {
        self.pid
    }

    /// Sets the page's id; the router assigns one at insertion.
    pub fn set_id(&mut self, id: usize)
        ensures
            final(self).spec_id() == id,
            final(self).spec_pid() == old(self).spec_pid(),
            final(self).units() == old(self).units(),
    {
        self.id = id;
    }

    /// Links the page to a parent page.
    pub fn set_pid(&mut self, pid: usize)
        ensures
            final(self).spec_pid() == pid,
            final(self).spec_id() == old(self).spec_id(),
            final(self).units() == old(self).units(),
    {
        self.pid = pid;
    }
}

impl<U> Default for Page<U> {
    /// An empty page with id and parent id zero.
    fn default() -> (r: Self)
        ensures
            r.spec_id() == 0,
            r.spec_pid() == 0,
            r.units() == Seq::<U>::empty(),
    {
        Page { id: 0, pid: 0, base_pages: VecDeque::new() }
    }
}

impl<U: BasePage> Page<U> {
    /// Adds a unit at the front: the passed unit itself, linked to this
    /// page and holding the next unit id, the current unit count, but
    /// otherwise unchanged. It is drawn first from the next pass on.
    pub fn add(&mut self, base_page: U)
        ensures
            final(self).spec_id() == old(self).spec_id(),
            final(self).spec_pid() == old(self).spec_pid(),
            final(self).units().len() == old(self).units().len() + 1,
            final(self).units().skip(1) == old(self).units(),
            final(self).units()[0] == base_page.with_pid(old(self).spec_id()).with_id(
                old(self).units().len() as usize,
            ),
            final(self).units()[0].spec_id() == old(self).units().len(),
            final(self).units()[0].spec_pid() == old(self).spec_id(),
    {
        let mut bp = base_page;
        bp.set_pid(self.id);
        bp.set_id(self.base_pages.len());
        self.base_pages.push_front(bp);
        proof {
            assert(self.base_pages@.skip(1) =~= old(self).base_pages@);
        }
    }

    /// Removes and returns the unit at position `id`, or the front unit
    /// when no id is given; an out-of-range position removes nothing.
    pub fn remove(&mut self, id: Option<usize>) -> (r: Option<U>)
        ensures
            final(self).spec_id() == old(self).spec_id(),
            final(self).spec_pid() == old(self).spec_pid(),
            match id {
                Some(i) => if i < old(self).units().len() {
                    r == Some(old(self).units()[i as int]) && final(self).units() == old(self).units().remove(i as int)
                } else {
                    r is None && final(self).units() == old(self).units()
                },
                None => if old(self).units().len() > 0 {
                    r == Some(old(self).units()[0]) && final(self).units() == old(self).units().remove(0)
                } else {
                    r is None && final(self).units() == old(self).units()
                },
            },
    {
        let r = match id {
            Some(i) => self.base_pages.remove(i),
            None => self.base_pages.pop_front(),
        };
        proof {
            if id is None && old(self).base_pages@.len() > 0 {
                assert(self.base_pages@ =~= old(self).base_pages@.remove(0));
            }
        }
        r
    }

    /// One tick's draw pass: units are drawn front to back, each drawn
    /// unit moving to its post-draw state, and the first structural
    /// action ends the pass and becomes the page's action; the units
    /// after it are not drawn this tick. Drawing never changes the
    /// identity of the page or of any unit.
    #[verifier::loop_isolation(false)]
    pub fn draw(&mut self) -> (r: Option<PageAction<U>>)
        ensures
            final(self).spec_id() == old(self).spec_id(),
            final(self).spec_pid() == old(self).spec_pid(),
            final(self).units().len() == old(self).units().len(),
            forall|j: int|
                0 <= j < old(self).units().len() ==> #[trigger] final(self).units()[j].spec_id()
                    == old(self).units()[j].spec_id() && final(self).units()[j].spec_pid() == old(
                    self,
                ).units()[j].spec_pid(),
            r == units_action(old(self).units()),
            final(self).units() == drawn_units(old(self).units()),
            old(self).units().len() == 0 ==> r is None,
            r matches Some(a) ==> !(a is Nothing),
    {
        let ghost orig = *self;
        let n = self.base_pages.len();
        let mut i: usize = 0;
        while i < n
            invariant
                i <= n,
                n == self.base_pages@.len(),
                self.id == orig.id,
                self.pid == orig.pid,
                self.base_pages@.len() == orig.base_pages@.len(),
                forall|j: int|
                    0 <= j < n ==> #[trigger] self.base_pages@[j].spec_id()
                        == orig.base_pages@[j].spec_id() && self.base_pages@[j].spec_pid()
                        == orig.base_pages@[j].spec_pid(),
                forall|j: int|
                    0 <= j < i ==> #[trigger] self.base_pages@[j] == pass_next(
                        orig.base_pages@[j],
                    ),
                forall|j: int| 0 <= j < i ==> #[trigger] pass_action(orig.base_pages@[j]) is Nothing,
                forall|j: int| i <= j < n ==> self.base_pages@[j] == orig.base_pages@[j],
            decreases n - i,
        {
            let ghost pre = self.base_pages@;
            let mut unit = self.base_pages.remove(i).unwrap();
            let action = unit.draw();
            let ghost gunit = unit;
            self.base_pages.insert(i, unit);
            proof {
                assert(self.base_pages@ =~= pre.update(i as int, gunit));
            }
            let keep_going = matches!(&action, PageAction::Nothing);
            if !keep_going {
                proof {
                    lemma_first_acting_at(orig.base_pages@, i as int);
                    assert(self.base_pages@ =~= drawn_units(orig.base_pages@));
                }
                return Some(action);
            }
            i += 1;
        }
        proof {
            lemma_first_acting_none(orig.base_pages@);
            assert(self.base_pages@ =~= drawn_units(orig.base_pages@));
        }
        None
    }
}

/// The first position, front to back, of a page with the given id.
pub open spec fn find_by_id<U>(s: Seq<Page<U>>, id: usize) -> Option<int>
    decreases s.len(),
{
    if s.len() == 0 {
        None
    } else if s.first().spec_id() == id {
        Some(0)
    } else {
        match find_by_id(s.drop_first(), id) {
            Some(i) => Some(i + 1),
            None => None,
        }
    }
}

/// A scan that stopped at the first match agrees with `find_by_id`.
proof fn lemma_find_by_id_at<U>(s: Seq<Page<U>>, id: usize, j: int)
    requires
        0 <= j < s.len(),
        s[j].spec_id() == id,
        forall|p: int| 0 <= p < j ==> s[p].spec_id() != id,
    ensures
        find_by_id(s, id) == Some(j),
    decreases j,
{
    if j == 0 {
    } else {
        assert(forall|p: int|
            0 <= p < j - 1 ==> s.drop_first()[p].spec_id() == s[p + 1].spec_id());
        lemma_find_by_id_at(s.drop_first(), id, j - 1);
    }
}

/// A scan that matched nowhere agrees with `find_by_id`.
proof fn lemma_find_by_id_none<U>(s: Seq<Page<U>>, id: usize)
    requires
        forall|p: int| 0 <= p < s.len() ==> s[p].spec_id() != id,
    ensures
        find_by_id(s, id) is None,
    decreases s.len(),
{
    if s.len() > 0 {
        assert(forall|p: int|
            0 <= p < s.drop_first().len() ==> s.drop_first()[p].spec_id() == s[p + 1].spec_id());
        lemma_find_by_id_none(s.drop_first(), id);
    }
}

/// The router-state transition a single action causes: how the pages and
/// the UI flag after the action (`post`, `post_ui`) and the page handed
/// back (`r`) relate to the state before it (`pre`, `pre_ui`). This is
/// `apply_action`'s contract under a name, so that `update` can state a
/// tick as one front-page draw pass followed by exactly one action's
/// effect.
pub open spec fn action_effect<U: BasePage>(
    pre: Seq<Page<U>>,
    pre_ui: bool,
    a: PageAction<U>,
    post: Seq<Page<U>>,
    post_ui: bool,
    r: Option<Page<U>>,
) -> bool {
    match a {
        PageAction::Nothing => r is None && post == pre && post_ui == pre_ui,
        PageAction::AddPage(page) => {
            &&& r is None
            &&& post_ui == pre_ui
            &&& post.len() == pre.len() + 1
            &&& post.skip(1) == pre
            &&& post[0].spec_id() == pre.len()
            &&& post[0].spec_pid() == page.spec_pid()
            &&& post[0].units() == page.units()
        },
        PageAction::RemovePage(id) => {
            &&& post_ui == pre_ui
            &&& match id {
                Some(i) => match find_by_id(pre, i) {
                    Some(j) => 0 <= j < pre.len() && pre[j].spec_id() == i && r == Some(pre[j])
                        && post == pre.remove(j),
                    None => r is None && post == pre,
                },
                None => if pre.len() > 0 {
                    r == Some(pre[0]) && post == pre.remove(0)
                } else {
                    r is None && post == pre
                },
            }
        },
        PageAction::ModifyPage(id, new_page) => {
            &&& post_ui == pre_ui
            &&& match find_by_id(pre, id) {
                Some(j) => {
                    &&& 0 <= j < pre.len()
                    &&& pre[j].spec_id() == id
                    &&& r == Some(pre[j])
                    &&& post.len() == pre.len()
                    &&& forall|k: int| 0 <= k < pre.len() && k != j ==> post[k] == pre[k]
                    &&& post[j].spec_id() == id
                    &&& post[j].spec_pid() == new_page.spec_pid()
                    &&& post[j].units() == new_page.units()
                },
                None => r is None && post == pre,
            }
        },
        PageAction::OpenWindow(ui_enabled) => r is None && post == pre && post_ui == ui_enabled,
        PageAction::CloseWindow => r is None && post == pre && post_ui,
    }
}

/// The ordered pages of the router, front = active.
pub struct Pages<U>(VecDeque<Page<U>>);

impl<U> Pages<U> {
    /// The pages, front first.
    pub closed spec fn pages(&self) -> Seq<Page<U>> {
        self.0@
    }

    /// The number of pages.
    pub fn len(&self) -> (r: usize)
        ensures
            r == self.pages().len(),
    {
        self.0.len()
    }

    /// The page at a position, front first.
    pub fn get(&self, index: usize) -> (r: Option<&Page<U>>)
        ensures
            match r {
                Some(p) => index < self.pages().len() && *p == self.pages()[index as int],
                None => index >= self.pages().len(),
            },
    {
        if index < self.0.len() {
            Some(&self.0[index])
        } else {
            None
        }
    }

    /// The position of the first page, front to back, whose id is `id`.
    fn position_of(&self, id: usize) -> (r: Option<usize>)
        ensures
            match r {
                Some(i) => find_by_id(self.pages(), id) == Some(i as int) && i < self.pages().len()
                    && self.pages()[i as int].spec_id() == id,
                None => find_by_id(self.pages(), id) is None,
            },
    {
        let n = self.0.len();
        let mut i: usize = 0;
        while i < n
            invariant
                i <= n,
                n == self.0@.len(),
                forall|p: int| 0 <= p < i ==> self.0@[p].spec_id() != id,
            decreases n - i,
        {
            if self.0[i].get_id() == id {
                proof {
                    lemma_find_by_id_at(self.0@, id, i as int);
                }
                return Some(i);
            }
            i += 1;
        }
        proof {
            lemma_find_by_id_none(self.0@, id);
        }
        None
    }
}

impl<U> Default for Pages<U> {
    /// An empty page list.
    fn default() -> (r: Self)
        ensures
            r.pages() == Seq::<Page<U>>::empty(),
    {
        Pages(VecDeque::new())
    }
}

impl<U> Pages<U> {
    /// Adds a page at the front of the display list; it takes the next
    /// page id, the current page count, and is the active page from the
    /// next tick on.
    pub fn add(&mut self, page: Page<U>)
        ensures
            final(self).pages().len() == old(self).pages().len() + 1,
            final(self).pages().skip(1) == old(self).pages(),
            final(self).pages()[0].spec_id() == old(self).pages().len(),
            final(self).pages()[0].spec_pid() == page.spec_pid(),
            final(self).pages()[0].units() == page.units(),
    {
        let mut p = page;
        p.set_id(self.0.len());
        self.0.push_front(p);
        proof {
            assert(self.0@.skip(1) =~= old(self).0@);
        }
    }

    /// Swaps the first page whose id is `id` for `new_page`, which takes
    /// over that id; the displaced page is returned unchanged, allowing
    /// restoration. When no page has the id, nothing is modified.
    pub fn modify(&mut self, id: usize, new_page: Page<U>) -> (r: Option<Page<U>>)
        ensures
            match find_by_id(old(self).pages(), id) {
                Some(j) => {
                    &&& 0 <= j < old(self).pages().len()
                    &&& old(self).pages()[j].spec_id() == id
                    &&& r == Some(old(self).pages()[j])
                    &&& final(self).pages().len() == old(self).pages().len()
                    &&& forall|k: int|
                        0 <= k < old(self).pages().len() && k != j ==> final(self).pages()[k]
                            == old(self).pages()[k]
                    &&& final(self).pages()[j].spec_id() == id
                    &&& final(self).pages()[j].spec_pid() == new_page.spec_pid()
                    &&& final(self).pages()[j].units() == new_page.units()
                },
                None => r is None && final(self).pages() == old(self).pages(),
            },
    {
        match self.position_of(id) {
            None => None,
            Some(i) => {
                let displaced = self.0.remove(i).unwrap();
                let mut p = new_page;
                p.set_id(displaced.get_id());
                let ghost pg = p;
                self.0.insert(i, p);
                proof {
                    assert(self.0@ =~= old(self).0@.update(i as int, pg));
                }
                Some(displaced)
            },
        }
    }

    /// Removes and returns the first page whose id is `id`, or the front
    /// page when no id is given; an unknown id removes nothing.
    pub fn remove(&mut self, id: Option<usize>) -> (r: Option<Page<U>>)
        ensures
            match id {
                Some(i) => match find_by_id(old(self).pages(), i) {
                    Some(j) => 0 <= j < old(self).pages().len() && old(self).pages()[j].spec_id()
                        == i && r == Some(old(self).pages()[j]) && final(self).pages() == old(
                        self,
                    ).pages().remove(j),
                    None => r is None && final(self).pages() == old(self).pages(),
                },
                None => if old(self).pages().len() > 0 {
                    r == Some(old(self).pages()[0]) && final(self).pages() == old(self).pages().remove(0)
                } else {
                    r is None && final(self).pages() == old(self).pages()
                },
            },
    {
        let r = match id {
            Some(i) => match self.position_of(i) {
                Some(pos) => self.0.remove(pos),
                None => None,
            },
            None => self.0.pop_front(),
        };
        proof {
            if id is None && old(self).0@.len() > 0 {
                assert(self.0@ =~= old(self).0@.remove(0));
            }
        }
        r
    }
}

impl<U: BasePage> Pages<U> {
    /// Draws the front page, if any, and yields the action it requests.
    /// Page and unit identities are untouched by the draw pass.
    fn draw_front(&mut self) -> (r: Option<PageAction<U>>)
        ensures
            final(self).pages().len() == old(self).pages().len(),
            final(self).pages().skip(1) == old(self).pages().skip(1),
            r matches Some(a) ==> !(a is Nothing),
            old(self).pages().len() == 0 ==> r is None && final(self).pages() == old(self).pages(),
            old(self).pages().len() > 0 ==> final(self).pages()[0].spec_id() == old(self).pages()[0].spec_id() && final(self).pages()[0].spec_pid() == old(self).pages()[0].spec_pid(),
            old(self).pages().len() > 0 ==> r == units_action(old(self).pages()[0].units())
                && final(self).pages()[0].units() == drawn_units(old(self).pages()[0].units()),
    {
        let ghost pre = self.0@;
        match self.0.pop_front() {
            None => None,
            Some(mut page) => {
                let action = page.draw();
                self.0.push_front(page);
                proof {
                    assert(self.0@ =~= pre.update(0, self.0@[0]));
                    assert(self.0@.skip(1) =~= pre.skip(1));
                }
                action
            },
        }
    }
}

/// The router: the ordered pages and the advisory flag saying whether the
/// background UI stays interactive while an overlay window is open.
pub struct MainWindow<U> {
    pages: Pages<U>,
    ui_enabled: bool,
}

impl<U: BasePage> MainWindow<U> {
    /// The pages, front = active.
    pub closed spec fn spec_pages(&self) -> Seq<Page<U>> {
        self.pages.pages()
    }

    /// Whether the rest of the UI stays interactive; advisory state read
    /// by the host render loop, not enforced by the router.
    pub closed spec fn spec_ui_enabled(&self) -> bool {
        self.ui_enabled
    }

    /// An empty router: a valid steady state that draws nothing.
    pub fn new() -> (r: Self)
        ensures
            r.spec_pages() == Seq::<Page<U>>::empty(),
            r.spec_ui_enabled(),
    {
        MainWindow { pages: Pages::default(), ui_enabled: true }
    }

    /// Whether the rest of the UI stays interactive.
    pub fn ui_enabled(&self) -> (r: bool)
        ensures
            r == self.spec_ui_enabled(),
    {
        self.ui_enabled
    }

    /// The number of pages.
    pub fn page_count(&self) -> (r: usize)
        ensures
            r == self.spec_pages().len(),
    {
        self.pages.len()
    }

    /// The page at a position, front first.
    pub fn page(&self, index: usize) -> (r: Option<&Page<U>>)
        ensures
            match r {
                Some(p) => index < self.spec_pages().len() && *p == self.spec_pages()[index as int],
                None => index >= self.spec_pages().len(),
            },
    {
        self.pages.get(index)
    }

    /// Adds a page at the front; it takes the next id and is drawn from
    /// the next tick on.
    pub fn add_page(&mut self, page: Page<U>)
        ensures
            final(self).spec_ui_enabled() == old(self).spec_ui_enabled(),
            final(self).spec_pages().len() == old(self).spec_pages().len() + 1,
            final(self).spec_pages().skip(1) == old(self).spec_pages(),
            final(self).spec_pages()[0].spec_id() == old(self).spec_pages().len(),
            final(self).spec_pages()[0].spec_pid() == page.spec_pid(),
            final(self).spec_pages()[0].units() == page.units(),
    {
        self.pages.add(page);
    }

    /// Removes the first page whose id is `id`, or the front page when no
    /// id is given; an unknown id removes nothing.
    pub fn remove_page(&mut self, id: Option<usize>)
        ensures
            final(self).spec_ui_enabled() == old(self).spec_ui_enabled(),
            match id {
                Some(i) => match find_by_id(old(self).spec_pages(), i) {
                    Some(j) => 0 <= j < old(self).spec_pages().len() && old(
                        self,
                    ).spec_pages()[j].spec_id() == i && final(self).spec_pages() == old(
                        self,
                    ).spec_pages().remove(j),
                    None => final(self).spec_pages() == old(self).spec_pages(),
                },
                None => if old(self).spec_pages().len() > 0 {
                    final(self).spec_pages() == old(self).spec_pages().remove(0)
                } else {
                    final(self).spec_pages() == old(self).spec_pages()
                },
            },
    {
        let _ = self.pages.remove(id);
    }

    /// Swaps the first page whose id is `id` for `new_page`, which takes
    /// over that id; the displaced page is returned unchanged. When no
    /// page has the id, nothing is modified and nothing is returned.
    pub fn modify_page(&mut self, id: usize, new_page: Page<U>) -> (r: Option<Page<U>>)
        ensures
            final(self).spec_ui_enabled() == old(self).spec_ui_enabled(),
            match find_by_id(old(self).spec_pages(), id) {
                Some(j) => {
                    &&& 0 <= j < old(self).spec_pages().len()
                    &&& old(self).spec_pages()[j].spec_id() == id
                    &&& r == Some(old(self).spec_pages()[j])
                    &&& final(self).spec_pages().len() == old(self).spec_pages().len()
                    &&& forall|k: int|
                        0 <= k < old(self).spec_pages().len() && k != j ==> final(self).spec_pages()[k] == old(self).spec_pages()[k]
                    &&& final(self).spec_pages()[j].spec_id() == id
                    &&& final(self).spec_pages()[j].spec_pid() == new_page.spec_pid()
                    &&& final(self).spec_pages()[j].units() == new_page.units()
                },
                None => r is None && final(self).spec_pages() == old(self).spec_pages(),
            },
    {
        self.pages.modify(id, new_page)
    }

    /// Applies one action to the router. Exactly one action is honored per
    /// tick; removed or displaced pages are handed back, not discarded.
    pub fn apply_action(&mut self, action: PageAction<U>) -> (r: Option<Page<U>>)
        ensures
            action_effect(
                old(self).spec_pages(),
                old(self).spec_ui_enabled(),
                action,
                final(self).spec_pages(),
                final(self).spec_ui_enabled(),
                r,
            ),
    {
        match action {
            PageAction::Nothing => None,
            PageAction::AddPage(page) => {
                self.pages.add(page);
                None
            },
            PageAction::RemovePage(id) => self.pages.remove(id),
            PageAction::ModifyPage(id, new_page) => self.pages.modify(id, new_page),
            PageAction::OpenWindow(ui_enabled) => {
                self.ui_enabled = ui_enabled;
                None
            },
            PageAction::CloseWindow => {
                self.ui_enabled = true;
                None
            },
        }
    }

    /// One UI tick: draws the front page and applies the action it
    /// requested, if any. An empty router draws nothing and stays as it
    /// is. Which action comes back depends on the units; whatever it is,
    /// the tick is exactly a front-page draw pass (identities kept, the
    /// pages behind the front untouched) followed by one action's effect,
    /// as `action_effect` states it, and a removed or displaced page is
    /// handed back.
    pub fn update(&mut self) -> (r: Option<Page<U>>)
        ensures
            old(self).spec_pages().len() == 0 ==> final(self).spec_pages() == old(self).spec_pages()
                && final(self).spec_ui_enabled() == old(self).spec_ui_enabled() && r is None,
            old(self).spec_pages().len() > 0 ==> exists|mid: Seq<Page<U>>|
                {
                    &&& mid.len() == old(self).spec_pages().len()
                    &&& mid.skip(1) == old(self).spec_pages().skip(1)
                    &&& mid[0].spec_id() == old(self).spec_pages()[0].spec_id()
                    &&& mid[0].spec_pid() == old(self).spec_pages()[0].spec_pid()
                    &&& mid[0].units() == drawn_units(old(self).spec_pages()[0].units())
                    &&& #[trigger] action_effect(
                        mid,
                        old(self).spec_ui_enabled(),
                        honored_action(old(self).spec_pages()[0].units()),
                        final(self).spec_pages(),
                        final(self).spec_ui_enabled(),
                        r,
                    )
                },
    {
        let action = match self.pages.draw_front() {
            None => PageAction::Nothing,
            Some(a) => a,
        };
        let ghost ga = action;
        let ghost mid = self.spec_pages();
        let res = self.apply_action(action);
        proof {
            if old(self).spec_pages().len() > 0 {
                assert(ga == honored_action(old(self).spec_pages()[0].units()));
                assert(action_effect(
                    mid,
                    old(self).spec_ui_enabled(),
                    honored_action(old(self).spec_pages()[0].units()),
                    self.spec_pages(),
                    self.spec_ui_enabled(),
                    res,
                ));
            }
        }
        res
    }
}

} // verus!
