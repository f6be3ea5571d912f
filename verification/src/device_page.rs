//! The device listing screen: a concrete unit for the router. The host
//! paints it and records button clicks on it; the next content draw turns
//! the recorded clicks into the unit's decision: whether its transient
//! test overlay is open, and which action the router should honor.

use vstd::prelude::*;

use crate::router::BasePage;
use crate::router::PageAction;
use crate::router::pass_action;
use crate::router::pass_next;

verus! {

/// The device listing screen and its overlay-window state.
pub struct DevicePage {
    id: usize,
    pid: usize,
    open_test_window: bool,
    open_clicked: bool,
    close_clicked: bool,
}

impl DevicePage {
    /// Whether the test overlay window is open.
    pub closed spec fn spec_open_test_window(&self) -> bool {
        self.open_test_window
    }

    /// Whether a click on the opening button is pending.
    pub closed spec fn spec_open_clicked(&self) -> bool {
        self.open_clicked
    }

    /// Whether a click on the overlay's closing button is pending.
    pub closed spec fn spec_close_clicked(&self) -> bool {
        self.close_clicked
    }

    /// A fresh screen: overlay closed, no clicks pending.
    pub fn new() -> (r: DevicePage)
        ensures
            r.spec_id() == 0,
            r.spec_pid() == 0,
            !r.spec_open_test_window(),
            !r.spec_open_clicked(),
            !r.spec_close_clicked(),
    {
        DevicePage {
            id: 0,
            pid: 0,
            open_test_window: false,
            open_clicked: false,
            close_clicked: false,
        }
    }

    /// Records a click on the button that opens the overlay; the next
    /// content draw honors it.
    pub fn click_open(&mut self)
        ensures
            final(self).spec_open_clicked(),
            final(self).spec_close_clicked() == old(self).spec_close_clicked(),
            final(self).spec_open_test_window() == old(self).spec_open_test_window(),
            final(self).spec_id() == old(self).spec_id(),
            final(self).spec_pid() == old(self).spec_pid(),
    {
        self.open_clicked = true;
    }

    /// Records a click on the overlay's closing button; the next content
    /// draw honors it if the overlay is open.
    pub fn click_close(&mut self)
        ensures
            final(self).spec_close_clicked(),
            final(self).spec_open_clicked() == old(self).spec_open_clicked(),
            final(self).spec_open_test_window() == old(self).spec_open_test_window(),
            final(self).spec_id() == old(self).spec_id(),
            final(self).spec_pid() == old(self).spec_pid(),
    {
        self.close_clicked = true;
    }
}

impl BasePage for DevicePage {
    closed spec fn spec_id(&self) -> usize {
        self.id
    }

    closed spec fn spec_pid(&self) -> usize {
        self.pid
    }

    closed spec fn with_id(self, id: usize) -> Self {
        DevicePage { id, ..self }
    }

    closed spec fn with_pid(self, pid: usize) -> Self {
        DevicePage { pid, ..self }
    }

    closed spec fn title_bar_next(&self) -> Self {
        *self
    }

    closed spec fn status_bar_next(&self) -> Self {
        *self
    }

    closed spec fn content_next(&self) -> Self {
        DevicePage {
            open_test_window: (self.open_test_window || self.open_clicked) && !self.close_clicked,
            open_clicked: false,
            close_clicked: false,
            ..*self
        }
    }

    closed spec fn content_action(&self) -> PageAction<Self> {
        if (self.open_test_window || self.open_clicked) && self.close_clicked {
            PageAction::CloseWindow
        } else if self.open_test_window || self.open_clicked {
            PageAction::OpenWindow(false)
        } else {
            PageAction::Nothing
        }
    }

    fn set_id(&mut self, id: usize) {
        self.id = id;
    }

    fn get_id(&self) -> (r: usize) {
        self.id
    }

    fn set_pid(&mut self, pid: usize) {
        self.pid = pid;
    }

    fn get_pid(&self) -> (r: usize) {
        self.pid
    }

    /// The host paints the actual title bar; the unit's state is untouched.
    fn title_bar(&mut self) {
    }

    /// The host paints the actual status bar; the unit's state is untouched.
    fn status_bar(&mut self) {
    }

    /// Consumes the pending clicks and decides the tick's action: an open
    /// click opens the overlay; with the overlay open, a close click
    /// closes it and asks the host to dismiss the window, and otherwise
    /// the overlay asks to stay shown with the background UI disabled;
    /// with the overlay closed, nothing happens.
    fn content(&mut self) -> (r: PageAction<Self>)
        ensures
            !final(self).spec_open_clicked(),
            !final(self).spec_close_clicked(),
            (old(self).spec_open_test_window() || old(self).spec_open_clicked())
                && old(self).spec_close_clicked() ==> !final(self).spec_open_test_window()
                && r == PageAction::<DevicePage>::CloseWindow,
            (old(self).spec_open_test_window() || old(self).spec_open_clicked())
                && !old(self).spec_close_clicked() ==> final(self).spec_open_test_window()
                && r == PageAction::<DevicePage>::OpenWindow(false),
            !(old(self).spec_open_test_window() || old(self).spec_open_clicked())
                ==> !final(self).spec_open_test_window()
                && r == PageAction::<DevicePage>::Nothing,
    {
        if self.open_clicked {
            self.open_test_window = true;
        }
        self.open_clicked = false;
        if self.open_test_window {
            if self.close_clicked {
                self.close_clicked = false;
                self.open_test_window = false;
                PageAction::CloseWindow
            } else {
                PageAction::OpenWindow(false)
            }
        } else {
            self.close_clicked = false;
            PageAction::Nothing
        }
    }
}

/// Adopting a unit into a page replaces only its ids: `with_id` and
/// `with_pid`, which `Page::add` applies, leave the screen state — the
/// overlay flag and the pending clicks — untouched.
pub proof fn lemma_adoption_keeps_screen_state(d: DevicePage, id: usize, pid: usize)
    ensures
        d.with_id(id).spec_id() == id,
        d.with_id(id).spec_pid() == d.spec_pid(),
        d.with_id(id).spec_open_test_window() == d.spec_open_test_window(),
        d.with_id(id).spec_open_clicked() == d.spec_open_clicked(),
        d.with_id(id).spec_close_clicked() == d.spec_close_clicked(),
        d.with_pid(pid).spec_pid() == pid,
        d.with_pid(pid).spec_id() == d.spec_id(),
        d.with_pid(pid).spec_open_test_window() == d.spec_open_test_window(),
        d.with_pid(pid).spec_open_clicked() == d.spec_open_clicked(),
        d.with_pid(pid).spec_close_clicked() == d.spec_close_clicked(),
{
}

/// One full draw pass of the device page: the bars leave it untouched,
/// the clicks are consumed, and the content decides the action from the
/// overlay flag and the recorded clicks.
pub proof fn lemma_draw_pass(d: DevicePage)
    ensures
        pass_next(d).spec_id() == d.spec_id(),
        pass_next(d).spec_pid() == d.spec_pid(),
        !pass_next(d).spec_open_clicked(),
        !pass_next(d).spec_close_clicked(),
        pass_next(d).spec_open_test_window() == ((d.spec_open_test_window()
            || d.spec_open_clicked()) && !d.spec_close_clicked()),
        (d.spec_open_test_window() || d.spec_open_clicked()) && d.spec_close_clicked()
            ==> pass_action(d) == PageAction::<DevicePage>::CloseWindow,
        (d.spec_open_test_window() || d.spec_open_clicked()) && !d.spec_close_clicked()
            ==> pass_action(d) == PageAction::<DevicePage>::OpenWindow(false),
        !(d.spec_open_test_window() || d.spec_open_clicked()) ==> pass_action(d)
            == PageAction::<DevicePage>::Nothing,
{
}

} // verus!
