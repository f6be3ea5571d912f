use home_app::router::BasePage;
use home_app::router::MainWindow;
use home_app::router::Page;
use home_app::router::PageAction;

#[derive(Clone)]
enum Behavior {
    Passive,
    RemoveFront,
}

#[derive(Clone)]
struct TestUnit {
    id: usize,
    pid: usize,
    draws: usize,
    behavior: Behavior,
}

impl TestUnit {
    fn new(behavior: Behavior) -> TestUnit {
        TestUnit { id: 0, pid: 0, draws: 0, behavior }
    }
}

impl BasePage for TestUnit {
    fn spec_id(&self) -> usize {
        self.id
    }

    fn spec_pid(&self) -> usize {
        self.pid
    }

    fn with_id(self, id: usize) -> TestUnit {
        TestUnit { id, ..self }
    }

    fn with_pid(self, pid: usize) -> TestUnit {
        TestUnit { pid, ..self }
    }

    fn title_bar_next(&self) -> TestUnit {
        self.clone()
    }

    fn status_bar_next(&self) -> TestUnit {
        self.clone()
    }

    fn content_next(&self) -> TestUnit {
        TestUnit { draws: self.draws + 1, ..self.clone() }
    }

    fn content_action(&self) -> PageAction<TestUnit> {
        match self.behavior {
            Behavior::Passive => PageAction::Nothing,
            Behavior::RemoveFront => PageAction::RemovePage(None),
        }
    }

    fn status_bar(&mut self) {}

    fn set_id(&mut self, id: usize) {
        self.id = id;
    }

    fn get_id(&self) -> usize {
        self.id
    }

    fn set_pid(&mut self, pid: usize) {
        self.pid = pid;
    }

    fn get_pid(&self) -> usize {
        self.pid
    }

    fn title_bar(&mut self) {}

    fn content(&mut self) -> PageAction<TestUnit> {
        self.draws += 1;
        match self.behavior {
            Behavior::Passive => PageAction::Nothing,
            Behavior::RemoveFront => PageAction::RemovePage(None),
        }
    }
}

#[test]
fn empty_router_tick_is_a_noop() {
    let mut router: MainWindow<TestUnit> = MainWindow::new();
    assert!(router.update().is_none());
    assert_eq!(router.page_count(), 0);
    assert!(router.ui_enabled());
}

#[test]
fn add_page_assigns_next_id_and_front_position() {
    let mut router: MainWindow<TestUnit> = MainWindow::new();
    router.add_page(Page::default());
    router.add_page(Page::default());
    router.add_page(Page::default());
    assert_eq!(router.page_count(), 3);
    assert_eq!(router.page(0).unwrap().get_id(), 2, "newest page is at the front");
    assert_eq!(router.page(1).unwrap().get_id(), 1);
    assert_eq!(router.page(2).unwrap().get_id(), 0);
}

#[test]
fn units_draw_front_to_back_and_first_action_removes_page() {
    let mut page = Page::default();
    // front = most recently added = drawn first: the passive unit is added
    // last so it draws first, before the unit that removes the page.
    page.add(TestUnit::new(Behavior::RemoveFront));
    page.add(TestUnit::new(Behavior::Passive));
    let mut router: MainWindow<TestUnit> = MainWindow::new();
    router.add_page(page);
    assert_eq!(router.page_count(), 1);

    let mut removed = router.update().expect("the front page is removed");
    assert_eq!(router.page_count(), 0);

    let passive = removed.remove(None).expect("front unit");
    assert!(matches!(passive.behavior, Behavior::Passive));
    assert_eq!(passive.draws, 1, "the passive unit drew exactly once before the short-circuit");
    let remover = removed.remove(None).expect("second unit");
    assert_eq!(remover.draws, 1);
}

#[test]
fn short_circuit_skips_units_after_the_first_action() {
    let mut page = Page::default();
    page.add(TestUnit::new(Behavior::Passive));     // drawn last, skipped
    page.add(TestUnit::new(Behavior::RemoveFront)); // drawn second, acts
    page.add(TestUnit::new(Behavior::Passive));     // drawn first
    let mut router: MainWindow<TestUnit> = MainWindow::new();
    router.add_page(page);

    let mut removed = router.update().expect("the front page is removed");
    let first = removed.remove(None).unwrap();
    assert_eq!(first.draws, 1);
    let second = removed.remove(None).unwrap();
    assert_eq!(second.draws, 1);
    let third = removed.remove(None).unwrap();
    assert_eq!(third.draws, 0, "units after the acting one are not drawn this tick");
}

#[test]
fn modify_preserves_id_and_returns_displaced_page() {
    let mut router: MainWindow<TestUnit> = MainWindow::new();
    for _ in 0..4 {
        router.add_page(Page::default());
    }
    // ids were assigned 0..=3; the page with id 3 sits at the front
    let mut replacement = Page::default();
    replacement.set_pid(7);
    let displaced = router.modify_page(3, replacement).expect("page id 3 exists");
    assert_eq!(displaced.get_id(), 3);
    assert_eq!(displaced.get_pid(), 0, "the displaced page comes back unchanged");
    let slot = router.page(0).expect("front page");
    assert_eq!(slot.get_id(), 3, "the replacement takes over id 3");
    assert_eq!(slot.get_pid(), 7, "the slot now holds the replacement's content");
    assert_eq!(router.page_count(), 4);
}

#[test]
fn modify_unknown_id_changes_nothing() {
    let mut router: MainWindow<TestUnit> = MainWindow::new();
    router.add_page(Page::default());
    assert!(router.modify_page(9, Page::default()).is_none());
    assert_eq!(router.page_count(), 1);
    assert_eq!(router.page(0).unwrap().get_id(), 0);
}

#[test]
fn remove_unknown_id_changes_nothing() {
    let mut router: MainWindow<TestUnit> = MainWindow::new();
    router.add_page(Page::default());
    router.remove_page(Some(9));
    assert_eq!(router.page_count(), 1);
}

#[test]
fn remove_by_id_takes_the_right_page() {
    let mut router: MainWindow<TestUnit> = MainWindow::new();
    router.add_page(Page::default()); // id 0
    router.add_page(Page::default()); // id 1, front
    router.remove_page(Some(0));
    assert_eq!(router.page_count(), 1);
    assert_eq!(router.page(0).unwrap().get_id(), 1);
}

#[test]
fn remove_without_id_pops_the_front_page() {
    let mut router: MainWindow<TestUnit> = MainWindow::new();
    router.add_page(Page::default()); // id 0
    router.add_page(Page::default()); // id 1, front
    router.remove_page(None);
    assert_eq!(router.page_count(), 1);
    assert_eq!(router.page(0).unwrap().get_id(), 0);
}

#[test]
fn open_and_close_window_toggle_the_ui_flag() {
    let mut router: MainWindow<TestUnit> = MainWindow::new();
    assert!(router.ui_enabled());
    assert!(router.apply_action(PageAction::OpenWindow(false)).is_none());
    assert!(!router.ui_enabled());
    assert!(router.apply_action(PageAction::CloseWindow).is_none());
    assert!(router.ui_enabled());
}

#[test]
fn actions_compare_by_kind_alone() {
    let a: PageAction<TestUnit> = PageAction::OpenWindow(true);
    let b: PageAction<TestUnit> = PageAction::OpenWindow(false);
    assert!(a == b);
    let c: PageAction<TestUnit> = PageAction::RemovePage(Some(1));
    let d: PageAction<TestUnit> = PageAction::RemovePage(None);
    assert!(c == d);
    let e: PageAction<TestUnit> = PageAction::Nothing;
    let f: PageAction<TestUnit> = PageAction::CloseWindow;
    assert!(e != f);
}

#[test]
fn page_assigns_unit_ids_from_its_count() {
    let mut page = Page::default();
    page.set_id(5);
    page.add(TestUnit::new(Behavior::Passive));
    page.add(TestUnit::new(Behavior::Passive));
    let front = page.remove(None).unwrap();
    assert_eq!(front.get_id(), 1, "the second unit took id 1");
    assert_eq!(front.get_pid(), 5, "units link back to their page");
    let back = page.remove(None).unwrap();
    assert_eq!(back.get_id(), 0);
}
