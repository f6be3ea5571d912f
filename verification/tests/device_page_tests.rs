use home_app::device_page::DevicePage;
use home_app::router::BasePage;
use home_app::router::PageAction;

#[test]
fn overlay_opens_on_click_and_closes_on_click() {
    let mut page = DevicePage::new();

    let action = page.content();
    assert!(matches!(action, PageAction::Nothing));

    page.click_open();
    let action = page.content();
    assert!(matches!(action, PageAction::OpenWindow(false)));

    let action = page.content();
    assert!(matches!(action, PageAction::OpenWindow(false)), "the overlay stays open");

    page.click_close();
    let action = page.content();
    assert!(matches!(action, PageAction::CloseWindow));

    let action = page.content();
    assert!(matches!(action, PageAction::Nothing), "the overlay stays closed");
}

#[test]
fn close_click_with_no_overlay_does_nothing() {
    let mut page = DevicePage::new();
    page.click_close();
    let action = page.content();
    assert!(matches!(action, PageAction::Nothing));
}

#[test]
fn identity_survives_drawing() {
    let mut page = DevicePage::new();
    page.set_id(4);
    page.set_pid(2);
    let _ = page.draw();
    assert_eq!(page.get_id(), 4);
    assert_eq!(page.get_pid(), 2);
}
