use uicontrol::screenshot::{list_displays, screenshot_targets, take_screenshot, ScreenshotError};

#[test]
fn found_displays_are_numbered_from_one() {
    assert_eq!(list_displays(&vec![true, false, true]), vec![1, 3]);
    assert_eq!(list_displays(&vec![false; 3]), Vec::<u32>::new());
    let many = vec![true; 20];
    assert_eq!(list_displays(&many).len(), 16);
}

#[test]
fn targets_are_the_asked_display_or_all() {
    assert_eq!(screenshot_targets(Some(2), vec![1, 2, 3]).ok(), Some(vec![2]));
    assert_eq!(screenshot_targets(None, vec![1, 3]).ok(), Some(vec![1, 3]));
    assert!(matches!(screenshot_targets(None, Vec::new()), Err(ScreenshotError::NoDisplays)));
    assert_eq!(ScreenshotError::NoDisplays.message(), "未发现可用显示器，无法截图");
}

#[test]
fn captures_are_labelled_by_display() {
    let shots = take_screenshot(vec![(1, "AAA".to_string()), (12, "BBB".to_string())]);
    assert_eq!(shots.len(), 2);
    assert_eq!(shots[0].description, "显示器 1 的截图");
    assert_eq!(shots[0].uri, "screenshot://display/1");
    assert_eq!(shots[0].image_base64, "AAA");
    assert_eq!(shots[1].uri, "screenshot://display/12");
}
