use screen_recorder::window::{
    contains_text, first_matching_window, is_known_blocked_window, matches_title_and_class_name,
    truncate_to_first_null_char, WindowInfo, DWM_CLOAKED_SHELL, WS_DISABLED, WS_EX_TOOLWINDOW,
};

fn window(handle: u32, title: &str, class_name: &str) -> WindowInfo<u32> {
    WindowInfo {
        handle,
        title: String::from(title),
        class_name: String::from(class_name),
        is_shell: false,
        visible: true,
        is_root: true,
        style: 0,
        ex_style: 0,
        cloaked: None,
    }
}

#[test]
fn title_substring_is_case_sensitive() {
    assert!(contains_text("Untitled - Notepad", "Notepad"));
    assert!(contains_text("Notepad", "Notepad"));
    assert!(contains_text("abc", ""));
    assert!(!contains_text("Untitled - notepad", "Notepad"));
    assert!(!contains_text("Note", "Notepad"));
    assert!(!contains_text("", "a"));
}

#[test]
fn ordinary_window_is_capturable() {
    assert!(window(1, "Untitled - Notepad", "Notepad").is_capturable_window());
}

#[test]
fn excluded_windows() {
    assert!(!window(1, "", "Notepad").is_capturable_window());
    let mut w = window(1, "Shell", "Progman");
    w.is_shell = true;
    assert!(!w.is_capturable_window());
    let mut w = window(1, "Hidden", "X");
    w.visible = false;
    assert!(!w.is_capturable_window());
    let mut w = window(1, "Child", "X");
    w.is_root = false;
    assert!(!w.is_capturable_window());
    let mut w = window(1, "Disabled", "X");
    w.style = WS_DISABLED | 0x10;
    assert!(!w.is_capturable_window());
    let mut w = window(1, "Tool", "X");
    w.ex_style = WS_EX_TOOLWINDOW;
    assert!(!w.is_capturable_window());
}

#[test]
fn cloaked_app_window_is_excluded() {
    let mut w = window(1, "Settings", "ApplicationFrameWindow");
    w.cloaked = Some(DWM_CLOAKED_SHELL);
    assert!(!w.is_capturable_window());
    w.cloaked = Some(0);
    assert!(w.is_capturable_window());
    let mut w = window(1, "Other", "SomeClass");
    w.cloaked = Some(DWM_CLOAKED_SHELL);
    assert!(w.is_capturable_window());
}

#[test]
fn known_system_surfaces_are_blocked() {
    let t = String::from("Task View");
    let c = String::from("Windows.UI.Core.CoreWindow");
    assert!(is_known_blocked_window(&t, &c));
    assert!(is_known_blocked_window(
        &String::from("DesktopWindowXamlSource"),
        &String::from("Windows.UI.Core.CoreWindow")
    ));
    assert!(is_known_blocked_window(
        &String::from("PopupHost"),
        &String::from("Xaml_WindowedPopupClass")
    ));
    assert!(!is_known_blocked_window(&String::from("PopupHost"), &c));
    assert!(matches_title_and_class_name(&t, &c, "Task View", "Windows.UI.Core.CoreWindow"));
    assert!(!matches_title_and_class_name(&t, &c, "Task", "Windows.UI.Core.CoreWindow"));
    assert!(!window(1, "Task View", "Windows.UI.Core.CoreWindow").is_capturable_window());
}

#[test]
fn first_capturable_match_wins() {
    let mut hidden = window(1, "Notes - Notepad", "Notepad");
    hidden.visible = false;
    let windows = vec![
        window(0, "Mozilla Firefox", "MozillaWindowClass"),
        hidden,
        window(2, "Untitled - Notepad", "Notepad"),
        window(3, "Other - Notepad", "Notepad"),
    ];
    let found = first_matching_window(&windows, "Notepad");
    assert_eq!(found, Some(2));
    assert_eq!(windows[found.unwrap()].handle, 2);
}

#[test]
fn no_matching_window() {
    let windows = vec![
        window(0, "Mozilla Firefox", "MozillaWindowClass"),
        window(1, "Calculator", "ApplicationFrameWindow"),
    ];
    assert_eq!(first_matching_window(&windows, "Notepad"), None);
    assert_eq!(first_matching_window(&Vec::<WindowInfo<u32>>::new(), "Notepad"), None);
}

#[test]
fn truncates_at_first_nul() {
    let mut s = String::from("Notepad\0\0garbage\0");
    truncate_to_first_null_char(&mut s);
    assert_eq!(s, "Notepad");
    let mut s = String::from("no nul here");
    truncate_to_first_null_char(&mut s);
    assert_eq!(s, "no nul here");
    let mut s = String::from("\0rest");
    truncate_to_first_null_char(&mut s);
    assert_eq!(s, "");
}
