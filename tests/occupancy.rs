use desktop_switcher::occupancy::{
    contains_in_prefix, is_denied_class_name, text_len, window_qualifies, Emptiness, OccupancyScan,
};

fn buffer(text: &str) -> Vec<u8> {
    let mut b = vec![0u8; 256];
    b[..text.len()].copy_from_slice(text.as_bytes());
    b
}

#[test]
fn text_ends_at_first_nul() {
    assert_eq!(text_len(&buffer("Notepad")), 7);
    assert_eq!(text_len(&buffer("")), 0);
    assert_eq!(text_len(b"abc"), 3);
    assert_eq!(text_len(&[]), 0);
    assert_eq!(text_len(b"ab\0cd\0"), 2);
}

#[test]
fn substring_search_stays_in_prefix() {
    assert!(contains_in_prefix(b"xxShell_TrayWndyy", 17, b"Shell_TrayWnd"));
    assert!(!contains_in_prefix(b"xxShell_TrayWndyy", 10, b"Shell_TrayWnd"));
    assert!(contains_in_prefix(b"abc", 3, b""));
    assert!(!contains_in_prefix(b"ab", 2, b"abc"));
    assert!(contains_in_prefix(b"aab", 3, b"ab"));
}

#[test]
fn denied_classes_are_recognised() {
    assert!(is_denied_class_name(&buffer("Shell_TrayWnd")));
    assert!(is_denied_class_name(&buffer("DV2ControlHost")));
    assert!(is_denied_class_name(&buffer("ForegroundStaging")));
    assert!(is_denied_class_name(&buffer("ApplicationFrameHost")));
    assert!(is_denied_class_name(&buffer("Shell_SecondaryTrayWnd_Shell_TrayWnd")));
    assert!(!is_denied_class_name(&buffer("Notepad")));
    assert!(!is_denied_class_name(&buffer("Shell_Tray")));
    assert!(!is_denied_class_name(&buffer("")));
}

#[test]
fn denied_window_never_qualifies() {
    for class in ["Shell_TrayWnd", "DV2ControlHost", "ForegroundStaging", "ApplicationFrameHost"] {
        assert!(!window_qualifies(true, &buffer(class), &buffer("Taskbar")));
        assert!(!window_qualifies(false, &buffer(class), &buffer("Taskbar")));
        assert!(!window_qualifies(true, &buffer(class), &buffer("")));
    }
}

#[test]
fn visible_titled_window_qualifies() {
    assert!(window_qualifies(true, &buffer("Notepad"), &buffer("notes.txt - Notepad")));
    assert!(!window_qualifies(false, &buffer("Notepad"), &buffer("notes.txt - Notepad")));
    assert!(!window_qualifies(true, &buffer("Notepad"), &buffer("")));
}

#[test]
fn scan_stops_at_first_window_on_desktop() {
    let mut scan = OccupancyScan::new(2);
    assert!(scan.wants_query(true, &buffer("Notepad"), &buffer("a")));
    assert!(!scan.wants_query(true, &buffer("Shell_TrayWnd"), &buffer("a")));
    assert!(scan.record(0));
    assert_eq!(scan.verdict(), Emptiness::Empty);
    assert!(!scan.record(1));
    assert_eq!(scan.verdict(), Emptiness::Occupied);
    assert!(!scan.wants_query(true, &buffer("Notepad"), &buffer("a")));
    assert_eq!(scan.desktop, 2);
}

#[test]
fn only_empty_allows_removal() {
    assert!(Emptiness::Empty.allows_removal());
    assert!(!Emptiness::Occupied.allows_removal());
    assert!(!Emptiness::Unknown.allows_removal());
}
