use wgc_snapshot::device::GraphicsDevice;
use wgc_snapshot::errors::TargetResolutionError;
use wgc_snapshot::interop::{
    DispatcherQueueThreadApartmentType, DispatcherQueueThreadType, RoInitType,
};
use wgc_snapshot::resolver::{
    contains_subsequence, find_matching_windows, parse_selection, resolve_display, resolve_window,
    CaptureTarget, SelectionInput, WindowInfo, WindowResolution,
};

fn window(handle: u64, title: &str) -> WindowInfo {
    WindowInfo { handle, title: title.as_bytes().to_vec() }
}

#[test]
fn display_index_zero_is_rejected_before_any_resource() {
    let device = GraphicsDevice::create(true).unwrap();
    let displays = vec![100, 200];
    let r = resolve_display(0, &displays);
    assert!(matches!(r, Err(TargetResolutionError::InvalidDisplayIndex)));
    // Resolution failed before any GPU resource was created.
    assert_eq!(device.allocations, 0);
}

#[test]
fn display_index_past_the_count_is_rejected() {
    let displays = vec![100, 200];
    let r = resolve_display(3, &displays);
    assert!(matches!(r, Err(TargetResolutionError::InvalidDisplayIndex)));
}

#[test]
fn display_indices_are_one_based() {
    let displays = vec![100, 200];
    assert_eq!(resolve_display(1, &displays).unwrap(), CaptureTarget::Display(100));
    assert_eq!(resolve_display(2, &displays).unwrap(), CaptureTarget::Display(200));
}

#[test]
fn window_query_with_no_match_fails() {
    let windows = vec![window(1, "Files"), window(2, "Terminal")];
    let r = resolve_window(&b"Notepad".to_vec(), &windows);
    assert!(matches!(r, WindowResolution::NoMatch));
}

#[test]
fn window_query_with_one_match_resolves() {
    let windows = vec![window(1, "Files"), window(2, "My Notepad Session")];
    let r = resolve_window(&b"Notepad".to_vec(), &windows);
    match r {
        WindowResolution::Resolved(t) => assert_eq!(t, CaptureTarget::Window(2)),
        _ => panic!("expected a resolved target"),
    }
}

#[test]
fn window_query_with_many_matches_is_ambiguous() {
    let windows = vec![window(1, "Notepad A"), window(2, "Files"), window(3, "Notepad B")];
    let r = resolve_window(&b"Notepad".to_vec(), &windows);
    match r {
        WindowResolution::Ambiguous(c) => assert_eq!(c, vec![0, 2]),
        _ => panic!("expected an ambiguous resolution"),
    }
}

#[test]
fn title_matching_is_case_sensitive() {
    assert!(contains_subsequence(&b"My Notepad".to_vec(), &b"Notepad".to_vec()));
    assert!(!contains_subsequence(&b"My notepad".to_vec(), &b"Notepad".to_vec()));
    assert!(contains_subsequence(&b"abc".to_vec(), &b"".to_vec()));
    assert!(!contains_subsequence(&b"ab".to_vec(), &b"abc".to_vec()));
}

#[test]
fn matching_indices_come_in_order() {
    let windows = vec![window(5, "x A x"), window(6, "B"), window(7, "A")];
    let m = find_matching_windows(&b"A".to_vec(), &windows);
    assert_eq!(m, vec![0, 2]);
}

#[test]
fn selection_quit_in_either_case() {
    assert_eq!(parse_selection(&b"q\n".to_vec(), 5), SelectionInput::Quit);
    assert_eq!(parse_selection(&b" Quit".to_vec(), 5), SelectionInput::Quit);
}

#[test]
fn selection_picks_a_valid_index() {
    assert_eq!(parse_selection(&b" 2 \n".to_vec(), 5), SelectionInput::Pick(2));
    assert_eq!(parse_selection(&b"0".to_vec(), 1), SelectionInput::Pick(0));
    assert_eq!(parse_selection(&b"003".to_vec(), 5), SelectionInput::Pick(3));
}

#[test]
fn selection_rejects_out_of_range_and_garbage() {
    assert_eq!(parse_selection(&b"7".to_vec(), 5), SelectionInput::Invalid);
    assert_eq!(parse_selection(&b"5".to_vec(), 5), SelectionInput::Invalid);
    assert_eq!(parse_selection(&b"abc".to_vec(), 5), SelectionInput::Invalid);
    assert_eq!(parse_selection(&b"".to_vec(), 5), SelectionInput::Invalid);
    assert_eq!(parse_selection(&b"  \n".to_vec(), 5), SelectionInput::Invalid);
    assert_eq!(parse_selection(&b"1 2".to_vec(), 5), SelectionInput::Invalid);
    assert_eq!(
        parse_selection(&b"99999999999999999999999999".to_vec(), 5),
        SelectionInput::Invalid
    );
}

#[test]
fn interop_codes_match_the_platform_constants() {
    assert_eq!(RoInitType::MultiThreaded.code(), 0);
    assert_eq!(RoInitType::SingleThreaded.code(), 1);
    assert_eq!(DispatcherQueueThreadType::Dedicated.code(), 1);
    assert_eq!(DispatcherQueueThreadType::Current.code(), 2);
    assert_eq!(DispatcherQueueThreadApartmentType::NoApartment.code(), 0);
    assert_eq!(DispatcherQueueThreadApartmentType::ASTA.code(), 1);
    assert_eq!(DispatcherQueueThreadApartmentType::STA.code(), 2);
}
