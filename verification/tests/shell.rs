use effect::shell::{
    check_ex_style, check_fit, check_style, child_ex_style, child_style, choose_parent,
    host_placement, placement_in_range, rect_size, screen_bounds, Bounds, DesktopSearch,
    MonitorArea, Rect, ShellError, WindowRects, FRAME_EX_STYLE_BITS, FRAME_STYLE_BITS,
    WS_BORDER, WS_CAPTION, WS_CHILD, WS_DLGFRAME, WS_EX_APPWINDOW, WS_EX_CLIENTEDGE,
    WS_EX_DLGMODALFRAME, WS_EX_NOACTIVATE, WS_EX_STATICEDGE, WS_EX_TOOLWINDOW, WS_EX_WINDOWEDGE,
    WS_MAXIMIZEBOX, WS_MINIMIZEBOX, WS_POPUP, WS_SYSMENU, WS_THICKFRAME,
};

fn rect(left: i32, top: i32, right: i32, bottom: i32) -> Rect {
    Rect { left, top, right, bottom }
}

#[test]
fn overlapped_window_style_becomes_a_frameless_child() {
    let overlapped: u32 = 0x00CF_0000 | 0x1000_0000;
    let style = child_style(overlapped);
    assert_eq!(style, 0x5000_0000);
    assert!(check_style(style).is_ok());
    assert_eq!(style & FRAME_STYLE_BITS, 0);
    assert_ne!(style & WS_CHILD, 0);
}

#[test]
fn popup_style_loses_popup_bit() {
    assert_eq!(child_style(0x8000_0000), 0x4000_0000);
    assert_eq!(child_style(0), 0x4000_0000);
    assert_eq!(child_style(u32::MAX), !FRAME_STYLE_BITS);
}

#[test]
fn style_check_refuses_frames_and_missing_child() {
    assert!(matches!(check_style(0x4080_0000).err().unwrap(), ShellError::StyleNotApplied));
    assert!(matches!(check_style(0x1000_0000).err().unwrap(), ShellError::StyleNotApplied));
    assert_eq!(
        ShellError::StyleNotApplied.message(),
        "无法将壁纸宿主窗口设置为无边框子窗口"
    );
}

#[test]
fn extended_style_becomes_a_tool_window() {
    let ex = child_ex_style(0x0004_0100 | 0x0000_0008);
    assert_eq!(ex, 0x0800_0088);
    assert!(check_ex_style(ex).is_ok());
    assert_ne!(ex & WS_EX_TOOLWINDOW, 0);
    assert_ne!(ex & WS_EX_NOACTIVATE, 0);
    assert_eq!(ex & FRAME_EX_STYLE_BITS, 0);
    assert!(matches!(check_ex_style(0x200).err().unwrap(), ShellError::ExStyleNotApplied));
    assert_eq!(ShellError::ExStyleNotApplied.message(), "无法清除壁纸宿主窗口的扩展边框样式");
}

#[test]
fn every_style_passes_after_the_change() {
    for style in [0u32, 1, 0x8000_0000, 0xFFFF_FFFF, 0x14CF_0000, 0x0123_4567] {
        assert!(check_style(child_style(style)).is_ok());
        assert!(check_ex_style(child_ex_style(style)).is_ok());
    }
}

#[test]
fn size_of_the_desktop_area() {
    let size = rect_size(&rect(0, 0, 1920, 1080)).ok().unwrap();
    assert_eq!((size.width, size.height), (1920, 1080));
    let size = rect_size(&rect(-1920, 100, 0, 1180)).ok().unwrap();
    assert_eq!((size.width, size.height), (1920, 1080));
    assert!(matches!(rect_size(&rect(10, 0, 10, 5)).err().unwrap(), ShellError::InvalidParentSize));
    assert!(rect_size(&rect(0, 5, 10, 4)).is_err());
    assert_eq!(ShellError::InvalidParentSize.message(), "桌面父窗口客户区尺寸无效");
}

#[test]
fn placement_offsets_and_enlarges_by_the_frame() {
    let parent = rect(0, 0, 1920, 1080);
    let host = WindowRects { window: rect(100, 100, 916, 739), client: rect(108, 131, 908, 731) };
    assert!(placement_in_range(&parent, &host));
    let (placement, size) = host_placement(&parent, &host).ok().unwrap();
    assert_eq!((size.width, size.height), (1920, 1080));
    assert_eq!((placement.x, placement.y), (-8, -31));
    assert_eq!((placement.width, placement.height), (1920 + 16, 1080 + 39));
    // The client area after such a move, relative to the parent's client origin.
    let client = (
        placement.x + 8,
        placement.y + 31,
        placement.x + placement.width - 8,
        placement.y + placement.height - 8,
    );
    assert_eq!(client, (0, 0, 1920, 1080));
}

#[test]
fn placement_of_a_frameless_window_is_the_parent_area() {
    let parent = rect(0, 0, 800, 600);
    let host = WindowRects { window: rect(5, 5, 10, 10), client: rect(5, 5, 10, 10) };
    let (placement, _) = host_placement(&parent, &host).ok().unwrap();
    assert_eq!((placement.x, placement.y, placement.width, placement.height), (0, 0, 800, 600));
}

#[test]
fn placement_over_an_empty_area_is_refused() {
    let parent = rect(0, 0, 0, 600);
    let host = WindowRects { window: rect(0, 0, 1, 1), client: rect(0, 0, 1, 1) };
    assert!(matches!(host_placement(&parent, &host).err().unwrap(), ShellError::InvalidParentSize));
}

#[test]
fn overflowing_placement_is_detected() {
    let parent = rect(i32::MIN, 0, i32::MAX, 10);
    let host = WindowRects { window: rect(0, 0, 1, 1), client: rect(0, 0, 1, 1) };
    assert!(!placement_in_range(&parent, &host));
    let parent = rect(0, 0, i32::MAX, 10);
    let host = WindowRects { window: rect(-10, 0, 10, 10), client: rect(0, 0, 10, 10) };
    assert!(!placement_in_range(&parent, &host));
}

#[test]
fn fit_check_compares_whole_rectangles() {
    assert!(check_fit(&rect(0, 0, 10, 10), &rect(0, 0, 10, 10)).is_ok());
    let error = check_fit(&rect(0, 0, 10, 11), &rect(0, 0, 10, 10)).err().unwrap();
    assert!(matches!(error, ShellError::ClientMismatch));
    assert_eq!(error.message(), "壁纸客户区未能与桌面父窗口完全重合");
}

#[test]
fn search_stops_at_the_workerw_after_the_shell_view() {
    let mut search = DesktopSearch::new();
    assert!(search.visit(false, 0));
    assert!(search.visit(false, 77));
    assert!(search.visit(true, 0));
    assert_eq!(search.target_workerw, None);
    assert!(!search.visit(true, 42));
    assert_eq!(search.target_workerw, Some(42));
}

#[test]
fn parent_prefers_workerw_then_progman_then_desktop() {
    assert_eq!(choose_parent(Some(42), 7, 1), 42);
    assert_eq!(choose_parent(None, 7, 1), 7);
    assert_eq!(choose_parent(Some(0), 7, 1), 7);
    assert_eq!(choose_parent(None, 0, 1), 1);
}

#[test]
fn screen_bounds_of_a_monitor_or_the_default() {
    let b = screen_bounds(Some(MonitorArea { x: -1920, y: 0, width: 1920, height: 1080 }));
    assert_eq!((b.x, b.y, b.width, b.height), (-1920, 0, 1920, 1080));
    let b = screen_bounds(None);
    assert_eq!((b.x, b.y, b.width, b.height), (0, 0, 1280, 720));
    let size = Bounds { x: 0, y: 0, width: 1280, height: 720 }.size();
    assert_eq!((size.width, size.height), (1280, 720));
}

#[test]
fn huge_monitor_sizes_are_cast_like_the_original() {
    let b = screen_bounds(Some(MonitorArea { x: 0, y: 0, width: u32::MAX, height: 0x8000_0000 }));
    assert_eq!(b.width, -1);
    assert_eq!(b.height, i32::MIN);
    assert_eq!(b.size().width, u32::MAX);
}

#[test]
fn frame_bits_are_the_frame_styles() {
    assert_eq!(
        FRAME_STYLE_BITS,
        WS_POPUP | WS_CAPTION | WS_THICKFRAME | WS_BORDER | WS_DLGFRAME | WS_SYSMENU
            | WS_MINIMIZEBOX | WS_MAXIMIZEBOX
    );
    assert_eq!(
        FRAME_EX_STYLE_BITS,
        WS_EX_APPWINDOW | WS_EX_CLIENTEDGE | WS_EX_DLGMODALFRAME | WS_EX_STATICEDGE | WS_EX_WINDOWEDGE
    );
    assert_eq!(WS_CAPTION, WS_BORDER | WS_DLGFRAME);
}
