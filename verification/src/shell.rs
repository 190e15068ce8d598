//! Placing the wallpaper window behind the desktop icons: the window styles
//! that make it a frameless child, the geometry that makes its client area
//! cover the desktop's, the search for the desktop's `WorkerW` window, and the
//! screen area the wallpaper starts with.
use vstd::prelude::*;

verus! {

pub const WS_POPUP: u32 = 0x8000_0000u32;
pub const WS_CHILD: u32 = 0x4000_0000u32;
pub const WS_CAPTION: u32 = 0x00C0_0000u32;
pub const WS_BORDER: u32 = 0x0080_0000u32;
pub const WS_DLGFRAME: u32 = 0x0040_0000u32;
pub const WS_SYSMENU: u32 = 0x0008_0000u32;
pub const WS_THICKFRAME: u32 = 0x0004_0000u32;
pub const WS_MINIMIZEBOX: u32 = 0x0002_0000u32;
pub const WS_MAXIMIZEBOX: u32 = 0x0001_0000u32;

pub const WS_EX_DLGMODALFRAME: u32 = 0x0000_0001u32;
pub const WS_EX_TOOLWINDOW: u32 = 0x0000_0080u32;
pub const WS_EX_WINDOWEDGE: u32 = 0x0000_0100u32;
pub const WS_EX_CLIENTEDGE: u32 = 0x0000_0200u32;
pub const WS_EX_STATICEDGE: u32 = 0x0002_0000u32;
pub const WS_EX_APPWINDOW: u32 = 0x0004_0000u32;
pub const WS_EX_NOACTIVATE: u32 = 0x0800_0000u32;

/// The style bits that give a window a frame of its own.
pub const FRAME_STYLE_BITS: u32 = 0x80CF_0000u32;

/// The extended style bits that draw an edge or show the window in the task bar.
pub const FRAME_EX_STYLE_BITS: u32 = 0x0006_0301u32;

/// Why the wallpaper window could not be put in place.
pub enum ShellError {
    /// The desktop window's client area is empty.
    InvalidParentSize,
    /// After the move the wallpaper's client area does not cover the desktop's.
    ClientMismatch,
    /// The frame styles could not be removed.
    StyleNotApplied,
    /// The extended frame styles could not be removed.
    ExStyleNotApplied,
}

impl ShellError {
    /// The message reported for the error.
    pub fn message(&self) -> (r: &'static str)
        ensures
            r@ == match self {
                ShellError::InvalidParentSize => "桌面父窗口客户区尺寸无效"@,
                ShellError::ClientMismatch => "壁纸客户区未能与桌面父窗口完全重合"@,
                ShellError::StyleNotApplied => "无法将壁纸宿主窗口设置为无边框子窗口"@,
                ShellError::ExStyleNotApplied => "无法清除壁纸宿主窗口的扩展边框样式"@,
            },
    {
        match self {
            ShellError::InvalidParentSize => "桌面父窗口客户区尺寸无效",
            ShellError::ClientMismatch => "壁纸客户区未能与桌面父窗口完全重合",
            ShellError::StyleNotApplied => "无法将壁纸宿主窗口设置为无边框子窗口",
            ShellError::ExStyleNotApplied => "无法清除壁纸宿主窗口的扩展边框样式",
        }
    }
}

/// The style that makes a window a frameless child: every frame bit cleared, the
/// child bit set, every other bit kept.
pub open spec fn spec_child_style(style: u32) -> u32 {
    (style & !FRAME_STYLE_BITS) | WS_CHILD
}

/// The extended style of the wallpaper window: every edge bit cleared, tool window and
/// no-activate set, every other bit kept.
pub open spec fn spec_child_ex_style(ex_style: u32) -> u32 {
    (ex_style & !FRAME_EX_STYLE_BITS) | WS_EX_TOOLWINDOW | WS_EX_NOACTIVATE
}

/// A style read back from the window has no frame bit and has the child bit.
pub open spec fn style_is_frameless_child(style: u32) -> bool {
    style & FRAME_STYLE_BITS == 0 && style & WS_CHILD != 0
}

/// An extended style read back from the window has no edge bit.
pub open spec fn ex_style_is_frameless(ex_style: u32) -> bool {
    ex_style & FRAME_EX_STYLE_BITS == 0
}

/// The style to give the wallpaper window, from the style it has.
pub fn child_style(style: u32) -> (r: u32)
    ensures
        r == spec_child_style(style),
{
    (style & !FRAME_STYLE_BITS) | WS_CHILD
}

/// The extended style to give the wallpaper window, from the one it has.
pub fn child_ex_style(ex_style: u32) -> (r: u32)
    ensures
        r == spec_child_ex_style(ex_style),
{
    (ex_style & !FRAME_EX_STYLE_BITS) | WS_EX_TOOLWINDOW | WS_EX_NOACTIVATE
}

/// Checks the style read back after the change.
pub fn check_style(applied: u32) -> (r: Result<(), ShellError>)
    ensures
        style_is_frameless_child(applied) ==> r is Ok,
        !style_is_frameless_child(applied) ==> r matches Err(ShellError::StyleNotApplied),
{
    if applied & FRAME_STYLE_BITS != 0 || applied & WS_CHILD == 0 {
        Err(ShellError::StyleNotApplied)
    } else {
        Ok(())
    }
}

/// Checks the extended style read back after the change.
pub fn check_ex_style(applied: u32) -> (r: Result<(), ShellError>)
    ensures
        ex_style_is_frameless(applied) ==> r is Ok,
        !ex_style_is_frameless(applied) ==> r matches Err(ShellError::ExStyleNotApplied),
{
    if applied & FRAME_EX_STYLE_BITS != 0 {
        Err(ShellError::ExStyleNotApplied)
    } else {
        Ok(())
    }
}

/// The frame bits are exactly the popup, caption, thick frame, border, dialog frame,
/// system menu, minimize and maximize bits; the extended ones exactly the app window,
/// client edge, modal frame, static edge and window edge bits.
pub proof fn frame_bits_are_the_frame_styles()
    ensures
        FRAME_STYLE_BITS == WS_POPUP | WS_CAPTION | WS_THICKFRAME | WS_BORDER | WS_DLGFRAME
            | WS_SYSMENU | WS_MINIMIZEBOX | WS_MAXIMIZEBOX,
        FRAME_EX_STYLE_BITS == WS_EX_APPWINDOW | WS_EX_CLIENTEDGE | WS_EX_DLGMODALFRAME
            | WS_EX_STATICEDGE | WS_EX_WINDOWEDGE,
{
    assert(0x80CF_0000u32 == 0x8000_0000u32 | 0x00C0_0000u32 | 0x0004_0000u32 | 0x0080_0000u32
        | 0x0040_0000u32 | 0x0008_0000u32 | 0x0002_0000u32 | 0x0001_0000u32) by (bit_vector);
    assert(0x0006_0301u32 == 0x0004_0000u32 | 0x0000_0200u32 | 0x0000_0001u32 | 0x0002_0000u32
        | 0x0000_0100u32) by (bit_vector);
}

/// Whatever style the window had, the style computed for it passes the check once the
/// window holds it, and every bit that is neither a frame bit nor the child bit is kept.
pub proof fn child_style_passes_check(style: u32)
    ensures
        style_is_frameless_child(spec_child_style(style)),
        spec_child_style(style) & !(FRAME_STYLE_BITS | WS_CHILD) == style & !(FRAME_STYLE_BITS
            | WS_CHILD),
{
    assert(((style & !0x80CF_0000u32) | 0x4000_0000u32) & 0x80CF_0000u32 == 0 && ((style
        & !0x80CF_0000u32) | 0x4000_0000u32) & 0x4000_0000u32 != 0) by (bit_vector);
    assert(((style & !0x80CF_0000u32) | 0x4000_0000u32) & !(0x80CF_0000u32 | 0x4000_0000u32)
        == style & !(0x80CF_0000u32 | 0x4000_0000u32)) by (bit_vector);
}

/// Whatever extended style the window had, the one computed for it passes the check,
/// marks a tool window that is never activated, and keeps every other bit.
pub proof fn child_ex_style_passes_check(ex_style: u32)
    ensures
        ex_style_is_frameless(spec_child_ex_style(ex_style)),
        spec_child_ex_style(ex_style) & WS_EX_TOOLWINDOW != 0,
        spec_child_ex_style(ex_style) & WS_EX_NOACTIVATE != 0,
        spec_child_ex_style(ex_style) & !(FRAME_EX_STYLE_BITS | WS_EX_TOOLWINDOW
            | WS_EX_NOACTIVATE) == ex_style & !(FRAME_EX_STYLE_BITS | WS_EX_TOOLWINDOW
            | WS_EX_NOACTIVATE),
{
    assert(((ex_style & !0x0006_0301u32) | 0x0000_0080u32 | 0x0800_0000u32) & 0x0006_0301u32
        == 0) by (bit_vector);
    assert(((ex_style & !0x0006_0301u32) | 0x0000_0080u32 | 0x0800_0000u32) & 0x0000_0080u32
        != 0) by (bit_vector);
    assert(((ex_style & !0x0006_0301u32) | 0x0000_0080u32 | 0x0800_0000u32) & 0x0800_0000u32
        != 0) by (bit_vector);
    assert(((ex_style & !0x0006_0301u32) | 0x0000_0080u32 | 0x0800_0000u32) & !(0x0006_0301u32
        | 0x0000_0080u32 | 0x0800_0000u32) == ex_style & !(0x0006_0301u32 | 0x0000_0080u32
        | 0x0800_0000u32)) by (bit_vector);
}

/// A rectangle in screen coordinates, as Windows reports it.
pub struct Rect {
    pub left: i32,
    pub top: i32,
    pub right: i32,
    pub bottom: i32,
}

/// The outer and client rectangles of a window.
pub struct WindowRects {
    pub window: Rect,
    pub client: Rect,
}

/// A window size in pixels.
pub struct Size {
    pub width: u32,
    pub height: u32,
}

/// Where a child window is moved, in its parent's client coordinates.
pub struct Placement {
    pub x: i32,
    pub y: i32,
    pub width: i32,
    pub height: i32,
}

/// The width and height of a rectangle fit in `i32`.
pub open spec fn extent_fits(rect: Rect) -> bool {
    &&& i32::MIN <= rect.right - rect.left <= i32::MAX
    &&& i32::MIN <= rect.bottom - rect.top <= i32::MAX
}

/// The size of a rectangle, when it is not empty.
pub open spec fn spec_rect_size(rect: Rect) -> Option<(int, int)> {
    let width = rect.right - rect.left;
    let height = rect.bottom - rect.top;
    if width <= 0 || height <= 0 {
        None
    } else {
        Some((width, height))
    }
}

/// The size of the desktop window's client area; an empty area is refused.
pub fn rect_size(rect: &Rect) -> (r: Result<Size, ShellError>)
    requires
        extent_fits(*rect),
    ensures
        match spec_rect_size(*rect) {
            Some((width, height)) => r matches Ok(size) && size.width == width && size.height
                == height,
            None => r matches Err(ShellError::InvalidParentSize),
        },
{
    let width = rect.right - rect.left;
    let height = rect.bottom - rect.top;
    if width <= 0 || height <= 0 {
        return Err(ShellError::InvalidParentSize);
    }
    Ok(Size { width: width as u32, height: height as u32 })
}

/// The frame widths of a window: how far its client area lies inside its outer rectangle
/// on the left, top, right and bottom.
pub open spec fn frames(host: WindowRects) -> (int, int, int, int) {
    (
        host.client.left - host.window.left,
        host.client.top - host.window.top,
        host.window.right - host.client.right,
        host.window.bottom - host.client.bottom,
    )
}

/// The placement that makes a window's client area cover a parent client area of the
/// given size: the outer rectangle is offset and enlarged by the frame.
pub open spec fn spec_placement(width: int, height: int, host: WindowRects) -> (int, int, int, int) {
    let (fl, ft, fr, fb) = frames(host);
    (-fl, -ft, width + fl + fr, height + ft + fb)
}

/// Every quantity computed for the placement of `host` over `parent` fits in `i32`:
/// the parent's extent, and, when that extent is not empty, the frames and the
/// enlarged size.
pub open spec fn placement_fits(parent: Rect, host: WindowRects) -> bool {
    &&& extent_fits(parent)
    &&& spec_rect_size(parent) is Some ==> {
        let (fl, ft, fr, fb) = frames(host);
        let width = parent.right - parent.left;
        let height = parent.bottom - parent.top;
        &&& i32::MIN < fl <= i32::MAX
        &&& i32::MIN < ft <= i32::MAX
        &&& i32::MIN <= fr <= i32::MAX
        &&& i32::MIN <= fb <= i32::MAX
        &&& i32::MIN <= width + fl <= i32::MAX
        &&& i32::MIN <= width + fl + fr <= i32::MAX
        &&& i32::MIN <= height + ft <= i32::MAX
        &&& i32::MIN <= height + ft + fb <= i32::MAX
    }
}

/// Whether the placement of `host` over `parent` can be computed without overflow.
pub fn placement_in_range(parent: &Rect, host: &WindowRects) -> (r: bool)
    ensures
        r == placement_fits(*parent, *host),
{
    let width = parent.right as i64 - parent.left as i64;
    let height = parent.bottom as i64 - parent.top as i64;
    let min = i32::MIN as i64;
    let max = i32::MAX as i64;
    if !(min <= width && width <= max && min <= height && height <= max) {
        return false;
    }
    if width <= 0 || height <= 0 {
        return true;
    }
    let fl = host.client.left as i64 - host.window.left as i64;
    let ft = host.client.top as i64 - host.window.top as i64;
    let fr = host.window.right as i64 - host.client.right as i64;
    let fb = host.window.bottom as i64 - host.client.bottom as i64;
    min < fl && fl <= max && min < ft && ft <= max && min <= fr && fr <= max && min <= fb && fb
        <= max && min <= width + fl && width + fl <= max && min <= width + fl + fr && width + fl
        + fr <= max && min <= height + ft && height + ft <= max && min <= height + ft + fb
        && height + ft + fb <= max
}

/// A placement is refused only for overflow: whenever the parent's extent fits and the
/// frame widths and the enlarged size stay well inside `i32` (a frameless window in
/// particular), it can be computed.
pub proof fn placement_fits_moderate_frames(parent: Rect, host: WindowRects)
    requires
        extent_fits(parent),
        ({
            let (fl, ft, fr, fb) = frames(host);
            &&& -0x1000_0000 <= fl <= 0x1000_0000
            &&& -0x1000_0000 <= ft <= 0x1000_0000
            &&& -0x1000_0000 <= fr <= 0x1000_0000
            &&& -0x1000_0000 <= fb <= 0x1000_0000
            &&& parent.right - parent.left <= 0x4000_0000
            &&& parent.bottom - parent.top <= 0x4000_0000
        }),
    ensures
        placement_fits(parent, host),
{
}

/// A window without frame can always be placed over a parent whose extent fits.
pub proof fn frameless_placement_fits(parent: Rect, host: WindowRects)
    requires
        extent_fits(parent),
        frames(host) == (0int, 0int, 0int, 0int),
    ensures
        placement_fits(parent, host),
{
}

/// Where to move the wallpaper window so that its client area covers the desktop
/// window's client area, and the size of that area; an empty desktop area is refused.
pub fn host_placement(parent: &Rect, host: &WindowRects) -> (r: Result<(Placement, Size), ShellError>)
    requires
        placement_fits(*parent, *host),
    ensures
        match spec_rect_size(*parent) {
            Some((width, height)) => r matches Ok((p, size)) && size.width == width && size.height
                == height && (p.x as int, p.y as int, p.width as int, p.height as int)
                == spec_placement(width, height, *host),
            None => r matches Err(ShellError::InvalidParentSize),
        },
{
    let size = match rect_size(parent) {
        Ok(size) => size,
        Err(e) => return Err(e),
    };
    let frame_left = host.client.left - host.window.left;
    let frame_top = host.client.top - host.window.top;
    let frame_right = host.window.right - host.client.right;
    let frame_bottom = host.window.bottom - host.client.bottom;
    let width = size.width as i32 + frame_left + frame_right;
    let height = size.height as i32 + frame_top + frame_bottom;
    Ok((Placement { x: -frame_left, y: -frame_top, width, height }, size))
}

/// Checks that the wallpaper's client area, read after the move, is the desktop's.
pub fn check_fit(fitted_client: &Rect, parent_client: &Rect) -> (r: Result<(), ShellError>)
    ensures
        *fitted_client == *parent_client ==> r is Ok,
        *fitted_client != *parent_client ==> r matches Err(ShellError::ClientMismatch),
{
    if fitted_client.left == parent_client.left && fitted_client.top == parent_client.top
        && fitted_client.right == parent_client.right && fitted_client.bottom
        == parent_client.bottom {
        Ok(())
    } else {
        Err(ShellError::ClientMismatch)
    }
}

/// The client rectangle, in the parent's client coordinates, of a window moved to
/// `(x, y)` with outer size `(w, h)` and the given frame widths.
pub open spec fn client_after_move(
    placement: (int, int, int, int),
    frame: (int, int, int, int),
) -> (int, int, int, int) {
    let (x, y, w, h) = placement;
    let (fl, ft, fr, fb) = frame;
    (x + fl, y + ft, x + w - fr, y + h - fb)
}

/// When the move keeps the window's frame widths, the placement puts its client area
/// exactly over the parent's client area: from the parent's client origin to its width
/// and height.
pub proof fn placement_covers_parent(width: int, height: int, host: WindowRects)
    ensures
        client_after_move(spec_placement(width, height, host), frames(host)) == (
            0int,
            0int,
            width,
            height,
        ),
{
}

/// Windows found on the desktop, by handle value; zero is no window.
pub struct DesktopSearch {
    pub target_workerw: Option<usize>,
}

impl DesktopSearch {
    /// A search that has found nothing yet.
    pub fn new() -> (r: DesktopSearch)
        ensures
            r.target_workerw is None,
    {
        DesktopSearch { target_workerw: None }
    }

    /// Looks at one top-level window: when it holds the shell view and a `WorkerW`
    /// window follows it, that `WorkerW` is the target and the search stops.
    /// Returns whether the enumeration goes on.
    pub fn visit(&mut self, has_shell_view: bool, next_workerw: usize) -> (go_on: bool)
        ensures
            has_shell_view && next_workerw != 0 ==> final(self).target_workerw == Some(
                next_workerw,
            ) && !go_on,
            !(has_shell_view && next_workerw != 0) ==> *final(self) == *old(self) && go_on,
    {
        if has_shell_view && next_workerw != 0 {
            self.target_workerw = Some(next_workerw);
            false
        } else {
            true
        }
    }
}

/// The window the wallpaper is attached to: the `WorkerW` behind the icons where one was
/// found, else the program manager, else the desktop window.
pub fn choose_parent(found: Option<usize>, progman: usize, desktop: usize) -> (r: usize)
    ensures
        r == match found {
            Some(workerw) if workerw != 0 => workerw,
            _ => if progman != 0 {
                progman
            } else {
                desktop
            },
        },
{
    match found {
        Some(workerw) if workerw != 0 => workerw,
        _ => if progman != 0 {
            progman
        } else {
            desktop
        },
    }
}

/// The area of a monitor: its position and its size in pixels.
pub struct MonitorArea {
    pub x: i32,
    pub y: i32,
    pub width: u32,
    pub height: u32,
}

/// The screen area the wallpaper window starts with.
pub struct Bounds {
    pub x: i32,
    pub y: i32,
    pub width: i32,
    pub height: i32,
}

/// The area of the primary monitor, else of the first monitor, else 1280 by 720 at the
/// origin. Sizes are converted to `i32` by a plain cast, as the windowing library's
/// sizes are.
pub fn screen_bounds(monitor: Option<MonitorArea>) -> (r: Bounds)
    ensures
        match monitor {
            Some(m) => r.x == m.x && r.y == m.y && r.width == m.width as i32 && r.height
                == m.height as i32,
            None => r.x == 0 && r.y == 0 && r.width == 1280 && r.height == 720,
        },
{
    match monitor {
        Some(m) => Bounds { x: m.x, y: m.y, width: m.width as i32, height: m.height as i32 },
        None => Bounds { x: 0, y: 0, width: 1280, height: 720 },
    }
}

impl Bounds {
    /// The window size these bounds give, each side cast back to `u32`.
    pub fn size(&self) -> (r: Size)
        ensures
            r.width == self.width as u32,
            r.height == self.height as u32,
    {
        Size { width: self.width as u32, height: self.height as u32 }
    }
}

} // verus!
