//! Which top-level windows the canvas offers, and the thumbnails it lays out
//! for them.
use vstd::prelude::*;
use crate::text::{decode_utf16_lossy, decode_utf16_lossy_prefix, is_blank, is_blank_text};

verus! {

/// `WS_CHILD`: the window is a child window.
pub const WS_CHILD: u32 = 0x4000_0000;
/// `WS_EX_TOOLWINDOW`: the window is a floating toolbar.
pub const WS_EX_TOOLWINDOW: u32 = 0x0000_0080;
/// `WS_EX_NOACTIVATE`: the window never becomes the foreground window.
pub const WS_EX_NOACTIVATE: u32 = 0x0800_0000;

/// A window the canvas can show, with its handles as plain numbers.
#[derive(Debug, Clone)]
pub struct WindowInfo {
    /// The window handle.
    pub hwnd: isize,
    /// The window title.
    pub title: String,
    /// The window's icon handle (zero for none).
    pub icon: isize,
}

/// What the window system reports about a top-level window before its title
/// is read.
#[derive(Debug, Clone, Copy, PartialEq, Eq, Structural)]
pub struct WindowProbe {
    /// Whether the window is visible.
    pub visible: bool,
    /// The window style (`GWL_STYLE`).
    pub style: i32,
    /// The extended window style (`GWL_EXSTYLE`).
    pub ex_style: i32,
    /// The title length in UTF-16 units.
    pub title_len: i32,
    /// The cloaked attribute, when the query for it succeeded.
    pub cloaked: Option<u32>,
}

/// Whether bit `mask` (a single bit) is set in the 32-bit pattern of `v`.
pub open spec fn has_bit(v: i32, mask: u32) -> bool {
    ((v as u32) as int / mask as int) % 2 == 1
}

/// Whether a probed window may be offered: it is visible, not a child, not a
/// tool window, not a window that refuses activation, has a non-empty title,
/// and is not cloaked (hidden apps, windows on other virtual desktops).
pub open spec fn admits(p: WindowProbe) -> bool {
    &&& p.visible
    &&& !has_bit(p.style, WS_CHILD)
    &&& !has_bit(p.ex_style, WS_EX_TOOLWINDOW)
    &&& !has_bit(p.ex_style, WS_EX_NOACTIVATE)
    &&& p.title_len != 0
    &&& !(p.cloaked matches Some(c) && c != 0)
}

/// Whether a probed window may be offered (see `admits`); its title is read
/// only when it may.
pub fn admits_window(p: &WindowProbe) -> (b: bool)
    ensures
        b == admits(*p),
{
    let style = p.style as u32;
    let ex_style = p.ex_style as u32;
    assert((style & 0x4000_0000 != 0) == ((style as int / 0x4000_0000) % 2 == 1)) by (bit_vector);
    assert((ex_style & 0x80 != 0) == ((ex_style as int / 0x80) % 2 == 1)) by (bit_vector);
    assert((ex_style & 0x0800_0000 != 0) == ((ex_style as int / 0x0800_0000) % 2 == 1))
        by (bit_vector);
    if !p.visible {
        return false;
    }
    if style & WS_CHILD != 0 {
        return false;
    }
    if ex_style & WS_EX_TOOLWINDOW != 0 {
        return false;
    }
    if ex_style & WS_EX_NOACTIVATE != 0 {
        return false;
    }
    if p.title_len == 0 {
        return false;
    }
    match p.cloaked {
        Some(c) => c == 0,
        None => true,
    }
}

/// A probe is admitted exactly when the window is visible, its style word has
/// no `WS_CHILD` bit, its extended style word has neither the
/// `WS_EX_TOOLWINDOW` nor the `WS_EX_NOACTIVATE` bit, its title is not empty,
/// and it is not reported cloaked; no other bit of either word matters.
pub proof fn lemma_admits_law(p: WindowProbe)
    ensures
        admits(p) <==> (p.visible && (p.style as u32) & WS_CHILD == 0 && (p.ex_style as u32)
            & WS_EX_TOOLWINDOW == 0 && (p.ex_style as u32) & WS_EX_NOACTIVATE == 0 && p.title_len
            != 0 && match p.cloaked {
            Some(c) => c == 0,
            None => true,
        }),
{
    let style = p.style as u32;
    let ex_style = p.ex_style as u32;
    assert((style & 0x4000_0000 != 0) == ((style as int / 0x4000_0000) % 2 == 1)) by (bit_vector);
    assert((ex_style & 0x80 != 0) == ((ex_style as int / 0x80) % 2 == 1)) by (bit_vector);
    assert((ex_style & 0x0800_0000 != 0) == ((ex_style as int / 0x0800_0000) % 2 == 1))
        by (bit_vector);
}

/// Units of the buffer a title of `title_len` units is read into: the title
/// and its terminating null.
pub fn title_buffer_len(title_len: i32) -> (n: usize)
    requires
        0 <= title_len < i32::MAX,
    ensures
        n == title_len + 1,
{
    (title_len + 1) as usize
}

/// The title read into `buf`, of which the window system filled the first
/// `copied` units, decoded with every unpaired surrogate replaced; `None` when
/// the title is nothing but white space.
pub fn read_title(buf: &[u16], copied: i32) -> (r: Option<String>)
    requires
        0 <= copied <= buf@.len(),
    ensures
        ({
            let title = decode_utf16_lossy(buf@.take(copied as int));
            &&& is_blank_text(title) ==> r is None
            &&& !is_blank_text(title) ==> (r matches Some(t) && t@ == title)
        }),
{
    let title = decode_utf16_lossy_prefix(buf, copied as usize);
    if is_blank(title.as_str()) {
        None
    } else {
        Some(title)
    }
}

/// The icon shown for a window: the one the application reports, or the
/// window class's icon when the application reports none.
pub fn pick_icon(app_icon: isize, class_icon: usize) -> (r: isize)
    ensures
        r == (if app_icon != 0 {
            app_icon
        } else {
            class_icon as isize
        }),
{
    if app_icon != 0 {
        app_icon
    } else {
        class_icon as isize
    }
}

/// A window laid out on the canvas, with the index of its thumbnail.
#[derive(Debug, Clone)]
pub struct SourceInfo {
    /// Index of the window's thumbnail among the registered thumbnails.
    pub thumb_index: usize,
    /// Width of the window, as the thumbnail source reports it.
    pub width: i32,
    /// Height of the window, as the thumbnail source reports it.
    pub height: i32,
    /// The window title.
    pub title: String,
    /// The window's icon handle.
    pub icon: isize,
}

/// Whether the canvas registers a thumbnail for window `w`: every window but
/// the canvas itself.
pub open spec fn wants_thumbnail_of(w: WindowInfo, canvas_hwnd: isize) -> bool {
    w.hwnd != canvas_hwnd
}

/// Whether the canvas registers a thumbnail for window `w`.
pub fn wants_thumbnail(w: &WindowInfo, canvas_hwnd: isize) -> (b: bool)
    ensures
        b == wants_thumbnail_of(*w, canvas_hwnd),
{
    w.hwnd != canvas_hwnd
}

/// Positions, in `windows`, of the windows whose thumbnail was registered
/// (`registered[k]` holds the source size of window `k` on success).
pub open spec fn registered_positions(
    windows: Seq<WindowInfo>,
    canvas_hwnd: isize,
    registered: Seq<Option<(i32, i32)>>,
) -> Seq<int>
    decreases windows.len(),
{
    if windows.len() == 0 {
        seq![]
    } else {
        let k = windows.len() - 1;
        let before = registered_positions(windows.drop_last(), canvas_hwnd, registered);
        if wants_thumbnail_of(windows[k], canvas_hwnd) && registered[k] is Some {
            before.push(k)
        } else {
            before
        }
    }
}

/// Every listed window other than the canvas whose thumbnail registered is
/// laid out, whatever its title or icon: its position is among the chosen
/// ones, and no other position is.
pub proof fn lemma_registered_positions_complete(
    windows: Seq<WindowInfo>,
    canvas_hwnd: isize,
    registered: Seq<Option<(i32, i32)>>,
)
    ensures
        forall|w: WindowInfo| w.hwnd != canvas_hwnd ==> #[trigger] wants_thumbnail_of(w, canvas_hwnd),
        forall|k: int|
            0 <= k < windows.len() ==> (registered_positions(
                windows,
                canvas_hwnd,
                registered,
            ).contains(k) <==> (windows[k].hwnd != canvas_hwnd && registered[k] is Some)),
    decreases windows.len(),
{
    if windows.len() > 0 {
        let before = registered_positions(windows.drop_last(), canvas_hwnd, registered);
        let last = windows.len() - 1;
        lemma_registered_positions_complete(windows.drop_last(), canvas_hwnd, registered);
        lemma_registered_positions_bounds(windows.drop_last(), canvas_hwnd, registered);
        let all = registered_positions(windows, canvas_hwnd, registered);
        assert forall|k: int| 0 <= k < windows.len() implies (all.contains(k) <==> (
        windows[k].hwnd != canvas_hwnd && registered[k] is Some)) by {
            if k < last {
                assert(windows.drop_last()[k] == windows[k]);
                if before.contains(k) {
                    let j = choose|j: int| 0 <= j < before.len() && before[j] == k;
                    if all != before {
                        assert(all == before.push(last));
                        assert(all[j] == k);
                    }
                }
                if all.contains(k) {
                    let j = choose|j: int| 0 <= j < all.len() && all[j] == k;
                    if all != before {
                        assert(all == before.push(last));
                        if j == before.len() {
                            assert(false);
                        } else {
                            assert(before[j] == k);
                        }
                    }
                }
            } else {
                if windows[k].hwnd != canvas_hwnd && registered[k] is Some {
                    assert(all == before.push(last));
                    assert(all[before.len() as int] == k);
                } else {
                    assert(all == before);
                    if all.contains(k) {
                        let j = choose|j: int| 0 <= j < all.len() && all[j] == k;
                        assert(before[j] < windows.drop_last().len());
                    }
                }
            }
        }
    }
}

/// The positions are increasing window positions.
proof fn lemma_registered_positions_bounds(
    windows: Seq<WindowInfo>,
    canvas_hwnd: isize,
    registered: Seq<Option<(i32, i32)>>,
)
    ensures
        registered_positions(windows, canvas_hwnd, registered).len() <= windows.len(),
        forall|j: int|
            0 <= j < registered_positions(windows, canvas_hwnd, registered).len() ==> 0
                <= #[trigger] registered_positions(windows, canvas_hwnd, registered)[j]
                < windows.len(),
    decreases windows.len(),
{
    if windows.len() > 0 {
        lemma_registered_positions_bounds(windows.drop_last(), canvas_hwnd, registered);
    }
}

/// Only windows whose thumbnail was registered are laid out, the canvas's
/// own window never is, and they keep the order in which they were listed.
pub proof fn lemma_sources_are_registered_windows(
    windows: Seq<WindowInfo>,
    canvas_hwnd: isize,
    registered: Seq<Option<(i32, i32)>>,
)
    ensures
        forall|j: int|
            0 <= j < registered_positions(windows, canvas_hwnd, registered).len() ==> {
                let k = #[trigger] registered_positions(windows, canvas_hwnd, registered)[j];
                &&& windows[k].hwnd != canvas_hwnd
                &&& registered[k] is Some
            },
        forall|i: int, j: int|
            0 <= i < j < registered_positions(windows, canvas_hwnd, registered).len() ==> (
            #[trigger] registered_positions(windows, canvas_hwnd, registered)[i]) < (
            #[trigger] registered_positions(windows, canvas_hwnd, registered)[j]),
    decreases windows.len(),
{
    if windows.len() > 0 {
        let before = registered_positions(windows.drop_last(), canvas_hwnd, registered);
        lemma_sources_are_registered_windows(windows.drop_last(), canvas_hwnd, registered);
        lemma_registered_positions_bounds(windows.drop_last(), canvas_hwnd, registered);
        assert forall|j: int| 0 <= j < before.len() implies windows[#[trigger] before[j]]
            == windows.drop_last()[before[j]] by {}
    }
}

/// The windows to lay out, in order, for those whose thumbnail was
/// registered; the `j`-th of them uses the `j`-th registered thumbnail.
pub fn build_sources(
    windows: &Vec<WindowInfo>,
    canvas_hwnd: isize,
    registered: &Vec<Option<(i32, i32)>>,
) -> (r: Vec<SourceInfo>)
    requires
        windows@.len() == registered@.len(),
    ensures
        ({
            let pos = registered_positions(windows@, canvas_hwnd, registered@);
            &&& r@.len() == pos.len()
            &&& forall|j: int|
                0 <= j < r@.len() ==> {
                    let w = windows@[pos[j]];
                    let size = registered@[pos[j]]->Some_0;
                    &&& (#[trigger] r@[j]).thumb_index == j
                    &&& r@[j].title@ == w.title@
                    &&& r@[j].icon == w.icon
                    &&& r@[j].width == size.0
                    &&& r@[j].height == size.1
                }
        }),
{
    let mut out: Vec<SourceInfo> = Vec::new();
    let mut i: usize = 0;
    while i < windows.len()
        invariant
            i <= windows@.len(),
            windows@.len() == registered@.len(),
            ({
                let pos = registered_positions(windows@.take(i as int), canvas_hwnd, registered@);
                &&& out@.len() == pos.len()
                &&& forall|j: int|
                    0 <= j < out@.len() ==> {
                        let w = windows@[pos[j]];
                        let size = registered@[pos[j]]->Some_0;
                        &&& (#[trigger] out@[j]).thumb_index == j
                        &&& out@[j].title@ == w.title@
                        &&& out@[j].icon == w.icon
                        &&& out@[j].width == size.0
                        &&& out@[j].height == size.1
                    }
            }),
        decreases windows@.len() - i,
    {
        let ghost prefix = windows@.take(i as int);
        let ghost next = windows@.take(i + 1);
        assert(next.drop_last() =~= prefix);
        assert(next[i as int] == windows@[i as int]);
        let ghost old_out = out@;
        let ghost pos = registered_positions(prefix, canvas_hwnd, registered@);
        proof {
            lemma_registered_positions_bounds(prefix, canvas_hwnd, registered@);
        }
        if wants_thumbnail(&windows[i], canvas_hwnd) {
            match registered[i] {
                Some((width, height)) => {
                    let w = &windows[i];
                    out.push(
                        SourceInfo {
                            thumb_index: out.len(),
                            width,
                            height,
                            title: w.title.clone(),
                            icon: w.icon,
                        },
                    );
                    assert(registered_positions(next, canvas_hwnd, registered@) == pos.push(
                        i as int,
                    ));
                    assert forall|j: int| 0 <= j < out@.len() implies {
                        let w = windows@[pos.push(i as int)[j]];
                        let size = registered@[pos.push(i as int)[j]]->Some_0;
                        &&& (#[trigger] out@[j]).thumb_index == j
                        &&& out@[j].title@ == w.title@
                        &&& out@[j].icon == w.icon
                        &&& out@[j].width == size.0
                        &&& out@[j].height == size.1
                    } by {
                        if j < old_out.len() {
                            assert(out@[j] == old_out[j]);
                            assert(pos.push(i as int)[j] == pos[j]);
                        }
                    }
                },
                None => {
                    assert(registered_positions(next, canvas_hwnd, registered@) == pos);
                },
            }
        } else {
            assert(registered_positions(next, canvas_hwnd, registered@) == pos);
        }
        i = i + 1;
    }
    assert(windows@.take(windows@.len() as int) =~= windows@);
    out
}

} // verus!
