//! Integer screen geometry of the overlay: which thumbnails are on screen,
//! where each window's label goes, where the zoom indicator goes, and the size
//! of the pixel buffers the screen capture reads.
use vstd::prelude::*;

verus! {

/// A rectangle in screen pixels; `right` and `bottom` are exclusive.
#[derive(Debug, Clone, Copy, PartialEq, Eq, Structural)]
pub struct Rect {
    pub left: i32,
    pub top: i32,
    pub right: i32,
    pub bottom: i32,
}

/// Whether a value fits in an `i32`.
pub open spec fn fits_i32(x: int) -> bool {
    i32::MIN <= x <= i32::MAX
}

/// Half of `x`, rounded toward zero (Rust's `x / 2` on signed integers).
pub open spec fn half_toward_zero(x: int) -> int {
    if x >= 0 {
        x / 2
    } else {
        -((-x) / 2)
    }
}

/// Whether a thumbnail placed at `r` shows at least partly on a screen of
/// `screen_w` by `screen_h` pixels.
pub open spec fn on_screen(r: Rect, screen_w: int, screen_h: int) -> bool {
    r.right > 0 && r.bottom > 0 && r.left < screen_w && r.top < screen_h
}

/// Whether a thumbnail placed at `r` shows at least partly on the screen.
pub fn rect_on_screen(r: Rect, screen_w: i32, screen_h: i32) -> (b: bool)
    ensures
        b == on_screen(r, screen_w as int, screen_h as int),
{
    r.right > 0 && r.bottom > 0 && r.left < screen_w && r.top < screen_h
}

/// What to do with one registered thumbnail when the canvas is redrawn.
#[derive(Debug, Clone, Copy, PartialEq, Eq, Structural)]
pub enum ThumbnailUpdate {
    /// Show thumbnail `thumb` at `rect`.
    Show { thumb: usize, rect: Rect },
    /// Hide thumbnail `thumb`, which lies wholly off screen.
    Hide { thumb: usize },
}

/// The update for one laid-out window, given its thumbnail index and its
/// screen rectangle: none when the index names no registered thumbnail.
pub open spec fn update_for(
    target: (usize, Rect),
    thumb_count: int,
    screen_w: int,
    screen_h: int,
) -> Option<ThumbnailUpdate> {
    if target.0 < thumb_count {
        if on_screen(target.1, screen_w, screen_h) {
            Some(ThumbnailUpdate::Show { thumb: target.0, rect: target.1 })
        } else {
            Some(ThumbnailUpdate::Hide { thumb: target.0 })
        }
    } else {
        None
    }
}

/// The updates for a row of laid-out windows, in the row's order.
pub open spec fn planned_updates(
    targets: Seq<(usize, Rect)>,
    thumb_count: int,
    screen_w: int,
    screen_h: int,
) -> Seq<ThumbnailUpdate>
    decreases targets.len(),
{
    if targets.len() == 0 {
        seq![]
    } else {
        let before = planned_updates(targets.drop_last(), thumb_count, screen_w, screen_h);
        match update_for(targets.last(), thumb_count, screen_w, screen_h) {
            Some(u) => before.push(u),
            None => before,
        }
    }
}

/// The thumbnail updates for the laid-out windows: each `(thumbnail index,
/// screen rectangle)` whose index names a registered thumbnail yields a show
/// when the rectangle touches the screen and a hide otherwise.
pub fn plan_thumbnail_updates(
    targets: &Vec<(usize, Rect)>,
    thumb_count: usize,
    screen_w: i32,
    screen_h: i32,
) -> (r: Vec<ThumbnailUpdate>)
    ensures
        r@ == planned_updates(targets@, thumb_count as int, screen_w as int, screen_h as int),
{
    let mut out: Vec<ThumbnailUpdate> = Vec::new();
    let mut i: usize = 0;
    while i < targets.len()
        invariant
            i <= targets@.len(),
            out@ == planned_updates(
                targets@.take(i as int),
                thumb_count as int,
                screen_w as int,
                screen_h as int,
            ),
        decreases targets@.len() - i,
    {
        let (thumb, rect) = targets[i];
        assert(targets@.take(i + 1).drop_last() =~= targets@.take(i as int));
        assert(targets@.take(i + 1).last() == targets@[i as int]);
        if thumb < thumb_count {
            if rect_on_screen(rect, screen_w, screen_h) {
                out.push(ThumbnailUpdate::Show { thumb, rect });
            } else {
                out.push(ThumbnailUpdate::Hide { thumb });
            }
        }
        i = i + 1;
    }
    assert(targets@.take(targets@.len() as int) =~= targets@);
    out
}

/// Every update names a registered thumbnail, and every registered thumbnail
/// of the row gets exactly the update its rectangle calls for.
pub proof fn lemma_planned_updates_sound(
    targets: Seq<(usize, Rect)>,
    thumb_count: int,
    screen_w: int,
    screen_h: int,
)
    ensures
        forall|j: int|
            0 <= j < planned_updates(targets, thumb_count, screen_w, screen_h).len() ==> match
                #[trigger] planned_updates(targets, thumb_count, screen_w, screen_h)[j] {
                ThumbnailUpdate::Show { thumb, rect } => thumb < thumb_count && on_screen(
                    rect,
                    screen_w,
                    screen_h,
                ),
                ThumbnailUpdate::Hide { thumb } => thumb < thumb_count,
            },
        planned_updates(targets, thumb_count, screen_w, screen_h).len() <= targets.len(),
    decreases targets.len(),
{
    if targets.len() > 0 {
        lemma_planned_updates_sound(targets.drop_last(), thumb_count, screen_w, screen_h);
    }
}

/// For every window of the row whose thumbnail is registered, the plan holds
/// a show of that thumbnail at the window's rectangle when the rectangle
/// touches the screen (any part of it right of and below the top-left
/// corner, and left of and above the far edges), and a hide otherwise; every
/// show in the plan is of a rectangle that touches the screen.
pub proof fn lemma_planned_updates_complete(
    targets: Seq<(usize, Rect)>,
    thumb_count: int,
    screen_w: int,
    screen_h: int,
)
    ensures
        forall|i: int|
            0 <= i < targets.len() && (#[trigger] targets[i]).0 < thumb_count ==> {
                let t = targets[i];
                let touches = t.1.right > 0 && t.1.bottom > 0 && t.1.left < screen_w && t.1.top
                    < screen_h;
                exists|j: int|
                    0 <= j < planned_updates(targets, thumb_count, screen_w, screen_h).len()
                        && #[trigger] planned_updates(targets, thumb_count, screen_w, screen_h)[j]
                        == (if touches {
                        ThumbnailUpdate::Show { thumb: t.0, rect: t.1 }
                    } else {
                        ThumbnailUpdate::Hide { thumb: t.0 }
                    })
            },
        forall|j: int|
            0 <= j < planned_updates(targets, thumb_count, screen_w, screen_h).len() ==> (
            #[trigger] planned_updates(targets, thumb_count, screen_w, screen_h)[j] matches ThumbnailUpdate::Show {
                thumb,
                rect,
            } ==> thumb < thumb_count && rect.right > 0 && rect.bottom > 0 && rect.left < screen_w
                && rect.top < screen_h),
    decreases targets.len(),
{
    lemma_planned_updates_sound(targets, thumb_count, screen_w, screen_h);
    if targets.len() > 0 {
        let before_t = targets.drop_last();
        let before = planned_updates(before_t, thumb_count, screen_w, screen_h);
        let all = planned_updates(targets, thumb_count, screen_w, screen_h);
        lemma_planned_updates_complete(before_t, thumb_count, screen_w, screen_h);
        assert(before.len() <= all.len());
        assert forall|j: int| 0 <= j < before.len() implies all[j] == before[j] by {}
        assert forall|i: int|
            0 <= i < targets.len() && (#[trigger] targets[i]).0 < thumb_count implies {
            let t = targets[i];
            let touches = t.1.right > 0 && t.1.bottom > 0 && t.1.left < screen_w && t.1.top
                < screen_h;
            exists|j: int|
                0 <= j < all.len() && #[trigger] all[j] == (if touches {
                    ThumbnailUpdate::Show { thumb: t.0, rect: t.1 }
                } else {
                    ThumbnailUpdate::Hide { thumb: t.0 }
                })
        } by {
            let t = targets[i];
            let touches = t.1.right > 0 && t.1.bottom > 0 && t.1.left < screen_w && t.1.top
                < screen_h;
            let want = if touches {
                ThumbnailUpdate::Show { thumb: t.0, rect: t.1 }
            } else {
                ThumbnailUpdate::Hide { thumb: t.0 }
            };
            if i < targets.len() - 1 {
                assert(before_t[i] == t);
                let j = choose|j: int| 0 <= j < before.len() && #[trigger] before[j] == want;
                assert(all[j] == want);
            } else {
                assert(t == targets.last());
                assert(all == before.push(want));
                assert(all[before.len() as int] == want);
            }
        }
    }
}

/// Side of the application icon drawn in a label.
pub const LABEL_ICON_SIZE: i32 = 20;
/// Gap between a label's icon and its text.
pub const LABEL_ICON_SPACING: i32 = 6;
/// Horizontal padding inside a label's pill.
pub const LABEL_PAD_X: i32 = 14;
/// Height of a label's pill.
pub const LABEL_PILL_HEIGHT: i32 = 32;
/// Distance from the bottom of a thumbnail to the top of its label.
pub const LABEL_GAP: i32 = 30;

/// Where the parts of one window's label are drawn.
#[derive(Debug, Clone, Copy, PartialEq, Eq, Structural)]
pub struct LabelLayout {
    /// Left edge of the icon-and-text group, centred under the thumbnail.
    pub start_x: i32,
    /// Left edge of the pill behind the label.
    pub pill_x: i32,
    /// Top edge of the pill.
    pub pill_y: i32,
    /// Width of the pill.
    pub pill_w: i32,
    /// Height of the pill.
    pub pill_h: i32,
    /// Top edge of the icon.
    pub icon_y: i32,
    /// Left edge of the text.
    pub text_x: i32,
    /// Width of the box the text is drawn in (at least one pixel).
    pub text_box_w: i32,
}

/// Width of the icon-and-text group of a label.
pub open spec fn group_width(text_width: int, has_icon: bool) -> int {
    if has_icon {
        text_width + LABEL_ICON_SIZE + LABEL_ICON_SPACING
    } else {
        text_width
    }
}

/// Left edge of the group, centred under the thumbnail at `r`.
pub open spec fn group_start(r: Rect, text_width: int, has_icon: bool) -> int {
    r.left + half_toward_zero(r.right - r.left - group_width(text_width, has_icon))
}

/// Left edge of the text of a label.
pub open spec fn text_left(r: Rect, text_width: int, has_icon: bool) -> int {
    if has_icon {
        group_start(r, text_width, has_icon) + LABEL_ICON_SIZE + LABEL_ICON_SPACING
    } else {
        group_start(r, text_width, has_icon)
    }
}

/// The layout of the label under the thumbnail at `r` whose text measures
/// `text_width` pixels.
pub open spec fn label_layout_of(r: Rect, text_width: int, has_icon: bool) -> LabelLayout {
    let start = group_start(r, text_width, has_icon);
    let text_x = text_left(r, text_width, has_icon);
    let pill_y = r.bottom + LABEL_GAP;
    LabelLayout {
        start_x: start as i32,
        pill_x: (start - LABEL_PAD_X) as i32,
        pill_y: pill_y as i32,
        pill_w: (group_width(text_width, has_icon) + 2 * LABEL_PAD_X) as i32,
        pill_h: LABEL_PILL_HEIGHT,
        icon_y: (pill_y + (LABEL_PILL_HEIGHT - LABEL_ICON_SIZE) / 2) as i32,
        text_x: text_x as i32,
        text_box_w: (if r.right - text_x >= 1 {
            r.right - text_x
        } else {
            1
        }) as i32,
    }
}

/// Whether every intermediate value of the label layout fits in an `i32`,
/// which the layout needs to be computed without overflow.
pub open spec fn label_layout_fits(r: Rect, text_width: int, has_icon: bool) -> bool {
    let g = group_width(text_width, has_icon);
    let start = group_start(r, text_width, has_icon);
    let text_x = text_left(r, text_width, has_icon);
    &&& fits_i32(g)
    &&& fits_i32(r.right - r.left)
    &&& fits_i32(r.right - r.left - g)
    &&& fits_i32(start)
    &&& fits_i32(start - LABEL_PAD_X)
    &&& fits_i32(g + 2 * LABEL_PAD_X)
    &&& fits_i32(r.bottom + LABEL_GAP)
    &&& fits_i32(r.bottom + LABEL_GAP + (LABEL_PILL_HEIGHT - LABEL_ICON_SIZE) / 2)
    &&& fits_i32(text_x)
    &&& fits_i32(r.right - text_x)
}

/// Lay out the label (pill, icon and title) under the thumbnail at `r`,
/// centring the icon-and-text group under it.
pub fn label_layout(r: Rect, text_width: i32, has_icon: bool) -> (l: LabelLayout)
    requires
        label_layout_fits(r, text_width as int, has_icon),
    ensures
        l == label_layout_of(r, text_width as int, has_icon),
{
    let total: i32 = if has_icon {
        text_width + LABEL_ICON_SIZE + LABEL_ICON_SPACING
    } else {
        text_width
    };
    let start_x: i32 = r.left + (r.right - r.left - total) / 2;
    let pill_y: i32 = r.bottom + LABEL_GAP;
    let text_x: i32 = if has_icon {
        start_x + LABEL_ICON_SIZE + LABEL_ICON_SPACING
    } else {
        start_x
    };
    let room: i32 = r.right - text_x;
    LabelLayout {
        start_x,
        pill_x: start_x - LABEL_PAD_X,
        pill_y,
        pill_w: total + LABEL_PAD_X * 2,
        pill_h: LABEL_PILL_HEIGHT,
        icon_y: pill_y + (LABEL_PILL_HEIGHT - LABEL_ICON_SIZE) / 2,
        text_x,
        text_box_w: if room >= 1 {
            room
        } else {
            1
        },
    }
}

/// The pill of a label is centred under its thumbnail (to within half a
/// pixel) and wraps the icon-and-text group with the same padding on both
/// sides.
pub proof fn lemma_label_centred(r: Rect, text_width: int, has_icon: bool)
    requires
        label_layout_fits(r, text_width, has_icon),
    ensures
        ({
            let l = label_layout_of(r, text_width, has_icon);
            let gap_left = l.pill_x - r.left;
            let gap_right = r.right - (l.pill_x + l.pill_w);
            &&& l.start_x - l.pill_x == LABEL_PAD_X
            &&& (l.pill_x + l.pill_w) - (l.start_x + group_width(text_width, has_icon))
                == LABEL_PAD_X
            &&& -1 <= gap_right - gap_left <= 1
        }),
{
}

/// Where the zoom percentage is drawn: the bottom-right corner of the screen.
pub fn zoom_indicator_rect(screen_w: i32, screen_h: i32) -> (r: Rect)
    requires
        screen_w >= i32::MIN + 120,
        screen_h >= i32::MIN + 40,
    ensures
        r == (Rect {
            left: (screen_w - 120) as i32,
            top: (screen_h - 40) as i32,
            right: (screen_w - 10) as i32,
            bottom: (screen_h - 10) as i32,
        }),
{
    Rect { left: screen_w - 120, top: screen_h - 40, right: screen_w - 10, bottom: screen_h - 10 }
}

/// Bytes in a 32-bit-per-pixel image of `width` by `height` pixels.
pub fn dib_buffer_len(width: i32, height: i32) -> (n: usize)
    requires
        width >= 0,
        height >= 0,
        width * height * 4 <= i32::MAX,
    ensures
        n == width * height * 4,
{
    assert(0 <= width * height) by (nonlinear_arith)
        requires
            width >= 0,
            height >= 0,
    ;
    (width * height * 4) as usize
}

/// Bytes in one row of a 32-bit-per-pixel image `width` pixels wide.
pub fn dib_row_pitch(width: i32) -> (n: u32)
    requires
        0 <= width <= i32::MAX / 4,
    ensures
        n == width * 4,
{
    (width * 4) as u32
}

/// `DWM_TNP_RECTDESTINATION`: the thumbnail's destination rectangle is set.
pub const DWM_TNP_RECTDESTINATION: u32 = 0x1;
/// `DWM_TNP_OPACITY`: the thumbnail's opacity is set.
pub const DWM_TNP_OPACITY: u32 = 0x4;
/// `DWM_TNP_VISIBLE`: the thumbnail's visibility is set.
pub const DWM_TNP_VISIBLE: u32 = 0x8;
/// `DWM_TNP_SOURCECLIENTAREAONLY`: whether only the client area is shown is set.
pub const DWM_TNP_SOURCECLIENTAREAONLY: u32 = 0x10;

/// The properties a thumbnail update sets: visibility, destination and
/// opacity always, and the client-area-only switch when it is asked for.
pub fn thumbnail_update_flags(client_area_only: bool) -> (f: u32)
    ensures
        f == (if client_area_only {
            DWM_TNP_VISIBLE + DWM_TNP_RECTDESTINATION + DWM_TNP_OPACITY + DWM_TNP_SOURCECLIENTAREAONLY
        } else {
            DWM_TNP_VISIBLE + DWM_TNP_RECTDESTINATION + DWM_TNP_OPACITY
        }),
{
    let base: u32 = DWM_TNP_VISIBLE | DWM_TNP_RECTDESTINATION | DWM_TNP_OPACITY;
    assert(0x8u32 | 0x1u32 | 0x4u32 == 0xDu32) by (bit_vector);
    assert(0xDu32 | 0x10u32 == 0x1Du32) by (bit_vector);
    if client_area_only {
        base | DWM_TNP_SOURCECLIENTAREAONLY
    } else {
        base
    }
}

} // verus!
