//! Where the video tiles, the self view and the notice go on the call screen.
use crate::app_state::views;
use crate::text::{lemma_text_before_connected, lemma_text_before_irreflexive, lemma_text_before_transitive, text_before, text_is_before};
use crate::tui::{grid_dims, grid_dims_spec};
use vstd::prelude::*;

verus! {

/// A rectangle of terminal cells.
#[derive(Clone, Copy, Debug, PartialEq, Eq, Structural)]
pub struct Rect {
    pub x: u16,
    pub y: u16,
    pub width: u16,
    pub height: u16,
}

/// A rectangle at `(x, y)` whose size is cut so that it ends within the
/// coordinate range (what `ratatui::layout::Rect::new` does).
pub open spec fn rect_spec(x: u16, y: u16, width: u16, height: u16) -> Rect {
    Rect {
        x,
        y,
        width: if width > u16::MAX - x { (u16::MAX - x) as u16 } else { width },
        height: if height > u16::MAX - y { (u16::MAX - y) as u16 } else { height },
    }
}

/// `a + b`, or the largest `u16` when that does not fit.
pub open spec fn sat_add(a: u16, b: u16) -> u16 {
    if a + b > u16::MAX { u16::MAX } else { (a + b) as u16 }
}

/// `a - b`, or zero when that is negative.
pub open spec fn sat_sub(a: u16, b: u16) -> u16 {
    if a < b { 0 } else { (a - b) as u16 }
}

impl Rect {
    /// A rectangle, cut to end within the coordinate range.
    pub fn new(x: u16, y: u16, width: u16, height: u16) -> (r: Rect)
        ensures
            r == rect_spec(x, y, width, height),
    {
        let max_width = u16::MAX - x;
        let max_height = u16::MAX - y;
        Rect {
            x,
            y,
            width: if width > max_width { max_width } else { width },
            height: if height > max_height { max_height } else { height },
        }
    }

    /// The first column right of the rectangle.
    pub fn right(&self) -> (r: u16)
        ensures
            r == sat_add(self.x, self.width),
    {
        self.x.saturating_add(self.width)
    }

    /// The first row below the rectangle.
    pub fn bottom(&self) -> (r: u16)
        ensures
            r == sat_add(self.y, self.height),
    {
        self.y.saturating_add(self.height)
    }
}

/// The area inside a one-cell border.
pub open spec fn inner_spec(r: Rect) -> Rect {
    if r.width < 2 || r.height < 2 {
        Rect { x: 0, y: 0, width: 0, height: 0 }
    } else {
        Rect { x: sat_add(r.x, 1), y: sat_add(r.y, 1), width: (r.width - 2) as u16, height: (r.height - 2) as u16 }
    }
}

/// The part of a panel inside its one-cell border, where video is drawn.
pub fn inner_area(r: Rect) -> (a: Rect)
    ensures
        a == inner_spec(r),
{
    if r.width < 2 || r.height < 2 {
        Rect { x: 0, y: 0, width: 0, height: 0 }
    } else {
        Rect { x: r.x.saturating_add(1), y: r.y.saturating_add(1), width: r.width - 2, height: r.height - 2 }
    }
}

/// The self view shown alone in the middle of the video area, and the size of
/// the picture inside its border.
pub struct SelfView {
    pub rect: Rect,
    pub inner_width: u16,
    pub inner_height: u16,
}

/// Width and height of the lone self view: a third of the area's width (at
/// least 8) and half its height (at least 4).
pub open spec fn self_view_size(area: Rect) -> (u16, u16) {
    (
        if area.width / 3 > 8 { (area.width / 3) as u16 } else { 8 },
        if area.height / 2 > 4 { (area.height / 2) as u16 } else { 4 },
    )
}

/// Areas for which centring the lone self view runs out of the coordinate range.
pub open spec fn self_view_overflows(area: Rect) -> bool {
    let (tw, th) = self_view_size(area);
    ||| area.x + area.width / 2 > u16::MAX
    ||| area.x + area.width / 2 < tw / 2
    ||| area.y + area.height / 2 > u16::MAX
    ||| area.y + area.height / 2 < th / 2
}

/// Centres the self view in the video area while no remote video arrives.
pub fn self_view(area: Rect) -> (v: SelfView)
    requires
        !self_view_overflows(area),
    ensures
        ({
            let (tw, th) = self_view_size(area);
            &&& v.rect == rect_spec(
                (area.x + area.width / 2 - tw / 2) as u16,
                (area.y + area.height / 2 - th / 2) as u16,
                tw,
                th,
            )
            &&& v.inner_width == sat_sub(tw, 2)
            &&& v.inner_height == sat_sub(th, 2)
        }),
{
    let tw: u16 = if area.width / 3 > 8 { area.width / 3 } else { 8 };
    let th: u16 = if area.height / 2 > 4 { area.height / 2 } else { 4 };
    let cx = area.x + area.width / 2 - tw / 2;
    let cy = area.y + area.height / 2 - th / 2;
    SelfView {
        rect: Rect::new(cx, cy, tw, th),
        inner_width: tw.saturating_sub(2),
        inner_height: th.saturating_sub(2),
    }
}

/// How the remote videos are tiled.
pub struct TileGrid {
    pub cols: u32,
    pub rows: u32,
    pub tile_width: u32,
    pub tile_height: u32,
    pub inner_width: u16,
    pub inner_height: u16,
}

/// Lays out `n` remote videos in the video area: the grid from `grid_dims`,
/// tiles of an equal share of the area (at least 6 by 4 cells).
pub fn tile_grid(area: Rect, n: usize) -> (g: TileGrid)
    requires
        n as u128 <= crate::tui::MAX_GRID_STREAMS,
    ensures
        grid_dims_spec(n as int, g.cols as int, g.rows as int),
        g.tile_width == (if area.width as u32 / g.cols > 6 { area.width as u32 / g.cols } else { 6 }),
        g.tile_height == (if area.height as u32 / g.rows > 4 { area.height as u32 / g.rows } else { 4 }),
        g.inner_width == sat_sub(g.tile_width as u16, 2),
        g.inner_height == sat_sub(g.tile_height as u16, 2),
{
    let (cols, rows) = grid_dims(n);
    let w = area.width as u32 / cols;
    let h = area.height as u32 / rows;
    let tile_width: u32 = if w > 6 { w } else { 6 };
    let tile_height: u32 = if h > 4 { h } else { 4 };
    TileGrid {
        cols,
        rows,
        tile_width,
        tile_height,
        inner_width: (tile_width as u16).saturating_sub(2),
        inner_height: (tile_height as u16).saturating_sub(2),
    }
}

/// Column and row offsets of tile `i`.
pub open spec fn tile_offsets(g: TileGrid, i: usize) -> (u32, u32) {
    (((i as u32) % g.cols * g.tile_width) as u32, ((i as u32) / g.cols * g.tile_height) as u32)
}

/// The grids `tile_grid` produces for some number of streams.
pub open spec fn grid_ok(g: TileGrid) -> bool {
    &&& 1 <= g.cols
    &&& 1 <= g.rows
    &&& g.tile_width <= 65535
    &&& g.tile_height <= 65535
}

/// Tiles whose position runs out of the coordinate range.
pub open spec fn tile_overflows(area: Rect, g: TileGrid, i: usize) -> bool {
    let (ox, oy) = tile_offsets(g, i);
    ||| (i as u32) % g.cols * g.tile_width > u32::MAX
    ||| (i as u32) / g.cols * g.tile_height > u32::MAX
    ||| area.x + (ox as u16) > u16::MAX
    ||| area.y + (oy as u16) > u16::MAX
}

/// Where tile `i` goes, or `None` when it would not fit in the area.
pub fn tile_rect(area: Rect, g: &TileGrid, i: usize) -> (r: Option<Rect>)
    requires
        grid_ok(*g),
        !tile_overflows(area, *g, i),
    ensures
        ({
            let (ox, oy) = tile_offsets(*g, i);
            let t = rect_spec(
                (area.x + (ox as u16)) as u16,
                (area.y + (oy as u16)) as u16,
                g.tile_width as u16,
                g.tile_height as u16,
            );
            r == if sat_add(t.x, t.width) > sat_add(area.x, area.width) || sat_add(t.y, t.height) > sat_add(
                area.y,
                area.height,
            ) {
                None
            } else {
                Some(t)
            }
        }),
{
    #[verifier::truncate]
    let k = i as u32;
    let col = k % g.cols;
    let row = k / g.cols;
    let ox = col * g.tile_width;
    let oy = row * g.tile_height;
    let x = area.x + #[verifier::truncate] (ox as u16);
    let y = area.y + #[verifier::truncate] (oy as u16);
    let t = Rect::new(x, y, g.tile_width as u16, g.tile_height as u16);
    if t.right() > area.right() || t.bottom() > area.bottom() {
        None
    } else {
        Some(t)
    }
}


/// Size of the picture-in-picture self view: a third of a tile (at least 4 by 2).
pub open spec fn pip_size(g: TileGrid) -> (u16, u16) {
    (
        (if g.tile_width / 3 > 4 { g.tile_width / 3 } else { 4 }) as u16,
        (if g.tile_height / 3 > 2 { g.tile_height / 3 } else { 2 }) as u16,
    )
}

/// Where the picture-in-picture self view goes: the top right corner of the
/// video area, one cell in; `None` when it would not fit.
pub fn pip_rect(area: Rect, g: &TileGrid) -> (r: Option<Rect>)
    requires
        area.y < u16::MAX,
    ensures
        ({
            let (pw, ph) = pip_size(*g);
            let p = rect_spec(sat_sub(sat_sub(sat_add(area.x, area.width), pw), 1), (area.y + 1) as u16, pw, ph);
            r == if sat_add(p.x, p.width) <= sat_add(area.x, area.width) && sat_add(p.y, p.height) <= sat_add(
                area.y,
                area.height,
            ) {
                Some(p)
            } else {
                None
            }
        }),
{
    #[verifier::truncate]
    let pw = (if g.tile_width / 3 > 4 { g.tile_width / 3 } else { 4 }) as u16;
    #[verifier::truncate]
    let ph = (if g.tile_height / 3 > 2 { g.tile_height / 3 } else { 2 }) as u16;
    let px = area.right().saturating_sub(pw).saturating_sub(1);
    let py = area.y + 1;
    let p = Rect::new(px, py, pw, ph);
    if p.right() <= area.right() && p.bottom() <= area.bottom() {
        Some(p)
    } else {
        None
    }
}

/// Where the disconnection notice goes: centred, at most 40 cells wide, 5 high.
pub fn popup_rect(area: Rect) -> (r: Rect)
    requires
        area.x + sat_sub(area.width, if area.width < 40 { area.width } else { 40 }) / 2 <= u16::MAX,
        area.y + sat_sub(area.height, 5) / 2 <= u16::MAX,
    ensures
        ({
            let w: u16 = if area.width < 40 { area.width } else { 40 };
            r == rect_spec(
                (area.x + sat_sub(area.width, w) / 2) as u16,
                (area.y + sat_sub(area.height, 5) / 2) as u16,
                w,
                5,
            )
        }),
{
    let clamp = crate::tui::size_clamp(area.width, 40);
    let w: u16 = if 40 <= clamp { 40 } else { clamp };
    let h: u16 = 5;
    let x = area.x + area.width.saturating_sub(w) / 2;
    let y = area.y + area.height.saturating_sub(h) / 2;
    Rect::new(x, y, w, h)
}

/// The video grid always has a cell for every stream.
pub proof fn law_grid_has_room(n: usize, cols: u32, rows: u32)
    requires
        grid_dims_spec(n as int, cols as int, rows as int),
    ensures
        cols * rows >= n,
{
    if n > 9 {
        let c = cols as int;
        let r = rows as int;
        assert(c * r >= n) by (nonlinear_arith)
            requires
                c >= 1,
                r == (n + c - 1) / c,
        ;
    }
}


/// Whether no text in `s` comes before an earlier one.
pub open spec fn in_text_order(s: Seq<Seq<char>>) -> bool {
    forall|i: int, j: int| 0 <= i < j < s.len() ==> !text_before(#[trigger] s[j], #[trigger] s[i])
}

/// Orders the identities of the remote video streams for tiling: the same
/// names, in text order.
pub fn stream_order(ids: &Vec<String>) -> (r: Vec<String>)
    ensures
        in_text_order(views(r@)),
        views(r@).to_multiset() == views(ids@).to_multiset(),
{
    broadcast use vstd::seq_lib::group_to_multiset_ensures;
    let mut r: Vec<String> = Vec::new();
    let mut i: usize = 0;
    while i < ids.len()
        invariant
            i <= ids.len(),
            in_text_order(views(r@)),
            views(r@).to_multiset() == views(ids@).take(i as int).to_multiset(),
        decreases ids.len() - i,
    {
        let x = ids[i].clone();
        let mut j: usize = 0;
        while j < r.len() && !text_is_before(&x, &r[j])
            invariant
                j <= r.len(),
                forall|k: int| 0 <= k < j ==> !text_before(x@, #[trigger] r@[k]@),
            decreases r.len() - j,
        {
            j = j + 1;
        }
        let ghost old_v = views(r@);
        let ghost xv = x@;
        proof {
            assert forall|k: int| j <= k < old_v.len() implies !text_before(#[trigger] old_v[k], xv) by {
                assert(old_v[k] == r@[k]@);
                if text_before(old_v[k], xv) {
                    assert(text_before(xv, old_v[j as int]));
                    lemma_text_before_transitive(old_v[k], xv, old_v[j as int]);
                    if k == j {
                        lemma_text_before_irreflexive(old_v[k]);
                    }
                }
            }
        }
        r.insert(j, x);
        proof {
            let nv = views(r@);
            assert(nv == old_v.insert(j as int, xv));
            assert forall|a: int, b: int| 0 <= a < b < nv.len() implies !text_before(#[trigger] nv[b], #[trigger] nv[a]) by {
                if a < j && b < j {
                    assert(nv[a] == old_v[a] && nv[b] == old_v[b]);
                } else if a < j && b == j {
                    assert(nv[a] == old_v[a]);
                    assert(old_v[a] == r@[a]@);
                } else if a < j {
                    assert(nv[a] == old_v[a] && nv[b] == old_v[b - 1]);
                } else if a == j {
                    assert(nv[b] == old_v[b - 1]);
                } else {
                    assert(nv[a] == old_v[a - 1] && nv[b] == old_v[b - 1]);
                }
            }
            vstd::seq_lib::to_multiset_insert(old_v, j as int, xv);
            assert(views(ids@).take(i + 1) == views(ids@).take(i as int).push(xv));
            vstd::seq_lib::to_multiset_build(views(ids@).take(i as int), xv);
        }
        i = i + 1;
    }
    assert(views(ids@).take(ids.len() as int) == views(ids@));
    r
}

/// Two orderings of the same names agree: the tile order is determined by the
/// streams alone, whatever order they arrive in.
pub proof fn law_stream_order_unique(a: Seq<Seq<char>>, b: Seq<Seq<char>>)
    requires
        in_text_order(a),
        in_text_order(b),
        a.to_multiset() == b.to_multiset(),
    ensures
        a == b,
    decreases a.len(),
{
    broadcast use vstd::seq_lib::group_to_multiset_ensures;
    broadcast use vstd::multiset::group_multiset_axioms;
    vstd::seq_lib::to_multiset_len(a);
    vstd::seq_lib::to_multiset_len(b);
    if a.len() > 0 {
        // the last entries agree
        let x = a.last();
        let y = b.last();
        assert(b.contains(y));
        assert(a.contains(x));
        vstd::seq_lib::to_multiset_contains(b, y);
        vstd::seq_lib::to_multiset_contains(a, y);
        vstd::seq_lib::to_multiset_contains(a, x);
        vstd::seq_lib::to_multiset_contains(b, x);
        assert(a.contains(y));
        assert(b.contains(x));
        if x != y {
            lemma_text_before_connected(x, y);
            let ky = choose|k: int| 0 <= k < a.len() && a[k] == y;
            let kx = choose|k: int| 0 <= k < b.len() && b[k] == x;
            if text_before(x, y) {
                if ky < a.len() - 1 {
                } else {
                    lemma_text_before_irreflexive(y);
                }
            } else {
                if kx < b.len() - 1 {
                } else {
                    lemma_text_before_irreflexive(x);
                }
            }
        }
        let a2 = a.drop_last();
        let b2 = b.drop_last();
        assert(a == a2.push(x));
        assert(b == b2.push(x));
        vstd::seq_lib::to_multiset_build(a2, x);
        vstd::seq_lib::to_multiset_build(b2, x);
        assert(a2.to_multiset() == b2.to_multiset()) by {
            assert(a2.to_multiset() =~= a.to_multiset().remove(x));
            assert(b2.to_multiset() =~= b.to_multiset().remove(x));
        }
        law_stream_order_unique(a2, b2);
    }
}

} // verus!
