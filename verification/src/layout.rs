//! The layout composer: partitioning a rectangular canvas into strips by
//! fixed percentage splits, and composing the application's panes.
//!
//! A split assigns each region but the last a width of
//! `total * percent / 100`, rounded down; the last region takes the whole
//! remainder, so the strips always reconstruct the canvas exactly.

use vstd::prelude::*;
use vstd::arithmetic::div_mod::lemma_div_is_ordered;
use vstd::arithmetic::div_mod::lemma_div_multiples_vanish;
use vstd::arithmetic::mul::lemma_mul_inequality;
use vstd::arithmetic::mul::lemma_mul_is_distributive_add;
use crate::geometry::Rect;
use crate::geometry::center;
use crate::geometry::min_u16;
use crate::image_pane::TestImageWidget;

verus! {

/// The sum of a sequence of percentages.
pub open spec fn sum_percents(s: Seq<u16>) -> int
    decreases s.len(),
{
    if s.len() == 0 {
        0
    } else {
        s[0] + sum_percents(s.subrange(1, s.len() as int))
    }
}

/// A sum of percentages is never negative.
pub proof fn lemma_sum_nonneg(s: Seq<u16>)
    ensures
        sum_percents(s) >= 0,
    decreases s.len(),
{
    if s.len() > 0 {
        lemma_sum_nonneg(s.subrange(1, s.len() as int));
    }
}

/// A sum splits at any index into the sum of the prefix and the sum of the
/// suffix.
pub proof fn lemma_sum_split(s: Seq<u16>, i: int)
    requires
        0 <= i <= s.len(),
    ensures
        sum_percents(s) == sum_percents(s.subrange(0, i)) + sum_percents(
            s.subrange(i, s.len() as int),
        ),
    decreases i,
{
    if i == 0 {
        assert(s.subrange(0, 0) =~= Seq::<u16>::empty());
        assert(s.subrange(0, s.len() as int) =~= s);
    } else {
        let tail = s.subrange(1, s.len() as int);
        lemma_sum_split(tail, i - 1);
        assert(tail.subrange(0, i - 1) =~= s.subrange(1, i));
        assert(tail.subrange(i - 1, tail.len() as int) =~= s.subrange(i, s.len() as int));
        let head = s.subrange(0, i);
        assert(head.subrange(1, head.len() as int) =~= s.subrange(1, i));
        assert(sum_percents(head) == s[0] + sum_percents(s.subrange(1, i)));
    }
}

/// Extending a prefix by one element adds that element to its sum.
pub proof fn lemma_sum_extend(s: Seq<u16>, i: int)
    requires
        0 <= i < s.len(),
    ensures
        sum_percents(s.subrange(0, i + 1)) == sum_percents(s.subrange(0, i)) + s[i],
{
    let ext = s.subrange(0, i + 1);
    lemma_sum_split(ext, i);
    assert(ext.subrange(0, i) =~= s.subrange(0, i));
    let last = ext.subrange(i, i + 1);
    assert(last.len() == 1);
    assert(last[0] == s[i]);
    assert(last.subrange(1, 1) =~= Seq::<u16>::empty());
    assert(sum_percents(Seq::<u16>::empty()) == 0);
    assert(sum_percents(last) == last[0] + sum_percents(last.subrange(1, 1)));
}

/// A prefix of a sequence never sums to more than the whole sequence.
pub proof fn lemma_sum_prefix_le(s: Seq<u16>, i: int)
    requires
        0 <= i <= s.len(),
    ensures
        sum_percents(s.subrange(0, i)) <= sum_percents(s),
{
    lemma_sum_split(s, i);
    lemma_sum_nonneg(s.subrange(i, s.len() as int));
}

/// `parts` cuts `area` into vertical strips laid side by side from left to
/// right: every strip spans the full height, the first starts at the left
/// edge, each next one starts where the previous ends, and the last ends at
/// the right edge.
pub open spec fn is_hstrip_of(parts: Seq<Rect>, area: Rect) -> bool {
    &&& parts.len() >= 1
    &&& forall|i: int|
        0 <= i < parts.len() ==> (#[trigger] parts[i]).y == area.y && parts[i].height
            == area.height
    &&& parts[0].x == area.x
    &&& forall|i: int|
        1 <= i < parts.len() ==> (#[trigger] parts[i]).x == parts[i - 1].x + parts[i - 1].width
    &&& parts[parts.len() - 1].x + parts[parts.len() - 1].width == area.x + area.width
}

/// `parts` cuts `area` into horizontal strips stacked from top to bottom.
pub open spec fn is_vstrip_of(parts: Seq<Rect>, area: Rect) -> bool {
    &&& parts.len() >= 1
    &&& forall|i: int|
        0 <= i < parts.len() ==> (#[trigger] parts[i]).x == area.x && parts[i].width == area.width
    &&& parts[0].y == area.y
    &&& forall|i: int|
        1 <= i < parts.len() ==> (#[trigger] parts[i]).y == parts[i - 1].y + parts[i - 1].height
    &&& parts[parts.len() - 1].y + parts[parts.len() - 1].height == area.y + area.height
}

/// In a run of side-by-side strips, a later strip starts no earlier than
/// where an earlier one ends.
proof fn lemma_hstrip_ordered(parts: Seq<Rect>, area: Rect, i: int, j: int)
    requires
        is_hstrip_of(parts, area),
        0 <= i < j < parts.len(),
    ensures
        parts[i].x + parts[i].width <= parts[j].x,
    decreases j - i,
{
    if j == i + 1 {
    } else {
        lemma_hstrip_ordered(parts, area, i + 1, j);
    }
}

proof fn lemma_vstrip_ordered(parts: Seq<Rect>, area: Rect, i: int, j: int)
    requires
        is_vstrip_of(parts, area),
        0 <= i < j < parts.len(),
    ensures
        parts[i].y + parts[i].height <= parts[j].y,
    decreases j - i,
{
    if j == i + 1 {
    } else {
        lemma_vstrip_ordered(parts, area, i + 1, j);
    }
}

/// Any column of the canvas falls into one of the strips: walking from
/// strip `k`, whose left edge is at or left of `px`, some strip contains
/// `px`.
proof fn lemma_hstrip_find(parts: Seq<Rect>, area: Rect, px: int, k: int)
    requires
        is_hstrip_of(parts, area),
        0 <= k < parts.len(),
        parts[k].x <= px,
        px < area.x + area.width,
    ensures
        exists|i: int|
            k <= i < parts.len() && (#[trigger] parts[i]).x <= px < parts[i].x + parts[i].width,
    decreases parts.len() - k,
{
    if px < parts[k].x + parts[k].width {
        assert(parts[k].x <= px < parts[k].x + parts[k].width);
    } else {
        assert(k + 1 < parts.len());
        lemma_hstrip_find(parts, area, px, k + 1);
    }
}

proof fn lemma_vstrip_find(parts: Seq<Rect>, area: Rect, py: int, k: int)
    requires
        is_vstrip_of(parts, area),
        0 <= k < parts.len(),
        parts[k].y <= py,
        py < area.y + area.height,
    ensures
        exists|i: int|
            k <= i < parts.len() && (#[trigger] parts[i]).y <= py < parts[i].y + parts[i].height,
    decreases parts.len() - k,
{
    if py < parts[k].y + parts[k].height {
        assert(parts[k].y <= py < parts[k].y + parts[k].height);
    } else {
        assert(k + 1 < parts.len());
        lemma_vstrip_find(parts, area, py, k + 1);
    }
}

/// Side-by-side strips partition their canvas: the strips are pairwise
/// disjoint, every cell of the canvas lies in some strip, and every cell of
/// every strip lies in the canvas. Together: the union of the strips
/// reconstructs the canvas exactly, with no gaps and no overlaps.
pub proof fn lemma_hstrip_partition(parts: Seq<Rect>, area: Rect)
    requires
        is_hstrip_of(parts, area),
    ensures
        forall|i: int, j: int|
            0 <= i < j < parts.len() ==> #[trigger] parts[i].disjoint(parts[j]),
        forall|px: int, py: int|
            #[trigger] area.contains(px, py) ==> exists|i: int|
                0 <= i < parts.len() && #[trigger] parts[i].contains(px, py),
        forall|i: int, px: int, py: int|
            0 <= i < parts.len() && #[trigger] parts[i].contains(px, py) ==> area.contains(
                px,
                py,
            ),
{
    assert forall|i: int, j: int|
        0 <= i < j < parts.len() implies #[trigger] parts[i].disjoint(parts[j]) by {
        lemma_hstrip_ordered(parts, area, i, j);
    }
    assert forall|px: int, py: int| #[trigger] area.contains(px, py) implies exists|i: int|
        0 <= i < parts.len() && #[trigger] parts[i].contains(px, py) by {
        lemma_hstrip_find(parts, area, px, 0);
        let i = choose|i: int|
            0 <= i < parts.len() && (#[trigger] parts[i]).x <= px < parts[i].x + parts[i].width;
        assert(parts[i].contains(px, py));
    }
    assert forall|i: int, px: int, py: int|
        0 <= i < parts.len() && #[trigger] parts[i].contains(px, py) implies area.contains(
        px,
        py,
    ) by {
        if i > 0 {
            lemma_hstrip_ordered(parts, area, 0, i);
        }
        if i < parts.len() - 1 {
            lemma_hstrip_ordered(parts, area, i, parts.len() - 1);
        }
    }
}

/// Stacked strips partition their canvas, as `lemma_hstrip_partition` says
/// of side-by-side strips.
pub proof fn lemma_vstrip_partition(parts: Seq<Rect>, area: Rect)
    requires
        is_vstrip_of(parts, area),
    ensures
        forall|i: int, j: int|
            0 <= i < j < parts.len() ==> #[trigger] parts[i].disjoint(parts[j]),
        forall|px: int, py: int|
            #[trigger] area.contains(px, py) ==> exists|i: int|
                0 <= i < parts.len() && #[trigger] parts[i].contains(px, py),
        forall|i: int, px: int, py: int|
            0 <= i < parts.len() && #[trigger] parts[i].contains(px, py) ==> area.contains(
                px,
                py,
            ),
{
    assert forall|i: int, j: int|
        0 <= i < j < parts.len() implies #[trigger] parts[i].disjoint(parts[j]) by {
        lemma_vstrip_ordered(parts, area, i, j);
    }
    assert forall|px: int, py: int| #[trigger] area.contains(px, py) implies exists|i: int|
        0 <= i < parts.len() && #[trigger] parts[i].contains(px, py) by {
        lemma_vstrip_find(parts, area, py, 0);
        let i = choose|i: int|
            0 <= i < parts.len() && (#[trigger] parts[i]).y <= py < parts[i].y + parts[i].height;
        assert(parts[i].contains(px, py));
    }
    assert forall|i: int, px: int, py: int|
        0 <= i < parts.len() && #[trigger] parts[i].contains(px, py) implies area.contains(
        px,
        py,
    ) by {
        if i > 0 {
            lemma_vstrip_ordered(parts, area, 0, i);
        }
        if i < parts.len() - 1 {
            lemma_vstrip_ordered(parts, area, i, parts.len() - 1);
        }
    }
}

/// The width `total * percent / 100` stays within `total` when the percent
/// is at most 100, and at least 100 times it stays within `total * percent`.
proof fn lemma_percent_width(total: int, percent: int)
    requires
        0 <= total,
        0 <= percent <= 100,
    ensures
        100 * (total * percent / 100) <= total * percent,
        total * percent / 100 <= total,
        total * percent <= total * 100,
{
    lemma_mul_inequality(percent, 100, total);
    assert(percent * total == total * percent);
    assert(100 * total == total * 100);
    lemma_div_is_ordered(total * percent, total * 100, 100);
    lemma_div_multiples_vanish(total, 100);
    assert(100 * total / 100 == total);
    assert(total * percent == 100 * (total * percent / 100) + (total * percent) % 100);
}

/// Cut `area` into one vertical strip per entry of `percents`, left to
/// right. Every strip but the last is `area.width * percent / 100` columns
/// wide, rounded down; the last strip takes the remaining columns.
pub fn split_horizontal(area: Rect, percents: &Vec<u16>) -> (parts: Vec<Rect>)
    requires
        area.wf(),
        percents.len() >= 1,
        sum_percents(percents@) == 100,
    ensures
        parts@.len() == percents@.len(),
        is_hstrip_of(parts@, area),
        forall|i: int|
            0 <= i < parts@.len() - 1 ==> (#[trigger] parts@[i]).width == area.width
                * percents@[i] / 100,
        forall|i: int| 0 <= i < parts@.len() ==> (#[trigger] parts@[i]).wf(),
{
    let n = percents.len();
    let mut parts: Vec<Rect> = Vec::new();
    let mut cursor: u16 = area.x;
    let mut used: u16 = 0;
    let mut pct_used: u16 = 0;
    let mut i: usize = 0;
    while i < n - 1
        invariant
            area.wf(),
            n == percents@.len(),
            1 <= n,
            sum_percents(percents@) == 100,
            i <= n - 1,
            parts@.len() == i,
            pct_used == sum_percents(percents@.subrange(0, i as int)),
            0 <= pct_used <= 100,
            100 * used <= area.width * pct_used,
            used <= area.width,
            cursor == area.x + used,
            i > 0 ==> parts@[0].x == area.x,
            i > 0 ==> cursor == parts@[i - 1].x + parts@[i - 1].width,
            forall|j: int|
                0 <= j < i ==> (#[trigger] parts@[j]).y == area.y && parts@[j].height
                    == area.height,
            forall|j: int|
                1 <= j < i ==> (#[trigger] parts@[j]).x == parts@[j - 1].x + parts@[j - 1].width,
            forall|j: int|
                0 <= j < i ==> (#[trigger] parts@[j]).width == area.width * percents@[j] / 100,
            forall|j: int| 0 <= j < i ==> (#[trigger] parts@[j]).wf(),
        decreases n - 1 - i,
    {
        let p = percents[i];
        proof {
            lemma_sum_extend(percents@, i as int);
            lemma_sum_prefix_le(percents@, i as int + 1);
            lemma_sum_nonneg(percents@.subrange(0, i as int));
            assert(pct_used + p <= 100);
            lemma_percent_width(area.width as int, p as int);
        }
        let w: u16 = ((area.width as u32) * (p as u32) / 100) as u16;
        proof {
            assert(w == area.width * p / 100);
            lemma_mul_is_distributive_add(area.width as int, pct_used as int, p as int);
            assert(100 * (used + w) <= area.width * (pct_used + p));
            lemma_mul_inequality(pct_used + p, 100, area.width as int);
            assert((pct_used + p) * area.width == area.width * (pct_used + p));
            assert(100 * area.width == area.width * 100);
            assert(used + w <= area.width);
        }
        let part = Rect { x: cursor, y: area.y, width: w, height: area.height };
        parts.push(part);
        cursor = cursor + w;
        used = used + w;
        pct_used = pct_used + p;
        i = i + 1;
    }
    let last = Rect { x: cursor, y: area.y, width: area.width - used, height: area.height };
    parts.push(last);
    proof {
        assert(parts@[n - 1].x + parts@[n - 1].width == area.x + area.width);
        assert(is_hstrip_of(parts@, area));
    }
    parts
}

/// Cut `area` into one horizontal strip per entry of `percents`, top to
/// bottom, sizing the strips as `split_horizontal` sizes its columns.
pub fn split_vertical(area: Rect, percents: &Vec<u16>) -> (parts: Vec<Rect>)
    requires
        area.wf(),
        percents.len() >= 1,
        sum_percents(percents@) == 100,
    ensures
        parts@.len() == percents@.len(),
        is_vstrip_of(parts@, area),
        forall|i: int|
            0 <= i < parts@.len() - 1 ==> (#[trigger] parts@[i]).height == area.height
                * percents@[i] / 100,
        forall|i: int| 0 <= i < parts@.len() ==> (#[trigger] parts@[i]).wf(),
{
    let n = percents.len();
    let mut parts: Vec<Rect> = Vec::new();
    let mut cursor: u16 = area.y;
    let mut used: u16 = 0;
    let mut pct_used: u16 = 0;
    let mut i: usize = 0;
    while i < n - 1
        invariant
            area.wf(),
            n == percents@.len(),
            1 <= n,
            sum_percents(percents@) == 100,
            i <= n - 1,
            parts@.len() == i,
            pct_used == sum_percents(percents@.subrange(0, i as int)),
            0 <= pct_used <= 100,
            100 * used <= area.height * pct_used,
            used <= area.height,
            cursor == area.y + used,
            i > 0 ==> parts@[0].y == area.y,
            i > 0 ==> cursor == parts@[i - 1].y + parts@[i - 1].height,
            forall|j: int|
                0 <= j < i ==> (#[trigger] parts@[j]).x == area.x && parts@[j].width == area.width,
            forall|j: int|
                1 <= j < i ==> (#[trigger] parts@[j]).y == parts@[j - 1].y + parts@[j - 1].height,
            forall|j: int|
                0 <= j < i ==> (#[trigger] parts@[j]).height == area.height * percents@[j] / 100,
            forall|j: int| 0 <= j < i ==> (#[trigger] parts@[j]).wf(),
        decreases n - 1 - i,
    {
        let p = percents[i];
        proof {
            lemma_sum_extend(percents@, i as int);
            lemma_sum_prefix_le(percents@, i as int + 1);
            lemma_sum_nonneg(percents@.subrange(0, i as int));
            assert(pct_used + p <= 100);
            lemma_percent_width(area.height as int, p as int);
        }
        let h: u16 = ((area.height as u32) * (p as u32) / 100) as u16;
        proof {
            assert(h == area.height * p / 100);
            lemma_mul_is_distributive_add(area.height as int, pct_used as int, p as int);
            assert(100 * (used + h) <= area.height * (pct_used + p));
            lemma_mul_inequality(pct_used + p, 100, area.height as int);
            assert((pct_used + p) * area.height == area.height * (pct_used + p));
            assert(100 * area.height == area.height * 100);
            assert(used + h <= area.height);
        }
        let part = Rect { x: area.x, y: cursor, width: area.width, height: h };
        parts.push(part);
        cursor = cursor + h;
        used = used + h;
        pct_used = pct_used + p;
        i = i + 1;
    }
    let last = Rect { x: area.x, y: cursor, width: area.width, height: area.height - used };
    parts.push(last);
    proof {
        assert(parts@[n - 1].y + parts@[n - 1].height == area.y + area.height);
        assert(is_vstrip_of(parts@, area));
    }
    parts
}

/// The named sub-rectangles of one frame: a side column next to the main
/// field, the side column cut into three bands, and the image centered in
/// its band.
#[derive(Clone, Copy, PartialEq, Eq, Structural, Debug)]
#[verifier::ext_equal]
pub struct AppLayout {
    /// The narrow column holding image, description and properties.
    pub side: Rect,
    /// The wide main field.
    pub field: Rect,
    /// The top band of the side column, in which the image is centered.
    pub image_band: Rect,
    /// The middle band: the description pane.
    pub description: Rect,
    /// The bottom band: the properties pane.
    pub properties: Rect,
    /// Where the image itself is drawn: its own size, centered in the top
    /// band, shrunk to fit.
    pub image: Rect,
}

/// Partition the canvas for one frame. The canvas splits 15/85 into a side
/// column and the main field; `rotation` picks which of the two halves the
/// side column occupies. The side column splits 25/60/15 from the top into
/// the image band, the description pane and the properties pane, and the
/// image is centered in its band.
pub fn compute_layout(area: Rect, rotation: usize, image: TestImageWidget) -> (r: AppLayout)
    requires
        area.wf(),
        rotation < 2,
    ensures
        r.side.wf() && r.field.wf() && r.image_band.wf() && r.description.wf() && r.properties.wf()
            && r.image.wf(),
        rotation == 0 ==> is_hstrip_of(seq![r.side, r.field], area),
        rotation == 1 ==> is_hstrip_of(seq![r.field, r.side], area),
        rotation == 0 ==> r.side.x == area.x && r.side.width == area.width * 15 / 100,
        rotation == 1 ==> r.field.x == area.x && r.field.width == area.width * 15 / 100,
        is_vstrip_of(seq![r.image_band, r.description, r.properties], r.side),
        r.image_band.height == r.side.height * 25 / 100,
        r.description.height == r.side.height * 60 / 100,
        r.image.inside(r.image_band),
        r.image.width == min_u16(image.width, r.image_band.width),
        r.image.height == min_u16(image.height, r.image_band.height),
        r.image.x == r.image_band.x + (r.image_band.width - r.image.width) / 2,
        r.image.y == r.image_band.y + (r.image_band.height - r.image.height) / 2,
{
    let mut column_percents: Vec<u16> = Vec::new();
    column_percents.push(15);
    column_percents.push(85);
    proof {
        let s = column_percents@;
        assert(sum_percents(s) == 15 + sum_percents(s.subrange(1, 2)));
        assert(s.subrange(1, 2)[0] == 85);
        assert(sum_percents(s.subrange(1, 2)) == 85 + sum_percents(
            s.subrange(1, 2).subrange(1, 1),
        ));
        assert(s.subrange(1, 2).subrange(1, 1) =~= Seq::<u16>::empty());
        assert(sum_percents(Seq::<u16>::empty()) == 0);
    }
    let columns = split_horizontal(area, &column_percents);
    let side: Rect;
    let field: Rect;
    if rotation == 0 {
        side = columns[0];
        field = columns[1];
        proof {
            assert(seq![side, field] =~= columns@);
        }
    } else {
        field = columns[0];
        side = columns[1];
        proof {
            assert(seq![field, side] =~= columns@);
        }
    }
    let mut band_percents: Vec<u16> = Vec::new();
    band_percents.push(25);
    band_percents.push(60);
    band_percents.push(15);
    proof {
        let s = band_percents@;
        assert(sum_percents(s) == 25 + sum_percents(s.subrange(1, 3)));
        assert(s.subrange(1, 3)[0] == 60);
        assert(sum_percents(s.subrange(1, 3)) == 60 + sum_percents(
            s.subrange(1, 3).subrange(1, 2),
        ));
        assert(s.subrange(1, 3).subrange(1, 2)[0] == 15);
        assert(sum_percents(s.subrange(1, 3).subrange(1, 2)) == 15 + sum_percents(
            s.subrange(1, 3).subrange(1, 2).subrange(1, 1),
        ));
        assert(s.subrange(1, 3).subrange(1, 2).subrange(1, 1) =~= Seq::<u16>::empty());
        assert(sum_percents(Seq::<u16>::empty()) == 0);
    }
    let bands = split_vertical(side, &band_percents);
    let image_band = bands[0];
    let description = bands[1];
    let properties = bands[2];
    proof {
        assert(seq![image_band, description, properties] =~= bands@);
    }
    let image_rect = center(image_band, image.width, image.height);
    AppLayout { side, field, image_band, description, properties, image: image_rect }
}

} // verus!
