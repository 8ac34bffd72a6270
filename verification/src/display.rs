//! The displays side by side in one stitched picture: building the layout,
//! finding the display under a pixel of the picture, and the plan for
//! composing the picture from one capture per display.
use vstd::prelude::*;

verus! {

/// An active display: its id, its size in points, where its top-left corner
/// lies in the global coordinate space, and its width in pixels (the scale
/// factor is that width over the width in points, and at least 1).
#[derive(Clone)]
pub struct DisplayInfo {
    pub display_id: u32,
    pub logical_width: u32,
    pub logical_height: u32,
    pub origin_x: i32,
    pub origin_y: i32,
    pub pixel_width: u32,
}

/// The displays placed left to right in one picture: the size of the
/// picture and the top-left corner of each display in it.
#[derive(Clone)]
pub struct StitchedLayout {
    pub displays: Vec<DisplayInfo>,
    pub stitched_width: u32,
    pub stitched_height: u32,
    pub offsets: Vec<(u32, u32)>,
}

/// Why a layout could not be built or used.
pub enum LayoutError {
    /// There is no display.
    NoDisplays,
    /// The picture has no width or no height.
    InvalidSize,
    /// The pixel lies on no display.
    OutOfRange,
    /// The layout has fewer offsets than displays.
    OffsetsMismatch,
}

/// One capture that goes into the stitched picture: the `screencapture`
/// display number (counted from 1), the size it is scaled to, and where it
/// is placed.
pub struct StitchTile {
    pub capture_id: u32,
    pub width: u32,
    pub height: u32,
    pub offset_x: u32,
    pub offset_y: u32,
}

/// `a + b`, or the largest `u32` where that does not fit.
pub open spec fn sat_add(a: nat, b: nat) -> nat {
    if a + b > u32::MAX {
        u32::MAX as nat
    } else {
        a + b
    }
}

/// The stitched width of the first `n` displays: their widths added up,
/// stopping at the largest `u32`.
pub open spec fn width_before(ds: Seq<DisplayInfo>, n: int) -> nat
    decreases n,
{
    if n <= 0 {
        0
    } else {
        sat_add(width_before(ds, n - 1), ds[n - 1].logical_width as nat)
    }
}

/// The greatest height among the first `n` displays.
pub open spec fn height_before(ds: Seq<DisplayInfo>, n: int) -> nat
    decreases n,
{
    if n <= 0 {
        0
    } else {
        let h = height_before(ds, n - 1);
        if ds[n - 1].logical_height as nat > h {
            ds[n - 1].logical_height as nat
        } else {
            h
        }
    }
}

/// Every display's right and bottom edges lie within the range of `i32`.
pub open spec fn fits_i32(ds: Seq<DisplayInfo>) -> bool {
    forall|i: int|
        0 <= i < ds.len() ==> (#[trigger] ds[i]).origin_x as int + ds[i].logical_width as int
            <= i32::MAX as int + 1 && ds[i].origin_y as int + ds[i].logical_height as int
            <= i32::MAX as int + 1
}

/// The pixel `(px, py)` of the picture lies on display `i`.
pub open spec fn on_display(l: StitchedLayout, i: int, px: nat, py: nat) -> bool {
    let (ox, oy) = l.offsets@[i];
    let d = l.displays@[i];
    ox <= px && px < sat_add(ox as nat, d.logical_width as nat) && oy <= py && py < sat_add(
        oy as nat,
        d.logical_height as nat,
    )
}

/// `v`, or the largest `i32` where `v` is greater.
pub open spec fn clamp_i32(v: int) -> int {
    if v > i32::MAX {
        i32::MAX as int
    } else {
        v
    }
}

/// The global coordinates of the pixel `(px, py)` of display `i`.
pub open spec fn global_point(l: StitchedLayout, i: int, px: nat, py: nat) -> (int, int) {
    let (ox, oy) = l.offsets@[i];
    let d = l.displays@[i];
    (d.origin_x + clamp_i32(px - ox), d.origin_y + clamp_i32(py - oy))
}

/// The layout that `get_stitched_layout` builds from `ds`: the displays in
/// the given order, each placed at the top of the picture right of those
/// before it.
pub open spec fn is_layout_of(l: StitchedLayout, ds: Seq<DisplayInfo>) -> bool {
    &&& l.displays@ == ds
    &&& l.offsets@.len() == ds.len()
    &&& forall|i: int| 0 <= i < ds.len() ==> #[trigger] l.offsets@[i] == (width_before(ds, i) as u32, 0u32)
}

/// The layout of `displays` placed left to right in the given order, each
/// at the top of the picture.
pub fn get_stitched_layout(displays: Vec<DisplayInfo>) -> (r: Result<StitchedLayout, LayoutError>)
    ensures
        displays@.len() == 0 ==> r matches Err(LayoutError::NoDisplays),
        displays@.len() > 0 ==> (r matches Ok(l) && is_layout_of(l, displays@)
            && l.stitched_width as nat == width_before(displays@, displays@.len() as int)
            && l.stitched_height as nat == height_before(displays@, displays@.len() as int)),
{
    let n = displays.len();
    if n == 0 {
        return Err(LayoutError::NoDisplays);
    }
    let mut width: u32 = 0;
    let mut height: u32 = 0;
    let mut offsets: Vec<(u32, u32)> = Vec::new();
    for i in 0..n
        invariant
            n == displays@.len(),
            width as nat == width_before(displays@, i as int),
            height as nat == height_before(displays@, i as int),
            offsets@.len() == i,
            forall|j: int| 0 <= j < i ==> #[trigger] offsets@[j] == (
                width_before(displays@, j) as u32,
                0u32,
            ),
    {
        offsets.push((width, 0));
        let w = displays[i].logical_width;
        width = if width > u32::MAX - w {
            u32::MAX
        } else {
            width + w
        };
        let h = displays[i].logical_height;
        if h > height {
            height = h;
        }
    }
    Ok(StitchedLayout { displays, stitched_width: width, stitched_height: height, offsets })
}

impl StitchedLayout {
    /// Whether every display's right and bottom edges lie within the range
    /// of `i32`.
    pub fn coordinates_fit(&self) -> (b: bool)
        ensures
            b == fits_i32(self.displays@),
    {
        let n = self.displays.len();
        for i in 0..n
            invariant
                n == self.displays@.len(),
                forall|j: int|
                    0 <= j < i ==> (#[trigger] self.displays@[j]).origin_x as int
                        + self.displays@[j].logical_width as int <= i32::MAX as int + 1
                        && self.displays@[j].origin_y as int + self.displays@[j].logical_height as int
                        <= i32::MAX as int + 1,
        {
            let d = &self.displays[i];
            if d.origin_x as i64 + d.logical_width as i64 > i32::MAX as i64 + 1 || d.origin_y as i64
                + d.logical_height as i64 > i32::MAX as i64 + 1 {
                return false;
            }
        }
        true
    }

    /// The global coordinates of the pixel `(px, py)` of the stitched
    /// picture: that pixel of the first display whose area holds it.
    pub fn locate_pixel(&self, px: u32, py: u32) -> (r: Result<(i32, i32), LayoutError>)
        requires
            self.offsets@.len() >= self.displays@.len(),
            fits_i32(self.displays@),
        ensures
            self.displays@.len() == 0 ==> r matches Err(LayoutError::NoDisplays),
            self.displays@.len() > 0 && (self.stitched_width == 0 || self.stitched_height == 0)
                ==> r matches Err(LayoutError::InvalidSize),
            self.displays@.len() > 0 && self.stitched_width > 0 && self.stitched_height > 0 ==> (
            match r {
                Ok((gx, gy)) => exists|i: int|
                    0 <= i < self.displays@.len() && on_display(*self, i, px as nat, py as nat)
                        && (forall|j: int|
                        0 <= j < i ==> !on_display(*self, j, px as nat, py as nat)) && (
                    gx as int,
                    gy as int,
                ) == global_point(*self, i, px as nat, py as nat),
                Err(e) => e is OutOfRange && forall|i: int|
                    0 <= i < self.displays@.len() ==> !on_display(*self, i, px as nat, py as nat),
            }),
    {
        if self.displays.len() == 0 {
            return Err(LayoutError::NoDisplays);
        }
        if self.stitched_width == 0 || self.stitched_height == 0 {
            return Err(LayoutError::InvalidSize);
        }
        let n = self.displays.len();
        for i in 0..n
            invariant
                n == self.displays@.len(),
                self.offsets@.len() >= n,
                self.stitched_width > 0 && self.stitched_height > 0,
                fits_i32(self.displays@),
                forall|j: int| 0 <= j < i ==> !on_display(*self, j, px as nat, py as nat),
        {
            let (ox, oy) = self.offsets[i];
            let d = &self.displays[i];
            let right: u32 = if ox > u32::MAX - d.logical_width {
                u32::MAX
            } else {
                ox + d.logical_width
            };
            let bottom: u32 = if oy > u32::MAX - d.logical_height {
                u32::MAX
            } else {
                oy + d.logical_height
            };
            if px >= ox && px < right && py >= oy && py < bottom {
                assert(0 <= i < self.displays@.len());
                assert(self.displays@[i as int] == *d);
                let lx = px - ox;
                let ly = py - oy;
                let cx: i32 = if lx > i32::MAX as u32 {
                    i32::MAX
                } else {
                    lx as i32
                };
                let cy: i32 = if ly > i32::MAX as u32 {
                    i32::MAX
                } else {
                    ly as i32
                };
                assert(d.origin_x as int + d.logical_width as int <= i32::MAX as int + 1);
                assert(d.origin_y as int + d.logical_height as int <= i32::MAX as int + 1);
                let gx = d.origin_x + cx;
                let gy = d.origin_y + cy;
                assert(on_display(*self, i as int, px as nat, py as nat));
                return Ok((gx, gy));
            }
        }
        Err(LayoutError::OutOfRange)
    }

    /// The captures that compose the stitched picture, one per display in
    /// order: display `i` is captured as number `i + 1`, scaled to its size
    /// in points, and placed at its offset.
    pub fn plan_stitch(&self) -> (r: Result<Vec<StitchTile>, LayoutError>)
        requires
            self.displays@.len() < u32::MAX,
        ensures
            self.displays@.len() == 0 ==> r matches Err(LayoutError::NoDisplays),
            self.displays@.len() > 0 && (self.stitched_width == 0 || self.stitched_height == 0)
                ==> r matches Err(LayoutError::InvalidSize),
            self.displays@.len() > 0 && self.stitched_width > 0 && self.stitched_height > 0
                && self.offsets@.len() < self.displays@.len() ==> r matches Err(
                LayoutError::OffsetsMismatch,
            ),
            self.displays@.len() > 0 && self.stitched_width > 0 && self.stitched_height > 0
                && self.offsets@.len() >= self.displays@.len() ==> (r matches Ok(tiles)
                && tiles@.len() == self.displays@.len() && forall|i: int|
                0 <= i < tiles@.len() ==> {
                    let t = #[trigger] tiles@[i];
                    &&& t.capture_id == i + 1
                    &&& t.width == self.displays@[i].logical_width
                    &&& t.height == self.displays@[i].logical_height
                    &&& (t.offset_x, t.offset_y) == self.offsets@[i]
                }),
    {
        if self.displays.len() == 0 {
            return Err(LayoutError::NoDisplays);
        }
        if self.stitched_width == 0 || self.stitched_height == 0 {
            return Err(LayoutError::InvalidSize);
        }
        let n = self.displays.len();
        if self.offsets.len() < n {
            return Err(LayoutError::OffsetsMismatch);
        }
        let mut tiles: Vec<StitchTile> = Vec::new();
        for i in 0..n
            invariant
                n == self.displays@.len(),
                n < u32::MAX,
                self.offsets@.len() >= n,
                tiles@.len() == i,
                forall|j: int|
                    0 <= j < i ==> {
                        let t = #[trigger] tiles@[j];
                        &&& t.capture_id == j + 1
                        &&& t.width == self.displays@[j].logical_width
                        &&& t.height == self.displays@[j].logical_height
                        &&& (t.offset_x, t.offset_y) == self.offsets@[j]
                    },
        {
            let (ox, oy) = self.offsets[i];
            tiles.push(
                StitchTile {
                    capture_id: (i as u32) + 1,
                    width: self.displays[i].logical_width,
                    height: self.displays[i].logical_height,
                    offset_x: ox,
                    offset_y: oy,
                },
            );
        }
        Ok(tiles)
    }
}

/// `x` placed into `s` after every display whose id is not greater.
pub open spec fn insert_by_display_id(s: Seq<DisplayInfo>, x: DisplayInfo) -> Seq<DisplayInfo>
    decreases s.len(),
{
    if s.len() == 0 {
        seq![x]
    } else if s.last().display_id <= x.display_id {
        s.push(x)
    } else {
        insert_by_display_id(s.drop_last(), x).push(s.last())
    }
}

/// `s` ordered by display id, displays with equal ids keeping their order
/// (what a stable sort by id gives).
pub open spec fn sort_by_display_id(s: Seq<DisplayInfo>) -> Seq<DisplayInfo>
    decreases s.len(),
{
    if s.len() == 0 {
        Seq::empty()
    } else {
        insert_by_display_id(sort_by_display_id(s.drop_last()), s.last())
    }
}

proof fn lemma_insert_by_display_id(s: Seq<DisplayInfo>, x: DisplayInfo, j: int)
    requires
        0 <= j <= s.len(),
        forall|k: int| j <= k < s.len() ==> s[k].display_id > x.display_id,
        j == 0 || s[j - 1].display_id <= x.display_id,
    ensures
        insert_by_display_id(s, x) == s.insert(j, x),
    decreases s.len(),
{
    if s.len() == 0 {
        assert(s.insert(j, x) =~= seq![x]);
    } else if j == s.len() {
        assert(s.insert(j, x) =~= s.push(x));
    } else {
        lemma_insert_by_display_id(s.drop_last(), x, j);
        assert(s.insert(j, x) =~= s.drop_last().insert(j, x).push(s.last()));
    }
}

/// The displays ordered by id, displays with equal ids keeping their order.
pub fn sort_displays(displays: Vec<DisplayInfo>) -> (r: Vec<DisplayInfo>)
    ensures
        r@ == sort_by_display_id(displays@),
{
    let mut r: Vec<DisplayInfo> = Vec::new();
    let n = displays.len();
    let mut displays = displays;
    let ghost all = displays@;
    let mut i: usize = 0;
    while i < n
        invariant
            n == displays@.len(),
            all.len() == n,
            i <= n,
            forall|j: int| i <= j < n ==> displays@[j] == all[j],
            r@ == sort_by_display_id(all.take(i as int)),
        decreases n - i,
    {
        let mut x = DisplayInfo {
            display_id: 0,
            logical_width: 0,
            logical_height: 0,
            origin_x: 0,
            origin_y: 0,
            pixel_width: 0,
        };
        displays.set_and_swap(i, &mut x);
        assert(x == all[i as int]);
        assert(all.take(i + 1).drop_last() =~= all.take(i as int));
        let ghost before = r@;
        let mut j = r.len();
        while j > 0 && r[j - 1].display_id > x.display_id
            invariant
                j <= r@.len(),
                r@ == before,
                forall|k: int| j <= k < r@.len() ==> r@[k].display_id > x.display_id,
            decreases j,
        {
            j = j - 1;
        }
        proof {
            lemma_insert_by_display_id(before, x, j as int);
        }
        r.insert(j, x);
        i = i + 1;
    }
    assert(all.take(n as int) =~= all);
    r
}


/// The displays are in order of id.
pub open spec fn sorted_by_display_id(s: Seq<DisplayInfo>) -> bool {
    forall|i: int, j: int| 0 <= i < j < s.len() ==> s[i].display_id <= s[j].display_id
}

proof fn lemma_insert_by_display_id_sorted(s: Seq<DisplayInfo>, x: DisplayInfo)
    requires
        sorted_by_display_id(s),
    ensures
        sorted_by_display_id(insert_by_display_id(s, x)),
        insert_by_display_id(s, x).to_multiset() == s.to_multiset().insert(x),
    decreases s.len(),
{
    broadcast use vstd::seq_lib::to_multiset_build, vstd::seq_lib::to_multiset_contains;

    if s.len() == 0 {
        assert(seq![x] =~= Seq::<DisplayInfo>::empty().push(x));
    } else if s.last().display_id <= x.display_id {
    } else {
        let d = s.drop_last();
        assert(sorted_by_display_id(d));
        lemma_insert_by_display_id_sorted(d, x);
        let r = insert_by_display_id(d, x);
        assert forall|k: int| 0 <= k < r.len() implies r[k].display_id <= s.last().display_id by {
            assert(r.contains(r[k]));
            assert(r.to_multiset().count(r[k]) > 0);
            if r[k] != x {
                assert(d.to_multiset().count(r[k]) > 0);
                assert(d.contains(r[k]));
                let m = choose|m: int| 0 <= m < d.len() && d[m] == r[k];
                assert(s[m] == d[m]);
            }
        }
        assert(d.push(s.last()) =~= s);
    }
}

/// The displays come out in order of id, and ordering them neither drops
/// nor adds one.
pub proof fn law_displays_sorted_by_id(displays: Seq<DisplayInfo>)
    ensures
        sorted_by_display_id(sort_by_display_id(displays)),
        sort_by_display_id(displays).to_multiset() == displays.to_multiset(),
    decreases displays.len(),
{
    broadcast use vstd::seq_lib::to_multiset_build;

    if displays.len() > 0 {
        law_displays_sorted_by_id(displays.drop_last());
        lemma_insert_by_display_id_sorted(sort_by_display_id(displays.drop_last()), displays.last());
        assert(displays.drop_last().push(displays.last()) =~= displays);
    } else {
        broadcast use vstd::seq_lib::to_multiset_len, vstd::multiset::lemma_multiset_empty_len;

        assert(displays.to_multiset().len() == 0);
        assert(sort_by_display_id(displays).to_multiset().len() == 0);
    }
}

proof fn lemma_width_before_bounded(ds: Seq<DisplayInfo>, n: int)
    ensures
        width_before(ds, n) <= u32::MAX,
    decreases n,
{
    if n > 0 {
        lemma_width_before_bounded(ds, n - 1);
    }
}

proof fn lemma_width_before_monotone(ds: Seq<DisplayInfo>, j: int, k: int)
    requires
        j <= k,
    ensures
        width_before(ds, j) <= width_before(ds, k),
    decreases k - j,
{
    if j < k {
        lemma_width_before_monotone(ds, j, k - 1);
        lemma_width_before_bounded(ds, k - 1);
    }
}

/// In a layout of displays that all have a size, whose total width fits in
/// a `u32`, a pixel of the picture
/// that lies in the strip of display `i`, within that display's height,
/// belongs to display `i` and to no display before it, and stands for the
/// point of that display at the same distance from its top-left corner
/// (a distance beyond the range of `i32` is cut to its largest value).
pub proof fn law_pixel_maps_to_its_display(l: StitchedLayout, ds: Seq<DisplayInfo>, i: int, px: nat, py: nat)
    requires
        is_layout_of(l, ds),
        forall|k: int| 0 <= k < ds.len() ==> (#[trigger] ds[k]).logical_width > 0 && ds[k].logical_height > 0,
        width_before(ds, ds.len() as int) < u32::MAX,
        0 <= i < ds.len(),
        width_before(ds, i) <= px < width_before(ds, i) + ds[i].logical_width,
        py < ds[i].logical_height,
    ensures
        on_display(l, i, px, py),
        forall|j: int| 0 <= j < i ==> !on_display(l, j, px, py),
        global_point(l, i, px, py) == (
            ds[i].origin_x + clamp_i32(px - width_before(ds, i)),
            ds[i].origin_y + clamp_i32(py as int),
        ),
{
    lemma_width_before_monotone(ds, i + 1, ds.len() as int);
    lemma_width_before_bounded(ds, i);
    assert(width_before(ds, i + 1) == width_before(ds, i) + ds[i].logical_width);
    assert(l.offsets@[i] == (width_before(ds, i) as u32, 0u32));
    assert forall|j: int| 0 <= j < i implies !on_display(l, j, px, py) by {
        lemma_width_before_monotone(ds, j + 1, i);
        lemma_width_before_monotone(ds, j + 1, ds.len() as int);
        lemma_width_before_bounded(ds, j);
        assert(l.offsets@[j] == (width_before(ds, j) as u32, 0u32));
        assert(width_before(ds, j + 1) == sat_add(width_before(ds, j), ds[j].logical_width as nat));
    }
}

} // verus!
