//! The transform that maps the whole desktop onto one output.
//!
//! Absolute tablet positions cover the bounding box of every active output.
//! The transform scales and shifts that box onto the target output. Each entry
//! is kept as an exact fraction of integers; a caller converts it to the
//! floating-point form that the device property stores.

use vstd::prelude::*;
use crate::text::same_chars;
use crate::topology::XcbOutputDescription;

verus! {

/// Index of the first output at or after `i` named `name`, or 0 when no output
/// from `i` on has that name.
pub open spec fn find_from(s: Seq<XcbOutputDescription>, name: Seq<char>, i: int) -> int
    decreases s.len() - i,
{
    if i < 0 || i >= s.len() {
        0
    } else if s[i].name@ == name {
        i
    } else {
        find_from(s, name, i + 1)
    }
}

/// Index of the output that a tablet is mapped to: the first one named `name`,
/// or the first one of all when none has that name.
pub open spec fn target_index(s: Seq<XcbOutputDescription>, name: Seq<char>) -> int {
    find_from(s, name, 0)
}

/// Some output of `s` is named `name`.
pub open spec fn has_output_named(s: Seq<XcbOutputDescription>, name: Seq<char>) -> bool {
    exists|i: int| 0 <= i < s.len() && (#[trigger] s[i]).name@ == name
}

/// Picks the output that the tablets are mapped to.
pub fn select_target(outputs: &Vec<XcbOutputDescription>, name: &str) -> (r: usize)
    requires
        outputs@.len() > 0,
    ensures
        r == target_index(outputs@, name@),
        r < outputs@.len(),
{
    let mut i: usize = 0;
    while i < outputs.len()
        invariant
            i <= outputs@.len(),
            target_index(outputs@, name@) == find_from(outputs@, name@, i as int),
        decreases outputs@.len() - i,
    {
        if same_chars(outputs[i].name.as_str(), name) {
            return i;
        }
        i = i + 1;
    }
    0
}

proof fn lemma_find_from(s: Seq<XcbOutputDescription>, name: Seq<char>, i: int)
    requires
        0 <= i <= s.len(),
    ensures
        0 <= find_from(s, name, i) < s.len() || (s.len() == 0 && find_from(s, name, i) == 0),
        (exists|k: int| i <= k < s.len() && (#[trigger] s[k]).name@ == name) ==> {
            let r = find_from(s, name, i);
            &&& i <= r < s.len()
            &&& s[r].name@ == name
            &&& forall|k: int| i <= k < r ==> (#[trigger] s[k]).name@ != name
        },
        !(exists|k: int| i <= k < s.len() && (#[trigger] s[k]).name@ == name) ==> find_from(
            s,
            name,
            i,
        ) == 0,
    decreases s.len() - i,
{
    if i < s.len() {
        lemma_find_from(s, name, i + 1);
        if s[i].name@ != name {
            if exists|k: int| i <= k < s.len() && (#[trigger] s[k]).name@ == name {
                let k = choose|k: int| i <= k < s.len() && (#[trigger] s[k]).name@ == name;
                assert(i + 1 <= k);
            }
        }
    }
}

/// The target is the first output with the requested name; when no output has
/// that name, it is the first output of the snapshot.
pub proof fn lemma_target_selection(s: Seq<XcbOutputDescription>, name: Seq<char>)
    requires
        s.len() > 0,
    ensures
        0 <= target_index(s, name) < s.len(),
        has_output_named(s, name) ==> s[target_index(s, name)].name@ == name,
        has_output_named(s, name) ==> forall|k: int|
            0 <= k < target_index(s, name) ==> (#[trigger] s[k]).name@ != name,
        !has_output_named(s, name) ==> target_index(s, name) == 0,
{
    lemma_find_from(s, name, 0);
}

/// Left edges of the outputs.
pub open spec fn left_edges(s: Seq<XcbOutputDescription>) -> Seq<int> {
    s.map_values(|o: XcbOutputDescription| o.x as int)
}

/// Top edges of the outputs.
pub open spec fn top_edges(s: Seq<XcbOutputDescription>) -> Seq<int> {
    s.map_values(|o: XcbOutputDescription| o.y as int)
}

/// Right edges of the outputs.
pub open spec fn right_edges(s: Seq<XcbOutputDescription>) -> Seq<int> {
    s.map_values(|o: XcbOutputDescription| o.x + o.width)
}

/// Bottom edges of the outputs.
pub open spec fn bottom_edges(s: Seq<XcbOutputDescription>) -> Seq<int> {
    s.map_values(|o: XcbOutputDescription| o.y + o.height)
}

/// The union of all output rectangles: the virtual desktop.
#[derive(Clone, Copy, Debug, PartialEq, Eq, Structural)]
pub struct BoundingBox {
    pub min_x: i32,
    pub min_y: i32,
    pub max_x: i32,
    pub max_y: i32,
}

/// `b` is the bounding box of the outputs in `s`.
pub open spec fn bounds_of(s: Seq<XcbOutputDescription>, b: BoundingBox) -> bool {
    &&& b.min_x == left_edges(s).min()
    &&& b.min_y == top_edges(s).min()
    &&& b.max_x == right_edges(s).max()
    &&& b.max_y == bottom_edges(s).max()
}

proof fn lemma_min_is(v: Seq<int>, m: int)
    requires
        v.len() > 0,
        forall|k: int| 0 <= k < v.len() ==> m <= v[k],
        exists|k: int| 0 <= k < v.len() && m == v[k],
    ensures
        v.min() == m,
{
    v.min_ensures();
}

proof fn lemma_max_is(v: Seq<int>, m: int)
    requires
        v.len() > 0,
        forall|k: int| 0 <= k < v.len() ==> v[k] <= m,
        exists|k: int| 0 <= k < v.len() && m == v[k],
    ensures
        v.max() == m,
{
    v.max_ensures();
}

/// Computes the bounding box of all outputs, not only the target.
pub fn desktop_bounds(outputs: &Vec<XcbOutputDescription>) -> (r: BoundingBox)
    requires
        outputs@.len() > 0,
    ensures
        bounds_of(outputs@, r),
{
    let s = Ghost(outputs@);
    let o0 = &outputs[0];
    let mut min_x: i32 = o0.x as i32;
    let mut min_y: i32 = o0.y as i32;
    let mut max_x: i32 = o0.x as i32 + o0.width as i32;
    let mut max_y: i32 = o0.y as i32 + o0.height as i32;
    let mut i: usize = 1;
    while i < outputs.len()
        invariant
            s@ == outputs@,
            1 <= i <= s@.len(),
            forall|k: int| 0 <= k < i ==> min_x <= (#[trigger] s@[k]).x,
            forall|k: int| 0 <= k < i ==> min_y <= (#[trigger] s@[k]).y,
            forall|k: int| 0 <= k < i ==> (#[trigger] s@[k]).x + s@[k].width <= max_x,
            forall|k: int| 0 <= k < i ==> (#[trigger] s@[k]).y + s@[k].height <= max_y,
            exists|k: int| 0 <= k < i && min_x == (#[trigger] s@[k]).x,
            exists|k: int| 0 <= k < i && min_y == (#[trigger] s@[k]).y,
            exists|k: int| 0 <= k < i && max_x == (#[trigger] s@[k]).x + s@[k].width,
            exists|k: int| 0 <= k < i && max_y == (#[trigger] s@[k]).y + s@[k].height,
        decreases s@.len() - i,
    {
        let o = &outputs[i];
        let left = o.x as i32;
        let top = o.y as i32;
        let right = o.x as i32 + o.width as i32;
        let bottom = o.y as i32 + o.height as i32;
        if left < min_x {
            min_x = left;
        }
        if top < min_y {
            min_y = top;
        }
        if right > max_x {
            max_x = right;
        }
        if bottom > max_y {
            max_y = bottom;
        }
        assert(s@[i as int] == *o);
        i = i + 1;
    }
    proof {
        let n = s@.len() as int;
        assert forall|k: int| 0 <= k < n implies min_x <= #[trigger] left_edges(s@)[k] by {
            assert(min_x <= s@[k].x);
        }
        let kx = choose|k: int| 0 <= k < n && min_x == (#[trigger] s@[k]).x;
        assert(min_x == left_edges(s@)[kx]);
        lemma_min_is(left_edges(s@), min_x as int);
        assert forall|k: int| 0 <= k < n implies min_y <= #[trigger] top_edges(s@)[k] by {
            assert(min_y <= s@[k].y);
        }
        let ky = choose|k: int| 0 <= k < n && min_y == (#[trigger] s@[k]).y;
        assert(min_y == top_edges(s@)[ky]);
        lemma_min_is(top_edges(s@), min_y as int);
        assert forall|k: int| 0 <= k < n implies #[trigger] right_edges(s@)[k] <= max_x by {
            assert(s@[k].x + s@[k].width <= max_x);
        }
        let kr = choose|k: int| 0 <= k < n && max_x == (#[trigger] s@[k]).x + s@[k].width;
        assert(max_x == right_edges(s@)[kr]);
        lemma_max_is(right_edges(s@), max_x as int);
        assert forall|k: int| 0 <= k < n implies #[trigger] bottom_edges(s@)[k] <= max_y by {
            assert(s@[k].y + s@[k].height <= max_y);
        }
        let kb = choose|k: int| 0 <= k < n && max_y == (#[trigger] s@[k]).y + s@[k].height;
        assert(max_y == bottom_edges(s@)[kb]);
        lemma_max_is(bottom_edges(s@), max_y as int);
    }
    BoundingBox { min_x, min_y, max_x, max_y }
}

proof fn lemma_bounds_contain(s: Seq<XcbOutputDescription>, k: int)
    requires
        0 <= k < s.len(),
    ensures
        left_edges(s).min() <= s[k].x,
        top_edges(s).min() <= s[k].y,
        s[k].x + s[k].width <= right_edges(s).max(),
        s[k].y + s[k].height <= bottom_edges(s).max(),
{
    left_edges(s).min_ensures();
    top_edges(s).min_ensures();
    right_edges(s).max_ensures();
    bottom_edges(s).max_ensures();
    assert(left_edges(s)[k] == s[k].x);
    assert(top_edges(s)[k] == s[k].y);
    assert(right_edges(s)[k] == s[k].x + s[k].width);
    assert(bottom_edges(s)[k] == s[k].y + s[k].height);
}

proof fn lemma_bounds_range(s: Seq<XcbOutputDescription>)
    requires
        s.len() > 0,
    ensures
        -0x8000 <= left_edges(s).min() < 0x8000,
        -0x8000 <= top_edges(s).min() < 0x8000,
        -0x8000 <= right_edges(s).max() < 0x18000,
        -0x8000 <= bottom_edges(s).max() < 0x18000,
{
    left_edges(s).min_ensures();
    top_edges(s).min_ensures();
    right_edges(s).max_ensures();
    bottom_edges(s).max_ensures();
    let a = choose|k: int| 0 <= k < s.len() && left_edges(s)[k] == left_edges(s).min();
    let b = choose|k: int| 0 <= k < s.len() && top_edges(s)[k] == top_edges(s).min();
    let c = choose|k: int| 0 <= k < s.len() && right_edges(s)[k] == right_edges(s).max();
    let d = choose|k: int| 0 <= k < s.len() && bottom_edges(s)[k] == bottom_edges(s).max();
    assert(left_edges(s)[a] == s[a].x);
    assert(top_edges(s)[b] == s[b].y);
    assert(right_edges(s)[c] == s[c].x + s[c].width);
    assert(bottom_edges(s)[d] == s[d].y + s[d].height);
}

/// The bounding box of `s` has no width or no height: no transform onto it
/// is defined.
pub open spec fn is_degenerate(s: Seq<XcbOutputDescription>) -> bool {
    right_edges(s).max() == left_edges(s).min() || bottom_edges(s).max() == top_edges(s).min()
}

/// The affine transform `[cx, 0, dx; 0, cy, dy; 0, 0, 1]`, with each entry an
/// exact fraction: `dx = dx_num / width` and `cx = cx_num / width`,
/// `dy = dy_num / height` and `cy = cy_num / height`, where `width` and
/// `height` are those of the desktop's bounding box.
#[derive(Clone, Copy, Debug, PartialEq, Eq, Structural)]
pub struct TabletTransform {
    pub dx_num: i32,
    pub cx_num: i32,
    pub width: i32,
    pub dy_num: i32,
    pub cy_num: i32,
    pub height: i32,
}

/// `t` maps the bounding box of `s` onto the output that `name` selects.
pub open spec fn transform_of(s: Seq<XcbOutputDescription>, name: Seq<char>, t: TabletTransform) -> bool {
    let o = s[target_index(s, name)];
    &&& t.dx_num == o.x - left_edges(s).min()
    &&& t.dy_num == o.y - top_edges(s).min()
    &&& t.cx_num == o.width
    &&& t.cy_num == o.height
    &&& t.width == right_edges(s).max() - left_edges(s).min()
    &&& t.height == bottom_edges(s).max() - top_edges(s).min()
}

/// Why no transform could be computed.
#[derive(Clone, Copy, Debug, PartialEq, Eq, Structural)]
pub enum MapError {
    /// The snapshot holds no active output, so there is no target.
    NoOutputs,
    /// The bounding box has zero width or height; the transform would divide
    /// by zero.
    DegenerateBounds,
}

/// Computes the transform that maps the desktop onto the output named `name`,
/// or onto the first output when none has that name.
///
/// A transform is returned only with positive denominators, so every entry
/// of its matrix is finite.
pub fn compute_transform(outputs: &Vec<XcbOutputDescription>, name: &str) -> (r: Result<
    TabletTransform,
    MapError,
>)
    ensures
        r matches Err(MapError::NoOutputs) <==> outputs@.len() == 0,
        r matches Err(MapError::DegenerateBounds) <==> (outputs@.len() > 0 && is_degenerate(
            outputs@,
        )),
        r matches Ok(t) ==> transform_of(outputs@, name@, t) && t.width > 0 && t.height > 0,
{
    if outputs.len() == 0 {
        return Err(MapError::NoOutputs);
    }
    let b = desktop_bounds(outputs);
    let k = select_target(outputs, name);
    proof {
        lemma_bounds_contain(outputs@, 0);
        lemma_bounds_contain(outputs@, k as int);
        lemma_bounds_range(outputs@);
    }
    if b.max_x == b.min_x || b.max_y == b.min_y {
        return Err(MapError::DegenerateBounds);
    }
    let o = &outputs[k];
    Ok(
        TabletTransform {
            dx_num: o.x as i32 - b.min_x,
            cx_num: o.width as i32,
            width: b.max_x - b.min_x,
            dy_num: o.y as i32 - b.min_y,
            cy_num: o.height as i32,
            height: b.max_y - b.min_y,
        },
    )
}

impl TabletTransform {
    /// The nine entries of the matrix in row-major order, each as a pair of
    /// numerator and denominator.
    pub fn matrix(&self) -> (r: Vec<(i32, i32)>)
        requires
            self.width > 0,
            self.height > 0,
        ensures
            r@ == seq![
                (self.cx_num, self.width), (0i32, 1i32), (self.dx_num, self.width),
                (0i32, 1i32), (self.cy_num, self.height), (self.dy_num, self.height),
                (0i32, 1i32), (0i32, 1i32), (1i32, 1i32),
            ],
    {
        let r = vec![
            (self.cx_num, self.width), (0i32, 1i32), (self.dx_num, self.width),
            (0i32, 1i32), (self.cy_num, self.height), (self.dy_num, self.height),
            (0i32, 1i32), (0i32, 1i32), (1i32, 1i32),
        ];
        assert(r@ =~= seq![
                (self.cx_num, self.width), (0i32, 1i32), (self.dx_num, self.width),
                (0i32, 1i32), (self.cy_num, self.height), (self.dy_num, self.height),
                (0i32, 1i32), (0i32, 1i32), (1i32, 1i32),
            ]);
        r
    }
}

/// When the target output has a positive size, the bounding box is not
/// degenerate and each scale lies in the half-open unit range:
/// `0 < cx <= 1` and `0 < cy <= 1`.
pub proof fn lemma_scale_in_unit_range(s: Seq<XcbOutputDescription>, name: Seq<char>, t: TabletTransform)
    requires
        s.len() > 0,
        s[target_index(s, name)].width > 0,
        s[target_index(s, name)].height > 0,
        transform_of(s, name, t),
    ensures
        !is_degenerate(s),
        0 < t.cx_num <= t.width,
        0 < t.cy_num <= t.height,
        0 <= t.dx_num <= t.width - t.cx_num,
        0 <= t.dy_num <= t.height - t.cy_num,
{
    lemma_target_selection(s, name);
    lemma_bounds_contain(s, target_index(s, name));
}

} // verus!
