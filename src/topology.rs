//! Display outputs, the snapshot of the active ones, and change detection.

use vstd::prelude::*;

verus! {

/// Connection status of an output, as the display extension reports it.
#[derive(Clone, Copy, Debug, PartialEq, Eq, Structural)]
pub enum XcbRandrOutputConnectionStatus {
    Connected,
    Disconnected,
    Unknown,
}

impl XcbRandrOutputConnectionStatus {
    /// Decodes the wire value of a connection status: 0, 1 and 2 are known.
    pub fn from_u8(val: u8) -> (r: Option<XcbRandrOutputConnectionStatus>)
        ensures
            val == 0 <==> r == Some(XcbRandrOutputConnectionStatus::Connected),
            val == 1 <==> r == Some(XcbRandrOutputConnectionStatus::Disconnected),
            val == 2 <==> r == Some(XcbRandrOutputConnectionStatus::Unknown),
            val > 2 <==> r is None,
    {
        match val {
            0 => Some(XcbRandrOutputConnectionStatus::Connected),
            1 => Some(XcbRandrOutputConnectionStatus::Disconnected),
            2 => Some(XcbRandrOutputConnectionStatus::Unknown),
            _ => None,
        }
    }
}

/// What the server reports of one output.
#[derive(Debug)]
pub struct XcbRandrOutputInfo {
    pub id: u32,
    pub crtc: u32,
    pub mm_width: u32,
    pub mm_height: u32,
    pub connection: XcbRandrOutputConnectionStatus,
    pub subpixel_order: u8,
    pub name: String,
}

/// Position and size of the display controller that drives an output.
#[derive(Clone, Copy, Debug)]
pub struct XcbRandrCrtcInfo {
    pub id: u32,
    pub x: i16,
    pub y: i16,
    pub width: u16,
    pub height: u16,
}

/// One active output: its name and its rectangle on the virtual desktop.
#[derive(Debug)]
pub struct XcbOutputDescription {
    pub name: String,
    pub x: i16,
    pub y: i16,
    pub width: u16,
    pub height: u16,
}

/// Two descriptions are equal when all their fields are.
pub open spec fn same_output(a: XcbOutputDescription, b: XcbOutputDescription) -> bool {
    &&& a.name@ == b.name@
    &&& a.x == b.x
    &&& a.y == b.y
    &&& a.width == b.width
    &&& a.height == b.height
}

/// Two snapshots are equal when they have the same length and equal
/// descriptions at every index.
pub open spec fn same_topology(a: Seq<XcbOutputDescription>, b: Seq<XcbOutputDescription>) -> bool {
    &&& a.len() == b.len()
    &&& forall|i: int| 0 <= i < a.len() ==> same_output(#[trigger] a[i], b[i])
}

impl PartialEq for XcbOutputDescription {
    fn eq(&self, other: &XcbOutputDescription) -> (r: bool) {
        self.name == other.name && self.x == other.x && self.y == other.y && self.width
            == other.width && self.height == other.height
    }
}

impl vstd::std_specs::cmp::PartialEqSpecImpl for XcbOutputDescription {
    open spec fn obeys_eq_spec() -> bool {
        true
    }

    open spec fn eq_spec(&self, other: &XcbOutputDescription) -> bool {
        same_output(*self, *other)
    }
}

impl Clone for XcbOutputDescription {
    fn clone(&self) -> (r: XcbOutputDescription)
        ensures
            same_output(r, *self),
    {
        XcbOutputDescription {
            name: self.name.clone(),
            x: self.x,
            y: self.y,
            width: self.width,
            height: self.height,
        }
    }
}

/// An output belongs to the desktop when it is connected and driven by a
/// display controller.
pub open spec fn is_active(info: XcbRandrOutputInfo) -> bool {
    info.connection == XcbRandrOutputConnectionStatus::Connected && info.crtc != 0
}

/// Whether an output is active, so that its controller is worth querying.
pub fn is_active_output(info: &XcbRandrOutputInfo) -> (r: bool)
    ensures
        r == is_active(*info),
{
    info.connection == XcbRandrOutputConnectionStatus::Connected && info.crtc != 0
}

/// Pairs an output's name with the rectangle of its display controller.
pub fn describe_output_and_crtc(x: &(XcbRandrOutputInfo, XcbRandrCrtcInfo)) -> (r:
    XcbOutputDescription)
    ensures
        r.name@ == x.0.name@,
        r.x == x.1.x,
        r.y == x.1.y,
        r.width == x.1.width,
        r.height == x.1.height,
{
    XcbOutputDescription {
        name: x.0.name.clone(),
        x: x.1.x,
        y: x.1.y,
        width: x.1.width,
        height: x.1.height,
    }
}

/// Builds the snapshot from the active outputs and their controllers, in the
/// order in which the server listed them. Pairs whose output is not active
/// are left out.
pub fn describe_active_outputs(pairs: &Vec<(XcbRandrOutputInfo, XcbRandrCrtcInfo)>) -> (r: Vec<
    XcbOutputDescription,
>)
    ensures
        same_topology(r@, active_descriptions(pairs@)),
{
    let mut out: Vec<XcbOutputDescription> = Vec::new();
    let mut i: usize = 0;
    while i < pairs.len()
        invariant
            i <= pairs@.len(),
            same_topology(out@, active_descriptions(pairs@.take(i as int))),
        decreases pairs@.len() - i,
    {
        proof {
            assert(pairs@.take(i as int + 1).drop_last() =~= pairs@.take(i as int));
        }
        if is_active_output(&pairs[i].0) {
            let d = describe_output_and_crtc(&pairs[i]);
            out.push(d);
        }
        i = i + 1;
    }
    assert(pairs@.take(pairs@.len() as int) =~= pairs@);
    out
}

/// The description of the output and controller in a pair.
pub open spec fn describe(p: (XcbRandrOutputInfo, XcbRandrCrtcInfo)) -> XcbOutputDescription {
    XcbOutputDescription {
        name: p.0.name,
        x: p.1.x,
        y: p.1.y,
        width: p.1.width,
        height: p.1.height,
    }
}

/// The descriptions of the pairs whose output is active, in order.
pub open spec fn active_descriptions(pairs: Seq<(XcbRandrOutputInfo, XcbRandrCrtcInfo)>) -> Seq<
    XcbOutputDescription,
>
    decreases pairs.len(),
{
    if pairs.len() == 0 {
        Seq::empty()
    } else {
        let rest = active_descriptions(pairs.drop_last());
        if is_active(pairs.last().0) {
            rest.push(describe(pairs.last()))
        } else {
            rest
        }
    }
}

/// Whether the active outputs changed between two snapshots: a different
/// length, or a different description at some index. Outputs that only swap
/// places count as a change.
pub fn outputs_changed(previous: &Vec<XcbOutputDescription>, current: &Vec<XcbOutputDescription>) -> (r:
    bool)
    ensures
        r == !same_topology(previous@, current@),
{
    if previous.len() != current.len() {
        return true;
    }
    let mut i: usize = 0;
    while i < previous.len()
        invariant
            previous@.len() == current@.len(),
            i <= previous@.len(),
            forall|j: int| 0 <= j < i ==> same_output(#[trigger] previous@[j], current@[j]),
        decreases previous@.len() - i,
    {
        if previous[i] != current[i] {
            return true;
        }
        i = i + 1;
    }
    false
}

/// A snapshot compared with itself, or with an element-wise equal one, is
/// unchanged.
pub proof fn lemma_identical_unchanged(a: Seq<XcbOutputDescription>, b: Seq<XcbOutputDescription>)
    requires
        a.len() == b.len(),
        forall|i: int| 0 <= i < a.len() ==> same_output(#[trigger] a[i], b[i]),
    ensures
        same_topology(a, b),
        same_topology(a, a),
{
}

/// Swapping two outputs that differ is a change, even though the snapshot
/// still holds the same outputs.
pub proof fn lemma_reorder_is_change(s: Seq<XcbOutputDescription>, i: int, j: int)
    requires
        0 <= i < s.len(),
        0 <= j < s.len(),
        !same_output(s[i], s[j]),
    ensures
        !same_topology(s, s.update(i, s[j]).update(j, s[i])),
{
    let t = s.update(i, s[j]).update(j, s[i]);
    assert(t[i] == s[j]);
    assert(!same_output(s[i], t[i]));
}

} // verus!
