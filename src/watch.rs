//! Decisions of the watch loop: what an event means, and whether the
//! transform has to be applied again.

use vstd::prelude::*;
use crate::topology::{outputs_changed, same_topology, XcbOutputDescription};

verus! {

/// Kind of a display-change notification, counted from the display
/// extension's first event code.
#[derive(Clone, Copy, Debug, PartialEq, Eq, Structural)]
pub enum XcbRandrEventType {
    CrtcChange,
    OutputChange,
    OutputProperty,
    ProviderChange,
    ProviderProperty,
    ResourceChange,
}

/// The kind of display-change event at an offset from the first event code.
pub open spec fn randr_event_type(offset: u8) -> Option<XcbRandrEventType> {
    if offset == 0 {
        Some(XcbRandrEventType::CrtcChange)
    } else if offset == 1 {
        Some(XcbRandrEventType::OutputChange)
    } else if offset == 2 {
        Some(XcbRandrEventType::OutputProperty)
    } else if offset == 3 {
        Some(XcbRandrEventType::ProviderChange)
    } else if offset == 4 {
        Some(XcbRandrEventType::ProviderProperty)
    } else if offset == 5 {
        Some(XcbRandrEventType::ResourceChange)
    } else {
        None
    }
}

impl XcbRandrEventType {
    /// Decodes an event code relative to the extension's first event: 0 to 5
    /// are known.
    pub fn from_u8(val: u8) -> (r: Option<XcbRandrEventType>)
        ensures
            r == randr_event_type(val),
    {
        match val {
            0 => Some(XcbRandrEventType::CrtcChange),
            1 => Some(XcbRandrEventType::OutputChange),
            2 => Some(XcbRandrEventType::OutputProperty),
            3 => Some(XcbRandrEventType::ProviderChange),
            4 => Some(XcbRandrEventType::ProviderProperty),
            5 => Some(XcbRandrEventType::ResourceChange),
            _ => None,
        }
    }
}

/// Offset of the last display-change event code the watcher listens to.
pub const RANDR_LAST_EVENT_OFFSET: u8 = 5;

/// Response type of a generic extension event.
pub const GENERIC_EVENT: u8 = 35;

/// Event type of an input-hierarchy change within a generic event.
pub const INPUT_HIERARCHY_EVENT: u16 = 11;

/// An event as the watch loop sees it.
#[derive(Clone, Copy, Debug, PartialEq, Eq, Structural)]
pub enum WatchEvent {
    /// The display configuration changed.
    DisplayChange(XcbRandrEventType),
    /// Input devices were added, removed, enabled or disabled.
    HierarchyChange,
    /// Anything else.
    Other,
}

/// The event code lies in the display extension's range.
pub open spec fn in_display_range(response_type: u8, randr_first_event: u8) -> bool {
    randr_first_event <= response_type && response_type - randr_first_event
        <= RANDR_LAST_EVENT_OFFSET
}

/// Tells what an event is from its response type and, for a generic event,
/// the extension and event type it carries.
pub fn classify_event(
    response_type: u8,
    randr_first_event: u8,
    input_major_opcode: u8,
    ge_extension: u8,
    ge_event_type: u16,
) -> (r: WatchEvent)
    ensures
        in_display_range(response_type, randr_first_event) ==> r == WatchEvent::DisplayChange(
            randr_event_type((response_type - randr_first_event) as u8)->Some_0,
        ),
        !in_display_range(response_type, randr_first_event) ==> (r == WatchEvent::HierarchyChange
            <==> (response_type == GENERIC_EVENT && ge_extension == input_major_opcode
            && ge_event_type == INPUT_HIERARCHY_EVENT)),
        !in_display_range(response_type, randr_first_event) ==> r != WatchEvent::HierarchyChange
            ==> r == WatchEvent::Other,
{
    if randr_first_event <= response_type && response_type - randr_first_event
        <= RANDR_LAST_EVENT_OFFSET {
        match XcbRandrEventType::from_u8(response_type - randr_first_event) {
            Some(k) => WatchEvent::DisplayChange(k),
            None => WatchEvent::Other,
        }
    } else if response_type == GENERIC_EVENT && ge_extension == input_major_opcode && ge_event_type
        == INPUT_HIERARCHY_EVENT {
        WatchEvent::HierarchyChange
    } else {
        WatchEvent::Other
    }
}

/// State of the watch loop: the last snapshot for which the transform was
/// applied.
#[derive(Debug)]
pub struct Watcher {
    pub previous: Vec<XcbOutputDescription>,
}

impl Watcher {
    /// Starts watching from the snapshot that was applied at startup.
    pub fn new(initial: Vec<XcbOutputDescription>) -> (r: Watcher)
        ensures
            r.previous == initial,
    {
        Watcher { previous: initial }
    }

    /// Whether the event asks for the topology to be resolved again before
    /// it is handled.
    pub fn needs_topology(event: &WatchEvent) -> (r: bool)
        ensures
            r == (*event is DisplayChange),
    {
        match event {
            WatchEvent::DisplayChange(_) => true,
            _ => false,
        }
    }

    /// Handles one event and says whether the transform must be applied
    /// again, to `previous` as it stands after the call.
    ///
    /// A display change with a freshly resolved snapshot that differs from
    /// the last one replaces it and asks for the transform; an identical one
    /// changes nothing. A hierarchy change asks for the transform on the last
    /// snapshot. Any other event is ignored.
    pub fn handle(&mut self, event: &WatchEvent, current: Option<Vec<XcbOutputDescription>>) -> (r:
        bool)
        ensures
            (*event is DisplayChange && current is Some) ==> {
                let c = current->Some_0;
                &&& r == !same_topology(old(self).previous@, c@)
                &&& r ==> final(self).previous == c
                &&& !r ==> final(self).previous == old(self).previous
            },
            (*event is DisplayChange && current is None) ==> !r && final(self).previous == old(
                self,
            ).previous,
            *event is HierarchyChange ==> r && final(self).previous == old(self).previous,
            *event is Other ==> !r && final(self).previous == old(self).previous,
    {
        match event {
            WatchEvent::DisplayChange(_) => match current {
                Some(c) => {
                    if outputs_changed(&self.previous, &c) {
                        self.previous = c;
                        true
                    } else {
                        false
                    }
                },
                None => false,
            },
            WatchEvent::HierarchyChange => true,
            WatchEvent::Other => false,
        }
    }
}

} // verus!
