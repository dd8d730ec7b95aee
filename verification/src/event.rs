//! Platform events, reduced to the fields the close-detection logic reads,
//! and the filtering that an input method applies before events reach the
//! application.

use vstd::prelude::*;

verus! {

/// The class of a platform event. Only client messages carry a close
/// request; every other class is observed and discarded in this scope.
#[derive(Clone, Copy, PartialEq, Eq, Structural, Debug)]
pub enum EventKind {
    ClientMessage,
    KeyPress,
    KeyRelease,
    ButtonPress,
    ButtonRelease,
    MotionNotify,
    Other,
}

/// One platform event. `message_type` and `data0` are meaningful only for
/// client messages: the message-type atom and the first long data word.
/// `filtered` marks an event that the input method consumed, which must not
/// be delivered to the application.
#[derive(Clone, Copy, PartialEq, Eq, Structural, Debug)]
pub struct Event {
    pub kind: EventKind,
    pub message_type: u64,
    pub data0: u64,
    pub filtered: bool,
}

/// An event asks to close the window exactly when it is a client message
/// whose message type is the supported-protocols atom and whose first data
/// word is the delete-window atom.
pub open spec fn spec_is_close_request(e: Event, wm_protocols: u64, wm_delete_window: u64) -> bool {
    &&& e.kind is ClientMessage
    &&& e.message_type == wm_protocols
    &&& e.data0 == wm_delete_window
}

/// Some event of the sequence asks to close the window.
pub open spec fn spec_close_in(s: Seq<Event>, wm_protocols: u64, wm_delete_window: u64) -> bool {
    exists|i: int| 0 <= i < s.len() && spec_is_close_request(s[i], wm_protocols, wm_delete_window)
}

/// The subsequence of events that survives input-method filtering, in order.
pub open spec fn delivered(s: Seq<Event>) -> Seq<Event>
    decreases s.len(),
{
    if s.len() == 0 {
        Seq::empty()
    } else if s[0].filtered {
        delivered(s.drop_first())
    } else {
        seq![s[0]] + delivered(s.drop_first())
    }
}

/// Decides whether one event is a close request for the window whose two
/// protocol atoms are given.
pub fn is_close_request(e: &Event, wm_protocols: u64, wm_delete_window: u64) -> (r: bool)
    ensures
        r == spec_is_close_request(*e, wm_protocols, wm_delete_window),
{
    match e.kind {
        EventKind::ClientMessage => e.message_type == wm_protocols && e.data0 == wm_delete_window,
        _ => false,
    }
}

/// Scans a batch of drained events for a close request.
pub fn close_requested(events: &Vec<Event>, wm_protocols: u64, wm_delete_window: u64) -> (r: bool)
    ensures
        r == spec_close_in(events@, wm_protocols, wm_delete_window),
{
    let mut found: bool = false;
    let mut i: usize = 0;
    while i < events.len()
        invariant
            0 <= i <= events@.len(),
            found == exists|j: int|
                0 <= j < i && spec_is_close_request(
                    events@[j],
                    wm_protocols,
                    wm_delete_window,
                ),
        decreases events@.len() - i,
    {
        if is_close_request(&events[i], wm_protocols, wm_delete_window) {
            proof {
                assert(spec_is_close_request(events@[i as int], wm_protocols, wm_delete_window));
            }
            found = true;
        }
        i = i + 1;
    }
    found
}

} // verus!
