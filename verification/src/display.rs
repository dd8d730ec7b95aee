//! A model display server: the queue of pending events and the log of calls
//! it has served. The log is what teardown properties are stated over: which
//! windows were created, mapped and destroyed, and when the connection was
//! closed.

use crate::event::Event;
use vstd::prelude::*;

verus! {

/// One call served by the display server, in the order the calls arrived.
#[derive(Clone, Copy, PartialEq, Eq, Structural, Debug)]
pub enum ServerOp {
    /// A display connection was opened.
    Connect,
    /// A window with this identifier was created.
    CreateWindow(u64),
    /// The title of this window was stored.
    SetTitle(u64),
    /// A named atom was interned; the field is the atom handed out.
    InternAtom(u64),
    /// The close-protocol interest of this window was registered.
    SetProtocols(u64),
    /// This window was mapped (made visible).
    MapWindow(u64),
    /// This window was destroyed.
    DestroyWindow(u64),
    /// The display connection was closed.
    CloseConnection,
}

/// The display server as the window component sees it: whether it accepts
/// connections, whether one is open, the next free window identifier, the
/// queued events (oldest first) and the log of served calls (oldest first).
pub struct DisplayServer {
    pub accepting: bool,
    pub connected: bool,
    pub next_window: u64,
    pub queue: Vec<Event>,
    pub log: Vec<ServerOp>,
}

/// How often `op` occurs in `log`.
pub open spec fn count_in_log(log: Seq<ServerOp>, op: ServerOp) -> nat
    decreases log.len(),
{
    if log.len() == 0 {
        0
    } else {
        count_in_log(log.drop_last(), op) + (if log.last() == op {
            1nat
        } else {
            0nat
        })
    }
}

/// The window `w` is destroyed at some point strictly before the connection
/// is closed.
pub open spec fn destroyed_before_closed(log: Seq<ServerOp>, w: u64) -> bool {
    exists|i: int, j: int|
        0 <= i < j < log.len() && log[i] == ServerOp::DestroyWindow(w) && log[j]
            == ServerOp::CloseConnection
}

/// `post` differs from `pre` at most in its event queue: no call was served,
/// no window state changed.
pub open spec fn same_server_state(pre: DisplayServer, post: DisplayServer) -> bool {
    &&& post.accepting == pre.accepting
    &&& post.connected == pre.connected
    &&& post.next_window == pre.next_window
    &&& post.log@ == pre.log@
}

/// Nothing about `pre` changed at all, the queue included.
pub open spec fn untouched(pre: DisplayServer, post: DisplayServer) -> bool {
    &&& same_server_state(pre, post)
    &&& post.queue@ == pre.queue@
}

pub proof fn lemma_count_push(log: Seq<ServerOp>, x: ServerOp, op: ServerOp)
    ensures
        count_in_log(log.push(x), op) == count_in_log(log, op) + (if x == op {
            1nat
        } else {
            0nat
        }),
{
    assert(log.push(x).drop_last() =~= log);
    assert(log.push(x).last() == x);
}

impl DisplayServer {
    /// A fresh display server that accepts connections: nothing queued,
    /// nothing served yet.
    pub fn new() -> (s: DisplayServer)
        ensures
            s.accepting,
            !s.connected,
            s.next_window == 1,
            s.queue@ == Seq::<Event>::empty(),
            s.log@ == Seq::<ServerOp>::empty(),
    {
        DisplayServer {
            accepting: true,
            connected: false,
            next_window: 1,
            queue: Vec::new(),
            log: Vec::new(),
        }
    }

    /// A display server that cannot be reached: every attempt to open a
    /// connection fails.
    pub fn unreachable() -> (s: DisplayServer)
        ensures
            !s.accepting,
            !s.connected,
            s.next_window == 1,
            s.queue@ == Seq::<Event>::empty(),
            s.log@ == Seq::<ServerOp>::empty(),
    {
        DisplayServer {
            accepting: false,
            connected: false,
            next_window: 1,
            queue: Vec::new(),
            log: Vec::new(),
        }
    }

    /// The server receives one more event; it joins the end of the queue.
    pub fn synthesize(&mut self, e: Event)
        ensures
            final(self).queue@ == old(self).queue@.push(e),
            same_server_state(*old(self), *final(self)),
    {
        self.queue.push(e);
    }
}

} // verus!
