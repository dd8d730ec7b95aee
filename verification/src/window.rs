//! The window component: one display connection and one top-level window.
//! Opening resolves the two close-protocol atoms and registers interest in
//! them; draining hands back the pending events without blocking; closing
//! destroys the window and then the connection, exactly once each.

use crate::display::count_in_log;
use crate::display::destroyed_before_closed;
use crate::display::lemma_count_push;
use crate::display::same_server_state;
use crate::display::untouched;
use crate::display::DisplayServer;
use crate::display::ServerOp;
use crate::event::delivered;
use crate::event::Event;
use vstd::prelude::*;

verus! {

/// The atom the server resolves for the supported-protocols name.
pub const ATOM_WM_PROTOCOLS: u64 = 1;

/// The atom the server resolves for the delete-window name.
pub const ATOM_WM_DELETE_WINDOW: u64 = 2;

/// Why opening a window failed: the title held an embedded null byte, or no
/// display connection could be established.
#[derive(Clone, Copy, PartialEq, Eq, Structural, Debug)]
pub enum OpenError {
    InvalidTitle,
    ConnectionFailed,
}

/// A title is representable as a null-terminated byte string exactly when no
/// byte of it is null.
pub open spec fn title_has_nul(title: Seq<u8>) -> bool {
    exists|i: int| 0 <= i < title.len() && title[i] == 0
}

/// The calls that opening a window serves, in order: open the connection,
/// create the window, store its title, intern the two protocol atoms, and
/// register the close-protocol interest.
pub open spec fn open_log(w: u64) -> Seq<ServerOp> {
    seq![
        ServerOp::Connect,
        ServerOp::CreateWindow(w),
        ServerOp::SetTitle(w),
        ServerOp::InternAtom(ATOM_WM_PROTOCOLS),
        ServerOp::InternAtom(ATOM_WM_DELETE_WINDOW),
        ServerOp::SetProtocols(w),
    ]
}

/// One live top-level window: its identifier, the screen it sits on, its
/// fixed pixel size, and the two protocol atoms resolved when it was opened.
#[derive(Clone, Copy, PartialEq, Eq, Structural, Debug)]
pub struct WindowHandle {
    pub window: u64,
    pub screen: i32,
    pub width: u32,
    pub height: u32,
    pub wm_protocols: u64,
    pub wm_delete_window: u64,
}

/// Decides whether a title can be handed to the display server: true exactly
/// when it holds no embedded null byte.
pub fn title_is_valid(title: &[u8]) -> (r: bool)
    ensures
        r == !title_has_nul(title@),
{
    let mut i: usize = 0;
    let mut clean: bool = true;
    while i < title.len()
        invariant
            0 <= i <= title@.len(),
            clean == !(exists|j: int| 0 <= j < i && title@[j] == 0),
        decreases title@.len() - i,
    {
        if title[i] == 0 {
            proof {
                assert(title@[i as int] == 0);
            }
            clean = false;
        }
        i = i + 1;
    }
    clean
}

impl WindowHandle {
    /// The window is open on this server: the connection is up, and neither
    /// the window's destruction nor the connection's close has been served.
    pub open spec fn live(self, server: DisplayServer) -> bool {
        &&& server.connected
        &&& count_in_log(server.log@, ServerOp::CreateWindow(self.window)) == 1
        &&& count_in_log(server.log@, ServerOp::DestroyWindow(self.window)) == 0
        &&& count_in_log(server.log@, ServerOp::CloseConnection) == 0
    }

    /// Opens the one window of this session: validates the title, connects,
    /// creates the window at the given size, stores the title, resolves the
    /// two close-protocol atoms and registers interest in them. A title with
    /// an embedded null byte is rejected, and a refused connection reported,
    /// in both cases with the server untouched.
    pub fn open(server: &mut DisplayServer, title: &[u8], width: u32, height: u32) -> (r: Result<
        WindowHandle,
        OpenError,
    >)
        requires
            !old(server).connected,
            old(server).log@.len() == 0,
            old(server).next_window < u64::MAX,
        ensures
            title_has_nul(title@) ==> r == Result::<WindowHandle, OpenError>::Err(
                OpenError::InvalidTitle,
            ) && untouched(*old(server), *final(server)),
            !title_has_nul(title@) && !old(server).accepting ==> r == Result::<
                WindowHandle,
                OpenError,
            >::Err(OpenError::ConnectionFailed) && untouched(*old(server), *final(server)),
            !title_has_nul(title@) && old(server).accepting ==> ({
                &&& r matches Ok(h)
                &&& h.window == old(server).next_window
                &&& h.screen == 0
                &&& h.width == width
                &&& h.height == height
                &&& h.wm_protocols == ATOM_WM_PROTOCOLS
                &&& h.wm_delete_window == ATOM_WM_DELETE_WINDOW
                &&& h.live(*final(server))
                &&& final(server).connected
                &&& final(server).accepting == old(server).accepting
                &&& final(server).next_window == old(server).next_window + 1
                &&& final(server).queue@ == old(server).queue@
                &&& final(server).log@ == old(server).log@ + open_log(h.window)
            }),
    {
        if !title_is_valid(title) {
            return Err(OpenError::InvalidTitle);
        }
        if !server.accepting {
            return Err(OpenError::ConnectionFailed);
        }
        let window = server.next_window;
        server.connected = true;
        server.next_window = window + 1;
        server.log.push(ServerOp::Connect);
        server.log.push(ServerOp::CreateWindow(window));
        server.log.push(ServerOp::SetTitle(window));
        server.log.push(ServerOp::InternAtom(ATOM_WM_PROTOCOLS));
        server.log.push(ServerOp::InternAtom(ATOM_WM_DELETE_WINDOW));
        server.log.push(ServerOp::SetProtocols(window));
        let handle = WindowHandle {
            window,
            screen: 0,
            width,
            height,
            wm_protocols: ATOM_WM_PROTOCOLS,
            wm_delete_window: ATOM_WM_DELETE_WINDOW,
        };
        proof {
            assert(server.log@ =~= old(server).log@ + open_log(window));
            assert(old(server).log@ + open_log(window) =~= open_log(window));
            lemma_open_log_counts(window);
        }
        Ok(handle)
    }

    /// Asks the server to map the window. The handle itself is untouched:
    /// the window identifier and the two atoms never change, however often
    /// the window is shown.
    pub fn show(&mut self, server: &mut DisplayServer)
        requires
            old(self).live(*old(server)),
        ensures
            *final(self) == *old(self),
            final(self).live(*final(server)),
            final(server).log@ == old(server).log@.push(ServerOp::MapWindow(old(self).window)),
            final(server).queue@ == old(server).queue@,
            final(server).connected == old(server).connected,
            final(server).accepting == old(server).accepting,
            final(server).next_window == old(server).next_window,
    {
        proof {
            lemma_count_push(
                server.log@,
                ServerOp::MapWindow(self.window),
                ServerOp::CreateWindow(self.window),
            );
            lemma_count_push(
                server.log@,
                ServerOp::MapWindow(self.window),
                ServerOp::DestroyWindow(self.window),
            );
            lemma_count_push(
                server.log@,
                ServerOp::MapWindow(self.window),
                ServerOp::CloseConnection,
            );
        }
        server.log.push(ServerOp::MapWindow(self.window));
    }

    /// Drains every queued event without blocking and hands back, in order,
    /// those the input method did not consume. The server serves no call for
    /// this, and on an empty queue the drain is a no-op.
    pub fn drain_events(&self, server: &mut DisplayServer) -> (events: Vec<Event>)
        requires
            self.live(*old(server)),
        ensures
            self.live(*final(server)),
            events@ == delivered(old(server).queue@),
            final(server).queue@ == Seq::<Event>::empty(),
            same_server_state(*old(server), *final(server)),
            old(server).queue@.len() == 0 ==> events@ == Seq::<Event>::empty(),
    {
        let mut events: Vec<Event> = Vec::new();
        while server.queue.len() > 0
            invariant
                self.live(*server),
                events@ + delivered(server.queue@) == delivered(old(server).queue@),
                same_server_state(*old(server), *server),
            decreases server.queue@.len(),
        {
            let ghost before = server.queue@;
            let e = server.queue.remove(0);
            proof {
                assert(e == before[0]);
                assert(server.queue@ =~= before.drop_first());
            }
            if !e.filtered {
                proof {
                    assert(delivered(before) == seq![e] + delivered(before.drop_first()));
                    assert(events@.push(e) + delivered(before.drop_first()) =~= events@ + delivered(
                        before,
                    ));
                }
                events.push(e);
            } else {
                proof {
                    assert(delivered(before) == delivered(before.drop_first()));
                }
            }
        }
        proof {
            assert(delivered(server.queue@) =~= Seq::<Event>::empty());
            assert(events@ + Seq::<Event>::empty() =~= events@);
            if old(server).queue@.len() == 0 {
                assert(delivered(old(server).queue@) =~= Seq::<Event>::empty());
            }
        }
        events
    }

    /// Destroys the window, then closes the display connection: two calls,
    /// served in that order, each for the first and last time. Taking the
    /// handle by value is what makes a second close impossible.
    pub fn close(self, server: &mut DisplayServer)
        requires
            self.live(*old(server)),
        ensures
            final(server).log@ == old(server).log@ + seq![
                ServerOp::DestroyWindow(self.window),
                ServerOp::CloseConnection,
            ],
            !final(server).connected,
            final(server).accepting == old(server).accepting,
            final(server).next_window == old(server).next_window,
            final(server).queue@ == old(server).queue@,
            count_in_log(final(server).log@, ServerOp::DestroyWindow(self.window)) == 1,
            count_in_log(final(server).log@, ServerOp::CloseConnection) == 1,
            destroyed_before_closed(final(server).log@, self.window),
    {
        proof {
            lemma_release_ordering(server.log@, self.window);
        }
        server.log.push(ServerOp::DestroyWindow(self.window));
        server.log.push(ServerOp::CloseConnection);
        server.connected = false;
        proof {
            assert(server.log@ =~= old(server).log@ + seq![
                ServerOp::DestroyWindow(self.window),
                ServerOp::CloseConnection,
            ]);
        }
    }
}

/// The six calls of an open create the new window once and neither destroy
/// it nor close the connection.
proof fn lemma_open_log_counts(w: u64)
    ensures
        count_in_log(open_log(w), ServerOp::CreateWindow(w)) == 1,
        count_in_log(open_log(w), ServerOp::DestroyWindow(w)) == 0,
        count_in_log(open_log(w), ServerOp::CloseConnection) == 0,
{
    let cw = ServerOp::CreateWindow(w);
    let dw = ServerOp::DestroyWindow(w);
    let cc = ServerOp::CloseConnection;
    let s0 = Seq::<ServerOp>::empty();
    let s1 = s0.push(ServerOp::Connect);
    let s2 = s1.push(cw);
    let s3 = s2.push(ServerOp::SetTitle(w));
    let s4 = s3.push(ServerOp::InternAtom(ATOM_WM_PROTOCOLS));
    let s5 = s4.push(ServerOp::InternAtom(ATOM_WM_DELETE_WINDOW));
    let s6 = s5.push(ServerOp::SetProtocols(w));
    assert(open_log(w) =~= s6);
    assert(count_in_log(s0, cw) == 0);
    assert(count_in_log(s0, dw) == 0);
    assert(count_in_log(s0, cc) == 0);
    lemma_count_push(s0, ServerOp::Connect, cw);
    lemma_count_push(s0, ServerOp::Connect, dw);
    lemma_count_push(s0, ServerOp::Connect, cc);
    lemma_count_push(s1, cw, cw);
    lemma_count_push(s1, cw, dw);
    lemma_count_push(s1, cw, cc);
    lemma_count_push(s2, ServerOp::SetTitle(w), cw);
    lemma_count_push(s2, ServerOp::SetTitle(w), dw);
    lemma_count_push(s2, ServerOp::SetTitle(w), cc);
    lemma_count_push(s3, ServerOp::InternAtom(ATOM_WM_PROTOCOLS), cw);
    lemma_count_push(s3, ServerOp::InternAtom(ATOM_WM_PROTOCOLS), dw);
    lemma_count_push(s3, ServerOp::InternAtom(ATOM_WM_PROTOCOLS), cc);
    lemma_count_push(s4, ServerOp::InternAtom(ATOM_WM_DELETE_WINDOW), cw);
    lemma_count_push(s4, ServerOp::InternAtom(ATOM_WM_DELETE_WINDOW), dw);
    lemma_count_push(s4, ServerOp::InternAtom(ATOM_WM_DELETE_WINDOW), cc);
    lemma_count_push(s5, ServerOp::SetProtocols(w), cw);
    lemma_count_push(s5, ServerOp::SetProtocols(w), dw);
    lemma_count_push(s5, ServerOp::SetProtocols(w), cc);
}

/// Releasing the window's resources keeps their order and happens once: a
/// log that holds no destruction of the window and no close of the
/// connection, once the two teardown calls are appended, holds exactly one
/// of each, the destruction first.
pub proof fn lemma_release_ordering(log: Seq<ServerOp>, w: u64)
    requires
        count_in_log(log, ServerOp::DestroyWindow(w)) == 0,
        count_in_log(log, ServerOp::CloseConnection) == 0,
    ensures
        count_in_log(
            log + seq![ServerOp::DestroyWindow(w), ServerOp::CloseConnection],
            ServerOp::DestroyWindow(w),
        ) == 1,
        count_in_log(
            log + seq![ServerOp::DestroyWindow(w), ServerOp::CloseConnection],
            ServerOp::CloseConnection,
        ) == 1,
        destroyed_before_closed(
            log + seq![ServerOp::DestroyWindow(w), ServerOp::CloseConnection],
            w,
        ),
{
    let two = seq![ServerOp::DestroyWindow(w), ServerOp::CloseConnection];
    let l2 = log + two;
    assert(l2 =~= log.push(ServerOp::DestroyWindow(w)).push(ServerOp::CloseConnection));
    lemma_count_push(log, ServerOp::DestroyWindow(w), ServerOp::DestroyWindow(w));
    lemma_count_push(log, ServerOp::DestroyWindow(w), ServerOp::CloseConnection);
    lemma_count_push(
        log.push(ServerOp::DestroyWindow(w)),
        ServerOp::CloseConnection,
        ServerOp::DestroyWindow(w),
    );
    lemma_count_push(
        log.push(ServerOp::DestroyWindow(w)),
        ServerOp::CloseConnection,
        ServerOp::CloseConnection,
    );
    assert(l2[log.len() as int] == ServerOp::DestroyWindow(w));
    assert(l2[log.len() as int + 1] == ServerOp::CloseConnection);
}

} // verus!
