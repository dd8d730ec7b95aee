//! The render-loop driver's state machine. The driver initializes a graphics
//! backend, then pumps window events each iteration: a close request among
//! the drained events is the sole signal that moves it to shutdown; any other
//! batch keeps it running, and one frame is rendered.

use crate::display::count_in_log;
use crate::display::destroyed_before_closed;
use crate::display::untouched;
use crate::display::DisplayServer;
use crate::display::ServerOp;
use crate::event::close_requested;
use crate::event::delivered;
use crate::event::spec_close_in;
use crate::event::Event;
use crate::window::title_has_nul;
use crate::window::OpenError;
use crate::window::WindowHandle;
use vstd::prelude::*;

verus! {

/// Where the driver stands: configuring the backend, pumping frames, or
/// done for good.
#[derive(Clone, Copy, PartialEq, Eq, Structural, Debug)]
pub enum DriverState {
    Initializing,
    Running,
    ShuttingDown,
}

/// The transition the driver takes after one drain of window events.
/// Only a running driver inspects events; shutdown is terminal, and an
/// initializing driver has not started to drain.
pub open spec fn spec_next_state(
    state: DriverState,
    drained: Seq<Event>,
    wm_protocols: u64,
    wm_delete_window: u64,
) -> DriverState {
    match state {
        DriverState::Running => if spec_close_in(drained, wm_protocols, wm_delete_window) {
            DriverState::ShuttingDown
        } else {
            DriverState::Running
        },
        _ => state,
    }
}

/// The transition out of initialization: once the backend is configured, the
/// driver runs, unconditionally. A failure during initialization never
/// reaches this point; it is fatal to the process.
pub fn configured(state: DriverState) -> (next: DriverState)
    requires
        state is Initializing,
    ensures
        next is Running,
{
    DriverState::Running
}

/// Takes the driver one transition onward, given the events just drained.
pub fn next_state(
    state: DriverState,
    drained: &Vec<Event>,
    wm_protocols: u64,
    wm_delete_window: u64,
) -> (next: DriverState)
    ensures
        next == spec_next_state(state, drained@, wm_protocols, wm_delete_window),
{
    match state {
        DriverState::Running => {
            if close_requested(drained, wm_protocols, wm_delete_window) {
                DriverState::ShuttingDown
            } else {
                DriverState::Running
            }
        },
        _ => state,
    }
}

/// Close detection is exact: a running driver moves to shutdown if and only
/// if some drained event is a client message whose message type is the
/// supported-protocols atom and whose first data word is the delete-window
/// atom; every other batch, the empty one included, keeps it running.
pub proof fn lemma_close_detection(drained: Seq<Event>, wm_protocols: u64, wm_delete_window: u64)
    ensures
        spec_next_state(DriverState::Running, drained, wm_protocols, wm_delete_window)
            is ShuttingDown <==> spec_close_in(drained, wm_protocols, wm_delete_window),
        !spec_close_in(drained, wm_protocols, wm_delete_window) ==> spec_next_state(
            DriverState::Running,
            drained,
            wm_protocols,
            wm_delete_window,
        ) is Running,
{
}

/// One iteration of the running loop: drain whatever the window has queued
/// and decide whether to keep rendering or to shut down.
pub fn pump(handle: &WindowHandle, server: &mut DisplayServer, state: DriverState) -> (next:
    DriverState)
    requires
        state is Running,
        handle.live(*old(server)),
    ensures
        handle.live(*final(server)),
        next == spec_next_state(
            state,
            delivered(old(server).queue@),
            handle.wm_protocols,
            handle.wm_delete_window,
        ),
        final(server).queue@ == Seq::<Event>::empty(),
        crate::display::same_server_state(*old(server), *final(server)),
{
    let drained = handle.drain_events(server);
    next_state(state, &drained, handle.wm_protocols, handle.wm_delete_window)
}

/// One whole session over the events the server has queued: open the window,
/// show it, pump the queue, then tear down. Returns whether the user asked
/// to close, or the open error; on an error nothing was allocated, and on
/// success the window is destroyed before the connection is closed, each
/// exactly once.
pub fn run_session(server: &mut DisplayServer, title: &[u8], width: u32, height: u32) -> (r:
    Result<bool, OpenError>)
    requires
        !old(server).connected,
        old(server).log@.len() == 0,
        old(server).next_window < u64::MAX,
    ensures
        title_has_nul(title@) ==> r == Result::<bool, OpenError>::Err(OpenError::InvalidTitle)
            && untouched(*old(server), *final(server)),
        !title_has_nul(title@) && !old(server).accepting ==> r == Result::<bool, OpenError>::Err(
            OpenError::ConnectionFailed,
        ) && untouched(*old(server), *final(server)),
        !title_has_nul(title@) && old(server).accepting ==> ({
            let w = old(server).next_window;
            &&& r == Result::<bool, OpenError>::Ok(
                spec_close_in(
                    delivered(old(server).queue@),
                    crate::window::ATOM_WM_PROTOCOLS,
                    crate::window::ATOM_WM_DELETE_WINDOW,
                ),
            )
            &&& final(server).log@ == crate::window::open_log(w) + seq![
                ServerOp::MapWindow(w),
                ServerOp::DestroyWindow(w),
                ServerOp::CloseConnection,
            ]
            &&& count_in_log(final(server).log@, ServerOp::DestroyWindow(w)) == 1
            &&& count_in_log(final(server).log@, ServerOp::CloseConnection) == 1
            &&& destroyed_before_closed(final(server).log@, w)
            &&& !final(server).connected
        }),
{
    let mut handle = match WindowHandle::open(server, title, width, height) {
        Ok(handle) => handle,
        Err(e) => {
            return Err(e);
        },
    };
    handle.show(server);
    let next = pump(&handle, server, DriverState::Running);
    let closed_by_user = match next {
        DriverState::ShuttingDown => true,
        _ => false,
    };
    let window = handle.window;
    handle.close(server);
    proof {
        assert(server.log@ =~= crate::window::open_log(window) + seq![
            ServerOp::MapWindow(window),
            ServerOp::DestroyWindow(window),
            ServerOp::CloseConnection,
        ]);
    }
    Ok(closed_by_user)
}

} // verus!
