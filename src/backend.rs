use vstd::prelude::*;
use crate::events::{next_state_matches, ConnectionState, SessionEvent};
use crate::geometry::{compute_geometry, geometry_of, RenderGeometry};
use crate::input::{next_pressed, translate, HostEvent, InputEvent, InputMapper};
use crate::pixels::{opaque_pixels, surface_len, FrameSlot};

verus! {

/// The state of a display element bound to a remote session: the latest
/// converted frame, the held pointer button, and whether a session was started
/// (so that input has somewhere to go) and where that session stands.
pub struct SpiceBackend {
    pub frames: FrameSlot,
    pub input: InputMapper,
    pub connected: bool,
    pub connection: ConnectionState,
}

/// The geometry of the latest frame in a viewport, if a frame with an area is held.
pub open spec fn render_geometry_of(frames: FrameSlot, view_w: u32, view_h: u32) -> Option<RenderGeometry> {
    match frames.latest {
        Some(f) => if f.width > 0 && f.height > 0 {
            Some(geometry_of(f.width, f.height, view_w, view_h))
        } else {
            None
        },
        None => None,
    }
}

impl SpiceBackend {
    pub open spec fn wf(&self) -> bool {
        self.frames.wf()
    }

    /// A backend with no frame, no held button and no session.
    pub fn new() -> (r: SpiceBackend)
        ensures
            r.wf(),
            r.frames.latest.is_none(),
            r.input.pressed_button.is_none(),
            !r.connected,
            r.connection is Disconnected,
    {
        SpiceBackend {
            frames: FrameSlot::new(),
            input: InputMapper::new(),
            connected: false,
            connection: ConnectionState::new(),
        }
    }

    /// Records that a session was started; input is forwarded from now on.
    pub fn connect(&mut self)
        ensures
            final(self).connected,
            final(self).connection is Connecting,
            final(self).frames == old(self).frames,
            final(self).input == old(self).input,
    {
        self.connected = true;
        self.connection.start();
    }

    /// Follows a lifecycle event of the session.
    pub fn on_session_event(&mut self, ev: &SessionEvent)
        ensures
            next_state_matches(old(self).connection, *ev, final(self).connection),
            final(self).connected == old(self).connected,
            final(self).frames == old(self).frames,
            final(self).input == old(self).input,
    {
        self.connection.on_session_event(ev);
    }

    /// Takes a new primary surface: on success it becomes the frame to draw and
    /// the element must be repainted (the result is `true`); a malformed
    /// surface is skipped and the previous frame kept.
    pub fn on_surface(&mut self, width: u32, height: u32, src: &[u8]) -> (repaint: bool)
        requires
            old(self).wf(),
        ensures
            final(self).wf(),
            final(self).connected == old(self).connected,
            final(self).connection == old(self).connection,
            final(self).input == old(self).input,
            repaint <==> src@.len() == surface_len(width, height),
            repaint ==> final(self).frames.latest.is_some()
                && final(self).frames.latest.unwrap().width == width
                && final(self).frames.latest.unwrap().height == height
                && final(self).frames.latest.unwrap().pixels@ == opaque_pixels(src@),
            !repaint ==> final(self).frames == old(self).frames,
    {
        self.frames.update(width, height, src)
    }

    /// Where the latest frame is drawn in a `view_w` x `view_h` viewport; none
    /// without a frame or with an empty one. An empty viewport gives an empty
    /// rectangle with scale 0.
    pub fn get_render_data(&self, view_w: u32, view_h: u32) -> (r: Option<RenderGeometry>)
        ensures
            r == render_geometry_of(self.frames, view_w, view_h),
            r.is_some() ==> r.unwrap().wf(),
            r.is_some() ==> r.unwrap().is_geometry_of(
                self.frames.latest.unwrap().width,
                self.frames.latest.unwrap().height,
                view_w,
                view_h,
            ),
    {
        match &self.frames.latest {
            Some(f) => compute_geometry(f.width, f.height, view_w, view_h),
            None => None,
        }
    }

    /// Handles one host input event in a `view_w` x `view_h` viewport and
    /// returns the event to forward, if any. Nothing happens before a session
    /// was started or while no frame is held; while the viewport is empty,
    /// pointer moves are dropped but buttons and keys still go through.
    pub fn on_event(&mut self, ev: HostEvent, view_w: u32, view_h: u32) -> (r: Option<InputEvent>)
        ensures
            final(self).frames == old(self).frames,
            final(self).connected == old(self).connected,
            final(self).connection == old(self).connection,
            ({
                let g = render_geometry_of(old(self).frames, view_w, view_h);
                if old(self).connected && g.is_some() {
                    &&& r == translate(old(self).input.pressed_button, ev, g.unwrap())
                    &&& final(self).input.pressed_button == next_pressed(old(self).input.pressed_button, ev)
                } else {
                    &&& r.is_none()
                    &&& final(self).input == old(self).input
                }
            }),
    {
        if !self.connected {
            return None;
        }
        let g = self.get_render_data(view_w, view_h);
        self.input.on_event(ev, g)
    }
}

} // verus!
