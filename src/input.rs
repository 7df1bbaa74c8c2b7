use vstd::prelude::*;
use crate::geometry::{lemma_pointer_mapping_corners, remote_axis, saturate_i32, RenderGeometry};
use std::collections::VecDeque;

verus! {

/// A pointer button as the remote protocol names it.
#[derive(Clone, Copy, Debug, PartialEq, Eq, Structural)]
pub enum MouseButton {
    Left,
    Middle,
    Right,
}

/// The protocol's bit for each button in a pressed-buttons mask.
pub open spec fn button_mask_spec(b: MouseButton) -> i32 {
    match b {
        MouseButton::Left => 1,
        MouseButton::Middle => 2,
        MouseButton::Right => 4,
    }
}

/// The protocol's numeric identifier of each button.
pub open spec fn button_id_spec(b: MouseButton) -> i32 {
    match b {
        MouseButton::Left => 1,
        MouseButton::Middle => 2,
        MouseButton::Right => 3,
    }
}

/// Host button numbering: 1 is left, 2 is right, 3 is middle; others have no
/// protocol button.
pub open spec fn host_button(button: i32) -> Option<MouseButton> {
    if button == 1 {
        Some(MouseButton::Left)
    } else if button == 2 {
        Some(MouseButton::Right)
    } else if button == 3 {
        Some(MouseButton::Middle)
    } else {
        None
    }
}

/// Maps a host button number to the protocol's button.
pub fn map_host_button(button: i32) -> (r: Option<MouseButton>)
    ensures
        r == host_button(button),
{
    match button {
        1 => Some(MouseButton::Left),
        2 => Some(MouseButton::Right),
        3 => Some(MouseButton::Middle),
        _ => None,
    }
}

/// The mask bit of a button.
pub fn button_mask(b: MouseButton) -> (r: i32)
    ensures
        r == button_mask_spec(b),
{
    match b {
        MouseButton::Left => 1,
        MouseButton::Middle => 2,
        MouseButton::Right => 4,
    }
}

/// The protocol identifier of a button.
pub fn button_id(b: MouseButton) -> (r: i32)
    ensures
        r == button_id_spec(b),
{
    match b {
        MouseButton::Left => 1,
        MouseButton::Middle => 2,
        MouseButton::Right => 3,
    }
}

/// An input event as the host delivers it, in viewport coordinates and host
/// button numbering.
#[derive(Clone, Copy, Debug, PartialEq, Eq, Structural)]
pub enum HostEvent {
    MouseDown { button: i32 },
    MouseUp { button: i32 },
    MouseMove { x: i32, y: i32 },
    KeyDown { scancode: Option<u32> },
    KeyUp { scancode: Option<u32> },
}

/// An input event waiting to be forwarded to the remote session.
#[derive(Clone, Copy, Debug, PartialEq, Eq, Structural)]
pub enum InputEvent {
    Position(i32, i32, Option<MouseButton>),
    ButtonPress(MouseButton),
    ButtonRelease(MouseButton),
    KeyPress(u32),
    KeyRelease(u32),
}

/// The event forwarded for a host event, given the button held before it and
/// the current render geometry. A pointer move has no remote position while
/// nothing is drawn (scale 0) and is dropped.
pub open spec fn translate(pressed: Option<MouseButton>, ev: HostEvent, g: RenderGeometry) -> Option<InputEvent> {
    match ev {
        HostEvent::MouseDown { button } => match host_button(button) {
            Some(b) => Some(InputEvent::ButtonPress(b)),
            None => None,
        },
        HostEvent::MouseUp { button } => match host_button(button) {
            Some(b) => Some(InputEvent::ButtonRelease(b)),
            None => None,
        },
        HostEvent::MouseMove { x, y } => if g.scale_num == 0 {
            None
        } else {
            Some(InputEvent::Position(
                saturate_i32(remote_axis(x * g.denom, g.x_num as int, g.scale_num as int)),
                saturate_i32(remote_axis(y * g.denom, g.y_num as int, g.scale_num as int)),
                pressed,
            ))
        },
        HostEvent::KeyDown { scancode } => match scancode {
            Some(s) => Some(InputEvent::KeyPress(s)),
            None => None,
        },
        HostEvent::KeyUp { scancode } => match scancode {
            Some(s) => Some(InputEvent::KeyRelease(s)),
            None => None,
        },
    }
}

/// The button held after a host event.
pub open spec fn next_pressed(pressed: Option<MouseButton>, ev: HostEvent) -> Option<MouseButton> {
    match ev {
        HostEvent::MouseDown { button } => match host_button(button) {
            Some(b) => Some(b),
            None => pressed,
        },
        HostEvent::MouseUp { button } => match host_button(button) {
            Some(_) => None,
            None => pressed,
        },
        _ => pressed,
    }
}

/// Turns host input into protocol input, tracking the held button so that
/// pointer moves during a drag carry it.
pub struct InputMapper {
    pub pressed_button: Option<MouseButton>,
}

impl InputMapper {
    /// A mapper with no button held.
    pub fn new() -> (r: InputMapper)
        ensures
            r.pressed_button.is_none(),
    {
        InputMapper { pressed_button: None }
    }

    /// Maps one host event. Without a render geometry (no frame yet) nothing is
    /// forwarded and the held button is unchanged.
    pub fn on_event(&mut self, ev: HostEvent, geometry: Option<RenderGeometry>) -> (r: Option<InputEvent>)
        requires
            geometry.is_some() ==> geometry.unwrap().wf(),
        ensures
            geometry.is_none() ==> r.is_none() && final(self).pressed_button == old(self).pressed_button,
            geometry.is_some() ==> r == translate(old(self).pressed_button, ev, geometry.unwrap()),
            geometry.is_some() ==> final(self).pressed_button == next_pressed(old(self).pressed_button, ev),
    {
        let g = match geometry {
            Some(g) => g,
            None => return None,
        };
        match ev {
            HostEvent::MouseDown { button } => match map_host_button(button) {
                Some(b) => {
                    self.pressed_button = Some(b);
                    Some(InputEvent::ButtonPress(b))
                },
                None => None,
            },
            HostEvent::MouseUp { button } => match map_host_button(button) {
                Some(b) => {
                    self.pressed_button = None;
                    Some(InputEvent::ButtonRelease(b))
                },
                None => None,
            },
            HostEvent::MouseMove { x, y } => {
                if g.scale_num == 0 {
                    return None;
                }
                let (rx, ry) = g.map_pointer(x, y);
                Some(InputEvent::Position(rx, ry, self.pressed_button))
            },
            HostEvent::KeyDown { scancode } => match scancode {
                Some(s) => Some(InputEvent::KeyPress(s)),
                None => None,
            },
            HostEvent::KeyUp { scancode } => match scancode {
                Some(s) => Some(InputEvent::KeyRelease(s)),
                None => None,
            },
        }
    }
}

/// A host button number outside 1..=3 never yields a press or a release.
pub proof fn lemma_unknown_button_not_forwarded(pressed: Option<MouseButton>, button: i32, g: RenderGeometry)
    requires
        !(1 <= button <= 3),
    ensures
        translate(pressed, HostEvent::MouseDown { button }, g).is_none(),
        translate(pressed, HostEvent::MouseUp { button }, g).is_none(),
        next_pressed(pressed, HostEvent::MouseDown { button }) == pressed,
        next_pressed(pressed, HostEvent::MouseUp { button }) == pressed,
{
}

/// A pointer move onto the drawn rectangle's top-left corner is forwarded as
/// remote `(0, 0)`, and one onto its bottom-right corner as
/// `(frame_w, frame_h)`, when the corner lies on a whole host pixel.
pub proof fn lemma_pointer_corners_forwarded(
    pressed: Option<MouseButton>,
    g: RenderGeometry,
    frame_w: u32,
    frame_h: u32,
    view_w: u32,
    view_h: u32,
    x: i32,
    y: i32,
)
    requires
        frame_w >= 1,
        frame_h >= 1,
        view_w >= 1,
        view_h >= 1,
        g.is_geometry_of(frame_w, frame_h, view_w, view_h),
    ensures
        x * g.denom == g.x_num && y * g.denom == g.y_num ==> translate(pressed, HostEvent::MouseMove { x, y }, g)
            == Some(InputEvent::Position(0, 0, pressed)),
        x * g.denom == g.x_num + g.width_num && y * g.denom == g.y_num + g.height_num && frame_w <= i32::MAX
            && frame_h <= i32::MAX ==> translate(pressed, HostEvent::MouseMove { x, y }, g) == Some(
            InputEvent::Position(frame_w as i32, frame_h as i32, pressed),
        ),
{
    lemma_pointer_mapping_corners(g, frame_w, frame_h, view_w, view_h);
}

/// A call on the remote session's inputs channel.
#[derive(Clone, Copy, Debug, PartialEq, Eq, Structural)]
pub enum InputCall {
    Position { x: i32, y: i32, display: i32, mask: i32 },
    ButtonPress { button: i32, mask: i32 },
    ButtonRelease { button: i32, mask: i32 },
    KeyPress { scancode: u32 },
    KeyRelease { scancode: u32 },
}

/// The inputs-channel call that forwards an event.
pub open spec fn call_for(ev: InputEvent) -> InputCall {
    match ev {
        InputEvent::Position(x, y, held) => InputCall::Position {
            x,
            y,
            display: 0,
            mask: match held {
                Some(b) => button_mask_spec(b),
                None => 0,
            },
        },
        InputEvent::ButtonPress(b) => InputCall::ButtonPress { button: button_id_spec(b), mask: button_mask_spec(b) },
        InputEvent::ButtonRelease(b) => InputCall::ButtonRelease { button: button_id_spec(b), mask: button_mask_spec(b) },
        InputEvent::KeyPress(s) => InputCall::KeyPress { scancode: s },
        InputEvent::KeyRelease(s) => InputCall::KeyRelease { scancode: s },
    }
}

/// Builds the inputs-channel call for an event.
pub fn protocol_call(ev: InputEvent) -> (r: InputCall)
    ensures
        r == call_for(ev),
{
    match ev {
        InputEvent::Position(x, y, held) => {
            let mask = match held {
                Some(b) => button_mask(b),
                None => 0,
            };
            InputCall::Position { x, y, display: 0, mask }
        },
        InputEvent::ButtonPress(b) => InputCall::ButtonPress { button: button_id(b), mask: button_mask(b) },
        InputEvent::ButtonRelease(b) => InputCall::ButtonRelease { button: button_id(b), mask: button_mask(b) },
        InputEvent::KeyPress(s) => InputCall::KeyPress { scancode: s },
        InputEvent::KeyRelease(s) => InputCall::KeyRelease { scancode: s },
    }
}

/// The first-in, first-out queue between the host side and the dispatcher.
pub struct InputQueue {
    pub events: VecDeque<InputEvent>,
}

impl InputQueue {
    /// The events waiting, oldest first.
    pub open spec fn view(&self) -> Seq<InputEvent> {
        self.events@
    }

    /// An empty queue.
    pub fn new() -> (r: InputQueue)
        ensures
            r.view() == Seq::<InputEvent>::empty(),
    {
        InputQueue { events: VecDeque::new() }
    }

    /// Appends an event behind those already waiting.
    pub fn push(&mut self, ev: InputEvent)
        ensures
            final(self).view() == old(self).view().push(ev),
    {
        self.events.push_back(ev);
    }

    /// Takes the oldest waiting event, if any.
    pub fn pop(&mut self) -> (r: Option<InputEvent>)
        ensures
            old(self).view().len() == 0 ==> r.is_none() && final(self).view() == old(self).view(),
            old(self).view().len() > 0 ==> r == Some(old(self).view()[0])
                && final(self).view() == old(self).view().drop_first(),
    {
        let r = self.events.pop_front();
        proof {
            if r.is_some() {
                assert(self.events@ =~= old(self).events@.drop_first());
            }
        }
        r
    }

    /// The number of events waiting.
    pub fn len(&self) -> (r: usize)
        ensures
            r == self.view().len(),
    {
        self.events.len()
    }

    /// Takes the oldest waiting event and turns it into its inputs-channel call.
    pub fn dispatch_next(&mut self) -> (r: Option<InputCall>)
        ensures
            old(self).view().len() == 0 ==> r.is_none() && final(self).view() == old(self).view(),
            old(self).view().len() > 0 ==> r == Some(call_for(old(self).view()[0]))
                && final(self).view() == old(self).view().drop_first(),
    {
        match self.pop() {
            Some(ev) => Some(protocol_call(ev)),
            None => None,
        }
    }
}

/// Events pushed behind those already queued are taken out, after them, in
/// the order in which they were pushed: each `pop` takes the first of the
/// queue's contents, and three pushes leave `q + [a, b, c]`.
pub proof fn lemma_queue_fifo(q: Seq<InputEvent>, a: InputEvent, b: InputEvent, c: InputEvent)
    ensures
        q.push(a).push(b).push(c) == q + seq![a, b, c],
        q.push(a).push(b).push(c).skip(q.len() as int) == seq![a, b, c],
        seq![a, b, c][0] == a,
        seq![a, b, c].drop_first()[0] == b,
        seq![a, b, c].drop_first().drop_first()[0] == c,
        seq![a, b, c].drop_first().drop_first().drop_first().len() == 0,
{
    assert(q.push(a).push(b).push(c) =~= q + seq![a, b, c]);
    assert(q.push(a).push(b).push(c).skip(q.len() as int) =~= seq![a, b, c]);
    assert(seq![a, b, c].drop_first() =~= seq![b, c]);
    assert(seq![b, c].drop_first() =~= seq![c]);
}

} // verus!
