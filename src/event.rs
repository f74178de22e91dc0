//! The events that the daemon reports.

use vstd::prelude::*;

verus! {

/// One decoded message of the daemon: a self-contained value that keeps no
/// link to the frame it came from.
#[derive(Debug, Clone, Copy, PartialEq, Eq, Structural)]
pub enum Event {
    /// Button press event with button number.
    ButtonPress(i32),
    /// Button release event with button number.
    ButtonRelease(i32),
    /// Motion event.
    Motion {
        /// Translation in the `x` axis.
        x: i32,
        /// Translation in the `y` axis.
        y: i32,
        /// Translation in the `z` axis.
        z: i32,
        /// Rotation around the `x` axis or pitch.
        rx: i32,
        /// Rotation around the `y` axis or yaw.
        ry: i32,
        /// Rotation around the `z` axis or roll.
        rz: i32,
        /// Milliseconds since the last motion event.
        period: i32,
    },
}

/// Tag of a motion frame.
pub const MOTION: i32 = 0;

/// Tag of a button press frame.
pub const BUTTON_PRESS: i32 = 1;

/// Tag of a button release frame.
pub const BUTTON_RELEASE: i32 = 2;

/// The eight fields of the frame that carries `e`: its tag, then its values,
/// with a button frame's unused fields left at zero.
pub open spec fn words_of(e: Event) -> Seq<i32> {
    match e {
        Event::ButtonPress(id) => seq![BUTTON_PRESS, id, 0, 0, 0, 0, 0, 0],
        Event::ButtonRelease(id) => seq![BUTTON_RELEASE, id, 0, 0, 0, 0, 0, 0],
        Event::Motion { x, y, z, rx, ry, rz, period } => seq![MOTION, x, y, z, rx, ry, rz, period],
    }
}

impl Event {
    /// The eight fields of the frame that carries this event.
    pub fn words(&self) -> (r: Vec<i32>)
        ensures
            r@ == words_of(*self),
    {
        let r: Vec<i32> = match *self {
            Event::ButtonPress(id) => vec![BUTTON_PRESS, id, 0, 0, 0, 0, 0, 0],
            Event::ButtonRelease(id) => vec![BUTTON_RELEASE, id, 0, 0, 0, 0, 0, 0],
            Event::Motion { x, y, z, rx, ry, rz, period } => vec![MOTION, x, y, z, rx, ry, rz, period],
        };
        assert(r@ =~= words_of(*self));
        r
    }
}

} // verus!
