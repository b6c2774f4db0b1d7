//! The decisions of the touch driver: which contacts a gesture tracks, when
//! the gesture's initial snapshot must be recaptured, and what a frame's
//! contacts mean — a two-finger pan-and-pinch or a one-finger orbit.

use vstd::prelude::*;

use crate::micro::{div_micro, MICRO_ONE};

verus! {

/// Magnitude bound on touch coordinates, in micro pixels.
pub const TOUCH_LIM: i64 = 0x20_0000_0000;

/// One touch contact: its identity and its position in micro pixels.
#[derive(Debug, Clone, Copy, PartialEq)]
pub struct TouchPoint {
    pub id: u64,
    pub x: i64,
    pub y: i64,
}

impl TouchPoint {
    pub open spec fn wf(self) -> bool {
        0 <= self.x <= TOUCH_LIM && 0 <= self.y <= TOUCH_LIM
    }
}

/// The squared distance of two contacts, in whole pixels.
pub open spec fn dist_sq_px(a: TouchPoint, b: TouchPoint) -> int {
    let dx = (a.x - b.x) / (MICRO_ONE as int);
    let dy = (a.y - b.y) / (MICRO_ONE as int);
    dx * dx + dy * dy
}

/// The midpoint of two contacts.
pub open spec fn centre_spec(a: TouchPoint, b: TouchPoint) -> (int, int) {
    ((a.x + b.x) / 2, (a.y + b.y) / 2)
}

/// The midpoint of two contacts and their squared pixel distance.
pub fn compute_centre_and_distance_squared(a: &TouchPoint, b: &TouchPoint) -> (r: (
    (i64, i64),
    i64,
))
    requires
        a.wf(),
        b.wf(),
    ensures
        r.0.0 == centre_spec(*a, *b).0,
        r.0.1 == centre_spec(*a, *b).1,
        r.1 == dist_sq_px(*a, *b),
        0 <= r.1 <= 0x20_0000_0000,
{
    let cx = ((a.x + b.x) as u64 / 2) as i64;
    let cy = ((a.y + b.y) as u64 / 2) as i64;
    let dx = div_micro(a.x - b.x);
    let dy = div_micro(a.y - b.y);
    proof {
        assert(-0x4_0000 <= dx <= 0x4_0000 && -0x4_0000 <= dy <= 0x4_0000);
        assert(0 <= dx * dx <= 0x10_0000_0000 && 0 <= dy * dy <= 0x10_0000_0000)
            by (nonlinear_arith)
            requires
                -0x4_0000 <= dx <= 0x4_0000,
                -0x4_0000 <= dy <= 0x4_0000,
        ;
    }
    ((cx, cy), dx * dx + dy * dy)
}

/// What a frame's touch contacts mean.
#[derive(Debug, Clone, Copy, PartialEq)]
pub enum TouchGesture {
    /// Two fingers: pan by the centroid's motion and pinch-zoom by the ratio
    /// of the initial to the current squared distance.
    PanZoom { centre: (i64, i64), delta_zoom: i64, delta_move: (i64, i64) },
    /// One finger: orbit by the contact's motion from the gesture's start.
    Orbit { pos: (i64, i64), delta_move: (i64, i64) },
    /// Nothing to apply this frame.
    Idle,
}

/// The contacts a gesture tracks: up to two, captured when they first press.
/// The initial camera snapshot is recaptured whenever a slot fills, because
/// the meaning of a delta changes when one finger becomes two.
#[derive(Debug, Clone, Copy, PartialEq)]
pub struct TouchHistory {
    pub touches: (Option<TouchPoint>, Option<TouchPoint>),
}

impl TouchHistory {
    pub open spec fn wf(self) -> bool {
        &&& match self.touches.0 {
            Option::Some(t) => t.wf(),
            Option::None => true,
        }
        &&& match self.touches.1 {
            Option::Some(t) => t.wf(),
            Option::None => true,
        }
    }

    pub fn new() -> (r: TouchHistory)
        ensures
            r.touches == (Option::<TouchPoint>::None, Option::<TouchPoint>::None),
    {
        TouchHistory { touches: (Option::None, Option::None) }
    }

    /// Forget the tracked contacts; called when any contact is released or
    /// cancelled, so the next press starts a fresh gesture.
    pub fn reset(&mut self)
        ensures
            final(self).touches == (Option::<TouchPoint>::None, Option::<TouchPoint>::None),
    {
        self.touches = (Option::None, Option::None);
    }

    /// Track a newly pressed contact. The first contact takes the first
    /// slot; a second, distinct contact (a different identity at a distinct
    /// position) takes the free slot. Returns whether the gesture's initial
    /// camera snapshot must be recaptured — exactly when a slot was filled.
    pub fn observe_press(&mut self, t: TouchPoint) -> (snapshot: bool)
        requires
            t.wf(),
            old(self).wf(),
        ensures
            final(self).wf(),
            ({
                match old(self).touches {
                    (Option::None, Option::None) => snapshot && final(self).touches == (
                        Option::Some(t),
                        Option::<TouchPoint>::None,
                    ),
                    (Option::Some(a), Option::None) => if a.id != t.id && dist_sq_px(a, t) > 0 {
                        snapshot && final(self).touches == (Option::Some(a), Option::Some(t))
                    } else {
                        !snapshot && final(self).touches == old(self).touches
                    },
                    (Option::None, Option::Some(b)) => if b.id != t.id && dist_sq_px(b, t) > 0 {
                        snapshot && final(self).touches == (Option::Some(t), Option::Some(b))
                    } else {
                        !snapshot && final(self).touches == old(self).touches
                    },
                    (Option::Some(_), Option::Some(_)) => !snapshot && final(self).touches == old(
                        self,
                    ).touches,
                }
            }),
    {
        match self.touches {
            (Option::None, Option::None) => {
                self.touches = (Option::Some(t), Option::None);
                true
            },
            (Option::Some(a), Option::None) => {
                if a.id != t.id && distinct_position(&a, &t) {
                    self.touches = (Option::Some(a), Option::Some(t));
                    true
                } else {
                    false
                }
            },
            (Option::None, Option::Some(b)) => {
                if b.id != t.id && distinct_position(&b, &t) {
                    self.touches = (Option::Some(t), Option::Some(b));
                    true
                } else {
                    false
                }
            },
            (Option::Some(_), Option::Some(_)) => false,
        }
    }

    /// Classify a frame's contacts: two pressed contacts with both slots
    /// tracked make a pan-and-pinch (the zoom delta is the ratio of the
    /// initial to the current squared distance, against a floor of one);
    /// one pressed contact with any slot tracked makes an orbit from the
    /// tracked start; anything else means nothing to apply.
    pub fn classify(&self, pressed: &Vec<TouchPoint>) -> (r: TouchGesture)
        requires
            self.wf(),
            forall|i: int| 0 <= i < pressed@.len() ==> (#[trigger] pressed@[i]).wf(),
        ensures
            ({
                if pressed@.len() == 2 && self.touches.0 is Some && self.touches.1 is Some {
                    let cur = centre_spec(pressed@[0], pressed@[1]);
                    let cur_d = dist_sq_px(pressed@[0], pressed@[1]);
                    let start = centre_spec(
                        self.touches.0->Some_0,
                        self.touches.1->Some_0,
                    );
                    let start_d = dist_sq_px(
                        self.touches.0->Some_0,
                        self.touches.1->Some_0,
                    );
                    r == (TouchGesture::PanZoom {
                        centre: (cur.0 as i64, cur.1 as i64),
                        delta_zoom: ((start_d * (MICRO_ONE as int)) / vstd::math::max(
                            cur_d,
                            1,
                        )) as i64,
                        delta_move: ((cur.0 - start.0) as i64, (cur.1 - start.1) as i64),
                    })
                } else if pressed@.len() == 1 && (self.touches.0 is Some
                    || self.touches.1 is Some) {
                    let start = if self.touches.0 is Some {
                        self.touches.0->Some_0
                    } else {
                        self.touches.1->Some_0
                    };
                    r == (TouchGesture::Orbit {
                        pos: (pressed@[0].x, pressed@[0].y),
                        delta_move: (
                            (pressed@[0].x - start.x) as i64,
                            (pressed@[0].y - start.y) as i64,
                        ),
                    })
                } else {
                    r == TouchGesture::Idle
                }
            }),
    {
        if pressed.len() == 2 {
            match self.touches {
                (Option::Some(ia), Option::Some(ib)) => {
                    let (cur_centre, cur_d) = compute_centre_and_distance_squared(
                        &pressed[0],
                        &pressed[1],
                    );
                    let (start_centre, start_d) = compute_centre_and_distance_squared(&ia, &ib);
                    let floor_d = if cur_d >= 1 {
                        cur_d
                    } else {
                        1
                    };
                    let delta_zoom = ((start_d as u64 * MICRO_ONE as u64) / floor_d as u64) as i64;
                    return TouchGesture::PanZoom {
                        centre: cur_centre,
                        delta_zoom,
                        delta_move: (
                            cur_centre.0 - start_centre.0,
                            cur_centre.1 - start_centre.1,
                        ),
                    };
                },
                _ => {},
            }
        }
        if pressed.len() == 1 {
            let start = match self.touches {
                (Option::Some(a), _) => Option::Some(a),
                (Option::None, Option::Some(b)) => Option::Some(b),
                _ => Option::None,
            };
            match start {
                Option::Some(s) => {
                    return TouchGesture::Orbit {
                        pos: (pressed[0].x, pressed[0].y),
                        delta_move: (pressed[0].x - s.x, pressed[0].y - s.y),
                    };
                },
                Option::None => {},
            }
        }
        TouchGesture::Idle
    }
}

/// Whether two contacts sit at least a pixel apart.
fn distinct_position(a: &TouchPoint, b: &TouchPoint) -> (r: bool)
    requires
        a.wf(),
        b.wf(),
    ensures
        r == (dist_sq_px(*a, *b) > 0),
{
    let (_, d) = compute_centre_and_distance_squared(a, b);
    d > 0
}

} // verus!
