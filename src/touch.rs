use vstd::prelude::*;

use crate::generic_event::{EventArgs, GenericEvent, TOUCH};

verus! {

/// Stores the touch state.
#[derive(Copy, Clone, PartialEq, Eq, Debug, Structural)]
pub enum Touch {
    /// The start of touch, for example
    /// a finger pressed down on a touch screen.
    Start,
    /// The move of touch, for example
    /// a finger moving while touching a touch screen.
    Move,
    /// The end of touch, for example
    /// taking a finger away from a touch screen.
    End,
    /// The cancel of touch, for example
    /// the window loses focus.
    Cancel,
}

/// Touch arguments, over a coordinate scalar `F`.
///
/// The `id` might be reused for different touches that do not overlap in time.
///
/// - Coordinates are normalized to support both touch screens and trackpads
/// - Supports both 2D and 3D touch
/// - The pressure direction vector should have maximum length 1
///
/// For 2D touch the pressure is pointed the z direction.
#[derive(Copy, Clone, PartialEq, Debug)]
pub struct TouchArgs<F> {
    /// A unique identifier for touch device.
    pub device: i64,
    /// A unique identifier for touch event.
    pub id: i64,
    /// The x coordinate of the touch position, normalized 0..1.
    pub x: F,
    /// The y coordinate of the touch position, normalized 0..1.
    pub y: F,
    /// The z coordinate of the touch position, normalized 0..1.
    pub z: F,
    /// The x coordinate of the touch pressure direction.
    pub px: F,
    /// The y coordinate of the touch pressure direction.
    pub py: F,
    /// The z coordinate of the touch pressure direction.
    pub pz: F,
    /// Whether the touch is in 3D.
    pub is_3d: bool,
    /// The touch state.
    pub touch: Touch,
}

impl<F: Copy + Default> TouchArgs<F> {
    /// Creates arguments for 2D touch. The pressure is stored as the z
    /// component of the pressure vector; `z`, `px` and `py` hold `F`'s
    /// default value, which is zero for the number types.
    pub fn new(device: i64, id: i64, pos: [F; 2], pressure: F, touch: Touch) -> (r: TouchArgs<F>)
        ensures
            r.device == device,
            r.id == id,
            r.position_view() == pos@,
            r.pz == pressure,
            !r.is_3d,
            r.touch == touch,
            call_ensures(F::default, (), r.z),
            r.px == r.z,
            r.py == r.z,
    {
        let zero = F::default();
        TouchArgs {
            device: device,
            id: id,
            x: pos[0],
            y: pos[1],
            z: zero,
            is_3d: false,
            px: zero,
            py: zero,
            pz: pressure,
            touch: touch,
        }
    }

    /// Creates arguments for 3D touch.
    ///
    /// The pressure direction vector should have maximum length 1.
    pub fn new_3d(device: i64, id: i64, pos: [F; 3], pressure: [F; 3], touch: Touch) -> (r:
        TouchArgs<F>)
        ensures
            r.device == device,
            r.id == id,
            r.position_3d_view() == pos@,
            r.pressure_3d_view() == pressure@,
            r.is_3d,
            r.touch == touch,
    {
        TouchArgs {
            device: device,
            id: id,
            x: pos[0],
            y: pos[1],
            z: pos[2],
            is_3d: true,
            px: pressure[0],
            py: pressure[1],
            pz: pressure[2],
            touch: touch,
        }
    }
}

impl<F: Copy> TouchArgs<F> {
    /// The position in 2D, as a sequence `[x, y]`.
    pub open spec fn position_view(self) -> Seq<F> {
        seq![self.x, self.y]
    }

    /// The position of the touch in 2D.
    pub fn position(&self) -> (r: [F; 2])
        ensures
            r@ == self.position_view(),
    {
        [self.x, self.y]
    }

    /// The position in 3D, as a sequence `[x, y, z]`.
    pub open spec fn position_3d_view(self) -> Seq<F> {
        seq![self.x, self.y, self.z]
    }

    /// The position of the touch in 3D.
    pub fn position_3d(&self) -> (r: [F; 3])
        ensures
            r@ == self.position_3d_view(),
    {
        [self.x, self.y, self.z]
    }

    /// The pressure direction vector, as a sequence `[px, py, pz]`.
    pub open spec fn pressure_3d_view(self) -> Seq<F> {
        seq![self.px, self.py, self.pz]
    }

    /// The pressure vector in 3D.
    pub fn pressure_3d(&self) -> (r: [F; 3])
        ensures
            r@ == self.pressure_3d_view(),
    {
        [self.px, self.py, self.pz]
    }
}

/// The touch sample that an event holds: `Some` exactly where its tag is
/// the touch tag and its payload is a touch sample.
pub open spec fn touch_payload<F, E: GenericEvent<F>>(e: E) -> Option<TouchArgs<F>> {
    if e.kind() == TOUCH {
        match e.payload() {
            Some(EventArgs::Touch(a)) => Some(a),
            _ => None,
        }
    } else {
        None
    }
}

/// Round trip: an event that `from_touch_args` builds from a touch sample
/// holds that sample, so `touch` and `touch_args` hand it back.
pub proof fn lemma_touch_round_trip<F, E: GenericEvent<F>>(args: TouchArgs<F>, old_event: E)
    ensures
        E::built(TOUCH, EventArgs::Touch(args), old_event) matches Some(e) ==> touch_payload(e)
            == Some(args),
{
    E::lemma_built_holds(TOUCH, EventArgs::Touch(args), old_event);
}

/// An event that holds a payload of another kind than touch is no touch
/// event: `touch` returns `None` on it and `touch_args` too.
pub proof fn lemma_other_payload_no_touch<F, E: GenericEvent<F>>(e: E)
    requires
        e.payload() matches Some(a) && a.id() != TOUCH,
    ensures
        touch_payload(e) is None,
{
    e.lemma_payload_of_kind();
}

/// When a touch is started, moved, ended or cancelled.
pub trait TouchEvent<F>: GenericEvent<F> {
    /// Creates a touch event.
    fn from_touch_args(args: &TouchArgs<F>, old_event: &Self) -> (r: Option<Self>)
        ensures
            r == Self::built(TOUCH, EventArgs::Touch(*args), *old_event),
            r matches Some(e) ==> touch_payload(e) == Some(*args),
    ;

    /// Calls closure if this is a touch event.
    fn touch<U, G>(&self, f: G) -> (r: Option<U>) where G: FnMut(&TouchArgs<F>) -> U
        requires
            touch_payload(*self) matches Some(a) ==> f.requires((&a,)),
        ensures
            self.kind() != TOUCH ==> r is None,
            match touch_payload(*self) {
                Some(a) => r matches Some(u) && f.ensures((&a,), u),
                None => r is None,
            },
    ;

    /// Returns touch arguments.
    fn touch_args(&self) -> (r: Option<TouchArgs<F>>)
        ensures
            r == touch_payload(*self),
    ;
}

impl<F: Copy, T: GenericEvent<F>> TouchEvent<F> for T {
    fn from_touch_args(args: &TouchArgs<F>, old_event: &Self) -> (r: Option<Self>) {
        let r = T::from_args(TOUCH, &EventArgs::Touch(*args), old_event);
        proof {
            lemma_touch_round_trip(*args, *old_event);
        }
        r
    }

    fn touch<U, G>(&self, mut f: G) -> (r: Option<U>) where G: FnMut(&TouchArgs<F>) -> U {
        if self.event_id() != TOUCH {
            return None;
        }
        proof {
            self.lemma_payload_of_kind();
        }
        match self.with_args() {
            Some(EventArgs::Touch(args)) => Some(f(&args)),
            Some(_) => {
                // unreachable: by `lemma_payload_of_kind`, a payload under the touch tag is a touch sample
                proof {
                    assert(false);
                }
                None
            },
            None => None,
        }
    }

    fn touch_args(&self) -> (r: Option<TouchArgs<F>>) {
        self.touch(|args: &TouchArgs<F>| -> (c: TouchArgs<F>)
            ensures
                c == *args,
            { *args })
    }
}

} // verus!
