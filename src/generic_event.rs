use vstd::prelude::*;

use crate::touch::TouchArgs;

verus! {

/// Identifies which kind of payload an event holds.
#[derive(Copy, Clone, PartialEq, Eq, Debug, Structural)]
pub enum EventId {
    /// A mouse cursor position.
    MouseCursor,
    /// A change of window focus.
    Focus,
    /// A touch sample.
    Touch,
}

/// The tag of touch events.
pub const TOUCH: EventId = EventId::Touch;

/// The payload of an event: one variant for each kind of input.
#[derive(Copy, Clone, PartialEq, Debug)]
pub enum EventArgs<F> {
    /// The x and y coordinates of the mouse cursor.
    MouseCursor([F; 2]),
    /// Whether the window gained focus.
    Focus(bool),
    /// A touch sample.
    Touch(TouchArgs<F>),
}

impl<F> EventArgs<F> {
    /// The tag that belongs to this kind of payload.
    pub open spec fn id(self) -> EventId {
        match self {
            EventArgs::MouseCursor(_) => EventId::MouseCursor,
            EventArgs::Focus(_) => EventId::Focus,
            EventArgs::Touch(_) => EventId::Touch,
        }
    }
}

/// An event container that holds one payload, tagged by its kind.
///
/// Each container is modelled by its tag (`kind`) and its payload
/// (`payload`); an implementation proves that a payload it holds is of the
/// kind its tag names, so a tagged payload can always be read at its own type.
pub trait GenericEvent<F>: Sized {
    /// The tag of the payload kind this event holds.
    spec fn kind(&self) -> EventId;

    /// The payload this event holds, if it holds one.
    spec fn payload(&self) -> Option<EventArgs<F>>;

    /// The event that `from_args` builds from a tag, a payload and an event
    /// of the same type; `None` where this type cannot hold that payload.
    spec fn built(id: EventId, args: EventArgs<F>, old_event: Self) -> Option<Self>;

    /// A payload that an event holds is of the kind that its tag names.
    proof fn lemma_payload_of_kind(&self)
        ensures
            self.payload() matches Some(a) ==> a.id() == self.kind(),
    ;

    /// An event built from a tag and a payload holds that tag and that
    /// payload.
    proof fn lemma_built_holds(id: EventId, args: EventArgs<F>, old_event: Self)
        ensures
            Self::built(id, args, old_event) matches Some(e) ==> e.kind() == id && e.payload()
                == Some(args),
    ;

    /// Returns the tag of the payload kind this event holds.
    fn event_id(&self) -> (r: EventId)
        ensures
            r == self.kind(),
    ;

    /// Returns the payload this event holds.
    fn with_args(&self) -> (r: Option<EventArgs<F>>)
        ensures
            r == self.payload(),
    ;

    /// Builds an event of this type that holds `args` under the tag `id`,
    /// taking whatever else the type needs from `old_event`.
    fn from_args(id: EventId, args: &EventArgs<F>, old_event: &Self) -> (r: Option<Self>)
        ensures
            r == Self::built(id, *args, *old_event),
    ;
}

} // verus!
