use vstd::prelude::*;

use crate::generic_event::{EventArgs, EventId, GenericEvent};
use crate::touch::TouchArgs;

verus! {

/// Motion of a pointer or of a touch contact.
#[derive(Copy, Clone, PartialEq, Debug)]
pub enum Motion<F> {
    /// The x and y coordinates of the mouse cursor.
    MouseCursor([F; 2]),
    /// A touch sample.
    Touch(TouchArgs<F>),
}

/// An input event.
#[derive(Copy, Clone, PartialEq, Debug)]
pub enum Input<F> {
    /// Something moved.
    Move(Motion<F>),
    /// The window gained (`true`) or lost (`false`) focus.
    Focus(bool),
}

/// An event of the event loop; input events are wrapped in it.
#[derive(Copy, Clone, PartialEq, Debug)]
pub enum Event<F> {
    /// An input event.
    Input(Input<F>),
}

/// The input event that holds a given payload.
pub open spec fn input_of<F>(args: EventArgs<F>) -> Input<F> {
    match args {
        EventArgs::MouseCursor(p) => Input::Move(Motion::MouseCursor(p)),
        EventArgs::Focus(b) => Input::Focus(b),
        EventArgs::Touch(t) => Input::Move(Motion::Touch(t)),
    }
}

impl<F: Copy> GenericEvent<F> for Input<F> {
    open spec fn kind(&self) -> EventId {
        match *self {
            Input::Move(Motion::MouseCursor(_)) => EventId::MouseCursor,
            Input::Move(Motion::Touch(_)) => EventId::Touch,
            Input::Focus(_) => EventId::Focus,
        }
    }

    open spec fn payload(&self) -> Option<EventArgs<F>> {
        match *self {
            Input::Move(Motion::MouseCursor(p)) => Some(EventArgs::MouseCursor(p)),
            Input::Move(Motion::Touch(t)) => Some(EventArgs::Touch(t)),
            Input::Focus(b) => Some(EventArgs::Focus(b)),
        }
    }

    open spec fn built(id: EventId, args: EventArgs<F>, old_event: Self) -> Option<Self> {
        if id == args.id() {
            Some(input_of(args))
        } else {
            None
        }
    }

    proof fn lemma_payload_of_kind(&self) {
    }

    proof fn lemma_built_holds(id: EventId, args: EventArgs<F>, old_event: Self) {
    }

    fn event_id(&self) -> (r: EventId) {
        match self {
            Input::Move(Motion::MouseCursor(_)) => EventId::MouseCursor,
            Input::Move(Motion::Touch(_)) => EventId::Touch,
            Input::Focus(_) => EventId::Focus,
        }
    }

    fn with_args(&self) -> (r: Option<EventArgs<F>>) {
        match self {
            Input::Move(Motion::MouseCursor(p)) => Some(EventArgs::MouseCursor(*p)),
            Input::Move(Motion::Touch(t)) => Some(EventArgs::Touch(*t)),
            Input::Focus(b) => Some(EventArgs::Focus(*b)),
        }
    }

    fn from_args(id: EventId, args: &EventArgs<F>, old_event: &Self) -> (r: Option<Self>) {
        match args {
            EventArgs::MouseCursor(p) => if id == EventId::MouseCursor {
                Some(Input::Move(Motion::MouseCursor(*p)))
            } else {
                None
            },
            EventArgs::Focus(b) => if id == EventId::Focus {
                Some(Input::Focus(*b))
            } else {
                None
            },
            EventArgs::Touch(t) => if id == EventId::Touch {
                Some(Input::Move(Motion::Touch(*t)))
            } else {
                None
            },
        }
    }
}

impl<F: Copy> GenericEvent<F> for Event<F> {
    open spec fn kind(&self) -> EventId {
        match *self {
            Event::Input(i) => i.kind(),
        }
    }

    open spec fn payload(&self) -> Option<EventArgs<F>> {
        match *self {
            Event::Input(i) => i.payload(),
        }
    }

    open spec fn built(id: EventId, args: EventArgs<F>, old_event: Self) -> Option<Self> {
        match old_event {
            Event::Input(i) => match Input::built(id, args, i) {
                Some(e) => Some(Event::Input(e)),
                None => None,
            },
        }
    }

    proof fn lemma_payload_of_kind(&self) {
        match *self {
            Event::Input(i) => i.lemma_payload_of_kind(),
        }
    }

    proof fn lemma_built_holds(id: EventId, args: EventArgs<F>, old_event: Self) {
        match old_event {
            Event::Input(i) => Input::lemma_built_holds(id, args, i),
        }
    }

    fn event_id(&self) -> (r: EventId) {
        match self {
            Event::Input(i) => i.event_id(),
        }
    }

    fn with_args(&self) -> (r: Option<EventArgs<F>>) {
        match self {
            Event::Input(i) => i.with_args(),
        }
    }

    fn from_args(id: EventId, args: &EventArgs<F>, old_event: &Self) -> (r: Option<Self>) {
        match old_event {
            Event::Input(i) => match Input::from_args(id, args, i) {
                Some(e) => Some(Event::Input(e)),
                None => None,
            },
        }
    }
}

} // verus!
