//! The field in which the user picks a place.
use vstd::prelude::*;

verus! {

/// What the button says while no place is picked.
pub const NO_LOCATION_TEXT: &'static str = "No Location Selected";

/// The state of the field: the user is typing, or a place is picked, or
/// none is.
#[derive(Debug, PartialEq, Eq)]
pub enum Msg {
    PickPlace,
    PlacePicked(Option<String>),
}

/// A [`Msg`] as a mathematical value.
pub enum MsgView {
    PickPlace,
    PlacePicked(Option<Seq<char>>),
}

impl View for Msg {
    type V = MsgView;

    open spec fn view(&self) -> MsgView {
        match self {
            Msg::PickPlace => MsgView::PickPlace,
            Msg::PlacePicked(place) => MsgView::PlacePicked(place.deep_view()),
        }
    }
}

impl Clone for Msg {
    fn clone(&self) -> (out: Msg)
        ensures
            out@ == self@,
    {
        match self {
            Msg::PickPlace => Msg::PickPlace,
            Msg::PlacePicked(Some(name)) => Msg::PlacePicked(Some(name.clone())),
            Msg::PlacePicked(None) => Msg::PlacePicked(None),
        }
    }
}

/// What the field shows.
#[derive(Debug, PartialEq, Eq)]
pub enum Field {
    /// A text input, which takes the focus once it is drawn.
    Input,
    /// A button with the name of the place, which opens the input.
    Button(String),
}

/// A [`Field`] as a mathematical value.
pub enum FieldView {
    Input,
    Button(Seq<char>),
}

impl View for Field {
    type V = FieldView;

    open spec fn view(&self) -> FieldView {
        match self {
            Field::Input => FieldView::Input,
            Field::Button(name) => FieldView::Button(name@),
        }
    }
}

/// What the field shows in a state.
pub open spec fn field_of(state: MsgView) -> FieldView {
    match state {
        MsgView::PickPlace => FieldView::Input,
        MsgView::PlacePicked(Some(name)) => FieldView::Button(name),
        MsgView::PlacePicked(None) => FieldView::Button(NO_LOCATION_TEXT@),
    }
}

/// Takes an event: the event is the new state, and the field is drawn
/// again.
pub fn update(state: &mut Msg, msg: Msg) -> (should_render: bool)
    ensures
        *final(state) == msg,
        should_render,
{
    *state = msg;
    true
}

/// What the field shows in a state.
pub fn view(state: &Msg) -> (field: Field)
    ensures
        field@ == field_of(state@),
{
    match state {
        Msg::PickPlace => Field::Input,
        Msg::PlacePicked(Some(name)) => Field::Button(name.clone()),
        Msg::PlacePicked(None) => Field::Button(NO_LOCATION_TEXT.to_owned()),
    }
}

/// Whether the input must be wired to the suggestions and given the focus
/// after the field was drawn: it must while the user is typing.
pub fn rendered(state: &Msg) -> (wire_input: bool)
    ensures
        wire_input == (state@ is PickPlace),
{
    match state {
        Msg::PickPlace => true,
        Msg::PlacePicked(_) => false,
    }
}

} // verus!
