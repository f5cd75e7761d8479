//! A named text input: what it shows, and how a message from the host changes
//! it.

use vstd::prelude::*;

verus! {

/// What a variable is created with.
#[derive(Clone, Debug, PartialEq, Eq)]
pub struct Props {
    pub name: String,
    pub class: String,
    pub value: String,
}

/// The message that the input sends when its text changes.
#[derive(Clone, Debug, PartialEq, Eq)]
pub struct Msg {
    value: String,
}

impl Msg {
    /// The text that this message brings.
    pub closed spec fn text(&self) -> Seq<char> {
        self.value@
    }

    /// A message that brings `value`.
    pub fn new(value: String) -> (msg: Self)
        ensures
            msg.text() == value@,
    {
        Msg { value }
    }
}

/// A named text input.
#[derive(Clone, Debug, PartialEq, Eq)]
pub struct Variable {
    name: String,
    class: String,
    value: String,
}

/// What a `Variable` shows.
pub struct VariableView {
    pub name: Seq<char>,
    pub class: Seq<char>,
    pub value: Seq<char>,
}

impl View for Variable {
    type V = VariableView;

    closed spec fn view(&self) -> VariableView {
        VariableView { name: self.name@, class: self.class@, value: self.value@ }
    }
}

impl Variable {
    /// A variable that shows what `props` holds.
    pub fn create(props: Props) -> (variable: Self)
        ensures
            variable@ == (VariableView {
                name: props.name@,
                class: props.class@,
                value: props.value@,
            }),
    {
        Variable { name: props.name, class: props.class, value: props.value }
    }

    /// Takes the text of `msg` as the new value. The name and the class stay,
    /// and the variable is always to be shown again.
    pub fn update(&mut self, msg: Msg) -> (should_render: bool)
        ensures
            should_render,
            final(self)@ == (VariableView { value: msg.text(), ..old(self)@ }),
    {
        self.value = msg.value;
        true
    }

    /// The name that is shown above the input.
    pub fn name(&self) -> (name: &str)
        ensures
            name@ == self@.name,
    {
        self.name.as_str()
    }

    /// The class that is shown above the input.
    pub fn class(&self) -> (class: &str)
        ensures
            class@ == self@.class,
    {
        self.class.as_str()
    }

    /// The text in the input.
    pub fn value(&self) -> (value: &str)
        ensures
            value@ == self@.value,
    {
        self.value.as_str()
    }
}

} // verus!
