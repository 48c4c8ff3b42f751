//! Values shared across modules: the result of a slash command, and the
//! conversion of text arguments into owned strings.

use vstd::prelude::*;
use std::borrow::Cow;

verus! {

/// Text that can be turned into an owned `String`: the kinds of text from
/// which std makes a `String` (`&str`, `&mut str`, `String`, `&String`,
/// `Box<str>`, `Cow<str>` and `char`).
pub trait IntoText: Sized {
    /// The characters of the text.
    spec fn text(&self) -> Seq<char>;

    /// The text as an owned `String`.
    fn into_text(self) -> (s: String)
        ensures
            s@ == self.text(),
    ;
}

impl<'a> IntoText for &'a str {
    open spec fn text(&self) -> Seq<char> {
        (*self)@
    }

    fn into_text(self) -> (s: String) {
        self.to_owned()
    }
}

impl IntoText for String {
    open spec fn text(&self) -> Seq<char> {
        self@
    }

    fn into_text(self) -> (s: String) {
        self
    }
}

impl<'a> IntoText for &'a mut str {
    open spec fn text(&self) -> Seq<char> {
        (**self)@
    }

    fn into_text(self) -> (s: String) {
        let shared: &str = self;
        shared.to_owned()
    }
}

impl<'a> IntoText for &'a String {
    open spec fn text(&self) -> Seq<char> {
        (*self)@
    }

    fn into_text(self) -> (s: String) {
        self.clone()
    }
}

impl IntoText for Box<str> {
    open spec fn text(&self) -> Seq<char> {
        (**self)@
    }

    fn into_text(self) -> (s: String) {
        let shared: &str = &self;
        shared.to_owned()
    }
}

impl<'a> IntoText for Cow<'a, str> {
    open spec fn text(&self) -> Seq<char> {
        self@
    }

    fn into_text(self) -> (s: String) {
        match self {
            Cow::Borrowed(borrowed) => borrowed.to_owned(),
            Cow::Owned(owned) => owned,
        }
    }
}

impl IntoText for char {
    open spec fn text(&self) -> Seq<char> {
        seq![*self]
    }

    fn into_text(self) -> (s: String) {
        char_text(self)
    }
}

/// `String::from(char)`: a string that holds the one character `c`, as
/// std's documentation of that conversion says.
#[verifier::external_body]
fn char_text(c: char) -> (s: String)
    ensures
        s@ == seq![c],
{
    String::from(c)
}

/// The result of a Docker slash command, ready to be presented to the user.
#[derive(Debug)]
pub struct CommandOutput {
    pub text: String,
    pub label: String,
}

/// What a `CommandOutput` holds: its label and its text.
pub struct CommandOutputView {
    pub label: Seq<char>,
    pub text: Seq<char>,
}

impl View for CommandOutput {
    type V = CommandOutputView;

    open spec fn view(&self) -> CommandOutputView {
        CommandOutputView { label: self.label@, text: self.text@ }
    }
}

impl CommandOutput {
    /// Creates a new `CommandOutput` with the given label and text.
    pub fn new<L: IntoText, T: IntoText>(label: L, text: T) -> (out: CommandOutput)
        ensures
            out@ == (CommandOutputView { label: label.text(), text: text.text() }),
    {
        CommandOutput { text: text.into_text(), label: label.into_text() }
    }
}

} // verus!
