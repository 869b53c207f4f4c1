//! Messages that pass between the user, the model and the tools.

use vstd::prelude::*;

use crate::text;

verus! {

/// One part of a message. JSON values stand as their text.
#[derive(Debug)]
pub enum Part {
    /// Plain text.
    Text { text: String },
    /// A call of a tool; `args` is the JSON text of the arguments.
    FunctionCall { name: String, args: String, id: Option<String> },
    /// What a tool answered; `response` is JSON text.
    FunctionResponse { name: String, response: String, id: Option<String> },
    /// Any other part, as JSON text; it is passed on unread.
    Other { payload: String },
}

/// The contents of a part.
pub enum PartView {
    Text { text: Seq<char> },
    FunctionCall { name: Seq<char>, args: Seq<char>, id: Option<Seq<char>> },
    FunctionResponse { name: Seq<char>, response: Seq<char>, id: Option<Seq<char>> },
    Other { payload: Seq<char> },
}

impl View for Part {
    type V = PartView;

    open spec fn view(&self) -> PartView {
        match *self {
            Part::Text { text } => PartView::Text { text: text@ },
            Part::FunctionCall { name, args, id } => PartView::FunctionCall {
                name: name@,
                args: args@,
                id: text::opt_view(id),
            },
            Part::FunctionResponse { name, response, id } => PartView::FunctionResponse {
                name: name@,
                response: response@,
                id: text::opt_view(id),
            },
            Part::Other { payload } => PartView::Other { payload: payload@ },
        }
    }
}

impl Clone for Part {
    fn clone(&self) -> (r: Self)
        ensures
            r == *self,
    {
        match self {
            Part::Text { text } => Part::Text { text: text.clone() },
            Part::FunctionCall { name, args, id } => Part::FunctionCall {
                name: name.clone(),
                args: args.clone(),
                id: id.clone(),
            },
            Part::FunctionResponse { name, response, id } => Part::FunctionResponse {
                name: name.clone(),
                response: response.clone(),
                id: id.clone(),
            },
            Part::Other { payload } => Part::Other { payload: payload.clone() },
        }
    }
}

/// A message: who speaks, and what.
#[derive(Debug)]
pub struct Content {
    pub role: String,
    pub parts: Vec<Part>,
}

/// The contents of a message.
#[verifier::ext_equal]
pub struct ContentView {
    pub role: Seq<char>,
    pub parts: Seq<PartView>,
}

/// The contents of a sequence of parts.
pub open spec fn parts_view(parts: Seq<Part>) -> Seq<PartView> {
    parts.map_values(|p: Part| p@)
}

impl View for Content {
    type V = ContentView;

    open spec fn view(&self) -> ContentView {
        ContentView { role: self.role@, parts: parts_view(self.parts@) }
    }
}

/// The contents of a sequence of messages.
pub open spec fn contents_view(messages: Seq<Content>) -> Seq<ContentView> {
    messages.map_values(|m: Content| m@)
}

/// A message of one text part.
pub open spec fn text_message(role: Seq<char>, text: Seq<char>) -> ContentView {
    ContentView { role, parts: seq![PartView::Text { text }] }
}

impl Content {
    /// A message without parts.
    pub fn new(role: &str) -> (r: Self)
        ensures
            r@ == (ContentView { role: role@, parts: Seq::empty() }),
    {
        let r = Content { role: role.to_owned(), parts: Vec::new() };
        assert(r@.parts =~= Seq::empty());
        r
    }

    /// The message with one more text part at its end.
    pub fn with_text(self, text: String) -> (r: Self)
        ensures
            r@ == (ContentView {
                role: self@.role,
                parts: self@.parts.push(PartView::Text { text: text@ }),
            }),
    {
        let ghost before = self@;
        let mut parts = self.parts;
        let part = Part::Text { text };
        parts.push(part);
        let r = Content { role: self.role, parts };
        assert(r@.parts =~= before.parts.push(part@));
        r
    }

    /// A message of one text part.
    pub fn text(role: &str, text: &str) -> (r: Self)
        ensures
            r@ == text_message(role@, text@),
    {
        let r = Content::new(role).with_text(text.to_owned());
        assert(r@.parts =~= seq![PartView::Text { text: text@ }]);
        r
    }
}

impl Clone for Content {
    fn clone(&self) -> (r: Self)
        ensures
            r@ == self@,
    {
        let parts = self.parts.clone();
        assert(parts@ =~= self.parts@);
        Content { role: self.role.clone(), parts }
    }
}

} // verus!
