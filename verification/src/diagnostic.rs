//! Diagnostics: one error, made of one or more messages.

use vstd::prelude::*;
use crate::syntax::{compile_error_marker, compile_error_text, error_messages, messages_of};
use crate::text::{join_spaced, spaced_all};

verus! {

/// One reported error: at least one message. Further messages may be
/// combined into it; each message is rendered as a marker of its own.
#[derive(Debug)]
pub struct Diagnostic {
    messages: Vec<String>,
}

impl DeepView for Diagnostic {
    type V = Seq<Seq<char>>;

    closed spec fn deep_view(&self) -> Seq<Seq<char>> {
        self.messages.deep_view()
    }
}

/// The markers for `messages`, in order, as one text.
pub open spec fn markers(messages: Seq<Seq<char>>) -> Seq<char> {
    spaced_all(messages.map_values(|message: Seq<char>| compile_error_text(message)))
}

impl Diagnostic {
    /// A diagnostic is never without a message.
    #[verifier::type_invariant]
    spec fn holds_a_message(&self) -> bool {
        self.messages.len() > 0
    }

    /// The messages, first to last; there is at least one.
    pub fn messages(&self) -> (messages: &Vec<String>)
        ensures
            messages.deep_view() == self.deep_view(),
            messages.len() > 0,
    {
        proof {
            use_type_invariant(self);
        }
        &self.messages
    }

    /// A diagnostic with the single message `message`.
    pub fn new(message: &str) -> (diagnostic: Diagnostic)
        ensures
            diagnostic.deep_view() == seq![message@],
    {
        let mut messages: Vec<String> = Vec::new();
        messages.push(message.to_owned());
        assert(messages.deep_view() =~= seq![message@]);
        Diagnostic { messages }
    }

    /// The diagnostic that stands for a syntax error of the parser.
    pub(crate) fn from_syntax(error: &syn::Error) -> (diagnostic: Diagnostic)
        ensures
            diagnostic.deep_view() == error_messages(*error),
            diagnostic.deep_view().len() > 0,
    {
        Diagnostic { messages: messages_of(error) }
    }

    /// Appends the messages of `another` to this diagnostic.
    pub fn combine(&mut self, another: Diagnostic)
        ensures
            final(self).deep_view() == old(self).deep_view() + another.deep_view(),
    {
        proof {
            use_type_invariant(&*self);
        }
        let ghost before = self.messages.deep_view();
        let ghost added = another.messages.deep_view();
        let mut all = self.messages.clone();
        let mut more = another.messages;
        all.append(&mut more);
        assert(all.deep_view() =~= before + added);
        self.messages = all;
    }

    /// One `compile_error!` marker per message, in order.
    pub fn to_compile_error(&self) -> (text: String)
        ensures
            text@ == markers(self.deep_view()),
    {
        join_spaced(
            &self.messages,
            marker_of,
            Ghost(|message: Seq<char>| compile_error_text(message)),
        )
    }
}

/// The marker for one message.
fn marker_of(message: &String) -> (marker: String)
    ensures
        marker@ == compile_error_text(message.deep_view()),
{
    compile_error_marker(message.as_str())
}

} // verus!
