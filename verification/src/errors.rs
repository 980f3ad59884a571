//! The error values of the client.
//!
//! Every failure that a caller can trigger from outside is a value of
//! [`Error`]: nothing here aborts. "Not found" is no kind of its own; only the
//! existence check turns a 404 into `false`, everywhere else it is an API
//! error that carries the server's message.

use vstd::prelude::*;

verus! {

/// What went wrong.
#[derive(Clone, Copy, Debug, PartialEq, Eq, Structural)]
pub enum ErrorKind {
    /// Credential or certificate material that cannot be used, or a request
    /// that cannot be formed from the configuration at hand.
    Config,
    /// A base URL and a path that cannot be joined into a URL.
    Url,
    /// The request could not be sent or the connection failed.
    Transport,
    /// A body that is not the JSON (or YAML) document that was expected.
    Decode,
    /// A well-formed status object that came with a status code outside 2xx.
    Api,
}

/// An error: its kind, its message, and the contexts it passed through on the
/// way to the caller (innermost first).
#[derive(Clone, Debug)]
pub struct Error {
    kind: ErrorKind,
    message: String,
    context: Vec<String>,
}

/// The mathematical content of an [`Error`].
pub struct ErrorView {
    pub kind: ErrorKind,
    pub message: Seq<char>,
    pub context: Seq<Seq<char>>,
}

impl ErrorView {
    /// An error of the given kind and message that has not passed through
    /// any context yet.
    pub open spec fn bare(kind: ErrorKind, message: Seq<char>) -> ErrorView {
        ErrorView { kind, message, context: Seq::empty() }
    }

    /// This error after it has passed through one more context.
    pub open spec fn within(self, context: Seq<char>) -> ErrorView {
        ErrorView { context: self.context.push(context), ..self }
    }

    /// The text shown to a person: the contexts from the outermost to the
    /// innermost, each followed by `": "`, and then the message.
    pub open spec fn text(self) -> Seq<char>
        decreases self.context.len(),
    {
        if self.context.len() == 0 {
            self.message
        } else {
            self.context.last() + ": "@ + ErrorView {
                context: self.context.drop_last(),
                ..self
            }.text()
        }
    }
}

impl View for Error {
    type V = ErrorView;

    closed spec fn view(&self) -> ErrorView {
        ErrorView {
            kind: self.kind,
            message: self.message@,
            context: self.context@.map_values(|c: String| c@),
        }
    }
}

impl Error {
    /// An error of the given kind with the given message and no context.
    pub fn new(kind: ErrorKind, message: &str) -> (e: Error)
        ensures
            e@ == ErrorView::bare(kind, message@),
    {
        let e = Error { kind, message: String::from_str(message), context: Vec::new() };
        proof {
            assert(e.context@.map_values(|c: String| c@) =~= Seq::<Seq<char>>::empty());
        }
        e
    }

    /// A configuration error.
    pub fn config(message: &str) -> (e: Error)
        ensures
            e@ == ErrorView::bare(ErrorKind::Config, message@),
    {
        Error::new(ErrorKind::Config, message)
    }

    /// A URL error.
    pub fn url(message: &str) -> (e: Error)
        ensures
            e@ == ErrorView::bare(ErrorKind::Url, message@),
    {
        Error::new(ErrorKind::Url, message)
    }

    /// A transport error.
    pub fn transport(message: &str) -> (e: Error)
        ensures
            e@ == ErrorView::bare(ErrorKind::Transport, message@),
    {
        Error::new(ErrorKind::Transport, message)
    }

    /// A decode error.
    pub fn decode(message: &str) -> (e: Error)
        ensures
            e@ == ErrorView::bare(ErrorKind::Decode, message@),
    {
        Error::new(ErrorKind::Decode, message)
    }

    /// An API error that carries the server's message as it came.
    pub fn api(message: &str) -> (e: Error)
        ensures
            e@ == ErrorView::bare(ErrorKind::Api, message@),
    {
        Error::new(ErrorKind::Api, message)
    }

    /// The kind of this error.
    pub fn kind(&self) -> (k: ErrorKind)
        ensures
            k == self@.kind,
    {
        self.kind
    }

    /// The message of this error, without any context.
    pub fn message(&self) -> (m: &str)
        ensures
            m@ == self@.message,
    {
        self.message.as_str()
    }

    /// The contexts this error passed through, innermost first.
    pub fn context(&self) -> (c: &Vec<String>)
        ensures
            c@.map_values(|c: String| c@) == self@.context,
    {
        &self.context
    }

    /// Adds the context through which this error is passing; kind and message
    /// stay as they are.
    pub fn with_context(self, context: &str) -> (e: Error)
        ensures
            e@ == self@.within(context@),
    {
        let mut e = self;
        let ghost before = e.context@;
        e.context.push(String::from_str(context));
        proof {
            assert(e.context@.map_values(|c: String| c@) =~= before.map_values(|c: String| c@).push(
                context@,
            ));
        }
        e
    }

    /// The text shown to a person, in the form `outer: inner: message`.
    pub fn describe(&self) -> (text: String)
        ensures
            text@ == self@.text(),
    {
        let mut text = String::from_str(self.message.as_str());
        let mut i: usize = 0;
        while i < self.context.len()
            invariant
                i <= self.context.len(),
                text@ == (ErrorView {
                    context: self@.context.take(i as int),
                    ..self@
                }).text(),
            decreases self.context.len() - i,
        {
            let ghost shorter = ErrorView { context: self@.context.take(i as int), ..self@ };
            let ghost longer = ErrorView { context: self@.context.take(i + 1), ..self@ };
            proof {
                assert(longer.context.drop_last() =~= shorter.context);
            }
            let mut next = String::from_str(self.context[i].as_str());
            next.append(": ");
            next.append(text.as_str());
            text = next;
            i = i + 1;
        }
        proof {
            assert(self@.context.take(self.context.len() as int) =~= self@.context);
        }
        text
    }
}

} // verus!
