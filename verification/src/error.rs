use vstd::prelude::*;
use vstd::string::*;

verus! {

/// The errors of the library: a publisher or subscriber was requested with a
/// data type other than the one declared for its topic (the first name is
/// the requested (cast) type, the second the declared (expected) one); or an
/// operation that blocks the thread was called where an asynchronous runtime
/// runs, which cannot be blocked.
#[derive(Copy, Clone, Debug)]
pub enum Error {
    PublisherMismatch(&'static str, &'static str),
    SubscriberMismatch(&'static str, &'static str),
    BlockingInRuntime,
}

/// The text that describes an error.
pub open spec fn error_text(e: Error) -> Seq<char> {
    match e {
        Error::PublisherMismatch(input, output) =>
            "Publisher type mismatch: "@ + input@ + " (cast) != "@ + output@ + " (expected)"@,
        Error::SubscriberMismatch(input, output) =>
            "Subscriber type mismatch: "@ + input@ + " (cast) != "@ + output@ + " (expected)"@,
        Error::BlockingInRuntime =>
            "Blocking call inside an asynchronous runtime"@,
    }
}

impl Error {
    /// The human-readable description of the error.
    pub fn message(&self) -> (s: String)
        ensures
            s@ == error_text(*self),
    {
        let (head, input, output) = match self {
            Error::PublisherMismatch(i, o) => ("Publisher type mismatch: ", *i, *o),
            Error::SubscriberMismatch(i, o) => ("Subscriber type mismatch: ", *i, *o),
            Error::BlockingInRuntime => {
                return String::from_str("Blocking call inside an asynchronous runtime");
            },
        };
        let mut s = String::from_str(head);
        s.append(input);
        s.append(" (cast) != ");
        s.append(output);
        s.append(" (expected)");
        s
    }
}

} // verus!
