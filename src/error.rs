use vstd::prelude::*;
use vstd::string::StringExecFns;

verus! {

/// The one outside type that an error can carry as it came.
#[verifier::external_type_specification]
#[verifier::external_body]
pub struct ExIoError(std::io::Error);

/// What can go wrong while assembling or writing a feed.
#[derive(Debug)]
pub enum Error {
    /// A feed or entry was incomplete; the text names the missing field.
    Error { txt: String },
    /// The byte sink failed.
    IO { error: std::io::Error },
    /// The Atom emitter rejected its input or failed to render it.
    Atom { error: String },
}

impl Error {
    pub open spec fn is_validation(self, msg: Seq<char>) -> bool {
        match self {
            Error::Error { txt } => txt@ == msg,
            _ => false,
        }
    }

    /// The text shown for this error: a prefix naming its kind, then what it
    /// carries.
    pub fn message(&self) -> (r: String)
        ensures
            match self {
                Error::Error { txt } => r@ == "Quick Atom Error: "@ + txt@,
                Error::IO { .. } => r@.len() >= 10 && r@.subrange(0, 10) == "IO Error: "@,
                Error::Atom { error } => r@ == "Atom Error: "@ + error@,
            },
    {
        match self {
            Error::Error { txt } => "Quick Atom Error: ".to_owned().concat(txt.as_str()),
            Error::IO { error } => {
                let prefix = "IO Error: ".to_owned();
                let r = prefix.concat(io_error_text(error).as_str());
                proof {
                    reveal_strlit("IO Error: ");
                    assert(prefix@.len() == 10);
                    assert(r@.subrange(0, 10) =~= "IO Error: "@);
                }
                r
            },
            Error::Atom { error } => "Atom Error: ".to_owned().concat(error.as_str()),
        }
    }
}

/// Relies on the `Debug` form of `std::io::Error` for the text of a sink
/// failure.
#[verifier::external_body]
fn io_error_text(e: &std::io::Error) -> String {
    format!("{:?}", e)
}

impl From<String> for Error {
    fn from(e: String) -> (r: Error)
        ensures
            r == (Error::Error { txt: e }),
    {
        Error::Error { txt: e }
    }
}

impl vstd::std_specs::convert::FromSpecImpl<String> for Error {
    open spec fn obeys_from_spec() -> bool {
        true
    }

    open spec fn from_spec(e: String) -> Error {
        Error::Error { txt: e }
    }
}

impl<'a> From<&'a str> for Error {
    fn from(e: &'a str) -> (r: Error)
        ensures
            r.is_validation(e@),
    {
        Error::Error { txt: e.to_owned() }
    }
}

impl<'a> vstd::std_specs::convert::FromSpecImpl<&'a str> for Error {
    open spec fn obeys_from_spec() -> bool {
        false
    }

    open spec fn from_spec(e: &'a str) -> Error {
        arbitrary()
    }
}

impl From<std::io::Error> for Error {
    fn from(e: std::io::Error) -> (r: Error)
        ensures
            r == (Error::IO { error: e }),
    {
        Error::IO { error: e }
    }
}

impl vstd::std_specs::convert::FromSpecImpl<std::io::Error> for Error {
    open spec fn obeys_from_spec() -> bool {
        true
    }

    open spec fn from_spec(e: std::io::Error) -> Error {
        Error::IO { error: e }
    }
}

} // verus!
