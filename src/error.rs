use vstd::prelude::*;

verus! {

/// The text of [`Error::IllegalPort`].
pub const ILLEGAL_PORT_TEXT: &'static str = "illegal port ID (port not opened?)";

/// The text of [`Error::InvalidPort`].
pub const INVALID_PORT_TEXT: &'static str = "invalid port ID (port already closed?)";

/// Why an operation on a port failed.
#[derive(Debug, Clone, PartialEq, Eq)]
pub enum Error {
    /// The wrapper holds no port: it was never opened, or it was closed.
    IllegalPort,
    /// The host no longer recognises the port (closed by the other side, or stale).
    InvalidPort,
    /// The host could not allocate a port, or an argument broke a local rule.
    Other(String),
}

/// The mathematical value of an [`Error`], with the message as characters.
pub enum ErrorView {
    IllegalPort,
    InvalidPort,
    Other(Seq<char>),
}

impl View for Error {
    type V = ErrorView;

    open spec fn view(&self) -> ErrorView {
        match self {
            Error::IllegalPort => ErrorView::IllegalPort,
            Error::InvalidPort => ErrorView::InvalidPort,
            Error::Other(s) => ErrorView::Other(s@),
        }
    }
}

/// The view of a result that carries no value on success.
pub open spec fn unit_result_view(r: Result<(), Error>) -> Result<(), ErrorView> {
    match r {
        Ok(()) => Ok(()),
        Err(e) => Err(e@),
    }
}

impl Error {
    /// The text describing this error.
    pub fn message(&self) -> (r: String)
        ensures
            r@ == match self@ {
                ErrorView::IllegalPort => ILLEGAL_PORT_TEXT@,
                ErrorView::InvalidPort => INVALID_PORT_TEXT@,
                ErrorView::Other(s) => s,
            },
    {
        match self {
            Error::IllegalPort => String::from_str(ILLEGAL_PORT_TEXT),
            Error::InvalidPort => String::from_str(INVALID_PORT_TEXT),
            Error::Other(s) => s.clone(),
        }
    }
}

} // verus!
