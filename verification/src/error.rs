use vstd::prelude::*;

verus! {

/// What went wrong with a stream.
#[derive(Debug)]
pub enum ErrorCode {
    EndOfStream,
    NotEnoughStream,
    MalformedStream,
}

/// An error code with a message.
#[derive(Debug)]
pub struct Error {
    code: ErrorCode,
    message: String,
}

impl Error {
    pub closed spec fn spec_code(&self) -> ErrorCode {
        self.code
    }

    pub closed spec fn spec_message(&self) -> Seq<char> {
        self.message@
    }

    pub fn new(code: ErrorCode, message: String) -> (e: Self)
        ensures
            e.spec_code() == code,
            e.spec_message() == message@,
    {
        Error { code, message }
    }

    pub fn code(&self) -> (r: &ErrorCode)
        ensures
            *r == self.spec_code(),
    {
        &self.code
    }

    pub fn message(&self) -> (r: &String)
        ensures
            r@ == self.spec_message(),
    {
        &self.message
    }
}

/// An `Err` that carries an error of the given code and message.
pub fn make_error<T>(code: ErrorCode, message: String) -> (r: Result<T, Error>)
    ensures
        r matches Err(e) && e.spec_code() == code && e.spec_message() == message@,
{
    Err(Error::new(code, message))
}

/// An `Err` that carries an error of the given code and an empty message.
pub fn make_error_code<T>(code: ErrorCode) -> (r: Result<T, Error>)
    ensures
        r matches Err(e) && e.spec_code() == code && e.spec_message() == Seq::<char>::empty(),
{
    Err(Error::new(code, String::new()))
}

} // verus!
