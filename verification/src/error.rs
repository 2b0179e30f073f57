use vstd::prelude::*;

verus! {

/// Why an operation on a stream, a file or a connection failed: the cause, in words.
#[derive(Debug, PartialEq, Eq)]
pub struct IoError {
    pub message: String,
}

impl IoError {
    /// A failure with the given cause.
    pub fn new(message: &str) -> (e: IoError)
        ensures
            e.message@ == message@,
    {
        IoError { message: message.to_owned() }
    }

    /// The cause, as it is shown to the user.
    pub fn to_string(&self) -> (text: String)
        ensures
            text@ == self.message@,
    {
        self.message.clone()
    }
}

impl Clone for IoError {
    fn clone(&self) -> (e: IoError)
        ensures
            e == *self,
    {
        IoError { message: self.message.clone() }
    }
}

} // verus!
