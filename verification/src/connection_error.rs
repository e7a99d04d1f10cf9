use vstd::prelude::*;

use crate::text::{join2, join3};

verus! {

/// The shared folder could not be read; `message` says why.
#[derive(Debug)]
pub struct ConnectionError {
    pub(crate) message: String,
}

impl View for ConnectionError {
    type V = Seq<char>;

    /// The message of the error.
    closed spec fn view(&self) -> Seq<char> {
        self.message@
    }
}

impl Clone for ConnectionError {
    fn clone(&self) -> (r: Self)
        ensures
            r@ == self@,
    {
        ConnectionError { message: self.message.clone() }
    }
}

impl ConnectionError {
    /// An error with the message `message`.
    pub fn new(message: String) -> (e: ConnectionError)
        ensures
            e@ == message@,
    {
        ConnectionError { message }
    }

    /// The error of a folder `path` that could not be listed, for the reason `cause`.
    pub fn read_dir_failed(path: &str, cause: &str) -> (e: ConnectionError)
        ensures
            e@ == "Error: On read dir "@ + path@ + ": "@ + cause@,
    {
        let head = join3("Error: On read dir ", path, ": ");
        let message = join2(head.as_str(), cause);
        ConnectionError { message }
    }

    /// The message of the error.
    pub fn message(&self) -> (m: &str)
        ensures
            m@ == self@,
    {
        self.message.as_str()
    }

    /// The text shown to the user for this error.
    pub fn describe(&self) -> (text: String)
        ensures
            text@ == "¡Error personalizado: "@ + self@,
    {
        join2("¡Error personalizado: ", self.message.as_str())
    }
}

} // verus!
