//! The error of every operation: the message shown to the operator and reported upstream.

use vstd::prelude::*;

use crate::text;

verus! {

/// A failure, described by its message.
#[derive(Clone, Debug, PartialEq, Eq)]
pub struct EdgeError {
    pub message: String,
}

impl View for EdgeError {
    type V = Seq<char>;

    open spec fn view(&self) -> Seq<char> {
        self.message@
    }
}

impl EdgeError {
    /// An error with a fixed message.
    pub fn new(message: &str) -> (error: EdgeError)
        ensures
            error@ == message@,
    {
        EdgeError { message: message.to_owned() }
    }

    /// An error with a composed message.
    pub fn of(message: String) -> (error: EdgeError)
        ensures
            error@ == message@,
    {
        EdgeError { message }
    }

    /// The message of the error.
    pub fn to_text(&self) -> (message: String)
        ensures
            message@ == self@,
    {
        self.message.clone()
    }
}

/// The value of a successful operation, or the message of its failure.
pub open spec fn outcome<T: View>(result: Result<T, EdgeError>) -> Result<T::V, Seq<char>> {
    match result {
        Ok(value) => Ok(value@),
        Err(error) => Err(error@),
    }
}

/// The success of an operation without a value, or the message of its failure.
pub open spec fn verdict(result: Result<(), EdgeError>) -> Result<(), Seq<char>> {
    match result {
        Ok(_) => Ok(()),
        Err(error) => Err(error@),
    }
}

/// The texts of a successful operation, or the message of its failure.
pub open spec fn list_outcome(result: Result<Vec<String>, EdgeError>) -> Result<
    Seq<Seq<char>>,
    Seq<char>,
> {
    match result {
        Ok(list) => Ok(text::texts(list@)),
        Err(error) => Err(error@),
    }
}

/// A success is told by its value, and a failure by its message.
pub proof fn results_are_told_by_value_or_message<T: View>(
    result: Result<T, EdgeError>,
    done: Result<(), EdgeError>,
    list: Result<Vec<String>, EdgeError>,
)
    ensures
        result matches Ok(value) ==> outcome(result) == Ok::<T::V, Seq<char>>(value@),
        result matches Err(error) ==> outcome(result) == Err::<T::V, Seq<char>>(error.message@),
        done is Ok <==> verdict(done) is Ok,
        done matches Err(error) ==> verdict(done) == Err::<(), Seq<char>>(error.message@),
        list matches Ok(entries) ==> list_outcome(list) == Ok::<Seq<Seq<char>>, Seq<char>>(
            text::texts(entries@),
        ),
        list matches Err(error) ==> list_outcome(list) == Err::<Seq<Seq<char>>, Seq<char>>(
            error.message@,
        ),
{
}

} // verus!
