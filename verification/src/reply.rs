//! What a reply of the server comes to, once it is read.

use crate::error::Error;
use crate::list::ResultList;
use vstd::prelude::*;

verus! {

/// What a reply of the server comes to: the value that it brought, or the
/// error that it reported. A value may be empty; that the server found nothing
/// is no error.
#[derive(Debug)]
pub enum ReplyResult<T> {
    Success(T),
    Fail(Error),
}

impl<T> ReplyResult<T> {
    /// Returns a result contained a value on success.
    pub fn success(value: T) -> (r: Self)
        ensures
            r == ReplyResult::Success(value),
    {
        ReplyResult::Success(value)
    }

    /// Returns a result contained an error on fail.
    pub fn fail(error: Error) -> (r: Self)
        ensures
            r == ReplyResult::<T>::Fail(error),
    {
        ReplyResult::Fail(error)
    }

    /// Whether the reply brought a value.
    pub fn is_success(&self) -> (r: bool)
        ensures
            r == (self is Success),
    {
        match self {
            ReplyResult::Success(_) => true,
            ReplyResult::Fail(_) => false,
        }
    }

    /// The value that the reply brought, if it brought one.
    pub fn value(&self) -> (r: Option<&T>)
        ensures
            match self {
                ReplyResult::Success(v) => r == Some(v),
                ReplyResult::Fail(_) => r is None,
            },
    {
        match self {
            ReplyResult::Success(v) => Some(v),
            ReplyResult::Fail(_) => None,
        }
    }

    /// The error that the reply reported, if it reported one.
    pub fn error(&self) -> (r: Option<&Error>)
        ensures
            match self {
                ReplyResult::Success(_) => r is None,
                ReplyResult::Fail(e) => r == Some(e),
            },
    {
        match self {
            ReplyResult::Success(_) => None,
            ReplyResult::Fail(e) => Some(e),
        }
    }

    /// The reply as a `Result`.
    pub fn into_result(self) -> (r: Result<T, Error>)
        ensures
            match self {
                ReplyResult::Success(v) => r == Ok::<T, Error>(v),
                ReplyResult::Fail(e) => r == Err::<T, Error>(e),
            },
    {
        match self {
            ReplyResult::Success(v) => Ok(v),
            ReplyResult::Fail(e) => Err(e),
        }
    }
}

/// What a reply that brings a list comes to for the client: the error that it
/// reported, nothing where its list is empty, else the list.
pub open spec fn list_outcome<T>(
    reply: ReplyResult<Vec<T>>,
    r: Result<Option<ResultList<T>>, Error>,
) -> bool {
    match reply {
        ReplyResult::Fail(e) => r == Err::<Option<ResultList<T>>, Error>(e),
        ReplyResult::Success(v) => if v@.len() == 0 {
            r == Ok::<Option<ResultList<T>>, Error>(None)
        } else {
            r == Ok::<Option<ResultList<T>>, Error>(Some(ResultList(v)))
        },
    }
}

/// What a reply that brings an identifier comes to for the client.
pub open spec fn id_outcome<T>(reply: ReplyResult<T>, r: Result<Option<T>, Error>) -> bool {
    match reply {
        ReplyResult::Fail(e) => r == Err::<Option<T>, Error>(e),
        ReplyResult::Success(v) => r == Ok::<Option<T>, Error>(Some(v)),
    }
}

impl<T> ReplyResult<Vec<T>> {
    /// Says what a reply that brings a list comes to for the client.
    pub fn into_list(self) -> (r: Result<Option<ResultList<T>>, Error>)
        ensures
            list_outcome(self, r),
    {
        match self {
            ReplyResult::Fail(e) => Err(e),
            ReplyResult::Success(v) => {
                if v.len() == 0 {
                    Ok(None)
                } else {
                    Ok(Some(ResultList(v)))
                }
            },
        }
    }
}

impl<T> ReplyResult<T> {
    /// Says what a reply that brings an identifier comes to for the client.
    pub fn into_some(self) -> (r: Result<Option<T>, Error>)
        ensures
            id_outcome(self, r),
    {
        match self {
            ReplyResult::Fail(e) => Err(e),
            ReplyResult::Success(v) => Ok(Some(v)),
        }
    }
}

} // verus!
