//! Small conversions into `Result`s that handlers are written with.

use vstd::prelude::*;
use crate::error_response::Errors;
use vstd::string::to_string_from_display_ensures;

verus! {

/// Wraps a value as a success.
pub trait ToOk<TSuccess, TError>: Sized {
    spec fn ok_spec(self) -> Result<TSuccess, TError>;

    fn ok(self) -> (res: Result<TSuccess, TError>)
        ensures
            res == self.ok_spec(),
    ;
}

/// Wraps a value as a failure.
pub trait ToErr<TSuccess, TError>: Sized {
    spec fn err_spec(self) -> Result<TSuccess, TError>;

    fn err(self) -> (res: Result<TSuccess, TError>)
        ensures
            res == self.err_spec(),
    ;
}

impl<T, E> ToOk<T, E> for T {
    open spec fn ok_spec(self) -> Result<T, E> {
        Ok(self)
    }

    fn ok(self) -> Result<T, E> {
        Ok(self)
    }
}

impl<T, E> ToErr<T, E> for E {
    open spec fn err_spec(self) -> Result<T, E> {
        Err(self)
    }

    fn err(self) -> Result<T, E> {
        Err(self)
    }
}

/// Why a database query failed: no row matched, or another error with its text.
#[derive(Debug)]
pub enum QueryError {
    NotFound,
    Other(String),
}

/// Turns a query that found no row into an empty success.
pub trait ToOptional<T>: Sized {
    fn to_optional(self) -> (res: Result<Option<T>, QueryError>);
}

impl<T> ToOptional<T> for Result<T, QueryError> {
    fn to_optional(self) -> (res: Result<Option<T>, QueryError>)
        ensures
            match self {
                Ok(v) => res == Ok::<Option<T>, QueryError>(Some(v)),
                Err(QueryError::NotFound) => res == Ok::<Option<T>, QueryError>(None),
                Err(e) => res == Err::<Option<T>, QueryError>(e),
            },
    {
        match self {
            Err(QueryError::NotFound) => Ok(None),
            Err(e) => Err(e),
            Ok(v) => Ok(Some(v)),
        }
    }
}

/// Turns a failure into its text.
pub trait ToErrString<T>: Sized {
    fn to_err_string(self) -> (res: Result<T, String>);
}

impl<T, E: std::fmt::Display> ToErrString<T> for Result<T, E> {
    fn to_err_string(self) -> (res: Result<T, String>)
        ensures
            match self {
                Ok(v) => res == Ok::<T, String>(v),
                Err(e) => res matches Err(s) && to_string_from_display_ensures::<E>(&e, s),
            },
    {
        match self {
            Ok(v) => Ok(v),
            Err(e) => Err(e.to_string()),
        }
    }
}

/// Turns a failure into an internal server error carrying its text, after
/// handing a clone of the failure to `log`; a success is passed through.
pub trait ToInternalStatusError<T, E>: Sized {
    fn to_internal_err<F: FnOnce(E)>(self, log: F) -> (res: Result<T, Errors>)
        requires
            forall|e: E| call_requires(log, (e,)),
    ;
}

impl<T, E: std::fmt::Display + Clone> ToInternalStatusError<T, E> for Result<T, E> {
    fn to_internal_err<F: FnOnce(E)>(self, log: F) -> (res: Result<T, Errors>)
        ensures
            match self {
                Ok(v) => res == Ok::<T, Errors>(v),
                Err(e) => res matches Err(Errors::InternalError(s)) && to_string_from_display_ensures::<E>(&e, s),
            },
            self matches Err(e) ==> exists|c: E| #[trigger] cloned::<E>(e, c) && call_ensures(log, (c,), ()),
    {
        match self {
            Ok(v) => Ok(v),
            Err(e) => {
                let c = e.clone();
                log(c);
                assert(cloned::<E>(e, c));
                Err(Errors::InternalError(e.to_string()))
            },
        }
    }
}

} // verus!
