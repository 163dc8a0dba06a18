//! What the HTTP surface hands out, and how it is computed from the backend's
//! answers.
use vstd::prelude::*;

pub mod dto;
pub mod routes;
pub mod state;

verus! {

/// What a route answers with.
#[derive(Debug)]
pub enum Reply<T> {
    /// Nothing: the backend is unknown, or the core failed.
    NoContent,
    /// The payload, as JSON.
    Json(T),
}

impl<T> Reply<T> {
    /// The HTTP status of each answer.
    pub open spec fn status_code(self) -> u16 {
        match self {
            Reply::NoContent => 204,
            Reply::Json(_) => 200,
        }
    }

    /// The HTTP status of this answer.
    pub fn status(&self) -> (code: u16)
        ensures
            code == self.status_code(),
    {
        match self {
            Reply::NoContent => 204,
            Reply::Json(_) => 200,
        }
    }
}

} // verus!
