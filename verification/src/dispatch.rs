use crate::error::ResolveError;
use vstd::prelude::*;

verus! {

/// How the outcome of a query is answered to whoever sent it.
#[derive(Clone, Copy, Debug, PartialEq, Eq, Structural)]
pub enum Reply {
    /// The query has a result, which is sent.
    Payload,
    /// The query asked for an entity that the store does not hold: an empty
    /// answer, and a success.
    Empty,
    /// The query failed at its root. The answer says so and nothing more.
    Failure,
}

impl Reply {
    /// The reply to a query for one entity.
    pub open spec fn to_one<T>(outcome: Result<Option<T>, ResolveError>) -> Reply {
        match outcome {
            Ok(Some(_)) => Reply::Payload,
            Ok(None) => Reply::Empty,
            Err(_) => Reply::Failure,
        }
    }

    /// The reply to a query for a collection; an empty collection is a
    /// result like any other.
    pub open spec fn to_many<T>(outcome: Result<Vec<T>, ResolveError>) -> Reply {
        match outcome {
            Ok(_) => Reply::Payload,
            Err(_) => Reply::Failure,
        }
    }

    /// The status that goes with the reply: 200 unless the query failed, 400
    /// where it did.
    pub open spec fn status_code(self) -> u16 {
        if self is Failure {
            400
        } else {
            200
        }
    }

    /// The reply to the outcome of a query for one entity.
    pub fn for_one<T>(outcome: &Result<Option<T>, ResolveError>) -> (reply: Reply)
        ensures
            reply == Reply::to_one(*outcome),
    {
        match outcome {
            Ok(Some(_)) => Reply::Payload,
            Ok(None) => Reply::Empty,
            Err(_) => Reply::Failure,
        }
    }

    /// The reply to the outcome of a query for a collection.
    pub fn for_many<T>(outcome: &Result<Vec<T>, ResolveError>) -> (reply: Reply)
        ensures
            reply == Reply::to_many(*outcome),
    {
        match outcome {
            Ok(_) => Reply::Payload,
            Err(_) => Reply::Failure,
        }
    }

    /// The status code of the reply.
    pub fn status(&self) -> (code: u16)
        ensures
            code == self.status_code(),
    {
        match self {
            Reply::Failure => 400,
            _ => 200,
        }
    }
}

/// The status of a response to a query with several roots: 400 as soon as
/// one of the roots failed, since a failure at a root fails the response,
/// and 200 otherwise.
pub open spec fn overall_status(replies: Seq<Reply>) -> u16 {
    if exists|i: int| 0 <= i < replies.len() && replies[i] is Failure {
        400
    } else {
        200
    }
}

/// The status of a response that carries `replies`, one for each root of the
/// query.
pub fn status_of(replies: &Vec<Reply>) -> (code: u16)
    ensures
        code == overall_status(replies@),
{
    let n = replies.len();
    let mut i: usize = 0;
    while i < n
        invariant
            n == replies.len(),
            i <= n,
            forall|j: int| 0 <= j < i ==> !(replies@[j] is Failure),
        decreases n - i,
    {
        match replies[i] {
            Reply::Failure => {
                return 400;
            },
            _ => {},
        }
        i += 1;
    }
    200
}

} // verus!
