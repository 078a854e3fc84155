use vstd::prelude::*;
use crate::error::{ConvertToEventError, EventError, TunnelResult};

verus! {

/// The message answering one request: `status` is `"success"` with `data`, or
/// `"failure"` with `err`.
#[derive(Debug)]
pub struct Response<T> {
    pub status: String,
    pub data: Option<T>,
    pub err: Option<EventError>,
}

/// The error reported when the registry hung up without answering.
pub open spec fn no_data_error() -> (i32, Seq<char>) {
    (0, "no data!!!"@)
}

/// `r` is a failure response carrying an error with model `e`.
pub open spec fn is_failure<T>(r: Response<T>, e: (i32, Seq<char>)) -> bool {
    &&& r.status@ == "failure"@
    &&& r.data is None
    &&& r.err matches Some(x) && x@ == e
}

impl<T> Response<T> {
    /// A success response carrying `data`.
    pub fn success(data: T) -> (r: Response<T>)
        ensures
            r.status@ == "success"@,
            r.data == Some(data),
            r.err is None,
    {
        Response { status: "success".to_owned(), data: Some(data), err: None }
    }

    /// A failure response carrying `err`.
    pub fn failure(err: EventError) -> (r: Response<T>)
        ensures
            is_failure(r, err@),
    {
        Response { status: "failure".to_owned(), data: None, err: Some(err) }
    }
}

/// The response to a tunnel request, from what the registry answered (`None`
/// when it hung up).
pub fn tunnel_response<T>(answer: Option<TunnelResult<T>>) -> (r: Response<T>)
    ensures
        match answer {
            Some(Ok(v)) => r.status@ == "success"@ && r.data == Some(v) && r.err is None,
            Some(Err(e)) => is_failure(r, e@),
            None => is_failure(r, no_data_error()),
        },
{
    match answer {
        Some(Ok(v)) => Response::success(v),
        Some(Err(e)) => Response::failure(e.convert()),
        None => Response::failure(EventError::build(0, "no data!!!")),
    }
}

} // verus!
