//! The uniform success/error wrapper used for every JSON response the
//! service produces.

use vstd::prelude::*;

verus! {

/// Envelope placed around every JSON response body: a numeric code
/// (0 for success, -1 for error), a short message ("ok" on success,
/// an error keyword otherwise), and an arbitrary payload.
pub struct ApiResponse<T> {
    pub code: i32,
    pub msg: String,
    pub data: T,
}

impl<T> ApiResponse<T> {
    /// Wrap a payload in the success envelope: code 0, message "ok".
    pub fn success(data: T) -> (r: Self)
        ensures
            r.code == 0,
            r.msg@ == "ok"@,
            r.data == data,
    {
        Self { code: 0, msg: "ok".to_owned(), data }
    }

    /// Wrap a payload in the error envelope: code -1, message as given.
    pub fn error(msg: &str, data: T) -> (r: Self)
        ensures
            r.code == -1,
            r.msg@ == msg@,
            r.data == data,
    {
        Self { code: -1, msg: msg.to_owned(), data }
    }
}

} // verus!
