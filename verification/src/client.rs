//! What the upload client sends and what the server answers.
use vstd::prelude::*;
use vstd::string::*;
use crate::text::to_string;

verus! {

/// The server's answer to an upload: how many events it accepted, how many it
/// already had, and the highest local command ID it now holds for this machine.
#[derive(Clone, Copy, Debug, PartialEq, Eq)]
pub struct UploadResult {
    pub accepted: usize,
    pub duplicates: usize,
    pub max_local_id: i64,
}

/// The `Authorization` header value of an upload: `Bearer <token>`.
pub fn authorization_header(token: &str) -> (r: String)
    ensures
        r@ == "Bearer "@ + token@,
{
    let mut s = to_string("Bearer ");
    s.append(token);
    s
}

} // verus!
