//! The guard of the seller and order routes: a request passes only with a valid session
//! token, and then carries the account identifier the token was issued to.
use vstd::prelude::*;
use vstd::string::StrSliceExecFns;
use crate::app::services::flow::UNAUTHORIZED;
use crate::app::utils::jwt::{answers_token, JWT};

verus! {

/// What a request that passed the guard carries: the account identifier.
#[derive(Clone)]
pub struct MiddlewareData {
    pub sid: String,
}

/// `k` is the position of the first space in `s`.
pub open spec fn first_space_at(s: Seq<char>, k: int) -> bool {
    &&& 0 <= k < s.len()
    &&& s[k] == ' '
    &&& forall|j: int| 0 <= j < k ==> s[j] != ' '
}

/// The header value holds a space (`Bearer <token>`).
pub open spec fn has_space(s: Seq<char>) -> bool {
    exists|k: int| 0 <= k < s.len() && s[k] == ' '
}

/// The text after the first space of a header value: the token of `Bearer <token>`.
pub fn bearer_token(header: &String) -> (t: String)
    requires
        has_space(header@),
    ensures
        exists|k: int| #[trigger] first_space_at(header@, k) && t@ == header@.subrange(k + 1, header@.len() as int),
{
    let len = header.as_str().unicode_len();
    let mut i: usize = 0;
    while i < len
        invariant
            len == header@.len(),
            i <= len,
            has_space(header@),
            forall|j: int| 0 <= j < i ==> header@[j] != ' ',
        decreases len - i,
    {
        if header.as_str().get_char(i) == ' ' {
            let t = header.as_str().substring_char(i + 1, len).to_owned();
            assert(first_space_at(header@, i as int));
            return t;
        }
        i = i + 1;
    }
    assert(false);
    String::new()
}

/// The token of a header value: the text after its first space.
pub open spec fn bearer_of(header: Seq<char>, t: Seq<char>) -> bool {
    exists|k: int| #[trigger] first_space_at(header, k) && t == header.subrange(k + 1, header.len() as int)
}

/// The guard's answer `r` to the verdict on a token: through with the account identifier,
/// or 401.
pub open spec fn guard_answer(verdict: Result<String, String>, r: Result<MiddlewareData, u16>) -> bool {
    match verdict {
        Ok(sid) => r == Ok::<MiddlewareData, u16>(MiddlewareData { sid }),
        Err(_) => r == Err::<MiddlewareData, u16>(401),
    }
}

/// What the guard does with the verdict on a token: let the request through with the
/// account identifier, or refuse it with 401.
pub fn let_through(verdict: Result<String, String>) -> (r: Result<MiddlewareData, u16>)
    ensures
        guard_answer(verdict, r),
{
    match verdict {
        Ok(sid) => Ok(MiddlewareData { sid }),
        Err(_) => Err(UNAUTHORIZED),
    }
}

/// The guard's answer `r` to the header value: 401 without one; else the answer to the
/// verdict on the token after the first space.
pub open spec fn guards(header: Option<String>, r: Result<MiddlewareData, u16>) -> bool {
    match header {
        None => r == Err::<MiddlewareData, u16>(401),
        Some(h) => exists|t: Seq<char>, verdict: Result<String, String>|
            #[trigger] bearer_of(h@, t) && answers_token(t, verdict) && #[trigger] guard_answer(verdict, r),
    }
}

/// The guard on the value of the `Authorization` header (`None` where it is missing or not
/// readable text): refuse with 401 without one; else check the token after the first space
/// and let the request through with the identifier it carries, or refuse with 401.
pub fn auth_middleware(header: Option<String>) -> (r: Result<MiddlewareData, u16>)
    requires
        header matches Some(h) ==> has_space(h@),
    ensures
        guards(header, r),
{
    match header {
        None => Err(UNAUTHORIZED),
        Some(h) => {
            let token = bearer_token(&h);
            let ghost t = token@;
            let verdict = JWT::verify_token(token);
            let r = let_through(verdict);
            assert(bearer_of(h@, t));
            r
        },
    }
}

} // verus!
