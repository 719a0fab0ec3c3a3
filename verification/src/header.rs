//! The header fields of a response.

use rocket::response::Response;
use vstd::prelude::*;

verus! {

/// Rocket's `Response`: a status, header fields and a body. Nothing of its
/// inside is visible here; [`header_values`] names what it holds under a
/// header name, and [`status_code`] its status.
#[verifier::external_type_specification]
#[verifier::external_body]
pub struct ExResponse<'r>(Response<'r>);

/// The values that `response` holds for the header `name`, in the order
/// in which they were added: what `response.headers().get(name)` yields.
pub uninterp spec fn header_values(response: Response<'static>, name: Seq<char>) -> Seq<Seq<char>>;

/// The status code of `response`: the code of what `response.status()`
/// returns.
pub uninterp spec fn status_code(response: Response<'static>) -> u16;

/// The number of `c`, with an ASCII capital letter counted as its small
/// letter.
pub open spec fn folded(c: char) -> int {
    if 'A' <= c <= 'Z' {
        c as int + 32
    } else {
        c as int
    }
}

/// Whether two header names are the same name: equal but for the case of
/// their ASCII letters.
pub open spec fn same_name(a: Seq<char>, b: Seq<char>) -> bool {
    &&& a.len() == b.len()
    &&& forall|i: int| 0 <= i < a.len() ==> folded(#[trigger] a[i]) == folded(b[i])
}

/// Calls `Response::set_raw_header`, which drops every value that the
/// response held under `name`, in whatever case the name was written, and
/// leaves `value` as the only one. Taken on trust from Rocket's source: the
/// header map is keyed by names that compare without regard to ASCII case,
/// and the call inserts the one-element list under that key. The values
/// under every other name stay as they were, and so does the status, which
/// the call does not touch.
#[verifier::external_body]
pub(crate) fn set_raw_header(response: &mut Response<'static>, name: &'static str, value: String)
    ensures
        status_code(*final(response)) == status_code(*old(response)),
        forall|other: Seq<char>|
            #[trigger] header_values(*final(response), other) == if same_name(other, name@) {
                seq![value@]
            } else {
                header_values(*old(response), other)
            },
{
    response.set_raw_header(name, value);
}

} // verus!
