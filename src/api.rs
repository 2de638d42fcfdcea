use crate::text::opt_view;
use vstd::prelude::*;

verus! {

/// The body served when the status could not be rendered as JSON.
pub open spec fn fallback_body() -> Seq<char> {
    "{\"error\": \"serialization error!\"}"@
}

/// The body of a status response: the rendered JSON, or the fallback body
/// when rendering failed, followed by a newline.
pub open spec fn body_of(rendered: Option<Seq<char>>) -> Seq<char> {
    match rendered {
        Some(json) => json + "\n"@,
        None => fallback_body() + "\n"@,
    }
}

/// Builds the body of a status response from the rendered JSON, if
/// rendering succeeded.
pub fn response_body(rendered: Option<String>) -> (r: String)
    ensures
        r@ == body_of(opt_view(rendered)),
{
    let mut body = match rendered {
        Some(json) => json,
        None => "{\"error\": \"serialization error!\"}".to_owned(),
    };
    body.append("\n");
    body
}

} // verus!
