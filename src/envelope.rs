//! The JSON envelope that carries an entity in a response body.
use vstd::prelude::*;
use vstd::string::StringExecFns;

use crate::text::push_char;

verus! {

/// The envelope text around the serialized entity `body`: `{"data":<body>}`.
pub open spec fn envelope_text(body: Seq<char>) -> Seq<char> {
    seq!['{', '"', 'd', 'a', 't', 'a', '"', ':'] + body + seq!['}']
}

/// Wraps the JSON text `body` as the single member `data` of a JSON object.
///
/// Where `body` is the serialized form of an entity, the result is the object whose
/// only key is `data` and whose value is that entity.
pub fn data_envelope(body: &str) -> (r: String)
    ensures
        r@ == envelope_text(body@),
{
    let mut s = String::new();
    let open = "{\"data\":";
    proof {
        reveal_strlit("{\"data\":");
    }
    s.append(open);
    s.append(body);
    push_char(&mut s, '}');
    assert(s@ =~= envelope_text(body@));
    s
}

} // verus!
