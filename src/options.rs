use vstd::prelude::*;
use crate::error::{od_code, OdError};

verus! {

/// The text that a byte sequence spells under UTF-8, or `None` when the
/// bytes are not valid UTF-8.
pub uninterp spec fn utf8_text(b: Seq<u8>) -> Option<Seq<char>>;

/// Every byte is below 128.
pub open spec fn is_ascii(b: Seq<u8>) -> bool {
    forall|i: int| 0 <= i < b.len() ==> b[i] < 128
}

/// Each byte read as the character of the same code.
pub open spec fn ascii_chars(b: Seq<u8>) -> Seq<char> {
    b.map_values(|c: u8| c as char)
}

/// Relies on String::from_utf8: it succeeds exactly on valid UTF-8 and then
/// holds the decoded characters; ASCII bytes are valid and decode one to one.
#[verifier::external_body]
pub(crate) fn decode_text(b: &Vec<u8>) -> (r: Option<String>)
    ensures
        match r {
            Some(s) => utf8_text(b@) == Some(s@),
            None => utf8_text(b@) is None,
        },
        is_ascii(b@) ==> r is Some && r->0@ == ascii_chars(b@),
{
    String::from_utf8(b.clone()).ok()
}

/// Both the key and the value of a raw option are valid text.
pub open spec fn pair_is_text(p: (Vec<u8>, Vec<u8>)) -> bool {
    utf8_text(p.0@) is Some && utf8_text(p.1@) is Some
}

/// Every raw option of the list is valid text.
pub open spec fn all_text(raw: Seq<(Vec<u8>, Vec<u8>)>) -> bool {
    forall|i: int| 0 <= i < raw.len() ==> #[trigger] pair_is_text(raw[i])
}

/// `out` is `raw` decoded entry by entry, in the same order.
pub open spec fn decoded_options(raw: Seq<(Vec<u8>, Vec<u8>)>, out: Seq<(String, String)>) -> bool {
    &&& out.len() == raw.len()
    &&& forall|i: int|
        0 <= i < raw.len() ==> {
            &&& utf8_text(#[trigger] raw[i].0@) == Some(out[i].0@)
            &&& utf8_text(raw[i].1@) == Some(out[i].1@)
        }
}

/// Turns the key/value pairs handed over the boundary as bytes into owned
/// text pairs, keeping their order and any duplicate keys. Text that is not
/// valid UTF-8 is refused with an unexpected error instead of aborting.
pub fn parse_options(raw: &Vec<(Vec<u8>, Vec<u8>)>) -> (r: Result<Vec<(String, String)>, OdError>)
    ensures
        r is Ok <==> all_text(raw@),
        r is Ok ==> decoded_options(raw@, r->Ok_0@),
        r is Err ==> r->Err_0.code == od_code::ODE_UNEXPECTED,
{
    let mut out: Vec<(String, String)> = Vec::new();
    let mut i: usize = 0;
    while i < raw.len()
        invariant
            i <= raw@.len(),
            decoded_options(raw@.subrange(0, i as int), out@),
            forall|j: int| 0 <= j < i ==> #[trigger] pair_is_text(raw@[j]),
        decreases raw@.len() - i,
    {
        let key = decode_text(&raw[i].0);
        let value = decode_text(&raw[i].1);
        match (key, value) {
            (Some(k), Some(v)) => {
                out.push((k, v));
            },
            _ => {
                assert(!pair_is_text(raw@[i as int]));
                return Err(OdError { code: od_code::ODE_UNEXPECTED, message: String::from_str("option text is not valid UTF-8") });
            },
        }
        i = i + 1;
        assert(forall|j: int| 0 <= j < i ==> raw@.subrange(0, i as int)[j] == raw@[j]);
    }
    assert(raw@.subrange(0, i as int) =~= raw@);
    Ok(out)
}

} // verus!
