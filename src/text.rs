use vstd::prelude::*;
use vstd::utf8::{decode_utf8, encode_utf8, valid_utf8};
use crate::error::{Error, Result};

verus! {

/// True when no byte of `b` is the nul terminator.
pub open spec fn nul_free(b: Seq<u8>) -> bool {
    forall|i: int| 0 <= i < b.len() ==> b[i] != 0
}

/// What the engine receives for the text `s`: its UTF-8 bytes, unless they
/// hold a nul byte.
pub open spec fn outbound(s: Seq<char>) -> Result<Seq<u8>> {
    if nul_free(encode_utf8(s)) {
        Ok(encode_utf8(s))
    } else {
        Err(Error::ToCString)
    }
}

/// What the caller receives for the bytes `b` that the engine handed back:
/// the text they encode, unless they are not well-formed UTF-8.
pub open spec fn inbound(b: Seq<u8>) -> Result<Seq<char>> {
    if valid_utf8(b) {
        Ok(decode_utf8(b))
    } else {
        Err(Error::FromCStr)
    }
}

/// Relies on std::str::from_utf8: it accepts exactly the well-formed UTF-8
/// byte sequences, and the accepted text is what the bytes encode.
#[verifier::external_body]
fn utf8_text(b: &[u8]) -> (r: Option<String>)
    ensures
        r.is_some() <==> valid_utf8(b@),
        r.is_some() ==> r.unwrap()@ == decode_utf8(b@),
{
    match std::str::from_utf8(b) {
        Ok(s) => Some(s.to_owned()),
        Err(_) => None,
    }
}

/// Checks that `s` can cross the boundary and returns the bytes to hand over.
pub fn to_boundary(s: &str) -> (r: Result<Vec<u8>>)
    ensures
        match r {
            Ok(b) => outbound(s@) == Ok::<Seq<u8>, Error>(b@),
            Err(e) => outbound(s@) == Err::<Seq<u8>, Error>(e),
        },
{
    let bytes = s.as_bytes();
    let mut out: Vec<u8> = Vec::new();
    let mut i: usize = 0;
    while i < bytes.len()
        invariant
            bytes@ == encode_utf8(s@),
            i <= bytes@.len(),
            out@ == bytes@.subrange(0, i as int),
            nul_free(out@),
        decreases bytes.len() - i,
    {
        if bytes[i] == 0 {
            assert(!nul_free(encode_utf8(s@)));
            return Err(Error::ToCString);
        }
        out.push(bytes[i]);
        i = i + 1;
        assert(out@ == bytes@.subrange(0, i as int));
    }
    assert(out@ == bytes@);
    Ok(out)
}

/// Validates bytes handed back by the engine and returns the text they hold.
pub fn from_boundary(b: &[u8]) -> (r: Result<String>)
    ensures
        match r {
            Ok(s) => inbound(b@) == Ok::<Seq<char>, Error>(s@),
            Err(e) => inbound(b@) == Err::<Seq<char>, Error>(e),
        },
{
    match utf8_text(b) {
        Some(s) => Ok(s),
        None => Err(Error::FromCStr),
    }
}

/// Text that crossed the boundary comes back unchanged.
pub proof fn lemma_round_trip(s: Seq<char>)
    requires
        outbound(s) is Ok,
    ensures
        inbound(outbound(s)->Ok_0) == Ok::<Seq<char>, Error>(s),
{
    vstd::utf8::encode_utf8_valid_utf8(s);
    vstd::utf8::encode_utf8_decode_utf8(s);
}

} // verus!
