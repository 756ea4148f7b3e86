//! Text crossing the native boundary: C strings handed to the engine and
//! NUL-terminated buffers filled by it.

use vstd::prelude::*;
use vstd::slice::slice_subrange;
use vstd::string::StringSliceAdditionalSpecFns;
use vstd::utf8::{decode_utf8, valid_utf8};

use crate::error::{Error, Result};

verus! {

/// Whether `b` holds a NUL byte, which would end a C string early.
pub open spec fn has_nul(b: Seq<u8>) -> bool {
    b.contains(0u8)
}

/// The view of an optional byte buffer.
pub open spec fn opt_bytes_view(b: Option<Vec<u8>>) -> Option<Seq<u8>> {
    match b {
        Some(v) => Some(v@),
        None => None,
    }
}

/// The bytes of `b` before its first NUL byte; all of `b` when it holds none.
pub open spec fn until_nul(b: Seq<u8>) -> Seq<u8>
    decreases b.len(),
{
    if b.len() == 0 || b[0] == 0 {
        Seq::empty()
    } else {
        seq![b[0]] + until_nul(b.drop_first())
    }
}

/// The text that `String::from_utf8_lossy` makes of `b`.
pub uninterp spec fn lossy_utf8(b: Seq<u8>) -> Seq<char>;

/// Relies on `String::from_utf8_lossy`: decodes `b` as UTF-8, replacing each
/// invalid sequence with U+FFFD; valid UTF-8 comes back decoded unchanged.
#[verifier::external_body]
fn utf8_lossy(b: &[u8]) -> (r: String)
    ensures
        r@ == lossy_utf8(b@),
        valid_utf8(b@) ==> r@ == decode_utf8(b@),
{
    String::from_utf8_lossy(b).into_owned()
}

/// The bytes of `s` as the payload of a C string.
///
/// Fails with `InvalidArgument` exactly when `s` holds a NUL byte.
pub fn c_text(s: &str) -> (r: Result<Vec<u8>>)
    ensures
        r is Err <==> has_nul(s.spec_bytes()),
        r matches Ok(v) ==> v@ == s.spec_bytes(),
        r matches Err(e) ==> e == Error::InvalidArgument,
{
    let b = s.as_bytes();
    let mut v: Vec<u8> = Vec::new();
    let mut i: usize = 0;
    while i < b.len()
        invariant
            b@ == s.spec_bytes(),
            0 <= i <= b@.len(),
            v@ == b@.take(i as int),
            forall|j: int| 0 <= j < i ==> b@[j] != 0,
        decreases b@.len() - i,
    {
        if b[i] == 0 {
            assert(b@[i as int] == 0u8);
            return Err(Error::InvalidArgument);
        }
        v.push(b[i]);
        i += 1;
        assert(v@ =~= b@.take(i as int));
    }
    assert(v@ =~= b@);
    Ok(v)
}

proof fn lemma_until_nul_is_prefix(b: Seq<u8>, i: int)
    requires
        0 <= i <= b.len(),
        forall|j: int| 0 <= j < i ==> b[j] != 0,
        i == b.len() || b[i] == 0,
    ensures
        until_nul(b) == b.take(i),
    decreases i,
{
    if i == 0 {
        assert(b.take(0) =~= Seq::<u8>::empty());
    } else {
        let rest = b.drop_first();
        lemma_until_nul_is_prefix(rest, i - 1);
        assert(seq![b[0]] + rest.take(i - 1) =~= b.take(i));
    }
}

/// Decodes a buffer that the native engine filled with a C string: the
/// bytes before the first NUL, decoded as UTF-8 with lossy replacement.
pub fn text_from_buffer(buf: &[u8]) -> (r: String)
    ensures
        r@ == lossy_utf8(until_nul(buf@)),
{
    let mut i: usize = 0;
    while i < buf.len() && buf[i] != 0
        invariant
            0 <= i <= buf@.len(),
            forall|j: int| 0 <= j < i ==> buf@[j] != 0,
        decreases buf@.len() - i,
    {
        i += 1;
    }
    let text = slice_subrange(buf, 0, i);
    proof {
        lemma_until_nul_is_prefix(buf@, i as int);
        assert(text@ =~= buf@.take(i as int));
    }
    utf8_lossy(text)
}

} // verus!
