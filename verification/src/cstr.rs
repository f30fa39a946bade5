//! NUL-terminated strings stored in an image.
use vstd::prelude::*;
use vstd::string::StringSliceAdditionalSpecFns;
use vstd::utf8::{decode_utf8, encode_utf8_decode_utf8, valid_utf8};

verus! {

/// The number of bytes before the first NUL of `s`, or its length where it has none.
pub open spec fn cstr_len(s: Seq<u8>) -> nat
    decreases s.len(),
{
    if s.len() == 0 {
        0
    } else if s[0] == 0 {
        0
    } else {
        1 + cstr_len(s.drop_first())
    }
}

/// The bytes of `s` before its first NUL.
pub open spec fn cstr_bytes(s: Seq<u8>) -> Seq<u8> {
    s.take(cstr_len(s) as int)
}

/// `s` holds a NUL.
pub open spec fn has_nul(s: Seq<u8>) -> bool {
    exists|i: int| 0 <= i < s.len() && s[i] == 0
}

/// The text that `String::from_utf8_lossy` makes of `bytes`.
pub uninterp spec fn utf8_lossy(bytes: Seq<u8>) -> Seq<char>;

/// The text of the C string that starts at `off` in `s`.
pub open spec fn cstr_at(s: Seq<u8>, off: int) -> Seq<char> {
    utf8_lossy(cstr_bytes(s.subrange(off, s.len() as int)))
}

/// `String::from_utf8_lossy`, made an owned string. Its text is named by
/// `utf8_lossy`; where the bytes are valid UTF-8 it is their decoding, as the
/// standard library documents. What it makes of invalid bytes is not stated.
#[verifier::external_body]
pub(crate) fn string_from_utf8_lossy(bytes: &[u8]) -> (r: String)
    ensures
        r@ == utf8_lossy(bytes@),
        valid_utf8(bytes@) ==> r@ == decode_utf8(bytes@),
{
    String::from_utf8_lossy(bytes).into_owned()
}

/// What `cstr_len` counts: no NUL before it, and a NUL at it unless it is the end.
pub proof fn lemma_cstr_len(s: Seq<u8>)
    ensures
        cstr_len(s) <= s.len(),
        forall|j: int| 0 <= j < cstr_len(s) ==> s[j] != 0,
        cstr_len(s) < s.len() ==> s[cstr_len(s) as int] == 0,
        has_nul(s) <==> cstr_len(s) < s.len(),
    decreases s.len(),
{
    if s.len() > 0 && s[0] != 0 {
        let t = s.drop_first();
        lemma_cstr_len(t);
        assert forall|j: int| 0 <= j < cstr_len(s) implies s[j] != 0 by {
            if j > 0 {
                assert(s[j] == t[j - 1]);
            }
        }
        if has_nul(s) {
            let i = choose|i: int| 0 <= i < s.len() && s[i] == 0;
            assert(t[i - 1] == 0);
        }
        if cstr_len(s) < s.len() {
            assert(s[cstr_len(s) as int] == t[cstr_len(t) as int]);
        }
    } else if s.len() > 0 {
        assert(s[0] == 0);
    }
}

/// The number of bytes before the first NUL at or after `off`, counted from `off`.
pub fn cstr_len_at(bytes: &[u8], off: usize) -> (n: usize)
    requires
        off <= bytes@.len(),
    ensures
        n == cstr_len(bytes@.subrange(off as int, bytes@.len() as int)),
        off + n <= bytes@.len(),
{
    let ghost s = bytes@.subrange(off as int, bytes@.len() as int);
    proof {
        lemma_cstr_len(s);
    }
    let mut i = off;
    while i < bytes.len() && bytes[i] != 0
        invariant
            off <= i <= bytes@.len(),
            s == bytes@.subrange(off as int, bytes@.len() as int),
            cstr_len(s) <= s.len(),
            forall|j: int| 0 <= j < cstr_len(s) ==> s[j] != 0,
            cstr_len(s) < s.len() ==> s[cstr_len(s) as int] == 0,
            i - off <= cstr_len(s),
        decreases bytes@.len() - i,
    {
        assert(s[i - off] == bytes@[i as int]);
        i = i + 1;
    }
    if i < bytes.len() {
        assert(s[i - off] == 0);
    }
    i - off
}

/// The lossy text of the C string at `off`, ending at a NUL or at the end of `bytes`.
pub fn read_cstr_lossy(bytes: &[u8], off: usize) -> (r: String)
    requires
        off <= bytes@.len(),
    ensures
        r@ == cstr_at(bytes@, off as int),
{
    assert(bytes@.len() == bytes.len());
    let n = cstr_len_at(bytes, off);
    let sub = vstd::slice::slice_subrange(bytes, off, off + n);
    assert(sub@ =~= cstr_bytes(bytes@.subrange(off as int, bytes@.len() as int)));
    string_from_utf8_lossy(sub)
}

/// The two strings hold the same text: `a == b` on `str`, byte by byte.
pub fn str_eq(a: &str, b: &str) -> (r: bool)
    ensures
        r == (a@ == b@),
{
    let x = a.as_bytes();
    let y = b.as_bytes();
    proof {
        encode_utf8_decode_utf8(a@);
        encode_utf8_decode_utf8(b@);
    }
    if x.len() != y.len() {
        return false;
    }
    let mut i: usize = 0;
    while i < x.len()
        invariant
            x@ == a.spec_bytes(),
            y@ == b.spec_bytes(),
            x@.len() == y@.len(),
            0 <= i <= x@.len(),
            forall|k: int| 0 <= k < i ==> x@[k] == y@[k],
        decreases x@.len() - i,
    {
        if x[i] != y[i] {
            return false;
        }
        i = i + 1;
    }
    assert(x@ =~= y@);
    true
}

} // verus!
