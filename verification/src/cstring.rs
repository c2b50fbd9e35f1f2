//! Rules for handing Rust strings to the native engine as NUL-terminated
//! C strings: a string is accepted exactly when its UTF-8 encoding holds no
//! zero byte.

use vstd::prelude::*;

use crate::error::{Error, Result};

verus! {

/// The UTF-8 encoding of a character sequence.
pub open spec fn utf8_bytes(s: Seq<char>) -> Seq<u8> {
    vstd::utf8::encode_utf8(s)
}

/// Index of the first zero byte of `bytes`, if any.
pub open spec fn first_nul(bytes: Seq<u8>) -> Option<nat>
    decreases bytes.len(),
{
    if bytes.len() == 0 {
        None
    } else {
        match first_nul(bytes.drop_last()) {
            Some(p) => Some(p),
            None => if bytes.last() == 0u8 { Some((bytes.len() - 1) as nat) } else { None },
        }
    }
}

/// Once a prefix holds a zero byte, the first zero byte of the whole
/// sequence is the first zero byte of that prefix.
proof fn lemma_first_nul_prefix(bytes: Seq<u8>, k: int)
    requires
        0 <= k <= bytes.len(),
        first_nul(bytes.take(k)) is Some,
    ensures
        first_nul(bytes) == first_nul(bytes.take(k)),
    decreases bytes.len() - k,
{
    if k < bytes.len() {
        assert(bytes.take(k + 1).drop_last() =~= bytes.take(k));
        lemma_first_nul_prefix(bytes, k + 1);
    } else {
        assert(bytes.take(k) =~= bytes);
    }
}

/// Byte position of the first NUL in `s`, as `CString::new` reports it.
pub fn nul_position(s: &str) -> (r: Option<usize>)
    ensures
        match first_nul(utf8_bytes(s@)) {
            Some(p) => r == Some(p as usize),
            None => r is None,
        },
{
    let bytes = s.as_bytes();
    let n = bytes.len();
    let mut i: usize = 0;
    while i < n
        invariant
            n == bytes@.len(),
            bytes@ == utf8_bytes(s@),
            i <= n,
            first_nul(bytes@.take(i as int)) is None,
        decreases n - i,
    {
        assert(bytes@.take(i as int + 1).drop_last() =~= bytes@.take(i as int));
        if bytes[i] == 0 {
            proof {
                lemma_first_nul_prefix(bytes@, i as int + 1);
            }
            return Some(i);
        }
        i = i + 1;
    }
    assert(bytes@.take(n as int) =~= bytes@);
    None
}

/// What converting the string `s` to a C string yields.
pub open spec fn c_string_result(s: Seq<char>) -> Result<()> {
    match first_nul(utf8_bytes(s)) {
        Some(p) => Err(Error::NulError { position: p as usize }),
        None => Ok(()),
    }
}

/// What converting each of `strs` in turn yields: the first failure, if any.
pub open spec fn c_strings_result(strs: Seq<Seq<char>>) -> Result<()>
    decreases strs.len(),
{
    if strs.len() == 0 {
        Ok(())
    } else {
        match c_strings_result(strs.drop_last()) {
            Ok(()) => c_string_result(strs.last()),
            Err(e) => Err(e),
        }
    }
}

/// The character sequences of a list of strings.
pub open spec fn strings_view(v: Seq<String>) -> Seq<Seq<char>> {
    v.map_values(|s: String| s@)
}

/// A copy of a list of strings, element by element.
pub fn copy_strings(v: &Vec<String>) -> (r: Vec<String>)
    ensures
        strings_view(r@) == strings_view(v@),
{
    let mut out: Vec<String> = Vec::new();
    let n = v.len();
    let mut i: usize = 0;
    while i < n
        invariant
            n == v@.len(),
            i <= n,
            out@.len() == i,
            forall|j: int| 0 <= j < i ==> #[trigger] out@[j]@ == v@[j]@,
        decreases n - i,
    {
        out.push(v[i].clone());
        i = i + 1;
    }
    assert(strings_view(out@) =~= strings_view(v@));
    out
}

/// Converting a concatenation fails at the first failure of its first part,
/// and otherwise as its second part does.
pub proof fn lemma_c_strings_append(a: Seq<Seq<char>>, b: Seq<Seq<char>>)
    ensures
        c_strings_result(a + b) == (match c_strings_result(a) {
            Ok(()) => c_strings_result(b),
            Err(e) => Err(e),
        }),
    decreases b.len(),
{
    if b.len() == 0 {
        assert(a + b =~= a);
    } else {
        assert((a + b).drop_last() =~= a + b.drop_last());
        lemma_c_strings_append(a, b.drop_last());
    }
}

/// Converting two strings in turn fails at the first, or else as the second
/// does.
pub proof fn lemma_c_strings_two(a: Seq<char>, b: Seq<char>)
    ensures
        c_strings_result(seq![a, b]) == (match c_string_result(a) {
            Ok(()) => c_string_result(b),
            Err(e) => Err(e),
        }),
{
    let one = seq![a];
    assert(one.drop_last() =~= Seq::<Seq<char>>::empty());
    assert(c_strings_result(one.drop_last()) == Ok::<(), Error>(()));
    assert(c_strings_result(one) == c_string_result(a));
    assert(seq![a, b].drop_last() =~= one);
}

/// Checks that `s` can be passed as a C string.
pub fn check_c_string(s: &str) -> (r: Result<()>)
    ensures
        r == c_string_result(s@),
{
    match nul_position(s) {
        Some(p) => Err(Error::NulError { position: p }),
        None => Ok(()),
    }
}

/// Checks each of `strs` in order, stopping at the first that cannot be
/// passed as a C string.
pub fn check_c_strings(strs: &Vec<String>) -> (r: Result<()>)
    ensures
        r == c_strings_result(strings_view(strs@)),
{
    let n = strs.len();
    let mut i: usize = 0;
    while i < n
        invariant
            n == strs@.len(),
            i <= n,
            c_strings_result(strings_view(strs@).take(i as int)) == Ok::<(), Error>(()),
        decreases n - i,
    {
        let ghost v = strings_view(strs@);
        assert(v.take(i as int + 1).drop_last() =~= v.take(i as int));
        let r = check_c_string(strs[i].as_str());
        if r.is_err() {
            proof {
                lemma_c_strings_append(v.take(i as int + 1), v.skip(i as int + 1));
                assert(v.take(i as int + 1) + v.skip(i as int + 1) =~= v);
            }
            return r;
        }
        i = i + 1;
    }
    assert(strings_view(strs@).take(n as int) =~= strings_view(strs@));
    Ok(())
}

/// There is a first zero byte exactly when some byte is zero, and it is
/// zero with no zero byte before it.
pub proof fn lemma_first_nul_spec(bytes: Seq<u8>)
    ensures
        first_nul(bytes) is None <==> forall|i: int| 0 <= i < bytes.len() ==> bytes[i] != 0u8,
        first_nul(bytes) matches Some(p) ==> p < bytes.len() && bytes[p as int] == 0u8
            && forall|i: int| 0 <= i < p ==> bytes[i] != 0u8,
    decreases bytes.len(),
{
    if bytes.len() > 0 {
        let prefix = bytes.drop_last();
        lemma_first_nul_spec(prefix);
        assert forall|i: int| 0 <= i < prefix.len() implies prefix[i] == bytes[i] by {}
        if first_nul(prefix) is None && bytes.last() != 0u8 {
            assert forall|i: int| 0 <= i < bytes.len() implies bytes[i] != 0u8 by {
                if i < prefix.len() {
                    assert(prefix[i] == bytes[i]);
                }
            }
        }
    }
}

/// A string can be passed as a C string exactly when its UTF-8 encoding
/// holds no zero byte; otherwise the error reports the first zero byte.
pub proof fn lemma_c_string_accepts_exactly_nul_free(s: Seq<char>)
    requires
        utf8_bytes(s).len() <= usize::MAX,
    ensures
        c_string_result(s) is Ok <==> forall|i: int| 0 <= i < utf8_bytes(s).len() ==> utf8_bytes(s)[i] != 0u8,
        c_string_result(s) matches Err(e) ==> (e matches Error::NulError { position }
            && position < utf8_bytes(s).len() && utf8_bytes(s)[position as int] == 0u8
            && forall|i: int| 0 <= i < position ==> utf8_bytes(s)[i] != 0u8),
{
    lemma_first_nul_spec(utf8_bytes(s));
}

} // verus!
