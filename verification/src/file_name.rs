//! The stem of a file name: the name without its extension, as std's
//! `Path::file_stem` cuts it, given the name's bytes.

use vstd::prelude::*;
use vstd::string::StringSliceAdditionalSpecFns;

verus! {

/// The index of the last `.` byte in `name`, if any.
pub open spec fn last_dot(name: Seq<u8>) -> Option<int>
    decreases name.len(),
{
    if name.len() == 0 {
        None
    } else if name.last() == 46 {
        Some(name.len() - 1)
    } else {
        last_dot(name.drop_last())
    }
}

/// The stem of a file name: `..` stays whole; else the part before the
/// last `.`, unless there is no `.` or nothing before it, when the name
/// stays whole.
pub open spec fn stem_bytes(name: Seq<u8>) -> Seq<u8> {
    if name == seq![46u8, 46u8] {
        name
    } else {
        match last_dot(name) {
            Some(i) => if i == 0 {
                name
            } else {
                name.take(i)
            },
            None => name,
        }
    }
}

/// `std::str::from_utf8`: the text when the bytes are valid UTF-8, which
/// then holds exactly those bytes, else nothing.
#[verifier::external_body]
fn text_from_utf8(bytes: &[u8]) -> (r: Option<&str>)
    ensures
        r is Some <==> vstd::utf8::valid_utf8(bytes@),
        r matches Some(s) ==> s.spec_bytes() == bytes@,
{
    match std::str::from_utf8(bytes) {
        Ok(s) => Some(s),
        Err(_) => None,
    }
}

fn is_dot_dot(name: &[u8]) -> (r: bool)
    ensures
        r == (name@ == seq![46u8, 46u8]),
{
    let r = name.len() == 2 && name[0] == 46 && name[1] == 46;
    proof {
        if r {
            assert(name@ =~= seq![46u8, 46u8]);
        }
    }
    r
}

/// The bytes of the stem of the file name `n`.
fn stem_slice(n: &[u8]) -> (r: &[u8])
    ensures
        r@ == stem_bytes(n@),
{
    let mut end = n.len();
    if !is_dot_dot(n) {
        let mut i = n.len();
        assert(n@.take(i as int) =~= n@);
        while i > 0 && n[i - 1] != 46
            invariant
                i <= n@.len(),
                last_dot(n@.take(i as int)) == last_dot(n@),
            decreases i,
        {
            assert(n@.take(i as int).drop_last() =~= n@.take(i - 1));
            i = i - 1;
        }
        if i > 1 {
            assert(n@.take(i as int).last() == 46);
            end = i - 1;
        } else if i == 1 {
            assert(n@.take(1).last() == 46);
        } else {
            assert(n@.take(0) =~= Seq::<u8>::empty());
        }
    }
    let stem = vstd::slice::slice_subrange(n, 0, end);
    assert(stem@ =~= stem_bytes(n@));
    stem
}

/// The stem of the file name `name` as text, when it is valid UTF-8.
pub open spec fn stem_chars(name: Seq<u8>) -> Option<Seq<char>> {
    if vstd::utf8::valid_utf8(stem_bytes(name)) {
        Some(vstd::utf8::decode_utf8(stem_bytes(name)))
    } else {
        None
    }
}

/// The stem of the file name `name` as text; `None` when the stem is not
/// valid UTF-8.
pub fn stem_text(name: &[u8]) -> (r: Option<String>)
    ensures
        r matches Some(s) ==> stem_chars(name@) == Some(s@),
        r is None ==> stem_chars(name@) is None,
{
    let stem = stem_slice(name);
    match text_from_utf8(stem) {
        Some(s) => {
            proof {
                vstd::utf8::encode_utf8_decode_utf8(s@);
            }
            Some(crate::text::owned(s))
        },
        None => None,
    }
}

/// The stem of a file's name as text: `name` holds the name's bytes
/// (`None` when the path has no file name). The stem is empty when there is
/// no name or the stem is not valid UTF-8.
pub fn file_stem(name: Option<&[u8]>) -> (r: String)
    ensures
        match name {
            None => r@.len() == 0,
            Some(n) => if vstd::utf8::valid_utf8(stem_bytes(n@)) {
                vstd::utf8::encode_utf8(r@) == stem_bytes(n@)
            } else {
                r@.len() == 0
            },
        },
{
    let n = match name {
        None => {
            return String::new();
        },
        Some(n) => n,
    };
    let stem = stem_slice(n);
    match text_from_utf8(stem) {
        Some(s) => crate::text::owned(s),
        None => String::new(),
    }
}

} // verus!
