//! Decisions of the environment-level operations: the destination of a
//! copy, the maximum key size, and the names of the named databases.

use vstd::prelude::*;
use vstd::string::StringSliceAdditionalSpecFns;
use vstd::utf8::{decode_utf8, valid_utf8};
use crate::error::{ErrorCode, MDBX_INVALID};

verus! {

/// The bytes of the destination path of an environment copy, which the C
/// library takes as a NUL-terminated string.
///
/// A path that is not valid UTF-8 (`None`) or that holds a NUL byte is
/// rejected with `MDBX_INVALID`; any other path is handed back as its UTF-8
/// bytes, without the terminator.
pub fn copy_destination(path: Option<&str>) -> (r: Result<Vec<u8>, ErrorCode>)
    ensures
        match path {
            None => r == Err::<Vec<u8>, ErrorCode>(ErrorCode { code: MDBX_INVALID }),
            Some(s) => if s.spec_bytes().contains(0u8) {
                r == Err::<Vec<u8>, ErrorCode>(ErrorCode { code: MDBX_INVALID })
            } else {
                r is Ok && r->Ok_0@ == s.spec_bytes()
            },
        },
{
    let s = match path {
        Some(s) => s,
        None => {
            return Err(ErrorCode { code: MDBX_INVALID });
        },
    };
    let bytes = s.as_bytes();
    let mut out: Vec<u8> = Vec::new();
    let mut i: usize = 0;
    while i < bytes.len()
        invariant
            path == Some(s),
            bytes@ == s.spec_bytes(),
            i <= bytes@.len(),
            out@ == bytes@.take(i as int),
            !out@.contains(0u8),
        decreases bytes@.len() - i,
    {
        if bytes[i] == 0 {
            assert(bytes@[i as int] == 0u8);
            assert(s.spec_bytes().contains(0u8));
            return Err(ErrorCode { code: MDBX_INVALID });
        }
        out.push(bytes[i]);
        assert(out@ == bytes@.take(i + 1));
        i = i + 1;
    }
    assert(bytes@.take(i as int) == bytes@);
    Ok(out)
}

/// The maximum key size from the size that the C library reported: a
/// negative report is rejected with `MDBX_INVALID`, any other is the size.
pub fn max_key_size_from(size: isize) -> (r: Result<usize, ErrorCode>)
    ensures
        size < 0 ==> r == Err::<usize, ErrorCode>(ErrorCode { code: MDBX_INVALID }),
        size >= 0 ==> r == Ok::<usize, ErrorCode>(size as usize),
{
    if size < 0 {
        Err(ErrorCode { code: MDBX_INVALID })
    } else {
        Ok(size as usize)
    }
}

/// The database names that a key of the catalogue contributes: its UTF-8
/// text where the key is valid UTF-8, nothing otherwise.
pub open spec fn name_of_key(key: Seq<u8>) -> Seq<Seq<char>> {
    if valid_utf8(key) {
        seq![decode_utf8(key)]
    } else {
        Seq::empty()
    }
}

/// The database names held by a catalogue whose keys come in this order.
pub open spec fn database_names_of(keys: Seq<Seq<u8>>) -> Seq<Seq<char>>
    decreases keys.len(),
{
    if keys.len() == 0 {
        Seq::empty()
    } else {
        database_names_of(keys.drop_last()) + name_of_key(keys.last())
    }
}

/// The texts of a sequence of strings.
pub open spec fn texts(names: Seq<String>) -> Seq<Seq<char>> {
    names.map_values(|s: String| s@)
}

/// `String::from_utf8`: the text of `bytes` where they are valid UTF-8,
/// `None` otherwise (std documents that it fails exactly on invalid UTF-8).
#[verifier::external_body]
fn string_from_utf8(bytes: Vec<u8>) -> (r: Option<String>)
    ensures
        r is Some <==> valid_utf8(bytes@),
        r matches Some(s) ==> s@ == decode_utf8(bytes@),
{
    String::from_utf8(bytes).ok()
}

/// Takes the next key of the catalogue of named databases: where the key is
/// valid UTF-8, its text is appended to `names`; other keys are skipped.
pub fn push_database_name(names: &mut Vec<String>, key: Vec<u8>)
    ensures
        texts(final(names)@) == texts(old(names)@) + name_of_key(key@),
{
    let ghost key_bytes = key@;
    match string_from_utf8(key) {
        Some(name) => {
            names.push(name);
        },
        None => {},
    }
    assert(texts(names@) =~= texts(old(names)@) + name_of_key(key_bytes));
}

/// Walking the catalogue key by key, the names collected so far are always
/// exactly the UTF-8 keys seen, in the order the cursor gave them: one more
/// key extends them by that key's name and by nothing else.
pub proof fn lemma_database_names_extend(keys: Seq<Seq<u8>>, key: Seq<u8>)
    ensures
        database_names_of(keys.push(key)) == database_names_of(keys) + name_of_key(key),
        database_names_of(Seq::<Seq<u8>>::empty()) == Seq::<Seq<char>>::empty(),
{
    assert(keys.push(key).drop_last() =~= keys);
}

} // verus!
