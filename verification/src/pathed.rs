//! Paths as the unpacking library takes them: C strings of bytes.
//!
//! A path is the sequence of its bytes, in which `/` separates the parts.

use vstd::prelude::*;

verus! {

/// Whether `bytes` can be handed over as a C string: there is no nul among
/// them.
pub open spec fn no_nul(bytes: Seq<u8>) -> bool {
    forall|i: int| 0 <= i < bytes.len() ==> bytes[i] != 0
}

/// The path of `name` seen from the directory `base`: `name` itself where it is
/// absolute, else the two with one separator between them.
pub open spec fn joined(base: Seq<u8>, name: Seq<u8>) -> Seq<u8> {
    if name.len() > 0 && name[0] == 0x2f {
        name
    } else if base.len() == 0 || base.last() == 0x2f {
        base + name
    } else {
        base.push(0x2f) + name
    }
}

/// The file that an entry named `filename` is extracted to: below `base` where
/// there is one, else below the current directory.
pub open spec fn extract_target(base: Option<Seq<u8>>, filename: Seq<char>) -> Seq<u8> {
    let name = vstd::utf8::encode_utf8(filename);
    match base {
        Some(base) => joined(base, name),
        None => name,
    }
}

/// The bytes of a path, if there is one.
pub open spec fn opt_bytes(path: Option<Vec<u8>>) -> Option<Seq<u8>> {
    match path {
        Some(path) => Some(path@),
        None => None,
    }
}

/// The bytes of a borrowed path, if there is one.
pub open spec fn opt_slice(path: Option<&[u8]>) -> Option<Seq<u8>> {
    match path {
        Some(path) => Some(path@),
        None => None,
    }
}

/// The encoding of a character other than nul holds no nul.
proof fn lemma_encode_scalar_no_nul(scalar: u32)
    requires
        scalar != 0,
        vstd::utf8::is_scalar(scalar),
    ensures
        no_nul(vstd::utf8::encode_scalar(scalar)),
{
    assert(scalar != 0 && scalar <= 0x7f ==> (scalar & 0x7F) as u8 != 0) by (bit_vector);
    assert((0xC0u8 | ((scalar >> 6) & 0x1F) as u8) != 0) by (bit_vector);
    assert((0xE0u8 | ((scalar >> 12) & 0x0F) as u8) != 0) by (bit_vector);
    assert((0xF0u8 | ((scalar >> 18) & 0x07) as u8) != 0) by (bit_vector);
    assert((0x80u8 | (scalar & 0x3F) as u8) != 0) by (bit_vector);
    assert((0x80u8 | ((scalar >> 6) & 0x3F) as u8) != 0) by (bit_vector);
    assert((0x80u8 | ((scalar >> 12) & 0x3F) as u8) != 0) by (bit_vector);
}

/// As [`lemma_encode_scalar_no_nul`], of a character.
proof fn lemma_encode_char_no_nul(c: char)
    requires
        c != '\0',
    ensures
        no_nul(vstd::utf8::encode_scalar(c as u32)),
{
    vstd::utf8::char_is_scalar(c);
    lemma_encode_scalar_no_nul(c as u32);
}

/// The encoding of a text without nul characters holds no nul.
pub proof fn lemma_encode_utf8_no_nul(text: Seq<char>)
    requires
        forall|i: int| 0 <= i < text.len() ==> text[i] != '\0',
    ensures
        no_nul(vstd::utf8::encode_utf8(text)),
    decreases text.len(),
{
    if text.len() > 0 {
        let first = text[0];
        assert(first != '\0');
        lemma_encode_char_no_nul(first);
        lemma_encode_utf8_no_nul(text.drop_first());
    }
}

/// Copies a path that can be handed over as a C string.
pub fn construct(path: &[u8]) -> (c_string: Vec<u8>)
    requires
        no_nul(path@),
    ensures
        c_string@ == path@,
{
    vstd::slice::slice_to_vec(path)
}

/// The path of `name` seen from the directory `base`.
pub fn join(base: &[u8], name: &[u8]) -> (path: Vec<u8>)
    ensures
        path@ == joined(base@, name@),
{
    let absolute = name.len() > 0 && name[0] == 0x2f;
    let mut path: Vec<u8> = Vec::new();
    if !absolute {
        path.extend_from_slice(base);
        if base.len() > 0 && base[base.len() - 1] != 0x2f {
            path.push(0x2f);
        }
    }
    path.extend_from_slice(name);
    assert(path@ =~= joined(base@, name@));
    path
}

/// The directory and the file to name when an entry is extracted. The directory
/// is never named: a name with other than plain characters can be extracted
/// only where the file is named by its full path.
pub fn preprocess_extract(base: Option<&[u8]>, filename: &str) -> (target: (
    Option<Vec<u8>>,
    Option<Vec<u8>>,
))
    requires
        base matches Some(base) ==> no_nul(base@),
        forall|i: int| 0 <= i < filename@.len() ==> filename@[i] != '\0',
    ensures
        target.0 is None,
        opt_bytes(target.1) == Some(extract_target(opt_slice(base), filename@)),
        target.1 matches Some(file) && no_nul(file@),
{
    proof {
        lemma_encode_utf8_no_nul(filename@);
    }
    let file = match base {
        Some(base) => join(base, filename.as_bytes()),
        None => construct(filename.as_bytes()),
    };
    (None, Some(file))
}

} // verus!
