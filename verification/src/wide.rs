//! Names that arrive as wide characters.

use vstd::prelude::*;

verus! {

/// The longest volume path that a callback hands over, in wide characters.
pub const MAX_PATH_WCHARS: usize = 2048;

/// A buffer of wide characters that holds a file name, in units of either width.
#[derive(Debug, Clone, Copy)]
pub enum WideName<'a> {
    /// Units of 16 bits.
    Utf16(&'a [u16]),
    /// Units of 32 bits.
    Utf32(&'a [u32]),
}

/// A file name without a terminator: a text where it came in units of 32 bits, and
/// the units themselves where it came in units of 16 bits, among which there may be
/// surrogates without a partner.
#[derive(Debug, Clone)]
pub enum FileName {
    /// A text.
    Text(String),
    /// Units of 16 bits.
    Units(Vec<u16>),
}

/// The values in a [`FileName`].
pub enum FileNameView {
    /// A text.
    Text(Seq<char>),
    /// Units of 16 bits.
    Units(Seq<u16>),
}

impl View for FileName {
    type V = FileNameView;

    open spec fn view(&self) -> FileNameView {
        match *self {
            FileName::Text(text) => FileNameView::Text(text@),
            FileName::Units(units) => FileNameView::Units(units@),
        }
    }
}

/// The number of units before the first nul, or of all units where there is
/// none.
pub open spec fn nul_index<T>(units: Seq<T>, nul: T) -> nat
    decreases units.len(),
{
    if units.len() == 0 || units.first() == nul {
        0
    } else {
        1 + nul_index(units.drop_first(), nul)
    }
}

/// The units before the first nul: what a C string holds.
pub open spec fn until_nul(units: Seq<u32>) -> Seq<u32> {
    units.take(nul_index(units, 0u32) as int)
}

/// As [`until_nul`], of units of 16 bits.
pub open spec fn until_nul_16(units: Seq<u16>) -> Seq<u16> {
    units.take(nul_index(units, 0u16) as int)
}

/// The first `limit` units, or all of them where there are fewer.
pub open spec fn clipped(units: Seq<u32>, limit: nat) -> Seq<u32> {
    if units.len() <= limit {
        units
    } else {
        units.take(limit as int)
    }
}

/// The C string in a buffer of which no more than `limit` units are looked at.
pub open spec fn c_string(buffer: Seq<u32>, limit: nat) -> Seq<u32> {
    until_nul(clipped(buffer, limit))
}

/// The character that a unit is decoded to where each unit must give one.
pub open spec fn lossy_char(unit: u32) -> char {
    if vstd::utf8::is_scalar(unit) {
        unit as char
    } else {
        0xFFFDu32 as char
    }
}

/// The text of `units`, in which U+FFFD stands for each unit that is no
/// character.
pub open spec fn lossy_text(units: Seq<u32>) -> Seq<char> {
    units.map_values(|unit: u32| lossy_char(unit))
}

/// The file name that an extraction message carries, whole: `None` where there
/// is no buffer or an empty string in it. In units of 16 bits it is all units
/// before the first nul.
pub open spec fn message_name(buffer: Option<WideName<'_>>) -> Option<FileNameView> {
    match buffer {
        Some(WideName::Utf16(units)) => if until_nul_16(units@).len() == 0 {
            None
        } else {
            Some(FileNameView::Units(until_nul_16(units@)))
        },
        Some(WideName::Utf32(units)) => if until_nul(units@).len() == 0 {
            None
        } else {
            Some(FileNameView::Text(lossy_text(until_nul(units@))))
        },
        None => None,
    }
}

/// `nul_index` is the one place up to which no unit is nul and at which there
/// is a nul or the end.
pub proof fn lemma_nul_index<T>(units: Seq<T>, nul: T)
    ensures
        nul_index(units, nul) <= units.len(),
        forall|i: int| 0 <= i < nul_index(units, nul) ==> units[i] != nul,
        nul_index(units, nul) < units.len() ==> units[nul_index(units, nul) as int] == nul,
    decreases units.len(),
{
    if units.len() != 0 && units.first() != nul {
        let rest = units.drop_first();
        lemma_nul_index(rest, nul);
        assert forall|i: int| 0 <= i < nul_index(units, nul) implies units[i] != nul by {
            if i > 0 {
                assert(units[i] == rest[i - 1]);
            }
        }
        if nul_index(units, nul) < units.len() {
            assert(units[nul_index(units, nul) as int] == rest[nul_index(rest, nul) as int]);
        }
    }
}

/// The two conditions of [`lemma_nul_index`] fix `nul_index`.
pub(crate) proof fn lemma_nul_index_unique<T>(units: Seq<T>, nul: T, len: int)
    requires
        0 <= len <= units.len(),
        forall|i: int| 0 <= i < len ==> units[i] != nul,
        len < units.len() ==> units[len] == nul,
    ensures
        nul_index(units, nul) == len,
{
    lemma_nul_index(units, nul);
    if nul_index(units, nul) < len {
        assert(units[nul_index(units, nul) as int] != nul);
    } else if len < nul_index(units, nul) {
        assert(units[len] != nul);
    }
}

/// `widestring::U32CString::from_vec_truncate`: a wide C string of the units
/// before the first nul, or of all units where there is no nul. The units are
/// handed back without the terminator.
#[verifier::external_body]
fn from_vec_truncate(units: Vec<u32>) -> (name: Vec<u32>)
    ensures
        name@ == until_nul(units@),
{
    widestring::U32CString::from_vec_truncate(units).into_vec()
}

/// `widestring::U16CString::from_vec_truncate`: as [`from_vec_truncate`], of units
/// of 16 bits.
#[verifier::external_body]
fn from_vec_truncate_16(units: Vec<u16>) -> (name: Vec<u16>)
    ensures
        name@ == until_nul_16(units@),
{
    widestring::U16CString::from_vec_truncate(units).into_vec()
}

/// `widestring::U32Str::to_string_lossy`: each unit gives the character of that
/// number, or U+FFFD where it is the number of none.
#[verifier::external_body]
pub(crate) fn to_string_lossy(units: &[u32]) -> (text: String)
    ensures
        text@ == lossy_text(units@),
{
    widestring::U32Str::from_slice(units).to_string_lossy()
}

/// Copies the C string out of `buffer`, of which no more than `limit` units are
/// looked at.
pub fn read_c_string(buffer: Vec<u32>, limit: usize) -> (name: Vec<u32>)
    ensures
        name@ == c_string(buffer@, limit as nat),
{
    let mut buffer = buffer;
    if buffer.len() > limit {
        buffer.truncate(limit);
    }
    from_vec_truncate(buffer)
}

/// Reads the file name that an extraction message carries. The name is whole. In
/// units of 32 bits U+FFFD stands for each unit that is no character, as in the
/// header of the same file; units of 16 bits are kept as they are.
pub fn read_filename(buffer: Option<WideName<'_>>) -> (name: Option<FileName>)
    ensures
        match message_name(buffer) {
            Some(values) => name matches Some(name) && name@ == values,
            None => name is None,
        },
{
    match buffer {
        Some(WideName::Utf16(units)) => {
            let name = from_vec_truncate_16(vstd::slice::slice_to_vec(units));
            if name.len() == 0 {
                None
            } else {
                Some(FileName::Units(name))
            }
        },
        Some(WideName::Utf32(units)) => {
            let name = from_vec_truncate(vstd::slice::slice_to_vec(units));
            if name.len() == 0 {
                None
            } else {
                Some(FileName::Text(to_string_lossy(name.as_slice())))
            }
        },
        None => None,
    }
}

} // verus!
