use vstd::prelude::*;

verus! {

/// The container format of an input file, told by its leading bytes.
#[derive(Clone, Copy, Debug, PartialEq, Eq, Structural)]
pub enum Format {
    Ncm,
    Qmc,
    Unrecognized,
}

/// The eight-byte magic that opens an ncm container ("CTENFDAM").
pub open spec fn is_ncm_magic(h: Seq<u8>) -> bool {
    h.len() >= 8 && h[0] == 0x43u8 && h[1] == 0x54u8 && h[2] == 0x45u8 && h[3] == 0x4Eu8
        && h[4] == 0x46u8 && h[5] == 0x44u8 && h[6] == 0x41u8 && h[7] == 0x4Du8
}

/// The two magics of a qmc container.
pub open spec fn is_qmc_magic(h: Seq<u8>) -> bool {
    h.len() >= 8 && ((h[0] == 0xA5u8 && h[1] == 0x06u8 && h[2] == 0xB7u8 && h[3] == 0x89u8) || (
    h[0] == 0x8Au8 && h[1] == 0x0Eu8 && h[2] == 0xE5u8))
}

/// The format of a file that starts with `h`: fewer than eight bytes
/// are of no known format.
pub open spec fn format_of_header(h: Seq<u8>) -> Format {
    if is_ncm_magic(h) {
        Format::Ncm
    } else if is_qmc_magic(h) {
        Format::Qmc
    } else {
        Format::Unrecognized
    }
}

/// Relies on ncmdump::utils::FileType::parse, read from the leading bytes
/// of a file: it reads up to eight bytes, answers `Other` when fewer came,
/// and otherwise matches them against the ncm and qmc magics. Reading a
/// byte slice cannot fail, so the error arm is never taken.
#[verifier::external_body]
fn parse_file_type(head: &[u8]) -> (r: Format)
    ensures
        r == format_of_header(head@),
{
    let mut reader: &[u8] = head;
    match ncmdump::utils::FileType::parse(&mut reader) {
        Ok(ncmdump::utils::FileType::Ncm) => Format::Ncm,
        Ok(ncmdump::utils::FileType::Qmc) => Format::Qmc,
        Ok(ncmdump::utils::FileType::Other) => Format::Unrecognized,
        Err(_) => Format::Unrecognized,
    }
}

/// Classifies a file by its leading bytes (any number of them; only the
/// first eight count).
pub fn classify(head: &[u8]) -> (r: Format)
    ensures
        r == format_of_header(head@),
{
    parse_file_type(head)
}

/// The extension given to a decoded payload.
#[derive(Clone, Copy, Debug, PartialEq, Eq, Structural)]
pub enum Ext {
    Flac,
    Mp3,
}

pub open spec fn ext_text(e: Ext) -> Seq<char> {
    match e {
        Ext::Flac => "flac"@,
        Ext::Mp3 => "mp3"@,
    }
}

impl Ext {
    pub fn as_str(&self) -> (r: &'static str)
        ensures
            r@ == ext_text(*self),
    {
        match self {
            Ext::Flac => "flac",
            Ext::Mp3 => "mp3",
        }
    }
}

/// The extension that the first four bytes of a decoded payload select:
/// "fLaC" gives flac, "ID3" followed by any byte gives mp3, anything else
/// (a shorter payload too) gives none.
pub open spec fn ext_of(d: Seq<u8>) -> Option<Ext> {
    if d.len() < 4 {
        None
    } else if d[0] == 0x66u8 && d[1] == 0x4Cu8 && d[2] == 0x61u8 && d[3] == 0x43u8 {
        Some(Ext::Flac)
    } else if d[0] == 0x49u8 && d[1] == 0x44u8 && d[2] == 0x33u8 {
        Some(Ext::Mp3)
    } else {
        None
    }
}

/// Picks the output extension of a decoded payload, or fails with a
/// format error.
pub fn output_extension(data: &[u8]) -> (r: Result<Ext, crate::failure::Failure>)
    ensures
        r == match ext_of(data@) {
            Some(e) => Ok(e),
            None => Err(crate::failure::Failure::Format),
        },
{
    if data.len() < 4 {
        return Err(crate::failure::Failure::Format);
    }
    if data[0] == 0x66 && data[1] == 0x4C && data[2] == 0x61 && data[3] == 0x43 {
        Ok(Ext::Flac)
    } else if data[0] == 0x49 && data[1] == 0x44 && data[2] == 0x33 {
        Ok(Ext::Mp3)
    } else {
        Err(crate::failure::Failure::Format)
    }
}

/// The extension depends on the first four bytes alone, and a payload
/// shorter than four bytes has none.
pub proof fn extension_depends_on_prefix(a: Seq<u8>, b: Seq<u8>)
    ensures
        a.len() < 4 ==> ext_of(a) is None,
        (a.len() >= 4 && b.len() >= 4 && a.subrange(0, 4) == b.subrange(0, 4)) ==> ext_of(a)
            == ext_of(b),
{
    if a.len() >= 4 && b.len() >= 4 && a.subrange(0, 4) == b.subrange(0, 4) {
        assert(a[0] == a.subrange(0, 4)[0]);
        assert(a[1] == a.subrange(0, 4)[1]);
        assert(a[2] == a.subrange(0, 4)[2]);
        assert(a[3] == a.subrange(0, 4)[3]);
        assert(b[0] == b.subrange(0, 4)[0]);
        assert(b[1] == b.subrange(0, 4)[1]);
        assert(b[2] == b.subrange(0, 4)[2]);
        assert(b[3] == b.subrange(0, 4)[3]);
    }
}

} // verus!
