use vstd::prelude::*;
use crate::failure::Failure;
use crate::format::{ext_of, Ext, Format};

verus! {

/// What the ncm decoder yields for a whole container: the payload, or
/// nothing where it rejects the container.
pub uninterp spec fn ncm_dump_of(input: Seq<u8>) -> Option<Seq<u8>>;

/// What the qmc decoder yields for a whole container.
pub uninterp spec fn qmc_dump_of(input: Seq<u8>) -> Seq<u8>;

pub open spec fn opt_bytes(o: Option<Vec<u8>>) -> Option<Seq<u8>> {
    match o {
        Some(v) => Some(v@),
        None => None,
    }
}

/// Where an ncm container keeps the length of its key area: four
/// little-endian bytes after the ten-byte signature.
pub const NCM_KEY_LENGTH_AT: usize = 10;

/// The least key area length whose decrypted key is long enough to use.
pub const NCM_MIN_KEY_LENGTH: u64 = 33;

/// The length of the key area that an ncm container announces.
pub open spec fn ncm_key_length(input: Seq<u8>) -> nat
    recommends
        input.len() >= 14,
{
    input[10] as nat + input[11] as nat * 256 + input[12] as nat * 65536 + input[13] as nat
        * 16777216
}

/// The containers that the ncm decoder handles without panicking: too short
/// to announce a key area (refused before the key is read), or announcing a
/// key area that the container can hold and that is long enough for the
/// decrypted key to be cut at byte seventeen.
pub open spec fn ncm_safe(input: Seq<u8>) -> bool {
    input.len() < 14 || (NCM_MIN_KEY_LENGTH <= ncm_key_length(input) && ncm_key_length(input)
        <= input.len() - 14)
}

/// Relies on ncmdump::Ncmdump (from_reader, then get_data over an in-memory
/// reader): the payload depends on the container's bytes alone. from_reader
/// slices the decrypted key from byte seventeen on, which panics where a
/// short key area decrypts to fewer bytes, and allocates the announced key
/// length up front; `ncm_safe` leaves both cases out.
#[verifier::external_body]
fn ncm_dump(input: &Vec<u8>) -> (r: Option<Vec<u8>>)
    requires
        ncm_safe(input@),
    ensures
        opt_bytes(r) == ncm_dump_of(input@),
{
    let mut dump = ncmdump::Ncmdump::from_reader(std::io::Cursor::new(input.clone())).ok()?;
    dump.get_data().ok()
}

/// Relies on ncmdump::QmcDump (from_reader, then get_data over an in-memory
/// reader): the payload depends on the container's bytes alone. from_reader
/// always succeeds, reading from memory never fails, and each byte read is
/// transformed in place, so the payload is as long as the container.
#[verifier::external_body]
fn qmc_dump(input: &Vec<u8>) -> (r: Vec<u8>)
    ensures
        r@ == qmc_dump_of(input@),
        r@.len() == input@.len(),
{
    match ncmdump::QmcDump::from_reader(std::io::Cursor::new(input.clone())) {
        Ok(mut dump) => dump.get_data().unwrap_or_default(),
        Err(_) => Vec::new(),
    }
}

/// Tells whether the ncm decoder can be handed `input`.
pub fn is_ncm_safe(input: &Vec<u8>) -> (r: bool)
    ensures
        r == ncm_safe(input@),
{
    let n = input.len();
    if n < 14 {
        return true;
    }
    let i = NCM_KEY_LENGTH_AT;
    let k: u64 = input[i] as u64 + input[i + 1] as u64 * 256 + input[i + 2] as u64 * 65536
        + input[i + 3] as u64 * 16777216;
    NCM_MIN_KEY_LENGTH <= k && k <= (n - 14) as u64
}

/// The payload of a container of the given format, or why there is none.
pub open spec fn decoding_of(format: Format, input: Seq<u8>) -> Result<Seq<u8>, Failure> {
    match format {
        Format::Unrecognized => Err(Failure::Format),
        Format::Qmc => Ok(qmc_dump_of(input)),
        Format::Ncm => if !ncm_safe(input) {
            Err(Failure::Decode)
        } else {
            match ncm_dump_of(input) {
                Some(d) => Ok(d),
                None => Err(Failure::Decode),
            }
        },
    }
}

pub open spec fn result_bytes(r: Result<Vec<u8>, Failure>) -> Result<Seq<u8>, Failure> {
    match r {
        Ok(v) => Ok(v@),
        Err(f) => Err(f),
    }
}

/// Runs the decoder that the format selects over the whole container. A
/// container of no known format is refused before any decoding, and an ncm
/// container whose key area the decoder cannot handle is a decode failure.
pub fn get_data(format: Format, input: &Vec<u8>) -> (r: Result<Vec<u8>, Failure>)
    ensures
        result_bytes(r) == decoding_of(format, input@),
{
    match format {
        Format::Unrecognized => Err(Failure::Format),
        Format::Qmc => Ok(qmc_dump(input)),
        Format::Ncm => {
            if !is_ncm_safe(input) {
                return Err(Failure::Decode);
            }
            match ncm_dump(input) {
                Some(d) => Ok(d),
                None => Err(Failure::Decode),
            }
        },
    }
}

/// A decoded payload with the extension that its leading bytes select.
pub struct Decoded {
    pub data: Vec<u8>,
    pub ext: Ext,
}

/// What a conversion yields from a decoding outcome: the payload and its
/// extension, or the first failure.
pub open spec fn sniffed(d: Result<Seq<u8>, Failure>) -> Result<(Seq<u8>, Ext), Failure> {
    match d {
        Err(f) => Err(f),
        Ok(data) => match ext_of(data) {
            Some(e) => Ok((data, e)),
            None => Err(Failure::Format),
        },
    }
}

pub open spec fn conversion_of(format: Format, input: Seq<u8>) -> Result<(Seq<u8>, Ext), Failure> {
    sniffed(decoding_of(format, input))
}

pub open spec fn decoded_view(r: Result<Decoded, Failure>) -> Result<(Seq<u8>, Ext), Failure> {
    match r {
        Ok(d) => Ok((d.data@, d.ext)),
        Err(f) => Err(f),
    }
}

/// Names the extension of a decoded payload, or fails with a format error.
pub fn sniff(data: Vec<u8>) -> (r: Result<Decoded, Failure>)
    ensures
        decoded_view(r) == sniffed(Ok(data@)),
{
    match crate::format::output_extension(data.as_slice()) {
        Ok(ext) => Ok(Decoded { data, ext }),
        Err(f) => Err(f),
    }
}

/// Decodes a container and names the extension of its payload.
pub fn convert(format: Format, input: &Vec<u8>) -> (r: Result<Decoded, Failure>)
    ensures
        decoded_view(r) == conversion_of(format, input@),
{
    match get_data(format, input) {
        Err(f) => Err(f),
        Ok(data) => sniff(data),
    }
}

} // verus!
