//! Serialized proofs as they arrive from an untrusted sender.
//!
//! A proof is an opaque byte string to this crate, with one exception: its
//! header. The backend's deserializer aborts the process on some headers
//! instead of reporting them, so the header is screened here first and only
//! then handed on. A buffer that does not pass the screen is rejected like
//! any other malformed proof.
//!
//! The header, in the backend's encoding, is:
//!
//! | bytes          | field                                             |
//! |----------------|---------------------------------------------------|
//! | 0              | width of the main trace segment                   |
//! | 1              | width of the auxiliary trace segment              |
//! | 2              | random elements of the auxiliary trace segment    |
//! | 3              | binary logarithm of the trace length              |
//! | 4..6           | length `m` of the metadata, little-endian         |
//! | 6..6+m         | metadata                                          |
//! | 6+m            | length `k` of the field modulus                   |
//! | 7+m..7+m+k     | field modulus                                     |
//! | 7+m+k..13+m+k  | the six protocol options                          |

use vstd::prelude::*;
use winterfell::DeserializationError;
use winterfell::StarkProof;

verus! {

/// The greatest length that a length field inside a proof can announce.
pub const MAX_SECTION_LEN: usize = 0xFFFF_FFFF;

/// Smallest binary logarithm of a trace length that the backend accepts.
pub const MIN_TRACE_LENGTH_LOG2: u8 = 3;

/// Length of a header without metadata and modulus bytes.
pub const FIXED_HEADER_LEN: usize = 13;

/// `x` is one of the powers of two from 1 to 256.
pub open spec fn is_small_power_of_two(x: int) -> bool {
    x == 1 || x == 2 || x == 4 || x == 8 || x == 16 || x == 32 || x == 64 || x == 128 || x
        == 256
}

/// The trace layout bytes describe a trace the backend accepts: a main
/// segment that is not empty, fewer than 255 columns in all, and random
/// elements for the auxiliary segment exactly where it has columns.
pub open spec fn layout_ok(main_width: u8, aux_width: u8, aux_rands: u8) -> bool {
    &&& main_width != 0
    &&& main_width + aux_width < 255
    &&& (aux_width == 0) == (aux_rands == 0)
}

/// The six option bytes are in the ranges outside of which the backend
/// aborts: at least one query; a blowup factor that is a power of two from 2
/// to 128; a grinding factor of at most 32; a field extension of degree 1, 2
/// or 3; a folding factor of 2, 4, 8 or 16; and a remainder degree that is
/// one less than a power of two.
pub open spec fn options_ok(
    num_queries: u8,
    blowup_factor: u8,
    grinding_factor: u8,
    field_extension: u8,
    folding_factor: u8,
    remainder_max_degree: u8,
) -> bool {
    &&& num_queries != 0
    &&& 2 <= blowup_factor <= 128 && is_small_power_of_two(blowup_factor as int)
    &&& grinding_factor <= 32
    &&& 1 <= field_extension <= 3
    &&& 2 <= folding_factor <= 16 && is_small_power_of_two(folding_factor as int)
    &&& is_small_power_of_two(remainder_max_degree + 1)
}

/// The length of the metadata that the header of `b` announces.
pub open spec fn metadata_len(b: Seq<u8>) -> int {
    b[4] as int + 256 * (b[5] as int)
}

/// The position in `b` of the byte that holds the length of the modulus.
pub open spec fn modulus_len_at(b: Seq<u8>) -> int {
    6 + metadata_len(b)
}

/// The position in `b` of the first option byte.
pub open spec fn options_at(b: Seq<u8>) -> int {
    modulus_len_at(b) + 1 + b[modulus_len_at(b)] as int
}

/// The length of the header of `b`.
pub open spec fn header_len(b: Seq<u8>) -> int {
    options_at(b) + 6
}

/// `b` starts with a complete header whose every field is in the range the
/// backend accepts, and whose trace length fits a machine word.
pub open spec fn header_well_formed(b: Seq<u8>) -> bool {
    &&& b.len() >= 6
    &&& layout_ok(b[0], b[1], b[2])
    &&& MIN_TRACE_LENGTH_LOG2 <= b[3] < usize::BITS
    &&& b.len() > modulus_len_at(b)
    &&& b[modulus_len_at(b)] != 0
    &&& b.len() >= header_len(b)
    &&& options_ok(
        b[options_at(b)],
        b[options_at(b) + 1],
        b[options_at(b) + 2],
        b[options_at(b) + 3],
        b[options_at(b) + 4],
        b[options_at(b) + 5],
    )
}

/// Whether the backend's deserializer reads a proof from exactly the bytes
/// `bytes`, with none left over.
pub uninterp spec fn proof_decodes(bytes: Seq<u8>) -> bool;

/// `bytes` can be handed to the backend as a proof: no length field in it
/// can carry the deserializer's cursor past the end of the address space,
/// its header passes the screen, and the deserializer reads a proof from it.
pub open spec fn proof_admissible(bytes: Seq<u8>) -> bool {
    &&& bytes.len() + MAX_SECTION_LEN <= usize::MAX
    &&& header_well_formed(bytes)
    &&& proof_decodes(bytes)
}

/// Declares `winterfell::StarkProof`, a deserialized proof. It is carried
/// through as it is; nothing is known of what it holds.
#[verifier::external_type_specification]
#[verifier::external_body]
pub struct ExStarkProof(winterfell::StarkProof);

/// Declares `winterfell::DeserializationError`, the deserializer's reason
/// for refusing a buffer. It is never looked into.
#[verifier::external_type_specification]
#[verifier::external_body]
pub struct ExDeserializationError(winterfell::DeserializationError);

/// Calls `winterfell::StarkProof::from_bytes`.
///
/// Trusted: on a buffer whose header passes the screen, and short enough
/// that no announced length overflows its cursor, the deserializer returns
/// instead of aborting, and it returns a proof exactly when `proof_decodes`
/// holds of the buffer. Nothing is claimed of the proof itself.
#[verifier::external_body]
fn decode_proof(bytes: &[u8]) -> (r: Result<StarkProof, DeserializationError>)
    requires
        header_well_formed(bytes@),
        bytes@.len() + MAX_SECTION_LEN <= usize::MAX,
    ensures
        r.is_ok() == proof_decodes(bytes@),
{
    StarkProof::from_bytes(bytes)
}

fn is_power_of_two(x: u16) -> (r: bool)
    ensures
        r == is_small_power_of_two(x as int),
{
    x == 1 || x == 2 || x == 4 || x == 8 || x == 16 || x == 32 || x == 64 || x == 128 || x
        == 256
}

/// Screens the header of a serialized proof.
pub fn screen_header(bytes: &[u8]) -> (ok: bool)
    ensures
        ok == header_well_formed(bytes@),
{
    let len: usize = bytes.len();
    if len < 6 {
        return false;
    }
    let main_width: u8 = bytes[0];
    let aux_width: u8 = bytes[1];
    let aux_rands: u8 = bytes[2];
    if main_width == 0 || main_width as u16 + aux_width as u16 >= 255 {
        return false;
    }
    if (aux_width == 0) != (aux_rands == 0) {
        return false;
    }
    let trace_length_log2: u8 = bytes[3];
    if trace_length_log2 < MIN_TRACE_LENGTH_LOG2 || trace_length_log2 as u32 >= usize::BITS {
        return false;
    }
    let metadata_len: usize = bytes[4] as usize + 256 * (bytes[5] as usize);
    let modulus_len_at: usize = 6 + metadata_len;
    if len <= modulus_len_at {
        return false;
    }
    let modulus_len: usize = bytes[modulus_len_at] as usize;
    if modulus_len == 0 {
        return false;
    }
    let options_at: usize = modulus_len_at + 1 + modulus_len;
    if len < options_at + 6 {
        return false;
    }
    let num_queries: u8 = bytes[options_at];
    let blowup_factor: u8 = bytes[options_at + 1];
    let grinding_factor: u8 = bytes[options_at + 2];
    let field_extension: u8 = bytes[options_at + 3];
    let folding_factor: u8 = bytes[options_at + 4];
    let remainder_max_degree: u8 = bytes[options_at + 5];
    num_queries != 0 && 2 <= blowup_factor && blowup_factor <= 128 && is_power_of_two(
        blowup_factor as u16,
    ) && grinding_factor <= 32 && 1 <= field_extension && field_extension <= 3 && 2
        <= folding_factor && folding_factor <= 16 && is_power_of_two(folding_factor as u16)
        && is_power_of_two(remainder_max_degree as u16 + 1)
}

/// Reads a proof from bytes of unknown origin. Every buffer gets an answer:
/// `None` for one that is not admissible, the proof for one that is.
pub fn read_proof(bytes: &[u8]) -> (r: Option<StarkProof>)
    ensures
        r.is_some() == proof_admissible(bytes@),
{
    if bytes.len() > usize::MAX - MAX_SECTION_LEN {
        return None;
    }
    if !screen_header(bytes) {
        return None;
    }
    match decode_proof(bytes) {
        Ok(proof) => Some(proof),
        Err(_) => None,
    }
}

/// The shortest header has one modulus byte and no metadata, so no buffer
/// of fewer than `FIXED_HEADER_LEN + 1` bytes is admissible.
pub proof fn lemma_short_buffer_is_refused(b: Seq<u8>)
    requires
        b.len() <= FIXED_HEADER_LEN,
    ensures
        !header_well_formed(b),
        !proof_admissible(b),
{
}

/// A buffer cut off inside its header is refused: where `cut` is a prefix
/// of `b` that ends before the header of `b` does, `cut` does not pass the
/// screen.
pub proof fn lemma_truncated_header_is_refused(b: Seq<u8>, cut: Seq<u8>)
    requires
        header_well_formed(b),
        cut.len() < header_len(b),
        cut.len() <= b.len(),
        cut == b.subrange(0, cut.len() as int),
    ensures
        !header_well_formed(cut),
        !proof_admissible(cut),
{
}

} // verus!
