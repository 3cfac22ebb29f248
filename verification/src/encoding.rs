//! Encodings of the log archive: LZ4 compression of the database file and
//! base64 text for the reply that carries it.

use vstd::prelude::*;
use base64::Engine;

verus! {

/// The base64 digit (standard alphabet) for a value below 64.
pub open spec fn base64_digit(v: int) -> char {
    if v < 26 {
        (65 + v) as char
    } else if v < 52 {
        (97 + (v - 26)) as char
    } else if v < 62 {
        (48 + (v - 52)) as char
    } else if v == 62 {
        '+'
    } else {
        '/'
    }
}

/// Base64 with the standard alphabet and `=` padding (RFC 4648): each group
/// of three bytes becomes four digits; a final group of one or two bytes
/// becomes two or three digits followed by padding.
pub open spec fn base64_encode(data: Seq<u8>) -> Seq<char>
    decreases data.len(),
{
    if data.len() == 0 {
        Seq::empty()
    } else if data.len() == 1 {
        let a = data[0] as int;
        seq![base64_digit(a / 4), base64_digit((a % 4) * 16), '=', '=']
    } else if data.len() == 2 {
        let a = data[0] as int;
        let b = data[1] as int;
        seq![base64_digit(a / 4), base64_digit((a % 4) * 16 + b / 16), base64_digit((b % 16) * 4), '=']
    } else {
        let a = data[0] as int;
        let b = data[1] as int;
        let c = data[2] as int;
        seq![
            base64_digit(a / 4),
            base64_digit((a % 4) * 16 + b / 16),
            base64_digit((b % 16) * 4 + c / 64),
            base64_digit(c % 64),
        ] + base64_encode(data.subrange(3, data.len() as int))
    }
}

/// The length of the base64 text for `n` bytes.
pub open spec fn base64_len(n: int) -> int {
    4 * ((n + 2) / 3)
}

/// Base64 text is four digits for every started group of three bytes.
pub proof fn lemma_base64_len(data: Seq<u8>)
    ensures
        base64_encode(data).len() == base64_len(data.len() as int),
    decreases data.len(),
{
    if data.len() > 2 {
        lemma_base64_len(data.subrange(3, data.len() as int));
    }
}

/// Encodes bytes as base64 text (`base64::engine::general_purpose::STANDARD.encode`).
/// Trusted: the engine uses the standard alphabet with padding, as the crate
/// documents; it panics when the text's length does not fit in `usize`, which
/// the precondition rules out.
#[verifier::external_body]
fn base64_standard_encode(data: &[u8]) -> (res: String)
    requires
        base64_len(data.len() as int) <= usize::MAX,
    ensures
        res@ == base64_encode(data@),
{
    base64::engine::general_purpose::STANDARD.encode(data)
}

/// Encodes a log archive as the base64 text of the rotate reply.
pub fn encode_archive(archive: &[u8]) -> (res: String)
    requires
        base64_len(archive.len() as int) <= usize::MAX,
    ensures
        res@ == base64_encode(archive@),
        res@.len() == base64_len(archive.len() as int),
{
    proof {
        lemma_base64_len(archive@);
    }
    base64_standard_encode(archive)
}

/// The four little-endian bytes of `n` taken modulo 2^32.
pub open spec fn u32_le_bytes(n: int) -> Seq<u8> {
    let m = n % 0x1_0000_0000;
    seq![(m % 256) as u8, ((m / 256) % 256) as u8, ((m / 65536) % 256) as u8, (m / 16777216) as u8]
}

/// The largest LZ4 block that `lz4_flex` writes for `n` input bytes.
pub open spec fn lz4_max_block_len(n: int) -> int {
    20 + n * 110 / 100
}

/// What `lz4_flex::block::compress_prepend_size` returns for `input`: the
/// input's length as four little-endian bytes followed by its LZ4 block.
pub uninterp spec fn lz4_size_prepended(input: Seq<u8>) -> Seq<u8>;

/// Compresses bytes into an LZ4 block with the input length prepended
/// (`lz4_flex::block::compress_prepend_size`).
/// Trusted: the crate's source writes `(input.len() as u32).to_le_bytes()` and
/// then the block into a buffer of `get_maximum_output_size(len) + 4` bytes,
/// `16 + 4 + len * 110 / 100`, whose computation must not overflow.
/// What the block holds is left to the name `lz4_size_prepended`.
#[verifier::external_body]
fn lz4_compress_prepend_size(input: &[u8]) -> (res: Vec<u8>)
    requires
        input.len() * 110 <= usize::MAX,
        lz4_max_block_len(input.len() as int) + 4 <= usize::MAX,
    ensures
        res@ == lz4_size_prepended(input@),
        res@.len() >= 4,
        res@.len() <= lz4_max_block_len(input.len() as int) + 4,
        res@.take(4) == u32_le_bytes(input.len() as int),
{
    lz4_flex::block::compress_prepend_size(input)
}

/// Whether a database of `n` bytes can be archived: its compressed form and
/// that form's base64 text have lengths that fit in `usize`.
pub open spec fn archivable(n: int) -> bool {
    &&& n * 110 <= usize::MAX
    &&& base64_len(lz4_max_block_len(n) + 4) <= usize::MAX
}

/// Whether a database of `n` bytes can be archived.
pub fn is_archivable(n: usize) -> (res: bool)
    ensures
        res == archivable(n as int),
{
    if n > usize::MAX / 110 {
        return false;
    }
    let block = 20 + n * 110 / 100;
    if block > usize::MAX - 6 {
        return false;
    }
    let groups = (block + 4 + 2) / 3;
    groups <= usize::MAX / 4
}

/// Compresses the database file's bytes into the log archive: the LZ4 block
/// of the bytes, preceded by their length.
pub fn compress_database(db: &[u8]) -> (archive: Vec<u8>)
    requires
        archivable(db.len() as int),
    ensures
        archive@ == lz4_size_prepended(db@),
        archive@.take(4) == u32_le_bytes(db.len() as int),
        base64_len(archive@.len() as int) <= usize::MAX,
{
    let archive = lz4_compress_prepend_size(db);
    assert(base64_len(archive@.len() as int) <= base64_len(lz4_max_block_len(db.len() as int) + 4));
    archive
}

} // verus!
