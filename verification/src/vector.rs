//! pgvector's binary format: a big-endian header of dimensions and an unused
//! field, then the elements as big-endian single precision numbers.

use vstd::prelude::*;

use crate::error::{error_info, server_error, ErrorInfo};
use crate::number::{decimal, decimal_string};
use crate::pgvector::{MAX_DENSE_F32_DIMENSIONS, MIN_DENSE_F32_DIMENSIONS};

verus! {

/// The dimensions that the header of a binary vector announces.
pub open spec fn announced_dimensions(bytes: Seq<u8>) -> int {
    bytes[0] * 256 + bytes[1]
}

/// Whether element `k` of a binary vector is finite: the eight bits of its
/// exponent are not all ones.
pub open spec fn element_is_finite(bytes: Seq<u8>, k: int) -> bool {
    !(bytes[4 + 4 * k] % 128 == 127 && bytes[4 + 4 * k + 1] >= 128)
}

/// The elements of a binary vector, each with its bytes in the opposite order.
pub open spec fn little_endian_elements(bytes: Seq<u8>) -> Seq<u8> {
    Seq::new((bytes.len() - 4) as nat, |i: int| bytes[4 + 4 * (i / 4) + 3 - i % 4])
}

/// The blob that a binary vector stands for, or the message with which it is
/// refused.
pub open spec fn vector_meaning(bytes: Seq<u8>) -> Result<Seq<u8>, Seq<char>> {
    let dimensions = announced_dimensions(bytes);
    let expected = 4 + dimensions * 4;
    if bytes.len() < 4 {
        Err("invalid vector binary parameter: expected a 4-byte header"@)
    } else if !(MIN_DENSE_F32_DIMENSIONS <= dimensions <= MAX_DENSE_F32_DIMENSIONS) {
        Err(
            "invalid vector binary parameter: dimensions must be between 1 and 16000, got "@
                + decimal(dimensions as nat),
        )
    } else if bytes[2] != 0 || bytes[3] != 0 {
        Err("invalid vector binary parameter: unused header field must be zero"@)
    } else if bytes.len() != expected {
        Err(
            "invalid vector binary parameter: expected "@ + decimal(expected as nat)
                + " bytes, got "@ + decimal(bytes.len()),
        )
    } else if exists|k: int| 0 <= k < dimensions && !#[trigger] element_is_finite(bytes, k) {
        Err("invalid vector binary parameter: elements must be finite"@)
    } else {
        Ok(little_endian_elements(bytes))
    }
}

/// Decode pgvector's big-endian header and elements into the engine's
/// little-endian blob.
pub fn decode_pgvector_binary(bytes: &[u8]) -> (r: Result<Vec<u8>, ErrorInfo>)
    ensures
        match r {
            Ok(blob) => vector_meaning(bytes@) == Ok::<Seq<u8>, Seq<char>>(blob@),
            Err(e) => vector_meaning(bytes@) is Err && e@ == server_error(
                vector_meaning(bytes@)->Err_0,
            ),
        },
{
    if bytes.len() < 4 {
        return Err(error_info("invalid vector binary parameter: expected a 4-byte header"));
    }
    let dimensions: usize = bytes[0] as usize * 256 + bytes[1] as usize;
    if dimensions < MIN_DENSE_F32_DIMENSIONS || dimensions > MAX_DENSE_F32_DIMENSIONS {
        let mut message =
            "invalid vector binary parameter: dimensions must be between 1 and 16000, got ".to_owned();
        message.append(decimal_string(dimensions as u64).as_str());
        return Err(error_info(message.as_str()));
    }
    if bytes[2] != 0 || bytes[3] != 0 {
        return Err(
            error_info("invalid vector binary parameter: unused header field must be zero"),
        );
    }
    let expected_len: usize = 4 + dimensions * 4;
    if bytes.len() != expected_len {
        let mut message = "invalid vector binary parameter: expected ".to_owned();
        message.append(decimal_string(expected_len as u64).as_str());
        message.append(" bytes, got ");
        message.append(decimal_string(bytes.len() as u64).as_str());
        return Err(error_info(message.as_str()));
    }
    let mut blob: Vec<u8> = Vec::with_capacity(dimensions * 4);
    let mut k: usize = 0;
    while k < dimensions
        invariant
            k <= dimensions <= MAX_DENSE_F32_DIMENSIONS,
            bytes@.len() == 4 + dimensions * 4,
            blob@.len() == 4 * k,
            forall|i: int| 0 <= i < 4 * k ==> blob@[i] == little_endian_elements(bytes@)[i],
            forall|j: int| 0 <= j < k ==> #[trigger] element_is_finite(bytes@, j),
            dimensions == announced_dimensions(bytes@),
            bytes@[2] == 0 && bytes@[3] == 0,
            MIN_DENSE_F32_DIMENSIONS <= dimensions,
        decreases dimensions - k,
    {
        let at: usize = 4 + 4 * k;
        if bytes[at] % 128 == 127 && bytes[at + 1] >= 128 {
            assert(!element_is_finite(bytes@, k as int));
            return Err(error_info("invalid vector binary parameter: elements must be finite"));
        }
        assert(element_is_finite(bytes@, k as int));
        blob.push(bytes[at + 3]);
        blob.push(bytes[at + 2]);
        blob.push(bytes[at + 1]);
        blob.push(bytes[at]);
        k = k + 1;
    }
    assert(blob@ =~= little_endian_elements(bytes@));
    Ok(blob)
}

/// Byte `k` of `v` in big-endian order.
pub open spec fn big_endian_byte(v: u32, k: int) -> u8 {
    if k == 0 {
        (v as int / 0x100_0000) as u8
    } else if k == 1 {
        (v as int / 0x1_0000 % 0x100) as u8
    } else if k == 2 {
        (v as int / 0x100 % 0x100) as u8
    } else {
        (v as int % 0x100) as u8
    }
}

/// The binary vector with the given dimensions in its header and the given bit
/// patterns as its elements.
pub open spec fn vector_bytes(dimensions: int, elements: Seq<u32>) -> Seq<u8> {
    seq![(dimensions / 256) as u8, (dimensions % 256) as u8, 0u8, 0u8] + Seq::new(
        4 * elements.len(),
        |i: int| big_endian_byte(elements[i / 4], i % 4),
    )
}

/// Lay out a vector in pgvector's binary format.
pub fn encode_pgvector_binary(dimensions: u16, elements: &Vec<u32>) -> (r: Vec<u8>)
    ensures
        r@ == vector_bytes(dimensions as int, elements@),
{
    let mut bytes: Vec<u8> = Vec::new();
    bytes.push((dimensions / 256) as u8);
    bytes.push((dimensions % 256) as u8);
    bytes.push(0);
    bytes.push(0);
    let mut k: usize = 0;
    while k < elements.len()
        invariant
            k <= elements@.len(),
            bytes@.len() == 4 + 4 * k,
            forall|i: int|
                0 <= i < 4 + 4 * k ==> bytes@[i] == vector_bytes(dimensions as int, elements@)[i],
        decreases elements.len() - k,
    {
        let v: u32 = elements[k];
        bytes.push((v / 0x100_0000) as u8);
        bytes.push((v / 0x1_0000 % 0x100) as u8);
        bytes.push((v / 0x100 % 0x100) as u8);
        bytes.push((v % 0x100) as u8);
        k = k + 1;
    }
    assert(bytes@ =~= vector_bytes(dimensions as int, elements@));
    bytes
}

/// The bit patterns of the elements that a little-endian blob holds.
pub open spec fn blob_elements(blob: Seq<u8>) -> Seq<u32> {
    Seq::new(
        blob.len() / 4,
        |k: int|
            (blob[4 * k] + blob[4 * k + 1] * 0x100 + blob[4 * k + 2] * 0x1_0000 + blob[4 * k + 3]
                * 0x100_0000) as u32,
    )
}

/// The little-endian blob of elements with the given bit patterns.
pub open spec fn elements_blob(elements: Seq<u32>) -> Seq<u8> {
    Seq::new(4 * elements.len(), |i: int| big_endian_byte(elements[i / 4], 3 - i % 4))
}

/// Whether a bit pattern is that of a finite single precision number.
pub open spec fn is_finite_pattern(v: u32) -> bool {
    v as int / 0x80_0000 % 0x100 != 0xff
}

/// A number is the sum of its bytes, each by its weight.
pub proof fn number_is_the_sum_of_its_bytes(v: u32)
    ensures
        v == big_endian_byte(v, 0) * 0x100_0000 + big_endian_byte(v, 1) * 0x1_0000
            + big_endian_byte(v, 2) * 0x100 + big_endian_byte(v, 3),
{
    let v = v as int;
    assert(v / 0x1_0000 == v / 0x100 / 0x100);
    assert(v / 0x100_0000 == v / 0x1_0000 / 0x100);
    assert(v == v / 0x100 * 0x100 + v % 0x100);
    assert(v / 0x100 == v / 0x1_0000 * 0x100 + v / 0x100 % 0x100);
    assert(v / 0x1_0000 == v / 0x100_0000 * 0x100 + v / 0x1_0000 % 0x100);
}

/// The elements of a blob are those it was made of.
pub proof fn blob_holds_its_elements(elements: Seq<u32>)
    ensures
        blob_elements(elements_blob(elements)) == elements,
{
    let blob = elements_blob(elements);
    assert forall|k: int| 0 <= k < elements.len() implies blob_elements(blob)[k] == elements[k] by {
        assert((4 * k) / 4 == k && (4 * k) % 4 == 0);
        assert((4 * k + 1) / 4 == k && (4 * k + 1) % 4 == 1);
        assert((4 * k + 2) / 4 == k && (4 * k + 2) % 4 == 2);
        assert((4 * k + 3) / 4 == k && (4 * k + 3) % 4 == 3);
        assert(blob[4 * k] == big_endian_byte(elements[k], 3));
        assert(blob[4 * k + 1] == big_endian_byte(elements[k], 2));
        assert(blob[4 * k + 2] == big_endian_byte(elements[k], 1));
        assert(blob[4 * k + 3] == big_endian_byte(elements[k], 0));
        number_is_the_sum_of_its_bytes(elements[k]);
    }
    assert(blob_elements(blob) =~= elements);
}

proof fn lemma_pattern_of_bytes(a: u8, b: u8, c: u8, d: u8)
    ensures
        ({
            let v = (a + b * 0x100 + c * 0x1_0000 + d * 0x100_0000) as u32;
            &&& big_endian_byte(v, 0) == d
            &&& big_endian_byte(v, 1) == c
            &&& big_endian_byte(v, 2) == b
            &&& big_endian_byte(v, 3) == a
        }),
{
    let v = (a + b * 0x100 + c * 0x1_0000 + d * 0x100_0000) as u32 as int;
    let upper = b + c * 0x100 + d * 0x1_0000;
    let half = c + d * 0x100;
    assert(v == upper * 0x100 + a);
    assert(upper == half * 0x100 + b);
    assert(v % 0x100 == a && v / 0x100 == upper);
    assert(upper % 0x100 == b && upper / 0x100 == half);
    assert(v / 0x1_0000 == half);
    assert(half % 0x100 == c && half / 0x100 == d);
    assert(v / 0x100_0000 == d);
}

/// A blob of whole elements is the blob of the elements it holds.
pub proof fn blob_is_made_of_its_elements(blob: Seq<u8>)
    requires
        blob.len() % 4 == 0,
    ensures
        elements_blob(blob_elements(blob)) == blob,
{
    let elements = blob_elements(blob);
    let made = elements_blob(elements);
    assert forall|i: int| 0 <= i < blob.len() implies made[i] == blob[i] by {
        let k = i / 4;
        let b = 4 * k;
        assert(0 <= k < elements.len());
        lemma_pattern_of_bytes(blob[b], blob[b + 1], blob[b + 2], blob[b + 3]);
        assert(i == b + i % 4);
        assert(made[i] == big_endian_byte(elements[k], 3 - i % 4));
    }
    assert(made =~= blob);
}

/// A vector that a client sends in binary and reads back in binary comes back
/// byte for byte.
pub proof fn binary_vector_comes_back_unchanged(sent: Seq<u8>)
    requires
        vector_meaning(sent) is Ok,
    ensures
        ({
            let blob = vector_meaning(sent)->Ok_0;
            vector_bytes((blob.len() / 4) as int, blob_elements(blob)) == sent
        }),
{
    let blob = vector_meaning(sent)->Ok_0;
    let d = announced_dimensions(sent);
    let elements = blob_elements(blob);
    let out = vector_bytes((blob.len() / 4) as int, elements);
    assert(blob.len() == 4 * d);
    assert(out.len() == sent.len());
    assert forall|j: int| 0 <= j < sent.len() implies out[j] == sent[j] by {
        if j >= 4 {
            let i = j - 4;
            let k = i / 4;
            let b = 4 * k;
            assert(b / 4 == k && b % 4 == 0);
            assert((b + 1) / 4 == k && (b + 1) % 4 == 1);
            assert((b + 2) / 4 == k && (b + 2) % 4 == 2);
            assert((b + 3) / 4 == k && (b + 3) % 4 == 3);
            assert(blob[b] == sent[4 + b + 3] && blob[b + 1] == sent[4 + b + 2]);
            assert(blob[b + 2] == sent[4 + b + 1] && blob[b + 3] == sent[4 + b]);
            lemma_pattern_of_bytes(blob[b], blob[b + 1], blob[b + 2], blob[b + 3]);
            assert(out[j] == big_endian_byte(elements[k], i % 4));
        }
    }
    assert(out =~= sent);
}

/// A vector of finite elements that goes out in binary is read back as the blob
/// of its elements.
pub proof fn written_vector_reads_back(elements: Seq<u32>)
    requires
        MIN_DENSE_F32_DIMENSIONS <= elements.len() <= MAX_DENSE_F32_DIMENSIONS,
        forall|k: int| 0 <= k < elements.len() ==> is_finite_pattern(#[trigger] elements[k]),
    ensures
        vector_meaning(vector_bytes(elements.len() as int, elements)) == Ok::<Seq<u8>, Seq<char>>(
            elements_blob(elements),
        ),
{
    let n = elements.len() as int;
    let bytes = vector_bytes(n, elements);
    assert(announced_dimensions(bytes) == n);
    assert forall|k: int| 0 <= k < n implies #[trigger] element_is_finite(bytes, k) by {
        let b = 4 * k;
        assert(b / 4 == k && b % 4 == 0);
        assert((b + 1) / 4 == k && (b + 1) % 4 == 1);
        assert(bytes[4 + b] == big_endian_byte(elements[k], 0));
        assert(bytes[4 + b + 1] == big_endian_byte(elements[k], 1));
        assert(is_finite_pattern(elements[k]));
    }
    assert(little_endian_elements(bytes) =~= elements_blob(elements)) by {
        assert forall|i: int| 0 <= i < 4 * n implies little_endian_elements(bytes)[i]
            == elements_blob(elements)[i] by {
            let j = 4 * (i / 4) + 3 - i % 4;
            assert(j / 4 == i / 4 && j % 4 == 3 - i % 4);
            assert(bytes[4 + j] == big_endian_byte(elements[i / 4], 3 - i % 4));
        }
    }
}

} // verus!
