//! Signed 32-bit samples and their little-endian bytes.

use vstd::prelude::*;

verus! {

/// The two's complement number that stands for `sample`.
pub open spec fn sample_code(sample: i32) -> int {
    if sample >= 0 {
        sample as int
    } else {
        sample + 0x1_0000_0000
    }
}

/// Byte `index` of `sample`, the lowest one first.
pub open spec fn sample_byte(sample: i32, index: int) -> u8 {
    if index == 0 {
        (sample_code(sample) % 0x100) as u8
    } else if index == 1 {
        (sample_code(sample) / 0x100 % 0x100) as u8
    } else if index == 2 {
        (sample_code(sample) / 0x1_0000 % 0x100) as u8
    } else {
        (sample_code(sample) / 0x100_0000) as u8
    }
}

/// The bytes of `samples`, in order.
pub open spec fn samples_bytes(samples: Seq<i32>) -> Seq<u8> {
    Seq::new(samples.len() * 4, |i: int| sample_byte(samples[i / 4], i % 4))
}

/// The sample whose bytes stand in `bytes` from `at` on.
pub open spec fn sample_at(bytes: Seq<u8>, at: int) -> i32 {
    let code = bytes[at] + bytes[at + 1] * 0x100 + bytes[at + 2] * 0x1_0000 + bytes[at + 3]
        * 0x100_0000;
    if code < 0x8000_0000 {
        code as i32
    } else {
        (code - 0x1_0000_0000) as i32
    }
}

/// Distance of `sample` from zero.
pub open spec fn amplitude(sample: i32) -> int {
    if sample >= 0 {
        sample as int
    } else {
        -sample
    }
}

/// Distance of `sample` from zero.
pub fn unsigned_abs(sample: i32) -> (distance: u32)
    ensures
        distance == amplitude(sample),
{
    if sample >= 0 {
        sample as u32
    } else {
        (-(sample as i64)) as u32
    }
}

/// Appends the bytes of `sample`.
fn push_sample(bytes: &mut Vec<u8>, sample: i32)
    ensures
        final(bytes)@ == old(bytes)@ + Seq::new(4, |i: int| sample_byte(sample, i)),
{
    let code: u32 = if sample >= 0 {
        sample as u32
    } else {
        (sample as i64 + 0x1_0000_0000) as u32
    };
    bytes.push((code % 0x100) as u8);
    bytes.push((code / 0x100 % 0x100) as u8);
    bytes.push((code / 0x1_0000 % 0x100) as u8);
    bytes.push((code / 0x100_0000) as u8);
    assert(bytes@ =~= old(bytes)@ + Seq::new(4, |i: int| sample_byte(sample, i)));
}

/// The bytes of `samples`, in order.
pub fn to_le_bytes(samples: &[i32]) -> (bytes: Vec<u8>)
    ensures
        bytes@ == samples_bytes(samples@),
{
    let mut bytes: Vec<u8> = Vec::new();
    let mut i: usize = 0;
    while i < samples.len()
        invariant
            i <= samples@.len(),
            bytes@ == samples_bytes(samples@.take(i as int)),
        decreases samples@.len() - i,
    {
        push_sample(&mut bytes, samples[i]);
        assert(bytes@ =~= samples_bytes(samples@.take(i + 1)));
        i = i + 1;
    }
    assert(samples@.take(samples@.len() as int) =~= samples@);
    bytes
}

/// The sample whose bytes stand in `bytes` from `at` on.
pub fn from_le_bytes_at(bytes: &[u8], at: usize) -> (sample: i32)
    requires
        at + 4 <= bytes@.len(),
    ensures
        sample == sample_at(bytes@, at as int),
{
    let code: i64 = bytes[at] as i64 + bytes[at + 1] as i64 * 0x100 + bytes[at + 2] as i64
        * 0x1_0000 + bytes[at + 3] as i64 * 0x100_0000;
    if code < 0x8000_0000 {
        code as i32
    } else {
        (code - 0x1_0000_0000) as i32
    }
}

/// The samples that fill `bytes`, in order. A rest of fewer than four bytes is
/// left out.
pub open spec fn samples_of(bytes: Seq<u8>) -> Seq<i32> {
    Seq::new(bytes.len() / 4, |i: int| sample_at(bytes, i * 4))
}

/// The samples that fill `bytes`, in order. A rest of fewer than four bytes is
/// left out.
pub fn from_le_bytes(bytes: &[u8]) -> (samples: Vec<i32>)
    ensures
        samples@ == samples_of(bytes@),
{
    let mut samples: Vec<i32> = Vec::new();
    let length: usize = bytes.len();
    let count: usize = length / 4;
    let mut i: usize = 0;
    while i < count
        invariant
            i <= count == length / 4,
            length == bytes@.len(),
            samples@ == samples_of(bytes@).take(i as int),
        decreases count - i,
    {
        samples.push(from_le_bytes_at(bytes, i * 4));
        assert(samples@ =~= samples_of(bytes@).take(i + 1));
        i = i + 1;
    }
    assert(samples_of(bytes@).take(count as int) =~= samples_of(bytes@));
    samples
}

/// A sample is read back from its bytes, wherever they stand.
pub proof fn law_sample_round_trip(bytes: Seq<u8>, at: int, sample: i32)
    requires
        forall|i: int| 0 <= i < 4 ==> bytes[at + i] == #[trigger] sample_byte(sample, i),
    ensures
        sample_at(bytes, at) == sample,
{
    assert(bytes[at + 0] == sample_byte(sample, 0));
    assert(bytes[at + 1] == sample_byte(sample, 1));
    assert(bytes[at + 2] == sample_byte(sample, 2));
    assert(bytes[at + 3] == sample_byte(sample, 3));
}

/// Samples are read back from their bytes.
pub proof fn law_samples_round_trip(samples: Seq<i32>)
    ensures
        samples_of(samples_bytes(samples)) == samples,
{
    let bytes = samples_bytes(samples);
    assert forall|i: int| 0 <= i < samples.len() implies samples_of(bytes)[i] == samples[i] by {
        assert forall|k: int| 0 <= k < 4 implies bytes[i * 4 + k] == sample_byte(samples[i], k) by {
            assert((i * 4 + k) / 4 == i);
        }
        law_sample_round_trip(bytes, i * 4, samples[i]);
    }
    assert(samples_of(bytes) =~= samples);
}

/// The bytes of a sample are its digits in base 256, the lowest one first; a negative
/// sample is written as the number that is 2^32 above it.
pub proof fn law_sample_is_little_endian(sample: i32)
    ensures
        sample_byte(sample, 0) + 256 * sample_byte(sample, 1) + 65_536 * sample_byte(sample, 2)
            + 16_777_216 * sample_byte(sample, 3) == if sample < 0 {
            sample + 4_294_967_296
        } else {
            sample as int
        },
{
}

/// Four bytes are read as a number in base 256, the lowest digit first. Where the
/// highest bit is set the number is 2^32 below.
pub proof fn law_bytes_are_read_as_twos_complement(bytes: Seq<u8>, at: int)
    ensures
        bytes[at + 3] < 128 ==> sample_at(bytes, at) == bytes[at] + 256 * bytes[at + 1] + 65_536
            * bytes[at + 2] + 16_777_216 * bytes[at + 3],
        bytes[at + 3] >= 128 ==> sample_at(bytes, at) == bytes[at] + 256 * bytes[at + 1] + 65_536
            * bytes[at + 2] + 16_777_216 * bytes[at + 3] - 4_294_967_296,
{
}

/// Samples are written one behind the other, four bytes each, and read so; a rest that
/// fills no sample is left out.
pub proof fn law_samples_stand_behind_each_other(samples: Seq<i32>, bytes: Seq<u8>, i: int, k: int)
    requires
        0 <= i,
        0 <= k < 4,
    ensures
        samples_bytes(samples).len() == 4 * samples.len(),
        i < samples.len() ==> samples_bytes(samples)[4 * i + k] == sample_byte(samples[i], k),
        4 * samples_of(bytes).len() <= bytes.len() < 4 * samples_of(bytes).len() + 4,
        i < samples_of(bytes).len() ==> samples_of(bytes)[i] == sample_at(bytes, 4 * i),
{
    assert((4 * i + k) / 4 == i && (4 * i + k) % 4 == k);
}

/// The amplitude of a sample is the sample without its sign.
pub proof fn law_amplitude_has_no_sign(sample: i32)
    ensures
        amplitude(sample) >= 0,
        amplitude(sample) == sample || amplitude(sample) + sample == 0,
{
}

} // verus!
