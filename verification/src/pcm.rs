//! 16-bit PCM samples: little-endian framing and volume scaling.

use vstd::prelude::*;

verus! {

/// Highest volume level; a sample played at this level is unchanged.
pub const MAX_VOLUME: u8 = 5;

/// Samples per second of the mono PCM stream.
pub const SAMPLE_RATE: u32 = 16000;

/// Bytes per second of real-time PCM.
pub const BYTES_PER_SECOND: u64 = 32000;

/// The level that is applied for a requested level: levels above the
/// maximum count as the maximum.
pub open spec fn effective_level(level: int) -> int {
    if level > MAX_VOLUME as int {
        MAX_VOLUME as int
    } else if level < 0 {
        0
    } else {
        level
    }
}

/// Magnitude of a sample.
pub open spec fn magnitude(sample: int) -> int {
    if sample >= 0 {
        sample
    } else {
        -sample
    }
}

/// `sample * level / MAX_VOLUME`, rounded toward zero.
pub open spec fn scaled(sample: int, level: int) -> int {
    let m = magnitude(sample) * effective_level(level) / (MAX_VOLUME as int);
    if sample >= 0 {
        m
    } else {
        -m
    }
}

/// Every sample of `samples` scaled by `level`.
pub open spec fn scaled_seq(samples: Seq<i16>, level: int) -> Seq<i16> {
    Seq::new(samples.len(), |i: int| scaled(samples[i] as int, level) as i16)
}

/// A scaled sample never leaves the range of the sample it came from.
pub proof fn lemma_scaled_bounds(sample: int, level: int)
    ensures
        magnitude(scaled(sample, level)) <= magnitude(sample),
        magnitude(scaled(sample, level)) == magnitude(sample) * effective_level(level) / (
        MAX_VOLUME as int),
        sample >= 0 ==> 0 <= scaled(sample, level) <= sample,
        sample < 0 ==> sample <= scaled(sample, level) <= 0,
        effective_level(level) == MAX_VOLUME as int ==> scaled(sample, level) == sample,
        effective_level(level) == 0 ==> scaled(sample, level) == 0,
{
    let m = magnitude(sample);
    let l = effective_level(level);
    assert(0 <= m * l / 5 <= m && (l == 5 ==> m * l / 5 == m) && (l == 0 ==> m * l / 5 == 0))
        by (nonlinear_arith)
        requires
            0 <= m,
            0 <= l <= 5,
    ;
}

/// Volume scaling is monotonic in the level: a higher level never gives a
/// smaller magnitude for the same sample.
pub proof fn lemma_volume_monotonic(sample: i16, lower: u8, higher: u8)
    requires
        lower <= higher,
    ensures
        magnitude(scaled(sample as int, lower as int)) <= magnitude(
            scaled(sample as int, higher as int),
        ),
{
    let m = magnitude(sample as int);
    let a = effective_level(lower as int);
    let b = effective_level(higher as int);
    lemma_scaled_bounds(sample as int, lower as int);
    lemma_scaled_bounds(sample as int, higher as int);
    assert(m * a / 5 <= m * b / 5) by (nonlinear_arith)
        requires
            0 <= m,
            0 <= a <= b,
    ;
}

/// The unsigned 16-bit pattern of a sample (two's complement).
pub open spec fn pattern(sample: i16) -> int {
    if sample >= 0 {
        sample as int
    } else {
        sample as int + 65536
    }
}

/// The sample whose little-endian encoding is `lo`, `hi`.
pub open spec fn sample_from_le(lo: u8, hi: u8) -> i16 {
    let u = lo as int + 256 * (hi as int);
    if u >= 32768 {
        (u - 65536) as i16
    } else {
        u as i16
    }
}

/// The samples framed by `bytes`: consecutive little-endian pairs; an odd
/// trailing byte frames nothing.
pub open spec fn decode_le(bytes: Seq<u8>) -> Seq<i16> {
    Seq::new(
        (bytes.len() / 2) as nat,
        |i: int| sample_from_le(bytes[2 * i], bytes[2 * i + 1]),
    )
}

/// The little-endian framing of `samples`, two bytes each.
pub open spec fn encode_le(samples: Seq<i16>) -> Seq<u8> {
    Seq::new(
        2 * samples.len(),
        |i: int|
            if i % 2 == 0 {
                (pattern(samples[i / 2]) % 256) as u8
            } else {
                (pattern(samples[i / 2]) / 256) as u8
            },
    )
}

/// Decoding undoes encoding.
pub proof fn lemma_decode_encode(samples: Seq<i16>)
    ensures
        decode_le(encode_le(samples)) == samples,
{
    let bytes = encode_le(samples);
    assert(bytes.len() / 2 == samples.len());
    assert forall|i: int| 0 <= i < samples.len() implies #[trigger] decode_le(bytes)[i]
        == samples[i] by {
        let p = pattern(samples[i]);
        assert((2 * i) % 2 == 0 && (2 * i) / 2 == i);
        assert((2 * i + 1) % 2 == 1 && (2 * i + 1) / 2 == i);
        assert(bytes[2 * i] == (p % 256) as u8);
        assert(bytes[2 * i + 1] == (p / 256) as u8);
        assert(p % 256 + 256 * (p / 256) == p);
    }
    assert(decode_le(bytes) =~= samples);
}

/// Reads little-endian sample pairs out of a byte buffer.
pub fn pcm_from_le_bytes(data: &[u8]) -> (samples: Vec<i16>)
    ensures
        samples@ == decode_le(data@),
{
    let n: usize = data.len() / 2;
    let mut samples: Vec<i16> = Vec::with_capacity(n);
    let mut i: usize = 0;
    while i < n
        invariant
            n == data@.len() / 2,
            data@.len() <= usize::MAX,
            i <= n,
            samples@.len() == i,
            forall|k: int| 0 <= k < i ==> #[trigger] samples@[k] == sample_from_le(data@[2 * k], data@[2 * k + 1]),
        decreases n - i,
    {
        let lo: u8 = data[2 * i];
        let hi: u8 = data[2 * i + 1];
        let u: i32 = lo as i32 + 256 * (hi as i32);
        let s: i16 = if u >= 32768 {
            (u - 65536) as i16
        } else {
            u as i16
        };
        samples.push(s);
        i += 1;
    }
    assert(samples@ =~= decode_le(data@));
    samples
}

/// Frames samples as little-endian bytes.
pub fn pcm_to_le_bytes(samples: &[i16]) -> (bytes: Vec<u8>)
    requires
        2 * samples@.len() <= usize::MAX,
    ensures
        bytes@ == encode_le(samples@),
{
    let n: usize = samples.len();
    let mut bytes: Vec<u8> = Vec::with_capacity(2 * n);
    let mut i: usize = 0;
    while i < n
        invariant
            n == samples@.len(),
            2 * n <= usize::MAX,
            i <= n,
            bytes@.len() == 2 * i,
            forall|k: int| 0 <= k < 2 * i ==> #[trigger] bytes@[k] == encode_le(samples@)[k],
        decreases n - i,
    {
        let s: i16 = samples[i];
        let p: i32 = if s >= 0 {
            s as i32
        } else {
            s as i32 + 65536
        };
        assert((2 * i) % 2 == 0 && (2 * i) / 2 == i);
        assert((2 * i + 1) % 2 == 1 && (2 * i + 1) / 2 == i);
        bytes.push((p % 256) as u8);
        bytes.push((p / 256) as u8);
        i += 1;
    }
    assert(bytes@ =~= encode_le(samples@));
    bytes
}

/// Scales one sample by a volume level.
pub fn get_volume(value: i16, volume: u8) -> (r: i16)
    ensures
        r as int == scaled(value as int, volume as int),
{
    let level: i32 = if volume > MAX_VOLUME {
        5
    } else {
        volume as i32
    };
    proof {
        lemma_scaled_bounds(value as int, volume as int);
    }
    if value >= 0 {
        let m: i32 = value as i32;
        assert(0 <= m * level <= 5 * 32767) by (nonlinear_arith)
            requires
                0 <= m <= 32767,
                0 <= level <= 5,
        ;
        (m * level / 5) as i16
    } else {
        let m: i32 = -(value as i32);
        assert(0 <= m * level <= 5 * 32768) by (nonlinear_arith)
            requires
                0 <= m <= 32768,
                0 <= level <= 5,
        ;
        (-(m * level / 5)) as i16
    }
}

} // verus!
