//! Audio data: 16-bit little-endian samples.
use vstd::prelude::*;

verus! {

/// Maximum absolute sample amplitude considered silence.
pub const SPEAKING_THRESHOLD: u16 = 20;

/// The absolute amplitude of a sample, from its low and its high byte.
pub open spec fn amplitude(low: u8, high: u8) -> int {
    let raw = low as int + 256 * high as int;
    if raw < 32768 {
        raw
    } else {
        65536 - raw
    }
}

/// Whether every whole sample is at or below the threshold.
pub open spec fn silent(audio: Seq<u8>) -> bool {
    forall|i: int|
        0 <= i < audio.len() / 2 ==> #[trigger] amplitude(audio[2 * i], audio[2 * i + 1])
            <= SPEAKING_THRESHOLD
}

/// Check if audio data is silence by examining sample amplitudes.
///
/// Interprets bytes as little-endian 16-bit samples and returns true if the
/// maximum absolute amplitude is at or below [`SPEAKING_THRESHOLD`].
pub fn is_silence(audio: &[u8]) -> (r: bool)
    ensures
        r == silent(audio@),
{
    let mut i: usize = 0;
    while i + 1 < audio.len()
        invariant
            i % 2 == 0,
            i <= audio@.len(),
            forall|j: int|
                0 <= j < i / 2 ==> #[trigger] amplitude(audio@[2 * j], audio@[2 * j + 1])
                    <= SPEAKING_THRESHOLD,
        decreases audio@.len() - i,
    {
        let raw: u32 = audio[i] as u32 + 256 * (audio[i + 1] as u32);
        let magnitude: u32 = if raw < 32768 {
            raw
        } else {
            65536 - raw
        };
        assert(magnitude == amplitude(audio@[2 * (i as int / 2)], audio@[2 * (i as int / 2) + 1]));
        if magnitude > SPEAKING_THRESHOLD as u32 {
            return false;
        }
        i = i + 2;
    }
    true
}

/// Data cut into chunks of `size` bytes; what is short of a chunk is left out.
pub open spec fn chunks(data: Seq<u8>, size: nat) -> Seq<Seq<u8>>
    decreases data.len(),
{
    if size == 0 || data.len() < size {
        Seq::empty()
    } else {
        seq![data.take(size as int)] + chunks(data.skip(size as int), size)
    }
}

/// What is short of a chunk when data is cut into chunks of `size` bytes.
pub open spec fn remainder(data: Seq<u8>, size: nat) -> Seq<u8>
    decreases data.len(),
{
    if size == 0 || data.len() < size {
        data
    } else {
        remainder(data.skip(size as int), size)
    }
}

/// Runs of bytes put one behind the other.
pub open spec fn concatenated(parts: Seq<Seq<u8>>) -> Seq<u8>
    decreases parts.len(),
{
    if parts.len() == 0 {
        Seq::empty()
    } else {
        parts[0] + concatenated(parts.skip(1))
    }
}

/// Cutting loses nothing and adds nothing: the chunks and the remainder give
/// the data back, each chunk has the chunk size, and the remainder is shorter.
pub proof fn lemma_chunks_keep_data(data: Seq<u8>, size: nat)
    requires
        size > 0,
    ensures
        concatenated(chunks(data, size)) + remainder(data, size) == data,
        forall|i: int|
            0 <= i < chunks(data, size).len() ==> (#[trigger] chunks(data, size)[i]).len() == size,
        remainder(data, size).len() < size,
        chunks(data, size).len() == data.len() / size,
    decreases data.len(),
{
    if data.len() >= size {
        let rest = data.skip(size as int);
        lemma_chunks_keep_data(rest, size);
        assert(chunks(data, size).skip(1) =~= chunks(rest, size));
        assert(data.take(size as int) + concatenated(chunks(rest, size)) + remainder(rest, size)
            =~= data.take(size as int) + (concatenated(chunks(rest, size)) + remainder(
            rest,
            size,
        )));
        assert(data.take(size as int) + rest =~= data);
        let k: int = rest.len() as int;
        let n: int = size as int;
        assert((k + n) / n == k / n + 1) by (nonlinear_arith)
            requires
                n > 0,
                k >= 0,
        ;
    } else {
        assert(concatenated(chunks(data, size)) + remainder(data, size) =~= data);
        let k: int = data.len() as int;
        let n: int = size as int;
        assert(k / n == 0) by (nonlinear_arith)
            requires
                0 <= k < n,
        ;
    }
}

/// It does not matter how data arrives: cutting two pieces one after the other,
/// keeping the remainder in between, gives the chunks and the remainder of the
/// whole.
pub proof fn lemma_chunks_of_pieces(first: Seq<u8>, second: Seq<u8>, size: nat)
    requires
        size > 0,
    ensures
        chunks(first + second, size) == chunks(first, size) + chunks(
            remainder(first, size) + second,
            size,
        ),
        remainder(first + second, size) == remainder(remainder(first, size) + second, size),
    decreases first.len(),
{
    if first.len() >= size {
        let rest = first.skip(size as int);
        lemma_chunks_of_pieces(rest, second, size);
        assert((first + second).skip(size as int) =~= rest + second);
        assert((first + second).take(size as int) =~= first.take(size as int));
        assert(chunks(first + second, size) =~= chunks(first, size) + chunks(
            remainder(first, size) + second,
            size,
        ));
    } else {
        assert(chunks(first + second, size) =~= chunks(first, size) + chunks(
            first + second,
            size,
        ));
    }
}

/// A run of zero bytes.
pub open spec fn zeros(n: nat) -> Seq<u8> {
    Seq::new(n, |i: int| 0u8)
}

/// Silence of `total` bytes, in chunks of `size` bytes and a shorter one at the
/// end.
pub open spec fn silence_chunks(total: nat, size: nat) -> Seq<Seq<u8>>
    decreases total,
{
    if total == 0 || size == 0 {
        Seq::empty()
    } else if total <= size {
        seq![zeros(total)]
    } else {
        seq![zeros(size)] + silence_chunks((total - size) as nat, size)
    }
}

/// Trailing silence is all zeros and exactly as long as it should be.
pub proof fn lemma_silence_chunks_total(total: nat, size: nat)
    requires
        size > 0,
    ensures
        concatenated(silence_chunks(total, size)) == zeros(total),
        forall|i: int|
            0 <= i < silence_chunks(total, size).len() ==> 0 < (#[trigger] silence_chunks(
                total,
                size,
            )[i]).len() <= size,
    decreases total,
{
    let all = silence_chunks(total, size);
    if total == 0 {
        assert(concatenated(all) =~= zeros(total));
    } else if total <= size {
        assert(all.skip(1) =~= Seq::empty());
        reveal_with_fuel(concatenated, 2);
        assert(concatenated(all) =~= zeros(total));
    } else {
        let rest = silence_chunks((total - size) as nat, size);
        lemma_silence_chunks_total((total - size) as nat, size);
        assert(all.skip(1) =~= rest);
        assert(concatenated(all) =~= zeros(total));
    }
}

/// A vector of zero bytes.
pub fn zero_bytes(n: usize) -> (r: Vec<u8>)
    ensures
        r@ == zeros(n as nat),
{
    let mut out: Vec<u8> = Vec::new();
    while out.len() < n
        invariant
            out@.len() <= n,
            out@ == zeros(out@.len()),
        decreases n - out@.len(),
    {
        out.push(0u8);
        proof {
            assert(out@ =~= zeros(out@.len()));
        }
    }
    out
}

/// A sample, from its low and its high byte.
pub open spec fn sample_of(low: u8, high: u8) -> int {
    let raw = low as int + 256 * high as int;
    if raw < 32768 {
        raw
    } else {
        raw - 65536
    }
}

/// The samples of audio data; an odd byte at the end is left out.
pub open spec fn samples_of(audio: Seq<u8>) -> Seq<i16> {
    Seq::new(
        (audio.len() / 2) as nat,
        |i: int| sample_of(audio[2 * i], audio[2 * i + 1]) as i16,
    )
}

/// The two bytes of a sample as an unsigned number.
pub open spec fn raw_of(sample: i16) -> int {
    if sample >= 0 {
        sample as int
    } else {
        sample + 65536
    }
}

/// The bytes of samples.
pub open spec fn pcm_of(samples: Seq<i16>) -> Seq<u8> {
    Seq::new(
        2 * samples.len(),
        |i: int|
            if i % 2 == 0 {
                (raw_of(samples[i / 2]) % 256) as u8
            } else {
                (raw_of(samples[i / 2]) / 256) as u8
            },
    )
}

/// Samples come back unchanged from their bytes.
pub proof fn lemma_samples_round_trip(samples: Seq<i16>)
    ensures
        samples_of(pcm_of(samples)) == samples,
{
    assert(samples_of(pcm_of(samples)) =~= samples);
}

/// Bytes come back unchanged from their samples, but for an odd one at the end.
pub proof fn lemma_pcm_round_trip(audio: Seq<u8>)
    ensures
        pcm_of(samples_of(audio)) == audio.take(2 * (audio.len() / 2) as int),
{
    let even = audio.take(2 * (audio.len() / 2) as int);
    let back = pcm_of(samples_of(audio));
    assert forall|i: int| 0 <= i < even.len() implies back[i] == even[i] by {
        let k = i / 2;
        assert(samples_of(audio)[k] == sample_of(audio[2 * k], audio[2 * k + 1]) as i16);
    }
    assert(back =~= even);
}

/// Decodes audio data into samples.
pub fn decode_samples(audio: &[u8]) -> (r: Vec<i16>)
    ensures
        r@ == samples_of(audio@),
{
    let mut out: Vec<i16> = Vec::new();
    let mut i: usize = 0;
    while i + 1 < audio.len()
        invariant
            i % 2 == 0,
            i <= audio@.len(),
            out@.len() == i / 2,
            forall|j: int| 0 <= j < out@.len() ==> #[trigger] out@[j] == samples_of(audio@)[j],
        decreases audio@.len() - i,
    {
        let raw: i32 = audio[i] as i32 + 256 * (audio[i + 1] as i32);
        let sample: i16 = if raw < 32768 {
            raw as i16
        } else {
            (raw - 65536) as i16
        };
        assert(sample == samples_of(audio@)[i as int / 2]);
        out.push(sample);
        i = i + 2;
    }
    proof {
        assert(out@ =~= samples_of(audio@));
    }
    out
}

/// Encodes samples into audio data.
pub fn encode_samples(samples: &Vec<i16>) -> (r: Vec<u8>)
    ensures
        r@ == pcm_of(samples@),
{
    let mut out: Vec<u8> = Vec::new();
    let mut i: usize = 0;
    while i < samples.len()
        invariant
            i <= samples@.len(),
            out@.len() == 2 * i,
            forall|j: int| 0 <= j < out@.len() ==> #[trigger] out@[j] == pcm_of(samples@)[j],
        decreases samples@.len() - i,
    {
        let sample: i16 = samples[i];
        let raw: i32 = if sample >= 0 {
            sample as i32
        } else {
            sample as i32 + 65536
        };
        out.push((raw % 256) as u8);
        out.push((raw / 256) as u8);
        i = i + 1;
    }
    proof {
        assert(out@ =~= pcm_of(samples@));
    }
    out
}

/// Data cut into pieces of `size` bytes, the last of which may be shorter.
pub open spec fn pieces(data: Seq<u8>, size: nat) -> Seq<Seq<u8>>
    decreases data.len(),
{
    if size == 0 || data.len() == 0 {
        Seq::empty()
    } else if data.len() <= size {
        seq![data]
    } else {
        seq![data.take(size as int)] + pieces(data.skip(size as int), size)
    }
}

/// Cutting into pieces loses nothing: the pieces give the data back, none is
/// empty and none is longer than the size.
pub proof fn lemma_pieces_keep_data(data: Seq<u8>, size: nat)
    requires
        size > 0,
    ensures
        concatenated(pieces(data, size)) == data,
        forall|i: int|
            0 <= i < pieces(data, size).len() ==> 0 < (#[trigger] pieces(data, size)[i]).len()
                <= size,
    decreases data.len(),
{
    let all = pieces(data, size);
    if data.len() == 0 {
        assert(concatenated(all) =~= data);
    } else if data.len() <= size {
        reveal_with_fuel(concatenated, 2);
        assert(all.skip(1) =~= Seq::empty());
        assert(concatenated(all) =~= data);
    } else {
        let rest = data.skip(size as int);
        lemma_pieces_keep_data(rest, size);
        assert(all.skip(1) =~= pieces(rest, size));
        assert(concatenated(all) =~= data);
    }
}

} // verus!
