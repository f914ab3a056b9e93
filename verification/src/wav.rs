//! WAV files of 16-bit mono audio.

use vstd::prelude::*;

use crate::text;

verus! {

/// The most samples that fit in a file: WAV counts its bytes in 32 bits.
pub const MAX_SAMPLES: usize = 2147483629;

/// The `width` low bytes of `n`, the lowest first.
pub open spec fn le_bytes(n: nat, width: nat) -> Seq<u8>
    decreases width,
{
    if width == 0 {
        seq![]
    } else {
        seq![(n % 256) as u8] + le_bytes(n / 256, (width - 1) as nat)
    }
}

/// A sample as an unsigned 16-bit number, in two's complement.
pub open spec fn sample_code(sample: i16) -> nat {
    if sample >= 0 {
        sample as nat
    } else {
        (sample + 0x1_0000) as nat
    }
}

/// The bytes of the samples, two for each, the lower first.
pub open spec fn sample_bytes(samples: Seq<i16>) -> Seq<u8> {
    Seq::new(
        2 * samples.len(),
        |i: int|
            if i % 2 == 0 {
                (sample_code(samples[i / 2]) % 256) as u8
            } else {
                (sample_code(samples[i / 2]) / 256) as u8
            },
    )
}

/// The header of a file: the `RIFF` chunk of type `WAVE`, its `fmt ` chunk for plain
/// integer samples, and the head of its `data` chunk.
pub open spec fn wav_header(channels: nat, sample_rate: nat, bits: nat, data_len: nat) -> Seq<u8> {
    let block = channels * (bits / 8);
    seq![0x52u8, 0x49, 0x46, 0x46] + le_bytes(36 + data_len, 4) + seq![0x57u8, 0x41, 0x56, 0x45]
        + seq![0x66u8, 0x6d, 0x74, 0x20] + le_bytes(16, 4) + le_bytes(1, 2) + le_bytes(channels, 2)
        + le_bytes(sample_rate, 4) + le_bytes(sample_rate * block, 4) + le_bytes(block, 2)
        + le_bytes(bits, 2) + seq![0x64u8, 0x61, 0x74, 0x61] + le_bytes(data_len, 4)
}

/// The file that holds these samples.
pub open spec fn wav_file(channels: nat, sample_rate: nat, bits: nat, samples: Seq<i16>) -> Seq<
    u8,
> {
    wav_header(channels, sample_rate, bits, 2 * samples.len()) + sample_bytes(samples)
}

/// A `hound::WavWriter` over a `std::io::Cursor` on a borrowed vector. The format that
/// it was created for and the samples that it was given so far are its
/// `writer_content`; what it leaves in the vector is `writer_leaves`.
#[verifier::external_body]
pub struct SampleWriter<'a> {
    writer: hound::WavWriter<std::io::Cursor<&'a mut Vec<u8>>>,
}

/// A format, and samples of it.
pub ghost struct WavContent {
    pub channels: nat,
    pub sample_rate: nat,
    pub bits: nat,
    pub samples: Seq<i16>,
}

impl WavContent {
    /// Whether it is 16-bit mono audio whose sizes a WAV file can count.
    pub open spec fn fits(self) -> bool {
        &&& self.channels == 1
        &&& self.bits == 16
        &&& 0 < self.sample_rate <= 0x7fff_ffff
        &&& self.samples.len() <= MAX_SAMPLES
    }

    /// The file of this content.
    pub open spec fn file(self) -> Seq<u8> {
        wav_file(self.channels, self.sample_rate, self.bits, self.samples)
    }
}

/// The format that a writer was created for, and the samples that it was given.
pub uninterp spec fn writer_content(writer: SampleWriter) -> WavContent;

/// The bytes in the vector that a writer borrows, when the borrow ends. They are
/// settled when the writer is finalized; before, this only ties the vector to the
/// writer.
pub uninterp spec fn writer_leaves(writer: SampleWriter) -> Seq<u8>;

/// `hound::WavWriter::new` for integer samples. It writes a header that leaves room
/// for the lengths, and keeps the vector borrowed. For one or two channels of 16 bits
/// its source takes the short `fmt ` chunk. It multiplies the sample rate by the bytes
/// of a sample in 32 bits, divides by the sample rate, and reports an error only where
/// the stream does, which a cursor on a vector does not.
#[verifier::external_body]
fn create_writer<'a>(
    buffer: &'a mut Vec<u8>,
    channels: u16,
    sample_rate: u32,
    bits_per_sample: u16,
) -> (r: Result<SampleWriter<'a>, String>)
    requires
        old(buffer)@.len() == 0,
        channels == 1,
        bits_per_sample == 16,
        0 < sample_rate <= 0x7fff_ffff,
    ensures
        r is Ok,
        writer_content(r->Ok_0) == (WavContent {
            channels: channels as nat,
            sample_rate: sample_rate as nat,
            bits: bits_per_sample as nat,
            samples: seq![],
        }),
        final(buffer)@ == writer_leaves(r->Ok_0),
{
    let sample_format = hound::SampleFormat::Int;
    let spec = hound::WavSpec { channels, sample_rate, bits_per_sample, sample_format };
    match hound::WavWriter::new(std::io::Cursor::new(buffer), spec) {
        Ok(writer) => Ok(SampleWriter { writer }),
        Err(e) => Err(e.to_string()),
    }
}

/// `hound::WavWriter::write_sample`, for a 16-bit sample. It appends the sample, counts
/// its two bytes in 32 bits, and reports an error only where the stream does, which a
/// cursor on a vector does not. The vector stays borrowed.
#[verifier::external_body]
fn write_sample(writer: &mut SampleWriter, sample: i16) -> (r: Result<(), String>)
    requires
        writer_content(*old(writer)).fits(),
        writer_content(*old(writer)).samples.len() < MAX_SAMPLES,
    ensures
        r is Ok,
        writer_content(*final(writer)) == (WavContent {
            samples: writer_content(*old(writer)).samples.push(sample),
            ..writer_content(*old(writer))
        }),
        writer_leaves(*final(writer)) == writer_leaves(*old(writer)),
{
    writer.writer.write_sample(sample).map_err(|e| e.to_string())
}

/// `hound::WavWriter::finalize`. It fills in the lengths and gives the vector back,
/// which then holds the file of what the writer was given. It reports an error only
/// where the stream does, which a cursor on a vector does not, or where a channel lacks
/// its last sample, which a single channel never does.
#[verifier::external_body]
fn finalize_writer(writer: SampleWriter) -> (r: Result<(), String>)
    requires
        writer_content(writer).fits(),
    ensures
        match r {
            Ok(()) => writer_leaves(writer) == writer_content(writer).file(),
            Err(_) => false,
        },
{
    writer.writer.finalize().map_err(|e| e.to_string())
}

/// Encodes 16-bit mono samples.
pub fn encode_wav(samples: &[i16], sample_rate: u32) -> (r: Result<Vec<u8>, String>)
    requires
        0 < sample_rate <= 0x7fff_ffff,
        samples@.len() <= MAX_SAMPLES,
    ensures
        r is Ok,
        r->Ok_0@ == wav_file(1, sample_rate as nat, 16, samples@),
{
    let mut buffer: Vec<u8> = Vec::new();
    let mut writer = match create_writer(&mut buffer, 1, sample_rate, 16) {
        Ok(writer) => writer,
        Err(e) => {
            return Err(text::join("Failed to create WAV writer: ", e.as_str()));
        },
    };
    let mut i: usize = 0;
    assert(samples@.take(0) == Seq::<i16>::empty());
    while i < samples.len()
        invariant
            i <= samples@.len() <= MAX_SAMPLES,
            0 < sample_rate <= 0x7fff_ffff,
            writer_content(writer) == (WavContent {
                channels: 1,
                sample_rate: sample_rate as nat,
                bits: 16,
                samples: samples@.take(i as int),
            }),
            after_borrow(buffer)@ == writer_leaves(writer),
        decreases samples@.len() - i,
    {
        if let Err(e) = write_sample(&mut writer, samples[i]) {
            return Err(text::join("Failed to write WAV sample: ", e.as_str()));
        }
        assert(samples@.take(i as int).push(samples@[i as int]) == samples@.take(i + 1));
        i = i + 1;
    }
    assert(samples@.take(i as int) == samples@);
    if let Err(e) = finalize_writer(writer) {
        return Err(text::join("Failed to finalize WAV: ", e.as_str()));
    }
    Ok(buffer)
}

/// The sample in two bytes, the lower first.
pub open spec fn sample_in(low: u8, high: u8) -> int {
    let code = low + 256 * high;
    if code < 0x8000 {
        code
    } else {
        code - 0x1_0000
    }
}

proof fn lemma_le_bytes_len(n: nat, width: nat)
    ensures
        le_bytes(n, width).len() == width,
    decreases width,
{
    if width > 0 {
        lemma_le_bytes_len(n / 256, (width - 1) as nat);
    }
}

proof fn lemma_header_len(channels: nat, sample_rate: nat, bits: nat, data_len: nat)
    ensures
        wav_header(channels, sample_rate, bits, data_len).len() == 44,
{
    let block = channels * (bits / 8);
    lemma_le_bytes_len(36 + data_len, 4);
    lemma_le_bytes_len(16, 4);
    lemma_le_bytes_len(1, 2);
    lemma_le_bytes_len(channels, 2);
    lemma_le_bytes_len(sample_rate, 4);
    lemma_le_bytes_len(sample_rate * block, 4);
    lemma_le_bytes_len(block, 2);
    lemma_le_bytes_len(bits, 2);
    lemma_le_bytes_len(data_len, 4);
}

/// Every sample can be read back from the file: after a header of 44 bytes the
/// samples follow in their order, two bytes each, and nothing follows them.
pub proof fn samples_can_be_read_back(sample_rate: nat, samples: Seq<i16>, i: int)
    requires
        0 <= i < samples.len(),
    ensures
        wav_file(1, sample_rate, 16, samples).len() == 44 + 2 * samples.len(),
        sample_in(
            wav_file(1, sample_rate, 16, samples)[44 + 2 * i],
            wav_file(1, sample_rate, 16, samples)[44 + 2 * i + 1],
        ) == samples[i],
{
    let file = wav_file(1, sample_rate, 16, samples);
    lemma_header_len(1, sample_rate, 16, 2 * samples.len());
    let code = sample_code(samples[i]);
    assert((2 * i) / 2 == i && (2 * i + 1) / 2 == i);
    assert(file[44 + 2 * i] == sample_bytes(samples)[2 * i]);
    assert(file[44 + 2 * i + 1] == sample_bytes(samples)[2 * i + 1]);
    assert(code < 0x1_0000);
}

} // verus!
