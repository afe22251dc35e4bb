use vstd::prelude::*;
use crate::buffer::{WavOutBuffer, overwrite};

verus! {

/// The size in bytes of the container header.
pub const HEADER_SIZE: usize = 44;
/// The sample rate of the audio rendering, in samples per second.
pub const SAMPLE_RATE: u32 = 44100;
/// The largest payload, in bytes, that the 32-bit size fields can describe.
pub const MAX_PAYLOAD: u32 = 4294967295;

/// Little-endian bytes of a 16-bit value.
pub open spec fn le16(x: u16) -> Seq<u8> {
    seq![(x % 256) as u8, (x / 256) as u8]
}

/// Little-endian bytes of a 32-bit value.
pub open spec fn le32(x: u32) -> Seq<u8> {
    seq![(x % 256) as u8, ((x / 256) % 256) as u8, ((x / 65536) % 256) as u8, (x / 16777216) as u8]
}

/// The 32-bit value of four little-endian bytes.
pub open spec fn le32_value(b: Seq<u8>) -> int {
    b[0] + 256 * b[1] + 65536 * b[2] + 16777216 * b[3]
}

/// `x + k` in the 32-bit arithmetic of the size fields.
pub open spec fn size_field(x: u32, k: int) -> u32 {
    ((x + k) % 4294967296) as u32
}

/// The settings of the container, and the count of payload bytes written.
pub struct WavOptionsView {
    pub written_data: u32,
    pub chunk_size: u32,
    pub pcm: u16,
    pub num_channels: u16,
    pub sample_rate: u32,
    pub bytes_per_second: u32,
    pub bytes_per_sample: u16,
    pub bits_per_sample: u16,
}

/// The RIFF chunk descriptor: its tag, the size of what follows (payload
/// plus 36), and the WAVE format tag.
pub open spec fn riff_part(o: WavOptionsView) -> Seq<u8> {
    seq![82u8, 73, 70, 70] + le32(size_field(o.written_data, 36)) + seq![87u8, 65, 86, 69]
}

/// The format subchunk: its tag, size, format tag, channel count, sample
/// rate, byte rate, block alignment and sample width.
pub open spec fn fmt_part(o: WavOptionsView) -> Seq<u8> {
    seq![102u8, 109, 116, 32] + le32(o.chunk_size) + le16(o.pcm) + le16(o.num_channels) + le32(
        o.sample_rate,
    ) + le32(o.bytes_per_second) + le16(o.bytes_per_sample) + le16(o.bits_per_sample)
}

/// The data subchunk's tag and size field. The field holds the payload
/// size plus 32, where the strict format holds the payload size alone;
/// the larger value is kept for byte-for-byte compatibility.
pub open spec fn data_part(o: WavOptionsView) -> Seq<u8> {
    seq![100u8, 97, 116, 97] + le32(size_field(o.written_data, 32))
}

/// The 44-byte RIFF/WAVE header for `o`.
pub open spec fn header_spec(o: WavOptionsView) -> Seq<u8> {
    riff_part(o) + fmt_part(o) + data_part(o)
}

/// The payload bytes of 16-bit samples: each one little-endian, in order.
pub open spec fn pcm_bytes(s: Seq<i16>) -> Seq<u8>
    decreases s.len(),
{
    if s.len() == 0 {
        seq![]
    } else {
        pcm_bytes(s.drop_last()) + le16(s.last() as u16)
    }
}

fn push_le16(v: &mut Vec<u8>, x: u16)
    ensures
        final(v)@ == old(v)@ + le16(x),
{
    v.push((x % 256) as u8);
    v.push((x / 256) as u8);
    assert(final(v)@ =~= old(v)@ + le16(x));
}

fn push_le32(v: &mut Vec<u8>, x: u32)
    ensures
        final(v)@ == old(v)@ + le32(x),
{
    v.push((x % 256) as u8);
    v.push(((x / 256) % 256) as u8);
    v.push(((x / 65536) % 256) as u8);
    v.push((x / 16777216) as u8);
    assert(final(v)@ =~= old(v)@ + le32(x));
}

fn push_tag(v: &mut Vec<u8>, a: u8, b: u8, c: u8, d: u8)
    ensures
        final(v)@ == old(v)@ + seq![a, b, c, d],
{
    v.push(a);
    v.push(b);
    v.push(c);
    v.push(d);
    assert(final(v)@ =~= old(v)@ + seq![a, b, c, d]);
}

/// The settings of the container: sample rate, channel count, format tag and
/// sample width, the byte rates derived from them, and the count of payload
/// bytes written so far.
#[derive(Clone, Copy, Debug)]
pub struct WavOptions {
    written_data: u32,
    chunk_size: u32,
    pcm: u16,
    num_channels: u16,
    sample_rate: u32,
    bytes_per_second: u32,
    bytes_per_sample: u16,
    bits_per_sample: u16,
}

impl View for WavOptions {
    type V = WavOptionsView;

    closed spec fn view(&self) -> WavOptionsView {
        WavOptionsView {
            written_data: self.written_data,
            chunk_size: self.chunk_size,
            pcm: self.pcm,
            num_channels: self.num_channels,
            sample_rate: self.sample_rate,
            bytes_per_second: self.bytes_per_second,
            bytes_per_sample: self.bytes_per_sample,
            bits_per_sample: self.bits_per_sample,
        }
    }
}

/// The default settings: mono 16-bit PCM at `SAMPLE_RATE`, nothing written.
pub open spec fn default_options() -> WavOptionsView {
    WavOptionsView {
        written_data: 0,
        chunk_size: 16,
        pcm: 1,
        num_channels: 1,
        sample_rate: SAMPLE_RATE,
        bytes_per_second: (SAMPLE_RATE * 2) as u32,
        bytes_per_sample: 2,
        bits_per_sample: 16,
    }
}

/// `o` with the derived byte rates recomputed from its sample width and rate.
pub open spec fn aligned(o: WavOptionsView) -> WavOptionsView {
    WavOptionsView {
        bytes_per_sample: (o.bits_per_sample / 8) as u16,
        bytes_per_second: (o.sample_rate * (o.bits_per_sample / 8)) as u32,
        ..o
    }
}

/// The byte rate of `o` fits its 32-bit field.
pub open spec fn can_align(o: WavOptionsView) -> bool {
    o.sample_rate * (o.bits_per_sample / 8) <= u32::MAX
}

impl Default for WavOptions {
    fn default() -> (r: WavOptions)
        ensures
            r@ == default_options(),
    {
        WavOptions {
            written_data: 0,
            chunk_size: 16,
            pcm: 1,
            num_channels: 1,
            sample_rate: SAMPLE_RATE,
            bytes_per_second: SAMPLE_RATE * 2,
            bytes_per_sample: 2,
            bits_per_sample: 16,
        }
    }
}

impl WavOptions {
    /// Recomputes bytes per sample and bytes per second from the sample
    /// width and rate.
    pub fn align(&mut self)
        requires
            can_align(old(self)@),
        ensures
            final(self)@ == aligned(old(self)@),
    {
        self.bytes_per_sample = self.bits_per_sample / 8;
        self.bytes_per_second = self.sample_rate * self.bytes_per_sample as u32;
    }

    /// The count of payload bytes written.
    pub fn written_data(&self) -> (r: u32)
        ensures
            r == self@.written_data,
    {
        self.written_data
    }

    /// The container header for these settings.
    pub fn header(&self) -> (r: Vec<u8>)
        ensures
            r@ == header_spec(self@),
    {
        let mut v: Vec<u8> = Vec::new();
        push_tag(&mut v, 82, 73, 70, 70);
        push_le32(&mut v, (((self.written_data as u64) + 36) % 4294967296) as u32);
        push_tag(&mut v, 87, 65, 86, 69);
        assert(v@ =~= riff_part(self@));
        let ghost riff = v@;
        push_tag(&mut v, 102, 109, 116, 32);
        push_le32(&mut v, self.chunk_size);
        push_le16(&mut v, self.pcm);
        push_le16(&mut v, self.num_channels);
        push_le32(&mut v, self.sample_rate);
        push_le32(&mut v, self.bytes_per_second);
        push_le16(&mut v, self.bytes_per_sample);
        push_le16(&mut v, self.bits_per_sample);
        assert(v@ =~= riff + fmt_part(self@));
        let ghost both = v@;
        push_tag(&mut v, 100, 97, 116, 97);
        push_le32(&mut v, (((self.written_data as u64) + 32) % 4294967296) as u32);
        assert(v@ =~= both + data_part(self@));
        v
    }
}

/// Builds a container writer from settings given one by one.
pub struct WavBuilder {
    wav_opts: WavOptions,
}

impl View for WavBuilder {
    type V = WavOptionsView;

    closed spec fn view(&self) -> WavOptionsView {
        self.wav_opts@
    }
}

impl Default for WavBuilder {
    fn default() -> (r: WavBuilder)
        ensures
            r@ == default_options(),
    {
        WavBuilder { wav_opts: WavOptions::default() }
    }
}

impl WavBuilder {
    /// A builder holding the default settings.
    pub fn new() -> (r: WavBuilder)
        ensures
            r@ == default_options(),
    {
        WavBuilder::default()
    }

    /// Sets the sample rate.
    pub fn sample_rate(&mut self, sample_rate: u32) -> (r: &mut WavBuilder)
        ensures
            r@ == (WavOptionsView { sample_rate, ..old(self)@ }),
            *final(self) == *final(r),
    {
        self.wav_opts.sample_rate = sample_rate;
        self
    }

    /// Sets the size of the format subchunk.
    pub fn chunk_size(&mut self, chunk_size: u32) -> (r: &mut WavBuilder)
        ensures
            r@ == (WavOptionsView { chunk_size, ..old(self)@ }),
            *final(self) == *final(r),
    {
        self.wav_opts.chunk_size = chunk_size;
        self
    }

    /// Sets the audio format tag.
    pub fn pcm(&mut self, pcm: u16) -> (r: &mut WavBuilder)
        ensures
            r@ == (WavOptionsView { pcm, ..old(self)@ }),
            *final(self) == *final(r),
    {
        self.wav_opts.pcm = pcm;
        self
    }

    /// Sets the channel count.
    pub fn num_channels(&mut self, num_channels: u16) -> (r: &mut WavBuilder)
        ensures
            r@ == (WavOptionsView { num_channels, ..old(self)@ }),
            *final(self) == *final(r),
    {
        self.wav_opts.num_channels = num_channels;
        self
    }

    /// Sets the sample width in bits.
    pub fn bits_per_sample(&mut self, bits_per_sample: u16) -> (r: &mut WavBuilder)
        ensures
            r@ == (WavOptionsView { bits_per_sample, ..old(self)@ }),
            *final(self) == *final(r),
    {
        self.wav_opts.bits_per_sample = bits_per_sample;
        self
    }

    /// Aligns the settings and hands them, with the destination, to a writer
    /// that has not written anything yet.
    pub fn set_output(&mut self, out_buffer: WavOutBuffer) -> (r: WavWriter<Created>)
        requires
            can_align(old(self)@),
        ensures
            final(self)@ == aligned(old(self)@),
            r.opts() == aligned(old(self)@),
            r.out() == out_buffer,
    {
        self.wav_opts.align();
        WavWriter::new(out_buffer, self.wav_opts)
    }
}

/// A state of the container writer.
pub trait WavWriterStatus {}

/// The writer holds its destination and settings; no header is written yet.
pub struct Created {}

/// The provisional header is written; payload may follow.
pub struct Initiated {}

impl WavWriterStatus for Created {}

impl WavWriterStatus for Initiated {}

/// Writes a RIFF/WAVE container into a destination. Its state is its type:
/// `Created`, then `Initiated` after `init`; `close` consumes it.
pub struct WavWriter<S: WavWriterStatus> {
    out_buffer: WavOutBuffer,
    wav_opts: WavOptions,
    header_position: usize,
    status: S,
}

impl<S: WavWriterStatus> WavWriter<S> {
    /// The destination.
    pub closed spec fn out(&self) -> WavOutBuffer {
        self.out_buffer
    }

    /// The settings, with the count of payload bytes written.
    pub closed spec fn opts(&self) -> WavOptionsView {
        self.wav_opts@
    }

    /// Where the header starts in the destination.
    pub closed spec fn anchor(&self) -> nat {
        self.header_position as nat
    }

    /// The position of an initiated writer's destination is just past the
    /// header and the payload written since.
    pub open spec fn wf(&self) -> bool {
        &&& self.out().pos() == self.anchor() + HEADER_SIZE + self.opts().written_data
        &&& self.out().pos() <= self.out().bytes().len()
    }

    fn transition<D: WavWriterStatus>(self, status: D) -> (r: WavWriter<D>)
        ensures
            r.out() == self.out(),
            r.opts() == self.opts(),
            r.anchor() == self.anchor(),
    {
        let WavWriter { out_buffer, wav_opts, header_position, status: _ } = self;
        WavWriter { out_buffer, wav_opts, header_position, status }
    }
}

impl WavWriter<Created> {
    fn new(out_buffer: WavOutBuffer, wav_opts: WavOptions) -> (r: WavWriter<Created>)
        ensures
            r.out() == out_buffer,
            r.opts() == wav_opts@,
            r.anchor() == 0,
    {
        WavWriter { out_buffer, wav_opts, header_position: 0, status: Created {  } }
    }

    /// Anchors the header at the destination's position, writes it with a
    /// payload size of zero, and starts counting payload bytes from zero.
    pub fn init(self) -> (r: WavWriter<Initiated>)
        requires
            self.out().pos() + HEADER_SIZE <= usize::MAX,
        ensures
            r.wf(),
            r.anchor() == self.out().pos(),
            r.opts() == (WavOptionsView { written_data: 0, ..self.opts() }),
            r.out().bytes() == overwrite(
                self.out().bytes(),
                self.out().pos() as int,
                header_spec(r.opts()),
            ),
            r.out().pos() == self.out().pos() + HEADER_SIZE,
    {
        let mut this = self;
        this.header_position = this.out_buffer.position();
        this.wav_opts.written_data = 0;
        let header = this.wav_opts.header();
        this.out_buffer.write_all(header.as_slice());
        this.transition(Initiated {  })
    }
}

impl WavWriter<Initiated> {
    /// Whether `n` more payload bytes can be written: the count stays within
    /// the 32-bit size fields and the position within `usize`.
    pub fn can_write(&self, n: usize) -> (r: bool)
        requires
            self.wf(),
        ensures
            r == (self.opts().written_data + n <= MAX_PAYLOAD && self.out().pos() + n
                <= usize::MAX),
    {
        let room = MAX_PAYLOAD - self.wav_opts.written_data;
        n <= room as usize && n <= usize::MAX - self.out_buffer.position()
    }

    /// Appends payload bytes and counts them; returns how many were written.
    pub fn write(&mut self, data: &[u8]) -> (r: usize)
        requires
            old(self).wf(),
            old(self).opts().written_data + data@.len() <= MAX_PAYLOAD,
            old(self).out().pos() + data@.len() <= usize::MAX,
        ensures
            r == data@.len(),
            final(self).wf(),
            final(self).anchor() == old(self).anchor(),
            final(self).opts() == (WavOptionsView {
                written_data: (old(self).opts().written_data + data@.len()) as u32,
                ..old(self).opts()
            }),
            final(self).out().bytes() == overwrite(
                old(self).out().bytes(),
                old(self).out().pos() as int,
                data@,
            ),
            final(self).out().pos() == old(self).out().pos() + data@.len(),
    {
        self.out_buffer.write_all(data);
        self.wav_opts.written_data = self.wav_opts.written_data + data.len() as u32;
        data.len()
    }

    /// Appends 16-bit samples as little-endian payload bytes.
    pub fn write_half_words(&mut self, data: &[i16])
        requires
            old(self).wf(),
            old(self).opts().written_data + 2 * data@.len() <= MAX_PAYLOAD,
            old(self).out().pos() + 2 * data@.len() <= usize::MAX,
        ensures
            final(self).wf(),
            final(self).anchor() == old(self).anchor(),
            final(self).opts() == (WavOptionsView {
                written_data: (old(self).opts().written_data + 2 * data@.len()) as u32,
                ..old(self).opts()
            }),
            final(self).out().bytes() == overwrite(
                old(self).out().bytes(),
                old(self).out().pos() as int,
                pcm_bytes(data@),
            ),
            final(self).out().pos() == old(self).out().pos() + 2 * data@.len(),
    {
        let bytes = pcm_of(data);
        self.write(bytes.as_slice());
    }

    /// Rewrites the header at its anchor with the final payload size and
    /// gives the destination back, positioned just past the header.
    pub fn close(self) -> (r: WavOutBuffer)
        requires
            self.wf(),
        ensures
            r.bytes() == overwrite(self.out().bytes(), self.anchor() as int, header_spec(self.opts())),
            r.bytes().len() == self.out().bytes().len(),
            r.pos() == self.anchor() + HEADER_SIZE,
    {
        let mut this = self;
        let last_pos = this.out_buffer.position();
        let offset = last_pos - this.header_position;
        this.out_buffer.set_position(last_pos - offset);
        let header = this.wav_opts.header();
        this.out_buffer.write_all(header.as_slice());
        this.out_buffer
    }
}

/// The payload bytes of `data`.
pub fn pcm_of(data: &[i16]) -> (r: Vec<u8>)
    ensures
        r@ == pcm_bytes(data@),
        r@.len() == 2 * data@.len(),
{
    let mut out: Vec<u8> = Vec::new();
    let mut i: usize = 0;
    while i < data.len()
        invariant
            i <= data@.len(),
            out@ == pcm_bytes(data@.subrange(0, i as int)),
            out@.len() == 2 * i,
        decreases data@.len() - i,
    {
        proof {
            assert(data@.subrange(0, i + 1).drop_last() =~= data@.subrange(0, i as int));
        }
        push_le16(&mut out, data[i] as u16);
        i = i + 1;
    }
    assert(data@.subrange(0, data@.len() as int) =~= data@);
    out
}


/// Four little-endian bytes read back give the value written.
pub proof fn lemma_le32_value(x: u32)
    ensures
        le32_value(le32(x)) == x,
{
    let b = le32(x);
    assert(b[0] == x % 256);
    assert(b[1] == (x / 256) % 256);
    assert(b[2] == (x / 65536) % 256);
    assert(b[3] == x / 16777216);
}

/// The bytes just written can be read back where they were written.
pub proof fn lemma_overwrite_window(d: Seq<u8>, p: int, a: Seq<u8>, i: int, j: int)
    requires
        0 <= p,
        0 <= i <= j <= a.len(),
    ensures
        overwrite(d, p, a).subrange(p + i, p + j) == a.subrange(i, j),
{
    assert(overwrite(d, p, a).subrange(p + i, p + j) =~= a.subrange(i, j));
}

/// The two size fields of the header, where they stand.
proof fn lemma_size_fields(o: WavOptionsView)
    ensures
        header_spec(o).len() == HEADER_SIZE,
        header_spec(o).subrange(4, 8) == le32(size_field(o.written_data, 36)),
        header_spec(o).subrange(40, 44) == le32(size_field(o.written_data, 32)),
{
    let r = riff_part(o);
    let f = fmt_part(o);
    let t = data_part(o);
    assert(r.len() == 12 && f.len() == 24 && t.len() == 8);
    assert(r.subrange(4, 8) =~= le32(size_field(o.written_data, 36)));
    assert(t.subrange(4, 8) =~= le32(size_field(o.written_data, 32)));
    assert(header_spec(o).subrange(4, 8) =~= r.subrange(4, 8));
    assert(header_spec(o).subrange(40, 44) =~= t.subrange(4, 8));
}

/// Once the header of a container whose payload size is `o.written_data`
/// has been written at `p`, bytes `p + 40 .. p + 44` read as that size plus
/// 32, and bytes `p + 4 .. p + 8` as that size plus 36.
pub proof fn lemma_header_sizes(d: Seq<u8>, p: int, o: WavOptionsView)
    requires
        0 <= p,
        o.written_data + 36 <= u32::MAX,
    ensures
        le32_value(overwrite(d, p, header_spec(o)).subrange(p + 40, p + 44)) == o.written_data + 32,
        le32_value(overwrite(d, p, header_spec(o)).subrange(p + 4, p + 8)) == o.written_data + 36,
{
    lemma_size_fields(o);
    lemma_overwrite_window(d, p, header_spec(o), 40, 44);
    lemma_overwrite_window(d, p, header_spec(o), 4, 8);
    lemma_le32_value(size_field(o.written_data, 32));
    lemma_le32_value(size_field(o.written_data, 36));
}


/// Each sample takes two payload bytes.
pub proof fn lemma_pcm_len(s: Seq<i16>)
    ensures
        pcm_bytes(s).len() == 2 * s.len(),
    decreases s.len(),
{
    if s.len() > 0 {
        lemma_pcm_len(s.drop_last());
    }
}


/// The bytes of a complete mono 16-bit container of `data` at
/// `sample_rate`, laid out with the RIFF size `20 + payload`, a byte rate
/// equal to the sample rate, and the exact payload size.
pub open spec fn plain_wav_bytes(data: Seq<i16>, sample_rate: u32) -> Seq<u8> {
    seq![82u8, 73, 70, 70] + le32((20 + 2 * data.len()) as u32) + seq![87u8, 65, 86, 69] + seq![
        102u8,
        109,
        116,
        32,
    ] + le32(16) + le16(1) + le16(1) + le32(sample_rate) + le32(sample_rate) + le16(2) + le16(16)
        + seq![100u8, 97, 116, 97] + le32((2 * data.len()) as u32) + pcm_bytes(data)
}

/// Writes `data` as a complete container in one pass, header first, at the
/// destination's position.
pub fn write_wav(data: Vec<i16>, sample_rate: u32, writer: &mut WavOutBuffer)
    requires
        20 + 2 * data@.len() <= u32::MAX,
        old(writer).pos() + HEADER_SIZE + 2 * data@.len() <= usize::MAX,
    ensures
        final(writer).bytes() == overwrite(
            old(writer).bytes(),
            old(writer).pos() as int,
            plain_wav_bytes(data@, sample_rate),
        ),
        final(writer).pos() == old(writer).pos() + HEADER_SIZE + 2 * data@.len(),
{
    let nsamples = data.len() * 2;
    let mut v: Vec<u8> = Vec::new();
    push_tag(&mut v, 82, 73, 70, 70);
    push_le32(&mut v, 20 + nsamples as u32);
    push_tag(&mut v, 87, 65, 86, 69);
    push_tag(&mut v, 102, 109, 116, 32);
    push_le32(&mut v, 16);
    push_le16(&mut v, 1);
    push_le16(&mut v, 1);
    push_le32(&mut v, sample_rate);
    push_le32(&mut v, sample_rate);
    push_le16(&mut v, 2);
    push_le16(&mut v, 16);
    push_tag(&mut v, 100, 97, 116, 97);
    push_le32(&mut v, nsamples as u32);
    let mut payload = pcm_of(data.as_slice());
    v.append(&mut payload);
    assert(v@ =~= plain_wav_bytes(data@, sample_rate));
    writer.write_all(v.as_slice());
}

} // verus!
