use vstd::prelude::*;
use crate::buffer::{WavOutBuffer, overwrite};
use crate::codec::{
    concat_morse, concat_text, decode_line, decode_spec, encode_line, encode_spec, humans,
    join_morse,
};
use crate::error::{BuilderField, MorseError, is_unsupported};
use crate::symbol::Symbol;
use crate::wav::{
    HEADER_SIZE, MAX_PAYLOAD, SAMPLE_RATE, WavBuilder, WavOptionsView, default_options,
    header_spec, lemma_pcm_len, pcm_bytes,
};
use vstd::utf8::encode_utf8;

verus! {

/// The separator between the lines of a text translation.
pub const NEWLINE: u8 = 10;

/// The direction of a translation.
#[derive(Clone, Copy, Debug, PartialEq, Eq, Structural)]
pub enum MorseCommand {
    /// From text to Morse code.
    Encode,
    /// From Morse code to text.
    Decode,
}

/// Where a translation goes: text, or the audio rendering in a container.
#[derive(Clone, Copy, Debug, PartialEq, Eq, Structural)]
pub enum MorseTraductionType {
    Text,
    Audio,
}

/// The UTF-8 bytes of each line.
#[verifier::opaque]
pub open spec fn lines_bytes(v: Seq<String>) -> Seq<Seq<u8>> {
    v.map_values(|s: String| encode_utf8(s@))
}

/// The symbols of one line in the direction `cmd`, or the offending input.
pub open spec fn line_symbols(cmd: MorseCommand, line: Seq<u8>) -> Result<Seq<u8>, Seq<u8>> {
    match cmd {
        MorseCommand::Encode => encode_spec(line),
        MorseCommand::Decode => decode_spec(line),
    }
}

/// The text of one translated line: patterns separated by spaces when
/// encoding, human characters side by side when decoding.
pub open spec fn line_text(cmd: MorseCommand, hs: Seq<u8>) -> Seq<u8> {
    match cmd {
        MorseCommand::Encode => join_morse(hs),
        MorseCommand::Decode => hs,
    }
}

/// Every line translates.
pub open spec fn translates(cmd: MorseCommand, lines: Seq<Seq<u8>>) -> bool {
    forall|i: int| 0 <= i < lines.len() ==> (#[trigger] line_symbols(cmd, lines[i])) is Ok
}

/// The index of the first line that does not translate.
pub open spec fn first_failing(cmd: MorseCommand, lines: Seq<Seq<u8>>) -> int {
    choose|i: int|
        0 <= i < lines.len() && line_symbols(cmd, lines[i]) is Err && forall|k: int|
            0 <= k < i ==> (#[trigger] line_symbols(cmd, lines[k])) is Ok
}

/// The text translation of `lines`: the translated lines separated by
/// newlines, with none after the last.
pub open spec fn text_output(cmd: MorseCommand, lines: Seq<Seq<u8>>) -> Seq<u8>
    decreases lines.len(),
{
    if lines.len() == 0 {
        seq![]
    } else if lines.len() == 1 {
        line_text(cmd, line_symbols(cmd, lines[0])->Ok_0)
    } else {
        text_output(cmd, lines.drop_last()) + seq![NEWLINE] + line_text(
            cmd,
            line_symbols(cmd, lines.last())->Ok_0,
        )
    }
}

/// What a text translation has written when line `k` fails: the lines
/// before it, each followed by a newline.
pub open spec fn text_committed(cmd: MorseCommand, lines: Seq<Seq<u8>>, k: int) -> Seq<u8> {
    if k == 0 {
        seq![]
    } else {
        text_output(cmd, lines.subrange(0, k)) + seq![NEWLINE]
    }
}

/// The symbols of all lines, one stream.
pub open spec fn all_symbols(cmd: MorseCommand, lines: Seq<Seq<u8>>) -> Seq<u8>
    decreases lines.len(),
{
    if lines.len() == 0 {
        seq![]
    } else {
        all_symbols(cmd, lines.drop_last()) + line_symbols(cmd, lines.last())->Ok_0
    }
}

/// The container settings of the audio rendering, with `n` payload bytes.
pub open spec fn audio_options(n: int) -> WavOptionsView {
    WavOptionsView { written_data: n as u32, ..default_options() }
}

/// `d` after a container of `samples` is written at `p`: a provisional
/// header, the payload after it, then the final header over the first.
pub open spec fn container_written(d: Seq<u8>, p: int, samples: Seq<i16>) -> Seq<u8> {
    overwrite(
        overwrite(overwrite(d, p, header_spec(audio_options(0))), p + HEADER_SIZE, pcm_bytes(samples)),
        p,
        header_spec(audio_options(2 * samples.len() as int)),
    )
}

/// What a text translation in the direction `cmd` leaves, from `old` to
/// `new`, with the result `r`.
pub open spec fn text_outcome(
    cmd: MorseCommand,
    old: StreamedMorseTranslator,
    new: StreamedMorseTranslator,
    r: Result<(), MorseError>,
) -> bool {
    let ls = old.lines();
    let d = old.output().bytes();
    let p = old.output().pos();
    &&& new.lines() == ls
    &&& new.mode() == old.mode()
    &&& if translates(cmd, ls) {
        let t = text_output(cmd, ls);
        if p + t.len() <= usize::MAX {
            &&& r is Ok
            &&& new.output().bytes() == overwrite(d, p as int, t)
            &&& new.output().pos() == p + t.len()
        } else {
            &&& r == Err::<(), MorseError>(MorseError::PositionOverflow)
            &&& new.output() == old.output()
        }
    } else {
        let k = first_failing(cmd, ls);
        let t = text_committed(cmd, ls, k);
        &&& r matches Err(e) && is_unsupported(&e, line_symbols(cmd, ls[k])->Err_0)
        &&& p + t.len() <= usize::MAX ==> new.output().bytes() == overwrite(d, p as int, t)
        &&& p + t.len() > usize::MAX ==> new.output() == old.output()
    }
}

/// What writing the container of `samples` leaves, from `old` to `new`,
/// with the result `r`.
pub open spec fn audio_outcome(
    old: StreamedMorseTranslator,
    new: StreamedMorseTranslator,
    samples: Seq<i16>,
    r: Result<(), MorseError>,
) -> bool {
    let d = old.output().bytes();
    let p = old.output().pos();
    let n = samples.len();
    &&& new.lines() == old.lines()
    &&& new.mode() == old.mode()
    &&& if 2 * n > MAX_PAYLOAD {
        &&& r == Err::<(), MorseError>(MorseError::ContainerOverflow)
        &&& new.output() == old.output()
    } else if p + HEADER_SIZE + 2 * n > usize::MAX {
        &&& r == Err::<(), MorseError>(MorseError::PositionOverflow)
        &&& new.output() == old.output()
    } else {
        &&& r is Ok
        &&& new.output().bytes() == container_written(d, p as int, samples)
        &&& new.output().pos() == p + HEADER_SIZE
    }
}

/// A container written at the end of the destination appends the final
/// header, then the payload: with no samples, a header of 44 bytes that
/// declares an empty payload.
pub proof fn lemma_container_layout(d: Seq<u8>, samples: Seq<i16>)
    ensures
        container_written(d, d.len() as int, samples) == d + header_spec(
            audio_options(2 * samples.len() as int),
        ) + pcm_bytes(samples),
        header_spec(audio_options(2 * samples.len() as int)).len() == HEADER_SIZE,
{
    lemma_pcm_len(samples);
    assert(container_written(d, d.len() as int, samples) =~= d + header_spec(
        audio_options(2 * samples.len() as int),
    ) + pcm_bytes(samples));
}

/// Translates a sequence of lines into a destination, as text or as a
/// container of audio samples.
pub struct StreamedMorseTranslator {
    input_stream: Vec<String>,
    output_stream: WavOutBuffer,
    traduction_type: MorseTraductionType,
}

fn line_of(s: &String) -> (r: &[u8])
    ensures
        r@ == encode_utf8(s@),
{
    s.as_str().as_bytes()
}

fn symbols_of(command: MorseCommand, line: &[u8]) -> (r: Result<Vec<Symbol>, MorseError>)
    ensures
        match r {
            Ok(v) => line_symbols(command, line@) == Ok::<Seq<u8>, Seq<u8>>(humans(v@)),
            Err(e) => line_symbols(command, line@) is Err && is_unsupported(
                &e,
                line_symbols(command, line@)->Err_0,
            ),
        },
{
    match command {
        MorseCommand::Encode => encode_line(line),
        MorseCommand::Decode => decode_line(line),
    }
}

fn text_of(command: MorseCommand, syms: &Vec<Symbol>) -> (r: Vec<u8>)
    ensures
        r@ == line_text(command, humans(syms@)),
{
    match command {
        MorseCommand::Encode => concat_morse(syms),
        MorseCommand::Decode => concat_text(syms),
    }
}

proof fn lemma_line_bytes(v: Seq<String>, i: int)
    requires
        0 <= i < v.len(),
    ensures
        lines_bytes(v).len() == v.len(),
        lines_bytes(v)[i] == encode_utf8(v[i]@),
{
    reveal(lines_bytes);
}

proof fn lemma_text_output_step(cmd: MorseCommand, ls: Seq<Seq<u8>>, i: int)
    requires
        0 <= i < ls.len(),
    ensures
        text_output(cmd, ls.subrange(0, i + 1)) == if i == 0 {
            line_text(cmd, line_symbols(cmd, ls[i])->Ok_0)
        } else {
            text_output(cmd, ls.subrange(0, i)) + seq![NEWLINE] + line_text(
                cmd,
                line_symbols(cmd, ls[i])->Ok_0,
            )
        },
{
    let sub = ls.subrange(0, i + 1);
    assert(sub.drop_last() =~= ls.subrange(0, i));
}

proof fn lemma_first_failing(cmd: MorseCommand, ls: Seq<Seq<u8>>, i: int)
    requires
        0 <= i < ls.len(),
        line_symbols(cmd, ls[i]) is Err,
        forall|k: int| 0 <= k < i ==> (#[trigger] line_symbols(cmd, ls[k])) is Ok,
    ensures
        first_failing(cmd, ls) == i,
        !translates(cmd, ls),
{
    let j = first_failing(cmd, ls);
    if j < i {
        assert(line_symbols(cmd, ls[j]) is Ok);
    } else if j > i {
        assert(line_symbols(cmd, ls[i]) is Ok);
    }
}

proof fn lemma_all_symbols_step(cmd: MorseCommand, ls: Seq<Seq<u8>>, i: int)
    requires
        0 <= i < ls.len(),
    ensures
        all_symbols(cmd, ls.subrange(0, i + 1)) == all_symbols(cmd, ls.subrange(0, i))
            + line_symbols(cmd, ls[i])->Ok_0,
{
    let sub = ls.subrange(0, i + 1);
    assert(sub.drop_last() =~= ls.subrange(0, i));
}

impl StreamedMorseTranslator {
    /// The input lines, as bytes.
    pub closed spec fn lines(&self) -> Seq<Seq<u8>> {
        lines_bytes(self.input_stream@)
    }

    /// The destination.
    pub closed spec fn output(&self) -> WavOutBuffer {
        self.output_stream
    }

    /// The kind of output.
    pub closed spec fn mode(&self) -> MorseTraductionType {
        self.traduction_type
    }

    /// The destination, to inspect what was written.
    pub fn output_stream(&self) -> (r: &WavOutBuffer)
        ensures
            *r == self.output(),
    {
        &self.output_stream
    }

    /// Gives the destination back.
    pub fn into_output(self) -> (r: WavOutBuffer)
        ensures
            r == self.output(),
    {
        self.output_stream
    }

    /// The kind of output.
    pub fn traduction_type(&self) -> (r: MorseTraductionType)
        ensures
            r == self.mode(),
    {
        self.traduction_type
    }

    /// Writes the text translation of the lines at the destination's
    /// position. A line that does not translate ends the pass with its
    /// offending input; the lines before it stay written.
    pub fn translate_to_text(&mut self, command: MorseCommand) -> (r: Result<(), MorseError>)
        ensures
            text_outcome(command, *old(self), *final(self), r),
    {
        let ghost ls = self.lines();
        proof {
            reveal(lines_bytes);
        }
        let mut text: Vec<u8> = Vec::new();
        let n = self.input_stream.len();
        let mut i: usize = 0;
        while i < n
            invariant
                *self == *old(self),
                n == self.input_stream@.len(),
                ls == self.lines(),
                ls.len() == n,
                i <= n,
                text@ == text_output(command, ls.subrange(0, i as int)),
                forall|k: int| 0 <= k < i ==> (#[trigger] line_symbols(command, ls[k])) is Ok,
            decreases n - i,
        {
            if i > 0 {
                text.push(NEWLINE);
            }
            let ghost before = text@;
            let line = line_of(&self.input_stream[i]);
            proof {
                lemma_line_bytes(self.input_stream@, i as int);
            }
            match symbols_of(command, line) {
                Ok(syms) => {
                    let mut out = text_of(command, &syms);
                    text.append(&mut out);
                    proof {
                        lemma_text_output_step(command, ls, i as int);
                    }
                },
                Err(e) => {
                    proof {
                        lemma_first_failing(command, ls, i as int);
                        assert(text@ =~= text_committed(command, ls, i as int));
                    }
                    if text.len() <= usize::MAX - self.output_stream.position() {
                        self.output_stream.write_all(text.as_slice());
                    }
                    return Err(e);
                },
            }
            i = i + 1;
        }
        assert(ls.subrange(0, n as int) =~= ls);
        if text.len() <= usize::MAX - self.output_stream.position() {
            self.output_stream.write_all(text.as_slice());
            Ok(())
        } else {
            Err(MorseError::PositionOverflow)
        }
    }

    /// The symbols of all input lines as one stream, in the direction
    /// `command`; the first line that does not translate fails the whole.
    pub fn audio_symbols(&self, command: MorseCommand) -> (r: Result<Vec<Symbol>, MorseError>)
        ensures
            match r {
                Ok(v) => translates(command, self.lines()) && humans(v@) == all_symbols(
                    command,
                    self.lines(),
                ),
                Err(e) => !translates(command, self.lines()) && is_unsupported(
                    &e,
                    line_symbols(command, self.lines()[first_failing(command, self.lines())])->Err_0,
                ),
            },
    {
        let ghost ls = self.lines();
        proof {
            reveal(lines_bytes);
        }
        let mut out: Vec<Symbol> = Vec::new();
        let n = self.input_stream.len();
        let mut i: usize = 0;
        while i < n
            invariant
                n == self.input_stream@.len(),
                ls == self.lines(),
                ls.len() == n,
                i <= n,
                humans(out@) == all_symbols(command, ls.subrange(0, i as int)),
                forall|k: int| 0 <= k < i ==> (#[trigger] line_symbols(command, ls[k])) is Ok,
            decreases n - i,
        {
            let line = line_of(&self.input_stream[i]);
            proof {
                lemma_line_bytes(self.input_stream@, i as int);
            }
            match symbols_of(command, line) {
                Ok(syms) => {
                    let ghost prev = out@;
                    let mut syms = syms;
                    proof {
                        lemma_all_symbols_step(command, ls, i as int);
                        assert(humans(prev + syms@) =~= humans(prev) + humans(syms@));
                    }
                    out.append(&mut syms);
                },
                Err(e) => {
                    proof {
                        lemma_first_failing(command, ls, i as int);
                    }
                    return Err(e);
                },
            }
            i = i + 1;
        }
        assert(ls.subrange(0, n as int) =~= ls);
        Ok(out)
    }

    /// Writes `samples` as one container at the destination's position:
    /// the provisional header, the payload, then the final header.
    pub fn translate_to_audio(&mut self, samples: &[i16]) -> (r: Result<(), MorseError>)
        ensures
            audio_outcome(*old(self), *final(self), samples@, r),
    {
        let pos = self.output_stream.position();
        if samples.len() > (MAX_PAYLOAD / 2) as usize {
            return Err(MorseError::ContainerOverflow);
        }
        if pos > usize::MAX - HEADER_SIZE || 2 * samples.len() > usize::MAX - HEADER_SIZE - pos {
            return Err(MorseError::PositionOverflow);
        }
        let mut out = WavOutBuffer::new();
        core::mem::swap(&mut out, &mut self.output_stream);
        let mut builder = WavBuilder::new();
        builder.sample_rate(SAMPLE_RATE);
        let wav = builder.set_output(out);
        let mut wav = wav.init();
        assert(wav.opts() == audio_options(0));
        wav.write_half_words(samples);
        assert(wav.opts() == audio_options(2 * samples@.len() as int));
        let mut done = wav.close();
        core::mem::swap(&mut done, &mut self.output_stream);
        Ok(())
    }


    /// Translates the input lines in the direction `command`. In text mode
    /// the translated lines go to the destination; in audio mode the whole
    /// symbol stream is handed to `render` and its samples are written as
    /// one container.
    pub fn translate<F: Fn(&[Symbol]) -> Vec<i16>>(
        &mut self,
        command: MorseCommand,
        render: F,
    ) -> (r: Result<(), MorseError>)
        requires
            forall|s: &[Symbol]| #[trigger] render.requires((s,)),
        ensures
            old(self).mode() == MorseTraductionType::Text ==> text_outcome(
                command,
                *old(self),
                *final(self),
                r,
            ),
            old(self).mode() == MorseTraductionType::Audio ==> if translates(
                command,
                old(self).lines(),
            ) {
                exists|s: &[Symbol], samples: Vec<i16>|
                    humans(s@) == all_symbols(command, old(self).lines()) && #[trigger] render.ensures(
                        (s,),
                        samples,
                    ) && audio_outcome(*old(self), *final(self), samples@, r)
            } else {
                &&& *final(self) == *old(self)
                &&& r matches Err(e) && is_unsupported(
                    &e,
                    line_symbols(
                        command,
                        old(self).lines()[first_failing(command, old(self).lines())],
                    )->Err_0,
                )
            },
    {
        match self.traduction_type {
            MorseTraductionType::Text => self.translate_to_text(command),
            MorseTraductionType::Audio => {
                let syms = match self.audio_symbols(command) {
                    Ok(v) => v,
                    Err(e) => {
                        return Err(e);
                    },
                };
                let stream = syms.as_slice();
                let samples = render(stream);
                let r = self.translate_to_audio(samples.as_slice());
                assert(render.ensures((stream,), samples));
                r
            },
        }
    }

}


fn clone_lines(v: &Vec<String>) -> (r: Vec<String>)
    ensures
        lines_bytes(r@) == lines_bytes(v@),
{
    let mut out: Vec<String> = Vec::new();
    let mut i: usize = 0;
    while i < v.len()
        invariant
            i <= v@.len(),
            out@.len() == i,
            forall|k: int| 0 <= k < i ==> (#[trigger] out@[k])@ == v@[k]@,
        decreases v@.len() - i,
    {
        out.push(v[i].clone());
        i = i + 1;
    }
    proof {
        reveal(lines_bytes);
        assert(lines_bytes(out@) =~= lines_bytes(v@));
    }
    out
}

/// Gathers what a translator needs: the input lines and the destination,
/// both required, and the kind of output, text unless set.
pub struct TranslatorBuilder {
    traduction_type: MorseTraductionType,
    input_stream: Option<Vec<String>>,
    output_stream: Option<WavOutBuffer>,
}

impl TranslatorBuilder {
    /// The kind of output.
    pub closed spec fn mode(&self) -> MorseTraductionType {
        self.traduction_type
    }

    /// The input lines as bytes, once given.
    pub closed spec fn input(&self) -> Option<Seq<Seq<u8>>> {
        match self.input_stream {
            Some(v) => Some(lines_bytes(v@)),
            None => None,
        }
    }

    /// The destination, once given.
    pub closed spec fn output(&self) -> Option<WavOutBuffer> {
        self.output_stream
    }

    /// A builder with nothing given and text output.
    pub fn new() -> (r: TranslatorBuilder)
        ensures
            r.mode() == MorseTraductionType::Text,
            r.input() is None,
            r.output() is None,
    {
        TranslatorBuilder::default()
    }

    /// Gives the input lines.
    pub fn input_stream(&mut self, input_stream: Vec<String>) -> (r: &mut TranslatorBuilder)
        ensures
            r.input() == Some(lines_bytes(input_stream@)),
            r.output() == old(self).output(),
            r.mode() == old(self).mode(),
            *final(self) == *final(r),
    {
        self.input_stream = Some(input_stream);
        self
    }

    /// Gives the destination.
    pub fn output_stream(&mut self, out_stream: WavOutBuffer) -> (r: &mut TranslatorBuilder)
        ensures
            r.output() == Some(out_stream),
            r.input() == old(self).input(),
            r.mode() == old(self).mode(),
            *final(self) == *final(r),
    {
        self.output_stream = Some(out_stream);
        self
    }

    /// Sets the kind of output.
    pub fn traduction_type(&mut self, traduction_type: MorseTraductionType) -> (r:
        &mut TranslatorBuilder)
        ensures
            r.mode() == traduction_type,
            r.input() == old(self).input(),
            r.output() == old(self).output(),
            *final(self) == *final(r),
    {
        self.traduction_type = traduction_type;
        self
    }

    /// A translator over copies of what was given; fails naming the first
    /// required field that is missing, the input lines before the destination.
    pub fn build_streamed(&self) -> (r: Result<StreamedMorseTranslator, MorseError>)
        ensures
            match r {
                Ok(t) => {
                    &&& self.input() == Some(t.lines())
                    &&& self.output() is Some
                    &&& t.output().bytes() == self.output()->Some_0.bytes()
                    &&& t.output().pos() == self.output()->Some_0.pos()
                    &&& t.mode() == self.mode()
                },
                Err(e) => if self.input() is None {
                    e == MorseError::MissingBuilderField(BuilderField::InputStream)
                } else {
                    &&& self.output() is None
                    &&& e == MorseError::MissingBuilderField(BuilderField::OutputStream)
                },
            },
    {
        let input_stream = match &self.input_stream {
            Some(v) => clone_lines(v),
            None => {
                return Err(MorseError::MissingBuilderField(BuilderField::InputStream));
            },
        };
        let output_stream = match &self.output_stream {
            Some(b) => b.duplicate(),
            None => {
                return Err(MorseError::MissingBuilderField(BuilderField::OutputStream));
            },
        };
        Ok(StreamedMorseTranslator {
            input_stream,
            output_stream,
            traduction_type: self.traduction_type,
        })
    }
}

impl Default for TranslatorBuilder {
    fn default() -> (r: TranslatorBuilder)
        ensures
            r.mode() == MorseTraductionType::Text,
            r.input() is None,
            r.output() is None,
    {
        TranslatorBuilder {
            input_stream: None,
            output_stream: None,
            traduction_type: MorseTraductionType::Text,
        }
    }
}

} // verus!
