use morse_traducer::buffer::WavOutBuffer;
use morse_traducer::error::{BuilderField, MorseError};
use morse_traducer::symbol::Symbol;
use morse_traducer::translator::{
    MorseCommand, MorseTraductionType, StreamedMorseTranslator, TranslatorBuilder,
};

fn silent(_: &[Symbol]) -> Vec<i16> {
    Vec::new()
}

fn build(lines: &[&str], kind: MorseTraductionType) -> StreamedMorseTranslator {
    let input: Vec<String> = lines.iter().map(|l| l.to_string()).collect();
    TranslatorBuilder::new()
        .input_stream(input)
        .output_stream(WavOutBuffer::new())
        .traduction_type(kind)
        .build_streamed()
        .unwrap()
}

fn text_of(t: &StreamedMorseTranslator) -> String {
    String::from_utf8(t.output_stream().get_ref().clone()).unwrap()
}

fn le32_at(b: &[u8], i: usize) -> u32 {
    u32::from_le_bytes([b[i], b[i + 1], b[i + 2], b[i + 3]])
}

#[test]
fn test_main() {
    let input = vec!["Hello World".into()];
    let mut translator = TranslatorBuilder::new()
        .input_stream(input)
        .output_stream(WavOutBuffer::new())
        .build_streamed()
        .unwrap();
    translator.translate(MorseCommand::Encode, silent).unwrap();
    let result = std::str::from_utf8(translator.output_stream().get_ref()).unwrap().to_string();
    println!("{:?}", result);
    assert_eq!(result, ".... . .-.. .-.. --- / .-- --- .-. .-.. -..");
}

#[test]
fn encode_hello_world_text() {
    let mut t = build(&["Hello World"], MorseTraductionType::Text);
    t.translate(MorseCommand::Encode, silent).unwrap();
    let out = text_of(&t);
    assert_eq!(out, ".... . .-.. .-.. --- / .-- --- .-. .-.. -..");
    assert!(!out.ends_with('\n'));
}

#[test]
fn decode_hello_text() {
    let mut t = build(&[".... . .-.. .-.. ---"], MorseTraductionType::Text);
    t.translate(MorseCommand::Decode, silent).unwrap();
    assert_eq!(text_of(&t), "hello");
}

#[test]
fn decode_words_and_extra_whitespace() {
    let mut t = build(&["  ... ---\t... / ..---  "], MorseTraductionType::Text);
    t.translate(MorseCommand::Decode, silent).unwrap();
    assert_eq!(text_of(&t), "sos 2");
}

#[test]
fn text_lines_are_newline_separated() {
    let mut t = build(&["sos", "E T"], MorseTraductionType::Text);
    t.translate(MorseCommand::Encode, silent).unwrap();
    assert_eq!(text_of(&t), "... --- ...\n. / -");
}

#[test]
fn empty_input_gives_empty_text() {
    let mut t = build(&[], MorseTraductionType::Text);
    t.translate(MorseCommand::Encode, silent).unwrap();
    assert_eq!(text_of(&t), "");
}

#[test]
fn unsupported_hash_in_text_mode() {
    let mut t = build(&["a#b"], MorseTraductionType::Text);
    let r = t.translate(MorseCommand::Encode, silent);
    assert_eq!(r, Err(MorseError::UnsupportedSymbol(b"#".to_vec())));
    assert!(t.output_stream().get_ref().is_empty());
}

#[test]
fn unsupported_hash_in_audio_mode() {
    let mut t = build(&["ok", "#"], MorseTraductionType::Audio);
    let r = t.translate(MorseCommand::Encode, silent);
    assert_eq!(r, Err(MorseError::UnsupportedSymbol(b"#".to_vec())));
    assert!(t.output_stream().get_ref().is_empty());
}

#[test]
fn failing_line_keeps_earlier_lines() {
    let mut t = build(&["sos", "a#"], MorseTraductionType::Text);
    let r = t.translate(MorseCommand::Encode, silent);
    assert_eq!(r, Err(MorseError::UnsupportedSymbol(b"#".to_vec())));
    assert_eq!(text_of(&t), "... --- ...\n");
}

#[test]
fn unknown_morse_token() {
    let mut t = build(&["... .-.-.-.-"], MorseTraductionType::Text);
    let r = t.translate(MorseCommand::Decode, silent);
    assert_eq!(r, Err(MorseError::UnsupportedSymbol(b".-.-.-.-".to_vec())));
}

#[test]
fn audio_empty_input_writes_header_only() {
    let mut t = build(&[], MorseTraductionType::Audio);
    t.translate(MorseCommand::Encode, silent).unwrap();
    let b = t.output_stream().get_ref().clone();
    assert_eq!(b.len(), 44);
    assert_eq!(&b[0..4], b"RIFF");
    assert_eq!(le32_at(&b, 4), 36);
    assert_eq!(&b[8..12], b"WAVE");
    assert_eq!(&b[12..16], b"fmt ");
    assert_eq!(le32_at(&b, 16), 16);
    assert_eq!(&b[20..24], &[1, 0, 1, 0]);
    assert_eq!(le32_at(&b, 24), 44100);
    assert_eq!(le32_at(&b, 28), 88200);
    assert_eq!(&b[32..36], &[2, 0, 16, 0]);
    assert_eq!(&b[36..40], b"data");
    assert_eq!(le32_at(&b, 40), 32);
}

#[test]
fn audio_renders_the_whole_stream() {
    let mut t = build(&["E", "t"], MorseTraductionType::Audio);
    let seen = std::cell::RefCell::new(Vec::new());
    let render = |s: &[Symbol]| {
        seen.borrow_mut().extend(s.iter().map(|x| x.human()));
        vec![1i16, -1, 256]
    };
    t.translate(MorseCommand::Encode, render).unwrap();
    assert_eq!(*seen.borrow(), b"et".to_vec());
    let b = t.output_stream().get_ref().clone();
    assert_eq!(b.len(), 50);
    assert_eq!(le32_at(&b, 4), 6 + 36);
    assert_eq!(le32_at(&b, 40), 6 + 32);
    assert_eq!(&b[44..], &[1, 0, 255, 255, 0, 1]);
    assert_eq!(t.output_stream().position(), 44);
}

#[test]
fn audio_symbols_flatten_lines() {
    let t = build(&["... ---", "..."], MorseTraductionType::Audio);
    let syms = t.audio_symbols(MorseCommand::Decode).unwrap();
    let hs: Vec<u8> = syms.iter().map(|s| s.human()).collect();
    assert_eq!(hs, b"sos".to_vec());
}

#[test]
fn builder_requires_input() {
    let r = TranslatorBuilder::new().output_stream(WavOutBuffer::new()).build_streamed();
    assert_eq!(r.err(), Some(MorseError::MissingBuilderField(BuilderField::InputStream)));
    let r = TranslatorBuilder::new().build_streamed();
    assert_eq!(r.err(), Some(MorseError::MissingBuilderField(BuilderField::InputStream)));
}

#[test]
fn builder_requires_output() {
    let r = TranslatorBuilder::new().input_stream(vec!["a".to_string()]).build_streamed();
    assert_eq!(r.err(), Some(MorseError::MissingBuilderField(BuilderField::OutputStream)));
}

#[test]
fn builder_defaults_to_text() {
    let t = TranslatorBuilder::new()
        .input_stream(vec![])
        .output_stream(WavOutBuffer::new())
        .build_streamed()
        .unwrap();
    assert_eq!(t.traduction_type(), MorseTraductionType::Text);
}

#[test]
fn text_writes_at_destination_position() {
    let mut out = WavOutBuffer::from_bytes(b"xxxxxxxxxx".to_vec());
    out.set_position(2);
    let mut t = TranslatorBuilder::new()
        .input_stream(vec!["et".to_string()])
        .output_stream(out)
        .build_streamed()
        .unwrap();
    t.translate(MorseCommand::Encode, silent).unwrap();
    assert_eq!(text_of(&t), "xx. -xxxxx");
    assert_eq!(t.into_output().position(), 5);
}
