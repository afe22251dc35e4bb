use morse_traducer::codec::{concat_morse, concat_text, decode_line, encode_line, split_tokens};
use morse_traducer::error::MorseError;
use morse_traducer::symbol::{lookup_by_human, lookup_by_morse};

#[test]
fn round_trip_folds_case() {
    let line = b"Sos 123 Hello World 0987654";
    let encoded = concat_morse(&encode_line(line).unwrap());
    let decoded = concat_text(&decode_line(&encoded).unwrap());
    assert_eq!(decoded, b"sos 123 hello world 0987654".to_vec());
}

#[test]
fn every_entry_is_found_by_its_pattern() {
    let humans = b"abcdefghijklmnopqrstuvwxyz0123456789 ";
    assert_eq!(humans.len(), 37);
    let mut patterns = Vec::new();
    for &c in humans.iter() {
        let s = lookup_by_human(c).unwrap();
        assert_eq!(s.human(), c);
        let back = lookup_by_morse(&s.morse()).unwrap();
        assert_eq!(back, s);
        patterns.push(s.morse());
    }
    patterns.sort();
    patterns.dedup();
    assert_eq!(patterns.len(), 37);
}

#[test]
fn lookup_is_case_insensitive() {
    assert_eq!(lookup_by_human(b'Q').unwrap(), lookup_by_human(b'q').unwrap());
    assert_eq!(lookup_by_human(b'Q').unwrap().morse(), b"--.-".to_vec());
    assert_eq!(lookup_by_human(b' ').unwrap().morse(), b"/".to_vec());
    assert_eq!(lookup_by_human(b'0').unwrap().morse(), b"-----".to_vec());
}

#[test]
fn lookup_failures() {
    assert_eq!(lookup_by_human(b'#'), Err(MorseError::UnsupportedSymbol(b"#".to_vec())));
    assert_eq!(lookup_by_human(0xc3), Err(MorseError::UnsupportedSymbol(vec![0xc3])));
    assert_eq!(lookup_by_morse(b""), Err(MorseError::UnsupportedSymbol(Vec::new())));
    assert_eq!(lookup_by_morse(b"......"), Err(MorseError::UnsupportedSymbol(b"......".to_vec())));
}

#[test]
fn non_ascii_fails_the_line() {
    let r = encode_line("caf\u{e9}".as_bytes());
    assert_eq!(r, Err(MorseError::UnsupportedSymbol(vec![0xc3])));
}

#[test]
fn tokens_split_on_whitespace() {
    let t = split_tokens(b" .-\t\n-...  / ");
    assert_eq!(t, vec![b".-".to_vec(), b"-...".to_vec(), b"/".to_vec()]);
    assert!(split_tokens(b"   ").is_empty());
}

#[test]
fn joining_rules() {
    let syms = encode_line(b"ab c").unwrap();
    assert_eq!(concat_morse(&syms), b".- -... / -.-.".to_vec());
    assert_eq!(concat_text(&syms), b"ab c".to_vec());
    assert_eq!(concat_morse(&Vec::new()), Vec::<u8>::new());
}

#[test]
fn tokens_split_on_unicode_whitespace() {
    let line = ".-\u{a0}-...\u{3000}...\u{2009}\u{85}-".as_bytes();
    let t = split_tokens(line);
    assert_eq!(t, vec![b".-".to_vec(), b"-...".to_vec(), b"...".to_vec(), b"-".to_vec()]);
    assert_eq!(concat_text(&decode_line(line).unwrap()), b"abst".to_vec());
}

#[test]
fn non_whitespace_multibyte_stays_in_token() {
    let line = ".-\u{e9}".as_bytes();
    assert_eq!(split_tokens(line), vec![line.to_vec()]);
    assert_eq!(decode_line(line), Err(MorseError::UnsupportedSymbol(line.to_vec())));
}
