use vstd::prelude::*;
use crate::error::{MorseError, is_unsupported};
use crate::symbol::{
    Symbol, lookup_by_human, lookup_by_morse, is_symbol, is_pattern_of, fold_case, human_of, morse_of,
    lemma_patterns_distinct, DASH, DOT, SLASH,
};

verus! {

/// The separator between the patterns of one encoded line.
pub const SPACE: u8 = 32;

/// Whether `a b c` is the UTF-8 encoding of a three-byte whitespace
/// character: U+1680, U+2000 to U+200A, U+2028, U+2029, U+202F, U+205F or
/// U+3000.
pub open spec fn is_blank3(a: u8, b: u8, c: u8) -> bool {
    ||| (a == 0xE1 && b == 0x9A && c == 0x80)
    ||| (a == 0xE2 && b == 0x80 && ((0x80 <= c && c <= 0x8A) || c == 0xA8 || c == 0xA9 || c
        == 0xAF))
    ||| (a == 0xE2 && b == 0x81 && c == 0x9F)
    ||| (a == 0xE3 && b == 0x80 && c == 0x80)
}

/// The length of the UTF-8 encoding of a whitespace character (the Unicode
/// `White_Space` property, as `char::is_whitespace` has it) that starts at
/// `i` in `s`, or 0 where none does. The one-byte ones are tab, line feed,
/// vertical tab, form feed, carriage return and space; the two-byte ones
/// U+0085 and U+00A0.
pub open spec fn blank_len(s: Seq<u8>, i: int) -> int {
    if 0 <= i < s.len() && ((9 <= s[i] && s[i] <= 13) || s[i] == 32) {
        1
    } else if 0 <= i && i + 1 < s.len() && s[i] == 0xC2 && (s[i + 1] == 0x85 || s[i + 1] == 0xA0) {
        2
    } else if 0 <= i && i + 2 < s.len() && is_blank3(s[i], s[i + 1], s[i + 2]) {
        3
    } else {
        0
    }
}

/// The human bytes of a sequence of symbols.
pub open spec fn humans(s: Seq<Symbol>) -> Seq<u8> {
    s.map_values(|x: Symbol| x.human)
}

/// The views of a sequence of byte vectors.
pub open spec fn views(v: Seq<Vec<u8>>) -> Seq<Seq<u8>> {
    v.map_values(|x: Vec<u8>| x@)
}

/// Every byte of `line` has a table entry once case-folded.
pub open spec fn encodable(line: Seq<u8>) -> bool {
    forall|i: int| 0 <= i < line.len() ==> is_symbol(fold_case(#[trigger] line[i]))
}

/// The index of the first byte of `line` without a table entry.
pub open spec fn first_unencodable(line: Seq<u8>) -> int {
    choose|i: int|
        0 <= i < line.len() && !is_symbol(fold_case(line[i])) && forall|k: int|
            0 <= k < i ==> is_symbol(fold_case(#[trigger] line[k]))
}

/// Encoding a line: the case-folded human symbols, or the first byte that
/// has no table entry.
pub open spec fn encode_spec(line: Seq<u8>) -> Result<Seq<u8>, Seq<u8>> {
    if encodable(line) {
        Ok(line.map_values(|b: u8| fold_case(b)))
    } else {
        Err(seq![line[first_unencodable(line)]])
    }
}

/// The token under way, once it is complete: nothing if it is empty.
pub open spec fn pending(cur: Seq<u8>) -> Seq<Seq<u8>> {
    if cur.len() > 0 {
        seq![cur]
    } else {
        seq![]
    }
}

/// The tokens of `s` from position `i` on, where `cur` is the token under
/// way at `i`.
pub open spec fn split_from(s: Seq<u8>, i: int, cur: Seq<u8>) -> Seq<Seq<u8>>
    decreases s.len() - i,
{
    if i < 0 || i >= s.len() {
        pending(cur)
    } else if blank_len(s, i) > 0 {
        pending(cur) + split_from(s, i + blank_len(s, i), seq![])
    } else {
        split_from(s, i + 1, cur.push(s[i]))
    }
}

/// The maximal runs of `s` that hold no whitespace character, in order.
pub open spec fn tokens(s: Seq<u8>) -> Seq<Seq<u8>> {
    split_from(s, 0, seq![])
}

/// Every token is the pattern of a table entry.
pub open spec fn decodable(ts: Seq<Seq<u8>>) -> bool {
    forall|i: int| 0 <= i < ts.len() ==> (#[trigger] human_of(ts[i])) is Some
}

/// The index of the first token that is no pattern of the table.
pub open spec fn first_undecodable(ts: Seq<Seq<u8>>) -> int {
    choose|i: int|
        0 <= i < ts.len() && human_of(ts[i]) is None && forall|k: int|
            0 <= k < i ==> (#[trigger] human_of(ts[k])) is Some
}

/// Decoding a line: the human symbols of its tokens, or the first token that
/// has no table entry.
pub open spec fn decode_spec(line: Seq<u8>) -> Result<Seq<u8>, Seq<u8>> {
    let ts = tokens(line);
    if decodable(ts) {
        Ok(ts.map_values(|t: Seq<u8>| human_of(t)->Some_0))
    } else {
        Err(ts[first_undecodable(ts)])
    }
}

/// The Morse patterns of `hs`, separated by single spaces.
pub open spec fn join_morse(hs: Seq<u8>) -> Seq<u8>
    decreases hs.len(),
{
    if hs.len() == 0 {
        seq![]
    } else if hs.len() == 1 {
        morse_of(hs[0])
    } else {
        join_morse(hs.drop_last()) + seq![SPACE] + morse_of(hs.last())
    }
}

/// Encodes one line of text, byte by byte.
pub fn encode_line(line: &[u8]) -> (r: Result<Vec<Symbol>, MorseError>)
    ensures
        match r {
            Ok(v) => encode_spec(line@) == Ok::<Seq<u8>, Seq<u8>>(humans(v@)),
            Err(e) => encode_spec(line@) is Err && is_unsupported(&e, encode_spec(line@)->Err_0),
        },
{
    let mut out: Vec<Symbol> = Vec::new();
    let mut i: usize = 0;
    while i < line.len()
        invariant
            i <= line@.len(),
            out@.len() == i,
            forall|k: int|
                0 <= k < i ==> is_symbol(fold_case(#[trigger] line@[k])) && out@[k].human
                    == fold_case(line@[k]),
        decreases line@.len() - i,
    {
        match lookup_by_human(line[i]) {
            Ok(s) => {
                out.push(s);
            },
            Err(e) => {
                proof {
                    let j = first_unencodable(line@);
                    assert(!is_symbol(fold_case(line@[i as int])));
                    if j < i {
                        assert(is_symbol(fold_case(line@[j])));
                    } else if j > i {
                        assert(is_symbol(fold_case(line@[i as int])));
                    }
                }
                return Err(e);
            },
        }
        i = i + 1;
    }
    assert(humans(out@) =~= line@.map_values(|b: u8| fold_case(b)));
    Ok(out)
}

fn blank_at(s: &[u8], i: usize) -> (r: usize)
    requires
        i < s@.len(),
    ensures
        r == blank_len(s@, i as int),
{
    let n = s.len();
    let a = s[i];
    if (9 <= a && a <= 13) || a == 32 {
        1
    } else if i + 1 < n && a == 0xC2 && (s[i + 1] == 0x85 || s[i + 1] == 0xA0) {
        2
    } else if n - i > 2 {
        let b = s[i + 1];
        let c = s[i + 2];
        if (a == 0xE1 && b == 0x9A && c == 0x80) || (a == 0xE2 && b == 0x80 && ((0x80 <= c && c
            <= 0x8A) || c == 0xA8 || c == 0xA9 || c == 0xAF)) || (a == 0xE2 && b == 0x81 && c
            == 0x9F) || (a == 0xE3 && b == 0x80 && c == 0x80) {
            3
        } else {
            0
        }
    } else {
        0
    }
}

/// Splits a line into its whitespace-separated tokens.
pub fn split_tokens(line: &[u8]) -> (r: Vec<Vec<u8>>)
    ensures
        views(r@) == tokens(line@),
{
    let mut done: Vec<Vec<u8>> = Vec::new();
    let mut cur: Vec<u8> = Vec::new();
    let mut i: usize = 0;
    assert(views(done@) =~= Seq::<Seq<u8>>::empty());
    assert(cur@ =~= Seq::<u8>::empty());
    while i < line.len()
        invariant
            i <= line@.len(),
            views(done@) + split_from(line@, i as int, cur@) == tokens(line@),
        decreases line@.len() - i,
    {
        let w = blank_at(line, i);
        if w > 0 {
            if cur.len() > 0 {
                proof {
                    assert(views(done@.push(cur)) =~= views(done@).push(cur@));
                    assert(views(done@) + (pending(cur@) + split_from(line@, i + w, seq![]))
                        =~= views(done@).push(cur@) + split_from(line@, i + w, seq![]));
                }
                done.push(cur);
                cur = Vec::new();
                assert(cur@ =~= Seq::<u8>::empty());
            } else {
                assert(views(done@) + (pending(cur@) + split_from(line@, i + w, seq![]))
                    =~= views(done@) + split_from(line@, i + w, seq![]));
                assert(cur@ =~= Seq::<u8>::empty());
            }
            i = i + w;
        } else {
            cur.push(line[i]);
            i = i + 1;
        }
    }
    if cur.len() > 0 {
        proof {
            assert(views(done@.push(cur)) =~= views(done@).push(cur@));
            assert(views(done@) + pending(cur@) =~= views(done@).push(cur@));
        }
        done.push(cur);
    } else {
        assert(views(done@) + pending(cur@) =~= views(done@));
    }
    done
}

/// Decodes one line of Morse code, token by token.
pub fn decode_line(line: &[u8]) -> (r: Result<Vec<Symbol>, MorseError>)
    ensures
        match r {
            Ok(v) => decode_spec(line@) == Ok::<Seq<u8>, Seq<u8>>(humans(v@)),
            Err(e) => decode_spec(line@) is Err && is_unsupported(&e, decode_spec(line@)->Err_0),
        },
{
    let ts = split_tokens(line);
    let ghost tv = views(ts@);
    let mut out: Vec<Symbol> = Vec::new();
    let mut i: usize = 0;
    while i < ts.len()
        invariant
            tv == tokens(line@),
            tv == views(ts@),
            i <= ts@.len(),
            out@.len() == i,
            forall|k: int|
                0 <= k < i ==> (#[trigger] human_of(tv[k])) == Some(out@[k].human),
        decreases ts@.len() - i,
    {
        assert(tv[i as int] == ts@[i as int]@);
        match lookup_by_morse(ts[i].as_slice()) {
            Ok(s) => {
                out.push(s);
            },
            Err(e) => {
                proof {
                    let j = first_undecodable(tv);
                    assert(human_of(tv[i as int]) is None);
                    if j < i {
                        assert(human_of(tv[j]) is Some);
                    } else if j > i {
                        assert(human_of(tv[i as int]) is Some);
                    }
                }
                return Err(e);
            },
        }
        i = i + 1;
    }
    assert(humans(out@) =~= tv.map_values(|t: Seq<u8>| human_of(t)->Some_0));
    Ok(out)
}

/// The Morse patterns of `syms`, separated by single spaces.
pub fn concat_morse(syms: &Vec<Symbol>) -> (r: Vec<u8>)
    ensures
        r@ == join_morse(humans(syms@)),
{
    let ghost hs = humans(syms@);
    let mut out: Vec<u8> = Vec::new();
    let mut i: usize = 0;
    while i < syms.len()
        invariant
            hs == humans(syms@),
            i <= syms@.len(),
            out@ == join_morse(hs.subrange(0, i as int)),
        decreases syms@.len() - i,
    {
        proof {
            assert(hs.subrange(0, i + 1).drop_last() =~= hs.subrange(0, i as int));
        }
        if i > 0 {
            out.push(SPACE);
        }
        let mut m = syms[i].morse();
        out.append(&mut m);
        proof {
            if i == 0 {
                assert(out@ =~= morse_of(hs[0]));
            } else {
                assert(out@ =~= join_morse(hs.subrange(0, i as int)) + seq![SPACE] + morse_of(
                    hs.subrange(0, i + 1).last(),
                ));
            }
        }
        i = i + 1;
    }
    assert(hs.subrange(0, syms@.len() as int) =~= hs);
    out
}

/// The human characters of `syms`, with no separator.
pub fn concat_text(syms: &Vec<Symbol>) -> (r: Vec<u8>)
    ensures
        r@ == humans(syms@),
{
    let mut out: Vec<u8> = Vec::new();
    let mut i: usize = 0;
    while i < syms.len()
        invariant
            i <= syms@.len(),
            out@ =~= humans(syms@).subrange(0, i as int),
        decreases syms@.len() - i,
    {
        out.push(syms[i].human);
        i = i + 1;
    }
    assert(humans(syms@).subrange(0, syms@.len() as int) =~= humans(syms@));
    out
}


/// Every table entry's pattern is non-empty and made of marks and slashes.
proof fn lemma_pattern_shape(h: u8)
    requires
        is_symbol(h),
    ensures
        morse_of(h).len() > 0,
        forall|i: int|
            0 <= i < morse_of(h).len() ==> #[trigger] morse_of(h)[i] == DOT || morse_of(h)[i]
                == DASH || morse_of(h)[i] == SLASH,
{
}

/// Splitting reads forward only: bytes before the position do not matter.
proof fn lemma_split_shift(p: Seq<u8>, s: Seq<u8>, j: int, cur: Seq<u8>)
    requires
        0 <= j <= s.len(),
    ensures
        split_from(p + s, p.len() + j, cur) == split_from(s, j, cur),
    decreases s.len() - j,
{
    let t = p + s;
    let k = p.len() + j;
    if j < s.len() {
        assert(t[k] == s[j]);
        if j + 1 < s.len() {
            assert(t[k + 1] == s[j + 1]);
        }
        if j + 2 < s.len() {
            assert(t[k + 2] == s[j + 2]);
        }
        assert(blank_len(t, k) == blank_len(s, j));
        if blank_len(s, j) > 0 {
            lemma_split_shift(p, s, j + blank_len(s, j), seq![]);
        } else {
            lemma_split_shift(p, s, j + 1, cur.push(s[j]));
        }
    }
}

/// A run of marks and slashes extends the token under way.
proof fn lemma_split_run(s: Seq<u8>, i: int, p: Seq<u8>, cur: Seq<u8>)
    requires
        0 <= i,
        i + p.len() <= s.len(),
        s.subrange(i, i + p.len()) == p,
        forall|k: int| 0 <= k < p.len() ==> #[trigger] p[k] == DOT || p[k] == DASH || p[k] == SLASH,
    ensures
        split_from(s, i, cur) == split_from(s, i + p.len(), cur + p),
    decreases p.len(),
{
    if p.len() == 0 {
        assert(cur + p =~= cur);
    } else {
        assert(s[i] == s.subrange(i, i + p.len())[0]);
        assert(p[0] == DOT || p[0] == DASH || p[0] == SLASH);
        assert(blank_len(s, i) == 0);
        let q = p.drop_first();
        assert(s.subrange(i + 1, i + 1 + q.len()) =~= q);
        assert forall|k: int| 0 <= k < q.len() implies #[trigger] q[k] == DOT || q[k] == DASH
            || q[k] == SLASH by {
            assert(q[k] == p[k + 1]);
        }
        lemma_split_run(s, i + 1, q, cur.push(s[i]));
        assert(cur.push(s[i]) + q =~= cur + p);
    }
}

/// The encoded text of two or more entries, read from the front.
proof fn lemma_join_front(hs: Seq<u8>)
    requires
        hs.len() >= 2,
    ensures
        join_morse(hs) == morse_of(hs[0]) + seq![SPACE] + join_morse(hs.drop_first()),
    decreases hs.len(),
{
    let init = hs.drop_last();
    let rest = hs.drop_first();
    if hs.len() == 2 {
        assert(init =~= seq![hs[0]]);
        assert(rest =~= seq![hs[1]]);
        assert(join_morse(init) == morse_of(hs[0]));
        assert(join_morse(rest) == morse_of(hs[1]));
        assert(join_morse(hs) =~= morse_of(hs[0]) + seq![SPACE] + join_morse(rest));
    } else {
        lemma_join_front(init);
        assert(init.drop_first() =~= rest.drop_last());
        assert(rest.last() == hs.last());
        assert(join_morse(hs) =~= morse_of(hs[0]) + seq![SPACE] + join_morse(rest));
    }
}

/// The tokens of the encoded text of table entries are their patterns.
proof fn lemma_tokens_join(hs: Seq<u8>)
    requires
        forall|i: int| 0 <= i < hs.len() ==> is_symbol(#[trigger] hs[i]),
    ensures
        tokens(join_morse(hs)) == hs.map_values(|h: u8| morse_of(h)),
    decreases hs.len(),
{
    if hs.len() == 0 {
        assert(tokens(join_morse(hs)) =~= hs.map_values(|h: u8| morse_of(h)));
    } else {
        let m = morse_of(hs[0]);
        lemma_pattern_shape(hs[0]);
        let e = Seq::<u8>::empty();
        assert(e + m =~= m);
        if hs.len() == 1 {
            assert(m.subrange(0, m.len() as int) =~= m);
            lemma_split_run(m, 0, m, e);
            assert(hs.map_values(|h: u8| morse_of(h)) =~= seq![m]);
        } else {
            let rest = hs.drop_first();
            lemma_join_front(hs);
            let j = join_morse(hs);
            let head = m + seq![SPACE];
            assert(j =~= head + join_morse(rest));
            assert(j.subrange(0, m.len() as int) =~= m);
            lemma_split_run(j, 0, m, e);
            assert(j[m.len() as int] == SPACE);
            assert(blank_len(j, m.len() as int) == 1);
            lemma_split_shift(head, join_morse(rest), 0, e);
            assert forall|i: int| 0 <= i < rest.len() implies is_symbol(#[trigger] rest[i]) by {
                assert(rest[i] == hs[i + 1]);
            }
            lemma_tokens_join(rest);
            assert(seq![m] + rest.map_values(|h: u8| morse_of(h)) =~= hs.map_values(
                |h: u8| morse_of(h),
            ));
        }
    }
}

/// Each table entry is found again from its pattern: looking a character up
/// by its human side, then the result by its pattern, gives the same entry.
pub proof fn lemma_bijection(c: u8)
    requires
        is_symbol(fold_case(c)),
    ensures
        human_of(morse_of(fold_case(c))) == Some(fold_case(c)),
{
    let h = fold_case(c);
    assert(is_pattern_of(morse_of(h), h));
    let k = choose|k: u8| is_pattern_of(morse_of(h), k);
    lemma_patterns_distinct(k, h);
}

/// Decoding the encoded text of a line gives the line back, case-folded.
pub proof fn lemma_round_trip(line: Seq<u8>)
    requires
        encodable(line),
    ensures
        encode_spec(line) is Ok,
        decode_spec(join_morse(encode_spec(line)->Ok_0)) == Ok::<Seq<u8>, Seq<u8>>(
            line.map_values(|b: u8| fold_case(b)),
        ),
{
    let hs = line.map_values(|b: u8| fold_case(b));
    assert forall|i: int| 0 <= i < hs.len() implies is_symbol(#[trigger] hs[i]) by {
        assert(is_symbol(fold_case(line[i])));
    }
    lemma_tokens_join(hs);
    let ts = tokens(join_morse(hs));
    assert forall|i: int| 0 <= i < ts.len() implies #[trigger] human_of(ts[i]) == Some(hs[i]) by {
        assert(is_symbol(fold_case(line[i])));
        lemma_bijection(line[i]);
    }
    assert(decodable(ts));
    assert(ts.map_values(|t: Seq<u8>| human_of(t)->Some_0) =~= hs);
}

} // verus!
