use vstd::prelude::*;
use crate::error::{MorseError, is_unsupported};

verus! {

/// A short mark of a Morse pattern.
pub const DOT: u8 = 46;
/// A long mark of a Morse pattern.
pub const DASH: u8 = 45;
/// The Morse pattern of the word space.
pub const SLASH: u8 = 47;

/// Whether `h` is the human side of a table entry: a lower-case ASCII letter
/// (97 to 122), a decimal digit (48 to 57) or the space (32).
pub open spec fn is_symbol(h: u8) -> bool {
    (97 <= h && h <= 122) || (48 <= h && h <= 57) || h == 32
}

/// ASCII case folding of one byte: upper-case letters (65 to 90) become
/// lower-case.
pub open spec fn fold_case(b: u8) -> u8 {
    if 65 <= b && b <= 90 {
        (b + 32) as u8
    } else {
        b
    }
}

/// The code table: the Morse pattern of each human symbol (empty off the table).
pub open spec fn morse_of(h: u8) -> Seq<u8> {
    match h {
        97 => seq![DOT, DASH],  // a
        98 => seq![DASH, DOT, DOT, DOT],  // b
        99 => seq![DASH, DOT, DASH, DOT],  // c
        100 => seq![DASH, DOT, DOT],  // d
        101 => seq![DOT],  // e
        102 => seq![DOT, DOT, DASH, DOT],  // f
        103 => seq![DASH, DASH, DOT],  // g
        104 => seq![DOT, DOT, DOT, DOT],  // h
        105 => seq![DOT, DOT],  // i
        106 => seq![DOT, DASH, DASH, DASH],  // j
        107 => seq![DASH, DOT, DASH],  // k
        108 => seq![DOT, DASH, DOT, DOT],  // l
        109 => seq![DASH, DASH],  // m
        110 => seq![DASH, DOT],  // n
        111 => seq![DASH, DASH, DASH],  // o
        112 => seq![DOT, DASH, DASH, DOT],  // p
        113 => seq![DASH, DASH, DOT, DASH],  // q
        114 => seq![DOT, DASH, DOT],  // r
        115 => seq![DOT, DOT, DOT],  // s
        116 => seq![DASH],  // t
        117 => seq![DOT, DOT, DASH],  // u
        118 => seq![DOT, DOT, DOT, DASH],  // v
        119 => seq![DOT, DASH, DASH],  // w
        120 => seq![DASH, DOT, DOT, DASH],  // x
        121 => seq![DASH, DOT, DASH, DASH],  // y
        122 => seq![DASH, DASH, DOT, DOT],  // z
        48 => seq![DASH, DASH, DASH, DASH, DASH],  // 0
        49 => seq![DOT, DASH, DASH, DASH, DASH],  // 1
        50 => seq![DOT, DOT, DASH, DASH, DASH],  // 2
        51 => seq![DOT, DOT, DOT, DASH, DASH],  // 3
        52 => seq![DOT, DOT, DOT, DOT, DASH],  // 4
        53 => seq![DOT, DOT, DOT, DOT, DOT],  // 5
        54 => seq![DASH, DOT, DOT, DOT, DOT],  // 6
        55 => seq![DASH, DASH, DOT, DOT, DOT],  // 7
        56 => seq![DASH, DASH, DASH, DOT, DOT],  // 8
        57 => seq![DASH, DASH, DASH, DASH, DOT],  // 9
        32 => seq![SLASH],  // space
        _ => seq![],
    }
}

/// `t` is the Morse pattern of the table entry `h`.
pub open spec fn is_pattern_of(t: Seq<u8>, h: u8) -> bool {
    is_symbol(h) && morse_of(h) == t
}

/// The human symbol whose pattern is `t`, if there is one.
pub open spec fn human_of(t: Seq<u8>) -> Option<u8> {
    if exists|h: u8| is_pattern_of(t, h) {
        Some(choose|h: u8| is_pattern_of(t, h))
    } else {
        None
    }
}

/// Reads a pattern back to its table entry by its length and marks; 0 where
/// `t` is no pattern of the table.
spec fn pattern_entry(t: Seq<u8>) -> u8 {
    if t.len() == 2 && t[0] == DOT && t[1] == DASH {
        97
    }     else if t.len() == 4 && t[0] == DASH && t[1] == DOT && t[2] == DOT && t[3] == DOT {
        98
    }     else if t.len() == 4 && t[0] == DASH && t[1] == DOT && t[2] == DASH && t[3] == DOT {
        99
    }     else if t.len() == 3 && t[0] == DASH && t[1] == DOT && t[2] == DOT {
        100
    }     else if t.len() == 1 && t[0] == DOT {
        101
    }     else if t.len() == 4 && t[0] == DOT && t[1] == DOT && t[2] == DASH && t[3] == DOT {
        102
    }     else if t.len() == 3 && t[0] == DASH && t[1] == DASH && t[2] == DOT {
        103
    }     else if t.len() == 4 && t[0] == DOT && t[1] == DOT && t[2] == DOT && t[3] == DOT {
        104
    }     else if t.len() == 2 && t[0] == DOT && t[1] == DOT {
        105
    }     else if t.len() == 4 && t[0] == DOT && t[1] == DASH && t[2] == DASH && t[3] == DASH {
        106
    }     else if t.len() == 3 && t[0] == DASH && t[1] == DOT && t[2] == DASH {
        107
    }     else if t.len() == 4 && t[0] == DOT && t[1] == DASH && t[2] == DOT && t[3] == DOT {
        108
    }     else if t.len() == 2 && t[0] == DASH && t[1] == DASH {
        109
    }     else if t.len() == 2 && t[0] == DASH && t[1] == DOT {
        110
    }     else if t.len() == 3 && t[0] == DASH && t[1] == DASH && t[2] == DASH {
        111
    }     else if t.len() == 4 && t[0] == DOT && t[1] == DASH && t[2] == DASH && t[3] == DOT {
        112
    }     else if t.len() == 4 && t[0] == DASH && t[1] == DASH && t[2] == DOT && t[3] == DASH {
        113
    }     else if t.len() == 3 && t[0] == DOT && t[1] == DASH && t[2] == DOT {
        114
    }     else if t.len() == 3 && t[0] == DOT && t[1] == DOT && t[2] == DOT {
        115
    }     else if t.len() == 1 && t[0] == DASH {
        116
    }     else if t.len() == 3 && t[0] == DOT && t[1] == DOT && t[2] == DASH {
        117
    }     else if t.len() == 4 && t[0] == DOT && t[1] == DOT && t[2] == DOT && t[3] == DASH {
        118
    }     else if t.len() == 3 && t[0] == DOT && t[1] == DASH && t[2] == DASH {
        119
    }     else if t.len() == 4 && t[0] == DASH && t[1] == DOT && t[2] == DOT && t[3] == DASH {
        120
    }     else if t.len() == 4 && t[0] == DASH && t[1] == DOT && t[2] == DASH && t[3] == DASH {
        121
    }     else if t.len() == 4 && t[0] == DASH && t[1] == DASH && t[2] == DOT && t[3] == DOT {
        122
    }     else if t.len() == 5 && t[0] == DASH && t[1] == DASH && t[2] == DASH && t[3] == DASH && t[4] == DASH {
        48
    }     else if t.len() == 5 && t[0] == DOT && t[1] == DASH && t[2] == DASH && t[3] == DASH && t[4] == DASH {
        49
    }     else if t.len() == 5 && t[0] == DOT && t[1] == DOT && t[2] == DASH && t[3] == DASH && t[4] == DASH {
        50
    }     else if t.len() == 5 && t[0] == DOT && t[1] == DOT && t[2] == DOT && t[3] == DASH && t[4] == DASH {
        51
    }     else if t.len() == 5 && t[0] == DOT && t[1] == DOT && t[2] == DOT && t[3] == DOT && t[4] == DASH {
        52
    }     else if t.len() == 5 && t[0] == DOT && t[1] == DOT && t[2] == DOT && t[3] == DOT && t[4] == DOT {
        53
    }     else if t.len() == 5 && t[0] == DASH && t[1] == DOT && t[2] == DOT && t[3] == DOT && t[4] == DOT {
        54
    }     else if t.len() == 5 && t[0] == DASH && t[1] == DASH && t[2] == DOT && t[3] == DOT && t[4] == DOT {
        55
    }     else if t.len() == 5 && t[0] == DASH && t[1] == DASH && t[2] == DASH && t[3] == DOT && t[4] == DOT {
        56
    }     else if t.len() == 5 && t[0] == DASH && t[1] == DASH && t[2] == DASH && t[3] == DASH && t[4] == DOT {
        57
    }     else if t.len() == 1 && t[0] == SLASH {
        32
    } else {
        0
    }
}

/// No two table entries share a pattern.
pub proof fn lemma_patterns_distinct(h1: u8, h2: u8)
    requires
        is_symbol(h1),
        is_symbol(h2),
        morse_of(h1) == morse_of(h2),
    ensures
        h1 == h2,
{
    assert(pattern_entry(morse_of(h1)) == h1);
    assert(pattern_entry(morse_of(h2)) == h2);
}

/// One entry of the code table: a human symbol, whose Morse pattern is
/// `morse_of(human)`.
#[derive(Clone, Copy, Debug, PartialEq, Eq, Structural)]
pub struct Symbol {
    pub human: u8,
}

impl Symbol {
    /// The symbol is an entry of the table.
    pub open spec fn wf(self) -> bool {
        is_symbol(self.human)
    }

    /// The human representation (a lower-case letter, a digit or the space).
    pub fn human(&self) -> (r: u8)
        ensures
            r == self.human,
    {
        self.human
    }

    /// The Morse representation.
    pub fn morse(&self) -> (r: Vec<u8>)
        ensures
            r@ == morse_of(self.human),
    {
        match self.human {
            97 => vec![DOT, DASH],  // a
            98 => vec![DASH, DOT, DOT, DOT],  // b
            99 => vec![DASH, DOT, DASH, DOT],  // c
            100 => vec![DASH, DOT, DOT],  // d
            101 => vec![DOT],  // e
            102 => vec![DOT, DOT, DASH, DOT],  // f
            103 => vec![DASH, DASH, DOT],  // g
            104 => vec![DOT, DOT, DOT, DOT],  // h
            105 => vec![DOT, DOT],  // i
            106 => vec![DOT, DASH, DASH, DASH],  // j
            107 => vec![DASH, DOT, DASH],  // k
            108 => vec![DOT, DASH, DOT, DOT],  // l
            109 => vec![DASH, DASH],  // m
            110 => vec![DASH, DOT],  // n
            111 => vec![DASH, DASH, DASH],  // o
            112 => vec![DOT, DASH, DASH, DOT],  // p
            113 => vec![DASH, DASH, DOT, DASH],  // q
            114 => vec![DOT, DASH, DOT],  // r
            115 => vec![DOT, DOT, DOT],  // s
            116 => vec![DASH],  // t
            117 => vec![DOT, DOT, DASH],  // u
            118 => vec![DOT, DOT, DOT, DASH],  // v
            119 => vec![DOT, DASH, DASH],  // w
            120 => vec![DASH, DOT, DOT, DASH],  // x
            121 => vec![DASH, DOT, DASH, DASH],  // y
            122 => vec![DASH, DASH, DOT, DOT],  // z
            48 => vec![DASH, DASH, DASH, DASH, DASH],  // 0
            49 => vec![DOT, DASH, DASH, DASH, DASH],  // 1
            50 => vec![DOT, DOT, DASH, DASH, DASH],  // 2
            51 => vec![DOT, DOT, DOT, DASH, DASH],  // 3
            52 => vec![DOT, DOT, DOT, DOT, DASH],  // 4
            53 => vec![DOT, DOT, DOT, DOT, DOT],  // 5
            54 => vec![DASH, DOT, DOT, DOT, DOT],  // 6
            55 => vec![DASH, DASH, DOT, DOT, DOT],  // 7
            56 => vec![DASH, DASH, DASH, DOT, DOT],  // 8
            57 => vec![DASH, DASH, DASH, DASH, DOT],  // 9
            32 => vec![SLASH],  // space
            _ => Vec::new(),
        }
    }
}

/// Looks a character up by its human side, ASCII case-insensitively.
pub fn lookup_by_human(c: u8) -> (r: Result<Symbol, MorseError>)
    ensures
        match r {
            Ok(s) => is_symbol(fold_case(c)) && s.human == fold_case(c),
            Err(e) => !is_symbol(fold_case(c)) && is_unsupported(&e, seq![c]),
        },
{
    let h: u8 = if 65 <= c && c <= 90 {
        c + 32
    } else {
        c
    };
    if (97 <= h && h <= 122) || (48 <= h && h <= 57) || h == 32 {
        Ok(Symbol { human: h })
    } else {
        let bad = vec![c];
        assert(bad@ =~= seq![c]);
        Err(MorseError::UnsupportedSymbol(bad))
    }
}

/// Whether two byte strings are equal.
fn bytes_equal(a: &[u8], b: &[u8]) -> (r: bool)
    ensures
        r == (a@ == b@),
{
    if a.len() != b.len() {
        return false;
    }
    let mut i: usize = 0;
    while i < a.len()
        invariant
            a@.len() == b@.len(),
            i <= a@.len(),
            forall|k: int| 0 <= k < i ==> a@[k] == b@[k],
        decreases a@.len() - i,
    {
        if a[i] != b[i] {
            return false;
        }
        i = i + 1;
    }
    assert(a@ =~= b@);
    true
}

/// Looks a Morse token up by its pattern.
pub fn lookup_by_morse(t: &[u8]) -> (r: Result<Symbol, MorseError>)
    ensures
        match r {
            Ok(s) => human_of(t@) == Some(s.human) && is_pattern_of(t@, s.human),
            Err(e) => human_of(t@) is None && is_unsupported(&e, t@),
        },
{
    let mut h: u16 = 0;
    while h < 256
        invariant
            h <= 256,
            forall|k: u8| (k as u16) < h ==> !is_pattern_of(t@, k),
        decreases 256 - h,
    {
        let cand = Symbol { human: h as u8 };
        if (97 <= h && h <= 122) || (48 <= h && h <= 57) || h == 32 {
            let p = cand.morse();
            if bytes_equal(p.as_slice(), t) {
                proof {
                    assert(is_pattern_of(t@, h as u8));
                    let k = choose|k: u8| is_pattern_of(t@, k);
                    lemma_patterns_distinct(k, h as u8);
                }
                return Ok(cand);
            }
        }
        h = h + 1;
    }
    Err(MorseError::UnsupportedSymbol(vstd::slice::slice_to_vec(t)))
}

} // verus!
