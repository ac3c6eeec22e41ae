//! The mnemonic spelling of an identifier: a number written in base 64 with
//! an animal's name for each digit, most significant digit first, the names
//! joined by `-`.
//!
//! The spelling is a function of the number alone, and no two numbers share
//! one: `from_animal_names` finds the number again.

use vstd::prelude::*;
use vstd::string::*;
use crate::text::str_eq;

verus! {

/// The number of names, and so the base in which an identifier is written.
pub const BASE: u64 = 64;

/// The byte of the `-` that stands between two names.
pub const SEPARATOR: u8 = 45;

/// No spelling of a 64-bit number is longer than this: eleven names of at
/// most six letters and ten separators.
pub const MAX_SPELLING_LEN: usize = 76;

/// The name that stands for the digit `d`.
pub open spec fn word(d: int) -> Seq<char> {
    if d == 0 {
        "ant"@
    } else if d == 1 {
        "eel"@
    } else if d == 2 {
        "mole"@
    } else if d == 3 {
        "sloth"@
    } else if d == 4 {
        "ape"@
    } else if d == 5 {
        "emu"@
    } else if d == 6 {
        "monkey"@
    } else if d == 7 {
        "snail"@
    } else if d == 8 {
        "bat"@
    } else if d == 9 {
        "falcon"@
    } else if d == 10 {
        "mouse"@
    } else if d == 11 {
        "snake"@
    } else if d == 12 {
        "bear"@
    } else if d == 13 {
        "fish"@
    } else if d == 14 {
        "otter"@
    } else if d == 15 {
        "spider"@
    } else if d == 16 {
        "bee"@
    } else if d == 17 {
        "fly"@
    } else if d == 18 {
        "parrot"@
    } else if d == 19 {
        "squid"@
    } else if d == 20 {
        "bird"@
    } else if d == 21 {
        "fox"@
    } else if d == 22 {
        "panda"@
    } else if d == 23 {
        "swan"@
    } else if d == 24 {
        "bison"@
    } else if d == 25 {
        "frog"@
    } else if d == 26 {
        "pig"@
    } else if d == 27 {
        "tiger"@
    } else if d == 28 {
        "camel"@
    } else if d == 29 {
        "gecko"@
    } else if d == 30 {
        "pigeon"@
    } else if d == 31 {
        "toad"@
    } else if d == 32 {
        "cat"@
    } else if d == 33 {
        "goat"@
    } else if d == 34 {
        "pony"@
    } else if d == 35 {
        "turkey"@
    } else if d == 36 {
        "cobra"@
    } else if d == 37 {
        "goose"@
    } else if d == 38 {
        "pug"@
    } else if d == 39 {
        "turtle"@
    } else if d == 40 {
        "crow"@
    } else if d == 41 {
        "hawk"@
    } else if d == 42 {
        "rabbit"@
    } else if d == 43 {
        "viper"@
    } else if d == 44 {
        "deer"@
    } else if d == 45 {
        "horse"@
    } else if d == 46 {
        "rat"@
    } else if d == 47 {
        "wasp"@
    } else if d == 48 {
        "dog"@
    } else if d == 49 {
        "jaguar"@
    } else if d == 50 {
        "raven"@
    } else if d == 51 {
        "whale"@
    } else if d == 52 {
        "dove"@
    } else if d == 53 {
        "koala"@
    } else if d == 54 {
        "seal"@
    } else if d == 55 {
        "wolf"@
    } else if d == 56 {
        "duck"@
    } else if d == 57 {
        "lion"@
    } else if d == 58 {
        "shark"@
    } else if d == 59 {
        "worm"@
    } else if d == 60 {
        "eagle"@
    } else if d == 61 {
        "lizard"@
    } else if d == 62 {
        "sheep"@
    } else {
        "zebra"@
    }
}

/// The spelling of `n`: the name of `n` itself below 64, else the spelling
/// of `n / 64`, a `-`, and the name of `n % 64`.
pub open spec fn animal_names(n: nat) -> Seq<char>
    decreases n,
{
    if n < 64 {
        word(n as int)
    } else {
        animal_names(n / 64) + seq!['-'] + word((n % 64) as int)
    }
}

/// A lowercase letter of the basic Latin alphabet.
pub open spec fn is_lower(c: char) -> bool {
    'a' <= c <= 'z'
}

/// The first four letters of a name, packed into one number as four bytes;
/// a name of three letters has a zero for the fourth. No two names begin
/// with the same four letters, so the number tells them apart.
closed spec fn fingerprint(w: Seq<char>) -> int {
    (((w[0] as int) * 256 + (w[1] as int)) * 256 + (w[2] as int)) * 256 + (if w.len() > 3 {
        w[3] as int
    } else {
        0
    })
}

/// The fingerprint of each digit's name, written so that each pair of hex
/// digits is one letter. `lemma_word_shape` holds the list to the names.
closed spec fn code(d: int) -> int {
    if d == 0 {
        0x616e_7400
    } else if d == 1 {
        0x6565_6c00
    } else if d == 2 {
        0x6d6f_6c65
    } else if d == 3 {
        0x736c_6f74
    } else if d == 4 {
        0x6170_6500
    } else if d == 5 {
        0x656d_7500
    } else if d == 6 {
        0x6d6f_6e6b
    } else if d == 7 {
        0x736e_6169
    } else if d == 8 {
        0x6261_7400
    } else if d == 9 {
        0x6661_6c63
    } else if d == 10 {
        0x6d6f_7573
    } else if d == 11 {
        0x736e_616b
    } else if d == 12 {
        0x6265_6172
    } else if d == 13 {
        0x6669_7368
    } else if d == 14 {
        0x6f74_7465
    } else if d == 15 {
        0x7370_6964
    } else if d == 16 {
        0x6265_6500
    } else if d == 17 {
        0x666c_7900
    } else if d == 18 {
        0x7061_7272
    } else if d == 19 {
        0x7371_7569
    } else if d == 20 {
        0x6269_7264
    } else if d == 21 {
        0x666f_7800
    } else if d == 22 {
        0x7061_6e64
    } else if d == 23 {
        0x7377_616e
    } else if d == 24 {
        0x6269_736f
    } else if d == 25 {
        0x6672_6f67
    } else if d == 26 {
        0x7069_6700
    } else if d == 27 {
        0x7469_6765
    } else if d == 28 {
        0x6361_6d65
    } else if d == 29 {
        0x6765_636b
    } else if d == 30 {
        0x7069_6765
    } else if d == 31 {
        0x746f_6164
    } else if d == 32 {
        0x6361_7400
    } else if d == 33 {
        0x676f_6174
    } else if d == 34 {
        0x706f_6e79
    } else if d == 35 {
        0x7475_726b
    } else if d == 36 {
        0x636f_6272
    } else if d == 37 {
        0x676f_6f73
    } else if d == 38 {
        0x7075_6700
    } else if d == 39 {
        0x7475_7274
    } else if d == 40 {
        0x6372_6f77
    } else if d == 41 {
        0x6861_776b
    } else if d == 42 {
        0x7261_6262
    } else if d == 43 {
        0x7669_7065
    } else if d == 44 {
        0x6465_6572
    } else if d == 45 {
        0x686f_7273
    } else if d == 46 {
        0x7261_7400
    } else if d == 47 {
        0x7761_7370
    } else if d == 48 {
        0x646f_6700
    } else if d == 49 {
        0x6a61_6775
    } else if d == 50 {
        0x7261_7665
    } else if d == 51 {
        0x7768_616c
    } else if d == 52 {
        0x646f_7665
    } else if d == 53 {
        0x6b6f_616c
    } else if d == 54 {
        0x7365_616c
    } else if d == 55 {
        0x776f_6c66
    } else if d == 56 {
        0x6475_636b
    } else if d == 57 {
        0x6c69_6f6e
    } else if d == 58 {
        0x7368_6172
    } else if d == 59 {
        0x776f_726d
    } else if d == 60 {
        0x6561_676c
    } else if d == 61 {
        0x6c69_7a61
    } else if d == 62 {
        0x7368_6565
    } else {
        0x7a65_6272
    }
}

/// Each name has three to six lowercase letters, and its fingerprint is the
/// one listed for its digit.
proof fn lemma_word_shape(d: int)
    requires
        0 <= d < 64,
    ensures
        3 <= word(d).len() <= 6,
        forall|i: int| 0 <= i < word(d).len() ==> is_lower(#[trigger] word(d)[i]),
        fingerprint(word(d)) == code(d),
{
    reveal_strlit("ant");
    reveal_strlit("eel");
    reveal_strlit("mole");
    reveal_strlit("sloth");
    reveal_strlit("ape");
    reveal_strlit("emu");
    reveal_strlit("monkey");
    reveal_strlit("snail");
    reveal_strlit("bat");
    reveal_strlit("falcon");
    reveal_strlit("mouse");
    reveal_strlit("snake");
    reveal_strlit("bear");
    reveal_strlit("fish");
    reveal_strlit("otter");
    reveal_strlit("spider");
    reveal_strlit("bee");
    reveal_strlit("fly");
    reveal_strlit("parrot");
    reveal_strlit("squid");
    reveal_strlit("bird");
    reveal_strlit("fox");
    reveal_strlit("panda");
    reveal_strlit("swan");
    reveal_strlit("bison");
    reveal_strlit("frog");
    reveal_strlit("pig");
    reveal_strlit("tiger");
    reveal_strlit("camel");
    reveal_strlit("gecko");
    reveal_strlit("pigeon");
    reveal_strlit("toad");
    reveal_strlit("cat");
    reveal_strlit("goat");
    reveal_strlit("pony");
    reveal_strlit("turkey");
    reveal_strlit("cobra");
    reveal_strlit("goose");
    reveal_strlit("pug");
    reveal_strlit("turtle");
    reveal_strlit("crow");
    reveal_strlit("hawk");
    reveal_strlit("rabbit");
    reveal_strlit("viper");
    reveal_strlit("deer");
    reveal_strlit("horse");
    reveal_strlit("rat");
    reveal_strlit("wasp");
    reveal_strlit("dog");
    reveal_strlit("jaguar");
    reveal_strlit("raven");
    reveal_strlit("whale");
    reveal_strlit("dove");
    reveal_strlit("koala");
    reveal_strlit("seal");
    reveal_strlit("wolf");
    reveal_strlit("duck");
    reveal_strlit("lion");
    reveal_strlit("shark");
    reveal_strlit("worm");
    reveal_strlit("eagle");
    reveal_strlit("lizard");
    reveal_strlit("sheep");
    reveal_strlit("zebra");
}

/// No two digits share a name.
pub proof fn lemma_words_differ(a: int, b: int)
    requires
        0 <= a < 64,
        0 <= b < 64,
        word(a) == word(b),
    ensures
        a == b,
{
    lemma_word_shape(a);
    lemma_word_shape(b);
}

/// The name of the digit `d`.
fn word_str(d: u64) -> (w: &'static str)
    requires
        d < 64,
    ensures
        w@ == word(d as int),
{
    match d {
        0 => "ant",
        1 => "eel",
        2 => "mole",
        3 => "sloth",
        4 => "ape",
        5 => "emu",
        6 => "monkey",
        7 => "snail",
        8 => "bat",
        9 => "falcon",
        10 => "mouse",
        11 => "snake",
        12 => "bear",
        13 => "fish",
        14 => "otter",
        15 => "spider",
        16 => "bee",
        17 => "fly",
        18 => "parrot",
        19 => "squid",
        20 => "bird",
        21 => "fox",
        22 => "panda",
        23 => "swan",
        24 => "bison",
        25 => "frog",
        26 => "pig",
        27 => "tiger",
        28 => "camel",
        29 => "gecko",
        30 => "pigeon",
        31 => "toad",
        32 => "cat",
        33 => "goat",
        34 => "pony",
        35 => "turkey",
        36 => "cobra",
        37 => "goose",
        38 => "pug",
        39 => "turtle",
        40 => "crow",
        41 => "hawk",
        42 => "rabbit",
        43 => "viper",
        44 => "deer",
        45 => "horse",
        46 => "rat",
        47 => "wasp",
        48 => "dog",
        49 => "jaguar",
        50 => "raven",
        51 => "whale",
        52 => "dove",
        53 => "koala",
        54 => "seal",
        55 => "wolf",
        56 => "duck",
        57 => "lion",
        58 => "shark",
        59 => "worm",
        60 => "eagle",
        61 => "lizard",
        62 => "sheep",
        _ => "zebra",
    }
}

/// Appends the spelling of `n` to `out`.
pub fn push_animal_names(out: &mut String, n: u64)
    ensures
        final(out)@ == old(out)@ + animal_names(n as nat),
    decreases n,
{
    if n < BASE {
        out.append(word_str(n));
    } else {
        push_animal_names(out, n / BASE);
        out.append("-");
        out.append(word_str(n % BASE));
        proof {
            reveal_strlit("-");
        }
    }
}

/// The spelling of `number` in animal names.
pub fn to_animal_names(number: u64) -> (names: String)
    ensures
        names@ == animal_names(number as nat),
{
    let mut names = String::new();
    push_animal_names(&mut names, number);
    names
}

/// The number that `names` spells, if it is the spelling of a 64-bit number.
pub open spec fn spelled_number(names: Seq<char>) -> Option<u64> {
    if exists|n: u64| animal_names(n as nat) == names {
        Some(choose|n: u64| animal_names(n as nat) == names)
    } else {
        None
    }
}

/// Where the last name of a spelling begins: just behind its last `-`, or at
/// the front where there is none.
closed spec fn tail_start(s: Seq<char>) -> int
    decreases s.len(),
{
    if s.len() == 0 {
        0
    } else if s.last() == '-' {
        s.len() as int
    } else {
        tail_start(s.drop_last())
    }
}

/// The digit whose name is `w`, if it is a name.
closed spec fn word_index(w: Seq<char>) -> Option<int> {
    if exists|d: int| 0 <= d < 64 && word(d) == w {
        Some(choose|d: int| 0 <= d < 64 && word(d) == w)
    } else {
        None
    }
}

/// The number read from a text by taking its last name as the lowest digit
/// and what stands before the last `-` as the digits above it.
closed spec fn parse_names(s: Seq<char>) -> Option<nat>
    decreases s.len(),
{
    let start: int = tail_start(s);
    match word_index(s.subrange(start, s.len() as int)) {
        None => None,
        Some(d) => if 0 < start <= s.len() {
            match parse_names(s.subrange(0, start - 1)) {
                None => None,
                Some(high) => Some((high * 64 + d) as nat),
            }
        } else {
            Some(d as nat)
        },
    }
}

proof fn lemma_word_index(d: int)
    requires
        0 <= d < 64,
    ensures
        word_index(word(d)) == Some(d),
{
    let found: int = choose|k: int| 0 <= k < 64 && word(k) == word(d);
    lemma_words_differ(found, d);
}

/// Where a text has no `-` from `start` on, and one just before `start`
/// unless `start` is the front, its last name begins at `start`.
proof fn lemma_tail_start(s: Seq<char>, start: int)
    requires
        0 <= start <= s.len(),
        forall|j: int| start <= j < s.len() ==> s[j] != '-',
        start == 0 || s[start - 1] == '-',
    ensures
        tail_start(s) == start,
    decreases s.len(),
{
    if s.len() > start {
        lemma_tail_start(s.drop_last(), start);
    }
}

/// Reading a spelling gives back the number that was spelled.
proof fn lemma_parse_inverts(n: nat)
    ensures
        parse_names(animal_names(n)) == Some(n),
    decreases n,
{
    let s = animal_names(n);
    if n < 64 {
        lemma_word_shape(n as int);
        lemma_tail_start(s, 0);
        assert(s.subrange(0, s.len() as int) =~= s);
        lemma_word_index(n as int);
    } else {
        let high = animal_names(n / 64);
        let low = word((n % 64) as int);
        lemma_word_shape((n % 64) as int);
        lemma_parse_inverts(n / 64);
        let start: int = (high.len() + 1) as int;
        lemma_tail_start(s, start);
        assert(s.subrange(start, s.len() as int) =~= low);
        assert(s.subrange(0, start - 1) =~= high);
        lemma_word_index((n % 64) as int);
    }
}

/// Different numbers have different spellings.
pub proof fn lemma_spelling_is_injective(a: nat, b: nat)
    requires
        animal_names(a) == animal_names(b),
    ensures
        a == b,
{
    lemma_parse_inverts(a);
    lemma_parse_inverts(b);
}

/// Sixty-four to the power `k`.
closed spec fn pow64(k: nat) -> nat
    decreases k,
{
    if k == 0 {
        1
    } else {
        64 * pow64((k - 1) as nat)
    }
}

/// A number below `64^k` is spelled with at most `k` names.
proof fn lemma_spelling_len(n: nat, k: nat)
    requires
        k >= 1,
        n < pow64(k),
    ensures
        animal_names(n).len() <= 7 * k - 1,
    decreases k,
{
    if n < 64 {
        lemma_word_shape(n as int);
    } else {
        lemma_word_shape((n % 64) as int);
        if k == 1 {
            assert(pow64(1) == 64) by {
                reveal_with_fuel(pow64, 2);
            }
        } else {
            lemma_spelling_len(n / 64, (k - 1) as nat);
        }
    }
}

/// A spelling holds lowercase letters and `-` only, and the spelling of a
/// 64-bit number has at most `MAX_SPELLING_LEN` characters.
pub proof fn lemma_spelling_shape(n: nat)
    ensures
        forall|i: int|
            0 <= i < animal_names(n).len() ==> {
                let c = #[trigger] animal_names(n)[i];
                is_lower(c) || c == '-'
            },
        animal_names(n).len() >= 3,
        n <= u64::MAX ==> animal_names(n).len() <= MAX_SPELLING_LEN,
    decreases n,
{
    if n < 64 {
        lemma_word_shape(n as int);
    } else {
        lemma_word_shape((n % 64) as int);
        lemma_spelling_shape(n / 64);
    }
    if n <= u64::MAX {
        assert(pow64(11) == 73786976294838206464) by {
            reveal_with_fuel(pow64, 12);
        }
        lemma_spelling_len(n, 11);
    }
}

/// The bytes are the characters, one byte for each, all of them ASCII.
closed spec fn mirrors(bytes: Seq<u8>, chars: Seq<char>) -> bool {
    &&& bytes.len() == chars.len()
    &&& forall|i: int|
        0 <= i < chars.len() ==> '\0' <= (#[trigger] chars[i]) <= '\u{7f}' && bytes[i]
            == chars[i] as u8
}

/// Whether the bytes from `start` to `end` spell `w`.
fn segment_is(
    bytes: &[u8],
    start: usize,
    end: usize,
    w: &str,
    Ghost(chars): Ghost<Seq<char>>,
) -> (same: bool)
    requires
        start <= end <= bytes.len(),
        mirrors(bytes@, chars),
        forall|i: int| 0 <= i < w@.len() ==> is_lower(#[trigger] w@[i]),
    ensures
        same == (chars.subrange(start as int, end as int) == w@),
{
    broadcast use is_ascii_spec_bytes;

    assert(is_ascii(w));
    let wb = w.as_bytes();
    let ghost seg = chars.subrange(start as int, end as int);
    if wb.len() != end - start {
        return false;
    }
    let mut j: usize = 0;
    while j < wb.len()
        invariant
            start <= end <= bytes.len(),
            wb@.len() == end - start,
            wb@.len() == w@.len(),
            seg == chars.subrange(start as int, end as int),
            mirrors(bytes@, chars),
            forall|i: int| 0 <= i < w@.len() ==> is_lower(#[trigger] w@[i]),
            forall|i: int| 0 <= i < w@.len() ==> wb@[i] == w@[i] as u8,
            0 <= j <= wb@.len(),
            forall|k: int| 0 <= k < j ==> seg[k] == w@[k],
        decreases wb@.len() - j,
    {
        if bytes[start + j] != wb[j] {
            return false;
        }
        j += 1;
    }
    assert(seg =~= w@);
    true
}

/// The digit whose name the bytes from `start` to `end` spell.
fn lookup(
    bytes: &[u8],
    start: usize,
    end: usize,
    Ghost(chars): Ghost<Seq<char>>,
) -> (digit: Option<u64>)
    requires
        start <= end <= bytes.len(),
        mirrors(bytes@, chars),
    ensures
        match digit {
            Some(d) => d < 64 && word_index(chars.subrange(start as int, end as int)) == Some(
                d as int,
            ),
            None => word_index(chars.subrange(start as int, end as int)) is None,
        },
{
    let ghost seg = chars.subrange(start as int, end as int);
    let mut d: u64 = 0;
    while d < BASE
        invariant
            start <= end <= bytes.len(),
            seg == chars.subrange(start as int, end as int),
            mirrors(bytes@, chars),
            0 <= d <= 64,
            forall|k: int| 0 <= k < d ==> word(k) != seg,
        decreases 64 - d,
    {
        let w = word_str(d);
        proof {
            lemma_word_shape(d as int);
        }
        if segment_is(bytes, start, end, w, Ghost(chars)) {
            proof {
                lemma_word_index(d as int);
            }
            return Some(d);
        }
        d += 1;
    }
    None
}

/// Reads the first `end` bytes as a spelling.
fn parse(bytes: &[u8], end: usize, Ghost(chars): Ghost<Seq<char>>) -> (number: Option<u64>)
    requires
        end <= bytes.len(),
        mirrors(bytes@, chars),
    ensures
        match number {
            Some(v) => parse_names(chars.subrange(0, end as int)) == Some(v as nat),
            None => match parse_names(chars.subrange(0, end as int)) {
                Some(v) => v > u64::MAX,
                None => true,
            },
        },
    decreases end,
{
    let ghost prefix = chars.subrange(0, end as int);
    let mut start: usize = end;
    while start > 0 && bytes[start - 1] != SEPARATOR
        invariant
            0 <= start <= end <= bytes.len(),
            mirrors(bytes@, chars),
            forall|j: int| start <= j < end ==> chars[j] != '-',
        decreases start,
    {
        start -= 1;
    }
    proof {
        lemma_tail_start(prefix, start as int);
        assert(prefix.subrange(start as int, prefix.len() as int) =~= chars.subrange(
            start as int,
            end as int,
        ));
        if start > 0 {
            assert(prefix.subrange(0, start - 1) =~= chars.subrange(0, start - 1));
        }
    }
    match lookup(bytes, start, end, Ghost(chars)) {
        None => None,
        Some(d) => {
            if start == 0 {
                Some(d)
            } else {
                match parse(bytes, start - 1, Ghost(chars)) {
                    None => None,
                    Some(high) => {
                        if high > (u64::MAX - d) / BASE {
                            None
                        } else {
                            Some(high * BASE + d)
                        }
                    },
                }
            }
        },
    }
}

/// Reads a spelling back: the number whose spelling `names` is, and `None`
/// where `names` is the spelling of no 64-bit number.
pub fn from_animal_names(names: &str) -> (number: Option<u64>)
    ensures
        number == spelled_number(names@),
{
    broadcast use is_ascii_spec_bytes;

    let ghost chars = names@;
    if !names.is_ascii() {
        proof {
            assert forall|n: u64| animal_names(n as nat) != chars by {
                lemma_spelling_shape(n as nat);
            }
        }
        return None;
    }
    let bytes = names.as_bytes();
    if bytes.len() > MAX_SPELLING_LEN {
        proof {
            assert forall|n: u64| animal_names(n as nat) != chars by {
                lemma_spelling_shape(n as nat);
            }
        }
        return None;
    }
    assert(chars.subrange(0, chars.len() as int) =~= chars);
    match parse(bytes, bytes.len(), Ghost(chars)) {
        None => {
            proof {
                assert forall|n: u64| animal_names(n as nat) != chars by {
                    lemma_parse_inverts(n as nat);
                }
            }
            None
        },
        Some(v) => {
            let spelled = to_animal_names(v);
            if str_eq(spelled.as_str(), names) {
                proof {
                    let found: u64 = choose|n: u64| animal_names(n as nat) == chars;
                    lemma_spelling_is_injective(found as nat, v as nat);
                }
                Some(v)
            } else {
                proof {
                    assert forall|n: u64| animal_names(n as nat) != chars by {
                        lemma_parse_inverts(n as nat);
                    }
                }
                None
            }
        },
    }
}

/// Reading the spelling of an identifier gives the identifier back.
pub proof fn theorem_animal_names_round_trip(id: u64)
    ensures
        spelled_number(animal_names(id as nat)) == Some(id),
{
    let found: u64 = choose|n: u64| animal_names(n as nat) == animal_names(id as nat);
    lemma_spelling_is_injective(found as nat, id as nat);
}


} // verus!
