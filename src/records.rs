//! Decoding of the textual seed and input records read by the playback loop.
//!
//! A seed line holds a hexadecimal literal; an input line holds action glyphs
//! followed by an optional decimal repeat count. A blank line is the sentinel
//! that ends the session.
use vstd::prelude::*;

verus! {

/// One decoded input record: the mask to inject and how many consecutive
/// polls it is held for.
#[derive(Clone, Copy, Debug, PartialEq, Eq)]
pub struct InputFrame {
    pub mask: u8,
    pub repeat: u64,
}

/// A line that is neither blank nor a well-formed record.
#[derive(Clone, Copy, Debug, PartialEq, Eq)]
pub enum RecordError {
    Malformed,
}

pub const LEFT: u8 = 0x01;
pub const RIGHT: u8 = 0x02;
pub const HARD_DROP: u8 = 0x04;
pub const SOFT_DROP: u8 = 0x08;
pub const ROTATE_LEFT: u8 = 0x10;
pub const ROTATE_RIGHT: u8 = 0x20;
pub const HOLD: u8 = 0x40;

/// The whitespace that surrounds a record and is ignored.
pub open spec fn is_space(c: u8) -> bool {
    c == 9 || c == 10 || c == 11 || c == 12 || c == 13 || c == 32
}

pub open spec fn is_digit(c: u8) -> bool {
    48 <= c <= 57
}

pub open spec fn is_blank(s: Seq<u8>) -> bool {
    forall|i: int| 0 <= i < s.len() ==> is_space(#[trigger] s[i])
}

/// The input bit that a glyph stands for, case-insensitively; 0 for any other byte.
pub open spec fn glyph_bit(c: u8) -> u8 {
    if c == 60 {
        LEFT
    } else if c == 62 {
        RIGHT
    } else if c == 100 || c == 68 {
        HARD_DROP
    } else if c == 118 || c == 86 {
        SOFT_DROP
    } else if c == 108 || c == 76 {
        ROTATE_LEFT
    } else if c == 114 || c == 82 {
        ROTATE_RIGHT
    } else if c == 104 || c == 72 {
        HOLD
    } else {
        0
    }
}

/// The union of the glyph bits of the first `n` bytes of `s`.
pub open spec fn mask_of(s: Seq<u8>, n: int) -> u8
    decreases n,
{
    if n <= 0 {
        0
    } else {
        mask_of(s, n - 1) | glyph_bit(s[n - 1])
    }
}

/// Index of the first byte at or after `i` that satisfies `p`, or `s.len()`.
pub open spec fn first_from(s: Seq<u8>, i: int, p: spec_fn(u8) -> bool) -> int
    decreases s.len() - i,
{
    if i >= s.len() {
        s.len() as int
    } else if p(s[i]) {
        i
    } else {
        first_from(s, i + 1, p)
    }
}

pub open spec fn first_digit(s: Seq<u8>) -> int {
    first_from(s, 0, |c: u8| is_digit(c))
}

/// Length of `s` once trailing whitespace is removed.
pub open spec fn trimmed_end(s: Seq<u8>, n: int) -> int
    decreases n,
{
    if n <= 0 {
        0
    } else if is_space(s[n - 1]) {
        trimmed_end(s, n - 1)
    } else {
        n
    }
}

pub open spec fn digit_value(c: u8, radix: nat) -> int {
    if 48 <= c <= 57 {
        c - 48
    } else if radix == 16 && 97 <= c <= 102 {
        c - 87
    } else if radix == 16 && 65 <= c <= 70 {
        c - 55
    } else {
        -1
    }
}

pub open spec fn is_radix_digit(c: u8, radix: nat) -> bool {
    digit_value(c, radix) >= 0
}

/// The number written by all of `s` in base `radix`, most significant digit first.
pub open spec fn value_of(s: Seq<u8>, radix: nat) -> nat
    decreases s.len(),
{
    if s.len() == 0 {
        0
    } else {
        value_of(s.drop_last(), radix) * radix + digit_value(s.last(), radix) as nat
    }
}

/// `s` without its optional leading `+`.
pub open spec fn unsigned_part(s: Seq<u8>) -> Seq<u8> {
    if s.len() > 0 && s[0] == 43 {
        s.drop_first()
    } else {
        s
    }
}

/// `s` is a number in base `radix` that fits a `u64`, with an optional leading `+`.
pub open spec fn is_number(s: Seq<u8>, radix: nat) -> bool {
    &&& unsigned_part(s).len() > 0
    &&& forall|i: int|
        0 <= i < unsigned_part(s).len() ==> is_radix_digit(#[trigger] unsigned_part(s)[i], radix)
    &&& value_of(unsigned_part(s), radix) <= u64::MAX
}

pub open spec fn number_value(s: Seq<u8>, radix: nat) -> nat {
    value_of(unsigned_part(s), radix)
}

/// `s` without its leading and trailing whitespace.
pub open spec fn trim(s: Seq<u8>) -> Seq<u8> {
    let e = trimmed_end(s, s.len() as int);
    let b = first_from(s, 0, |c: u8| !is_space(c));
    if b >= e { Seq::empty() } else { s.subrange(b, e) }
}

/// The seed that a line denotes: `None` for a blank line.
pub open spec fn seed_record(s: Seq<u8>) -> Result<Option<u64>, RecordError> {
    if is_blank(s) {
        Ok(None)
    } else if is_number(trim(s), 16) {
        Ok(Some(number_value(trim(s), 16) as u64))
    } else {
        Err(RecordError::Malformed)
    }
}

/// The digits that give the repeat count of an input line whose first digit is at `start`.
pub open spec fn repeat_digits(s: Seq<u8>, start: int) -> Seq<u8> {
    let end = first_from(s, start + 1, |c: u8| c == 32);
    if end < s.len() {
        s.subrange(start, end)
    } else {
        s.subrange(start, trimmed_end(s, s.len() as int))
    }
}

/// The input frame that a line denotes: `None` for a blank line. Glyphs count only
/// before the first digit; a line without digits holds its mask for one poll.
pub open spec fn frame_record(s: Seq<u8>) -> Result<Option<InputFrame>, RecordError> {
    let start = first_digit(s);
    if is_blank(s) {
        Ok(None)
    } else if start == s.len() {
        Ok(Some(InputFrame { mask: mask_of(s, s.len() as int), repeat: 1 }))
    } else if is_number(repeat_digits(s, start), 10) && number_value(
        repeat_digits(s, start),
        10,
    ) > 0 {
        Ok(
            Some(
                InputFrame {
                    mask: mask_of(s, start),
                    repeat: number_value(repeat_digits(s, start), 10) as u64,
                },
            ),
        )
    } else {
        Err(RecordError::Malformed)
    }
}

fn space(c: u8) -> (r: bool)
    ensures
        r == is_space(c),
{
    c == 9 || c == 10 || c == 11 || c == 12 || c == 13 || c == 32
}

fn glyph(c: u8) -> (r: u8)
    ensures
        r == glyph_bit(c),
{
    if c == 60 {
        LEFT
    } else if c == 62 {
        RIGHT
    } else if c == 100 || c == 68 {
        HARD_DROP
    } else if c == 118 || c == 86 {
        SOFT_DROP
    } else if c == 108 || c == 76 {
        ROTATE_LEFT
    } else if c == 114 || c == 82 {
        ROTATE_RIGHT
    } else if c == 104 || c == 72 {
        HOLD
    } else {
        0
    }
}

fn digit(c: u8, radix: u8) -> (r: i16)
    requires
        radix == 10 || radix == 16,
    ensures
        r == digit_value(c, radix as nat),
{
    if 48 <= c && c <= 57 {
        (c - 48) as i16
    } else if radix == 16 && 97 <= c && c <= 102 {
        (c - 87) as i16
    } else if radix == 16 && 65 <= c && c <= 70 {
        (c - 55) as i16
    } else {
        -1
    }
}

proof fn lemma_blank_prefix(s: Seq<u8>, i: int)
    requires
        0 <= i <= s.len(),
        forall|k: int| 0 <= k < i ==> is_space(#[trigger] s[k]),
    ensures
        first_from(s, 0, |c: u8| !is_space(c)) == first_from(s, i, |c: u8| !is_space(c)),
    decreases i,
{
    if i > 0 {
        lemma_blank_prefix(s, i - 1);
        assert(is_space(s[i - 1]));
    }
}

proof fn lemma_first_from_range(s: Seq<u8>, i: int, p: spec_fn(u8) -> bool)
    requires
        0 <= i <= s.len(),
    ensures
        i <= first_from(s, i, p) <= s.len(),
        first_from(s, i, p) < s.len() ==> p(s[first_from(s, i, p)]),
        forall|k: int| i <= k < first_from(s, i, p) ==> !p(#[trigger] s[k]),
    decreases s.len() - i,
{
    if i < s.len() && !p(s[i]) {
        lemma_first_from_range(s, i + 1, p);
    }
}

proof fn lemma_trimmed_end(s: Seq<u8>, n: int)
    requires
        0 <= n <= s.len(),
    ensures
        0 <= trimmed_end(s, n) <= n,
        trimmed_end(s, n) > 0 ==> !is_space(s[trimmed_end(s, n) - 1]),
        forall|k: int| trimmed_end(s, n) <= k < n ==> is_space(#[trigger] s[k]),
    decreases n,
{
    if n > 0 {
        lemma_trimmed_end(s, n - 1);
    }
}

/// Index of the first digit (or, without `want_digit`, the first space) at or after `i`.
fn find_from(s: &[u8], i: usize, want_digit: bool) -> (r: usize)
    requires
        i <= s@.len(),
    ensures
        want_digit ==> r == first_from(s@, i as int, |c: u8| is_digit(c)),
        !want_digit ==> r == first_from(s@, i as int, |c: u8| c == 32),
{
    let mut j = i;
    while j < s.len()
        invariant
            i <= j <= s@.len(),
            want_digit ==> first_from(s@, i as int, |c: u8| is_digit(c)) == first_from(
                s@,
                j as int,
                |c: u8| is_digit(c),
            ),
            !want_digit ==> first_from(s@, i as int, |c: u8| c == 32) == first_from(
                s@,
                j as int,
                |c: u8| c == 32,
            ),
        decreases s@.len() - j,
    {
        let c = s[j];
        if (want_digit && 48 <= c && c <= 57) || (!want_digit && c == 32) {
            return j;
        }
        j = j + 1;
    }
    j
}

/// Length of the first `n` bytes of `s` once trailing whitespace is removed.
fn trim_end(s: &[u8], n: usize) -> (r: usize)
    requires
        n <= s@.len(),
    ensures
        r == trimmed_end(s@, n as int),
{
    let mut e = n;
    while e > 0 && space(s[e - 1])
        invariant
            e <= n <= s@.len(),
            trimmed_end(s@, n as int) == trimmed_end(s@, e as int),
        decreases e,
    {
        e = e - 1;
    }
    e
}

/// Whether every byte of `s` is whitespace.
fn blank(s: &[u8]) -> (r: bool)
    ensures
        r == is_blank(s@),
{
    let mut i: usize = 0;
    while i < s.len()
        invariant
            i <= s@.len(),
            forall|k: int| 0 <= k < i ==> is_space(#[trigger] s@[k]),
        decreases s@.len() - i,
    {
        if !space(s[i]) {
            return false;
        }
        i = i + 1;
    }
    true
}

/// Reads the number in base `radix` written in `s[b..e]`, with an optional leading `+`.
fn parse_number(s: &[u8], b: usize, e: usize, radix: u8) -> (r: Option<u64>)
    requires
        b <= e <= s@.len(),
        radix == 10 || radix == 16,
    ensures
        match r {
            Some(v) => is_number(s@.subrange(b as int, e as int), radix as nat) && v
                == number_value(s@.subrange(b as int, e as int), radix as nat),
            None => !is_number(s@.subrange(b as int, e as int), radix as nat),
        },
{
    let ghost t = s@.subrange(b as int, e as int);
    let mut i = b;
    if i < e && s[i] == 43 {
        i = i + 1;
    }
    let ghost d = s@.subrange(i as int, e as int);
    assert(d == unsigned_part(t));
    if i == e {
        return None;
    }
    let mut v: u64 = 0;
    let mut j = i;
    while j < e
        invariant
            b <= i <= j <= e <= s@.len(),
            radix == 10 || radix == 16,
            d == s@.subrange(i as int, e as int),
            t == s@.subrange(b as int, e as int),
            d == unsigned_part(t),
            forall|k: int| i <= k < j ==> is_radix_digit(#[trigger] s@[k], radix as nat),
            v == value_of(s@.subrange(i as int, j as int), radix as nat),
        decreases e - j,
    {
        let x = digit(s[j], radix);
        if x < 0 {
            assert(d[j - i] == s@[j as int]);
            assert(!is_radix_digit(d[j - i], radix as nat));
            return None;
        }
        let ghost p = s@.subrange(i as int, j as int + 1);
        assert(p.drop_last() == s@.subrange(i as int, j as int));
        assert(p.last() == s@[j as int]);
        assert(value_of(p, radix as nat) == v * radix as nat + x as nat);
        if v > (u64::MAX - x as u64) / radix as u64 {
            proof {
                assert(v * radix + x > u64::MAX) by (nonlinear_arith)
                    requires
                        v > (u64::MAX - x) / (radix as int),
                        radix > 0,
                        x >= 0,
                ;
                if forall|k: int| 0 <= k < d.len() ==> is_radix_digit(#[trigger] d[k], radix as nat) {
                    lemma_value_monotone(d, j - i + 1, radix as nat);
                    assert(d.subrange(0, j - i + 1) == p);
                }
            }
            return None;
        }
        proof {
            assert(v * radix + x <= u64::MAX) by (nonlinear_arith)
                requires
                    v <= (u64::MAX - x) / (radix as int),
                    radix > 0,
                    0 <= x,
                    x <= u64::MAX,
            ;
        }
        v = v * radix as u64 + x as u64;
        j = j + 1;
    }
    assert(s@.subrange(i as int, j as int) == d);
    assert forall|k: int| 0 <= k < d.len() implies is_radix_digit(#[trigger] d[k], radix as nat) by {
        assert(d[k] == s@[i + k]);
    }
    Some(v)
}

proof fn lemma_value_monotone(s: Seq<u8>, n: int, radix: nat)
    requires
        0 <= n <= s.len(),
        radix > 0,
        forall|k: int| 0 <= k < s.len() ==> is_radix_digit(#[trigger] s[k], radix),
    ensures
        value_of(s.subrange(0, n), radix) <= value_of(s, radix),
    decreases s.len(),
{
    if n < s.len() {
        let t = s.drop_last();
        assert(t.subrange(0, n) == s.subrange(0, n));
        assert forall|k: int| 0 <= k < t.len() implies is_radix_digit(#[trigger] t[k], radix) by {
            assert(t[k] == s[k]);
        }
        lemma_value_monotone(t, n, radix);
        let a = value_of(t, radix);
        assert(a <= a * radix) by (nonlinear_arith)
            requires
                radix > 0,
        ;
    } else {
        assert(s.subrange(0, n) == s);
    }
}

/// Decodes a seed line: a hexadecimal literal, or a blank line for "no seed".
pub fn parse_seed(line: &[u8]) -> (r: Result<Option<u64>, RecordError>)
    ensures
        r == seed_record(line@),
{
    if blank(line) {
        return Ok(None);
    }
    let e = trim_end(line, line.len());
    let b = find_non_space(line);
    proof {
        lemma_trimmed_end(line@, line@.len() as int);
        lemma_first_from_range(line@, 0, |c: u8| !is_space(c));
    }
    if b >= e {
        assert(is_blank(line@));
        return Ok(None);
    }
    match parse_number(line, b, e, 16) {
        Some(v) => Ok(Some(v)),
        None => Err(RecordError::Malformed),
    }
}

/// Index of the first byte of `s` that is not whitespace.
fn find_non_space(s: &[u8]) -> (r: usize)
    ensures
        r == first_from(s@, 0, |c: u8| !is_space(c)),
{
    let mut j: usize = 0;
    while j < s.len() && space(s[j])
        invariant
            j <= s@.len(),
            forall|k: int| 0 <= k < j ==> is_space(#[trigger] s@[k]),
        decreases s@.len() - j,
    {
        j = j + 1;
    }
    proof {
        lemma_blank_prefix(s@, j as int);
    }
    j
}

/// Decodes an input line: glyphs for the mask, then an optional repeat count;
/// a blank line for "no further input".
pub fn parse_frame(line: &[u8]) -> (r: Result<Option<InputFrame>, RecordError>)
    ensures
        r == frame_record(line@),
{
    if blank(line) {
        return Ok(None);
    }
    let start = find_from(line, 0, true);
    proof {
        lemma_first_from_range(line@, 0, |c: u8| is_digit(c));
    }
    let mut mask: u8 = 0;
    let mut i: usize = 0;
    while i < start
        invariant
            i <= start <= line@.len(),
            mask == mask_of(line@, i as int),
        decreases start - i,
    {
        mask = mask | glyph(line[i]);
        i = i + 1;
    }
    if start == line.len() {
        return Ok(Some(InputFrame { mask, repeat: 1 }));
    }
    let end = find_from(line, start + 1, false);
    let stop = if end < line.len() {
        end
    } else {
        trim_end(line, line.len())
    };
    proof {
        lemma_first_from_range(line@, start + 1, |c: u8| c == 32);
        lemma_trimmed_end(line@, line@.len() as int);
        if stop < start + 1 {
            assert(is_space(line@[start as int]));
        }
    }
    match parse_number(line, start, stop, 10) {
        Some(v) => {
            if v > 0 {
                Ok(Some(InputFrame { mask, repeat: v }))
            } else {
                Err(RecordError::Malformed)
            }
        },
        None => Err(RecordError::Malformed),
    }
}

} // verus!
