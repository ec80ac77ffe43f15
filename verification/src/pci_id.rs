//! PCI device identifiers, as a user writes them: four hexadecimal digits with
//! an optional `0x` in front and any white space around.

use vstd::arithmetic::div_mod::{lemma_div_denominator, lemma_fundamental_div_mod};
use vstd::prelude::*;

verus! {

/// Whether `c` has the Unicode property `White_Space`.
pub open spec fn is_white_space(c: char) -> bool {
    let u = c as u32;
    ||| 0x09 <= u <= 0x0d
    ||| u == 0x20
    ||| u == 0x85
    ||| u == 0xa0
    ||| u == 0x1680
    ||| 0x2000 <= u <= 0x200a
    ||| u == 0x2028
    ||| u == 0x2029
    ||| u == 0x202f
    ||| u == 0x205f
    ||| u == 0x3000
}

/// `s` without the white space at its front.
pub open spec fn trim_start(s: Seq<char>) -> Seq<char>
    decreases s.len(),
{
    if s.len() > 0 && is_white_space(s[0]) {
        trim_start(s.drop_first())
    } else {
        s
    }
}

/// `s` without the white space at its back.
pub open spec fn trim_end(s: Seq<char>) -> Seq<char>
    decreases s.len(),
{
    if s.len() > 0 && is_white_space(s.last()) {
        trim_end(s.drop_last())
    } else {
        s
    }
}

/// `s` without the white space around it.
pub open spec fn trimmed(s: Seq<char>) -> Seq<char> {
    trim_end(trim_start(s))
}

/// `s` without a leading `0x` or `0X`.
pub open spec fn without_prefix(s: Seq<char>) -> Seq<char> {
    if s.len() >= 2 && s[0] == '0' && (s[1] == 'x' || s[1] == 'X') {
        s.subrange(2, s.len() as int)
    } else {
        s
    }
}

/// The value of a hexadecimal digit of either case.
pub open spec fn digit_value(c: char) -> Option<nat> {
    let u = c as u32;
    if 0x30 <= u <= 0x39 {
        Some((u - 0x30) as nat)
    } else if 0x41 <= u <= 0x46 {
        Some((u - 0x41 + 10) as nat)
    } else if 0x61 <= u <= 0x66 {
        Some((u - 0x61 + 10) as nat)
    } else {
        None
    }
}

/// The number that four hexadecimal digits stand for, most significant first.
pub open spec fn four_digits(d: Seq<char>) -> Option<nat> {
    if d.len() != 4 {
        None
    } else {
        match (digit_value(d[0]), digit_value(d[1]), digit_value(d[2]), digit_value(d[3])) {
            (Some(a), Some(b), Some(c), Some(e)) => Some(
                (0x1000 * a + 0x100 * b + 0x10 * c + e) as nat,
            ),
            _ => None,
        }
    }
}

/// The identifier that a text denotes, if it denotes one.
pub open spec fn pci_id(s: Seq<char>) -> Option<nat> {
    four_digits(without_prefix(trimmed(s)))
}

/// A text that does not denote a PCI identifier.
#[derive(Clone, Copy, Debug, PartialEq, Eq)]
pub enum PciIdError {
    /// After trimming and dropping the prefix, the text is not made of exactly
    /// four hexadecimal digits.
    NotFourHexDigits,
}

impl PciIdError {
    /// What the text should have been.
    pub fn message(&self) -> (text: &'static str)
        ensures
            text@ == "Expected a 4 digit PCI ID in hexadecimal format"@,
    {
        "Expected a 4 digit PCI ID in hexadecimal format"
    }
}

fn white_space(c: char) -> (r: bool)
    ensures
        r == is_white_space(c),
{
    let u: u32 = c as u32;
    (0x09 <= u && u <= 0x0d) || u == 0x20 || u == 0x85 || u == 0xa0 || u == 0x1680 || (0x2000 <= u
        && u <= 0x200a) || u == 0x2028 || u == 0x2029 || u == 0x202f || u == 0x205f || u == 0x3000
}

fn hex_digit(c: char) -> (r: Option<u32>)
    ensures
        match r {
            Some(v) => v < 16 && digit_value(c) == Some(v as nat),
            None => digit_value(c) is None,
        },
{
    let u: u32 = c as u32;
    if 0x30 <= u && u <= 0x39 {
        Some(u - 0x30)
    } else if 0x41 <= u && u <= 0x46 {
        Some(u - 0x41 + 10)
    } else if 0x61 <= u && u <= 0x66 {
        Some(u - 0x61 + 10)
    } else {
        None
    }
}

/// Where the text that trimming leaves begins and ends.
fn trim_bounds(id: &str) -> (bounds: (usize, usize))
    ensures
        bounds.0 <= bounds.1 <= id@.len(),
        id@.subrange(bounds.0 as int, bounds.1 as int) == trimmed(id@),
{
    let n: usize = id.unicode_len();
    let mut start: usize = 0;
    assert(id@.subrange(0, n as int) == id@);
    while start < n && white_space(id.get_char(start))
        invariant
            n == id@.len(),
            start <= n,
            trim_start(id@) == trim_start(id@.subrange(start as int, n as int)),
        decreases n - start,
    {
        assert(id@.subrange(start as int, n as int).drop_first() == id@.subrange(
            start + 1,
            n as int,
        ));
        start += 1;
    }
    let ghost front = id@.subrange(start as int, n as int);
    assert(trim_start(id@) == front);
    let mut end: usize = n;
    while end > start && white_space(id.get_char(end - 1))
        invariant
            n == id@.len(),
            start <= end <= n,
            trim_end(front) == trim_end(id@.subrange(start as int, end as int)),
        decreases end,
    {
        assert(id@.subrange(start as int, end as int).drop_last() == id@.subrange(
            start as int,
            end - 1,
        ));
        end -= 1;
    }
    (start, end)
}

/// Reads a PCI identifier: white space around it is ignored, then a leading
/// `0x` or `0X`; exactly four hexadecimal digits must remain.
pub fn parse_pci_id(id: &str) -> (r: Result<u32, PciIdError>)
    ensures
        match r {
            Ok(v) => pci_id(id@) == Some(v as nat),
            Err(_) => pci_id(id@) is None,
        },
{
    let (mut start, end) = trim_bounds(id);
    let ghost text = trimmed(id@);
    if end - start >= 2 && id.get_char(start) == '0' {
        let second: char = id.get_char(start + 1);
        if second == 'x' || second == 'X' {
            start += 2;
        }
    }
    let ghost digits = without_prefix(text);
    assert(id@.subrange(start as int, end as int) == digits);
    if end - start != 4 {
        return Err(PciIdError::NotFourHexDigits);
    }
    let a: Option<u32> = hex_digit(id.get_char(start));
    let b: Option<u32> = hex_digit(id.get_char(start + 1));
    let c: Option<u32> = hex_digit(id.get_char(start + 2));
    let d: Option<u32> = hex_digit(id.get_char(start + 3));
    match (a, b, c, d) {
        (Some(a), Some(b), Some(c), Some(d)) => Ok(0x1000 * a + 0x100 * b + 0x10 * c + d),
        _ => Err(PciIdError::NotFourHexDigits),
    }
}

/// The lower-case hexadecimal digit of value `d`.
pub open spec fn digit_char(d: nat) -> char {
    if d < 10 {
        (0x30 + d) as char
    } else {
        (0x61 + d - 10) as char
    }
}

/// `v` in lower-case hexadecimal, without leading zeros.
pub open spec fn hex_digits(v: nat) -> Seq<char>
    decreases v,
{
    if v < 16 {
        seq![digit_char(v)]
    } else {
        hex_digits(v / 16).push(digit_char(v % 16))
    }
}

/// `v` in lower-case hexadecimal, with leading zeros up to four digits.
pub open spec fn padded_digits(v: nat) -> Seq<char> {
    if v < 0x10000 {
        seq![
            digit_char(v / 0x1000),
            digit_char(v / 0x100 % 16),
            digit_char(v / 0x10 % 16),
            digit_char(v % 16),
        ]
    } else {
        hex_digits(v)
    }
}

/// How an identifier is shown: `0x` and at least four digits.
pub open spec fn shown_id(v: nat) -> Seq<char> {
    seq!['0', 'x'] + padded_digits(v)
}

fn digit_text(d: u32) -> (text: &'static str)
    requires
        d < 16,
    ensures
        text@ == seq![digit_char(d as nat)],
{
    proof {
        reveal_strlit("0");
        reveal_strlit("1");
        reveal_strlit("2");
        reveal_strlit("3");
        reveal_strlit("4");
        reveal_strlit("5");
        reveal_strlit("6");
        reveal_strlit("7");
        reveal_strlit("8");
        reveal_strlit("9");
        reveal_strlit("a");
        reveal_strlit("b");
        reveal_strlit("c");
        reveal_strlit("d");
        reveal_strlit("e");
        reveal_strlit("f");
    }
    match d {
        0 => "0",
        1 => "1",
        2 => "2",
        3 => "3",
        4 => "4",
        5 => "5",
        6 => "6",
        7 => "7",
        8 => "8",
        9 => "9",
        10 => "a",
        11 => "b",
        12 => "c",
        13 => "d",
        14 => "e",
        _ => "f",
    }
}

fn append_hex(text: &mut String, v: u32)
    ensures
        final(text)@ == old(text)@ + hex_digits(v as nat),
    decreases v,
{
    if v >= 16 {
        append_hex(text, v / 16);
    }
    text.append(digit_text(v % 16));
}

/// Shows an identifier as `0x` and at least four lower-case hexadecimal digits.
pub fn show_pci_id(id: u32) -> (text: String)
    ensures
        text@ == shown_id(id as nat),
{
    let mut text: String = String::new();
    proof {
        reveal_strlit("0x");
    }
    text.append("0x");
    if id < 0x10000 {
        text.append(digit_text(id / 0x1000));
        text.append(digit_text(id / 0x100 % 16));
        text.append(digit_text(id / 0x10 % 16));
        text.append(digit_text(id % 16));
    } else {
        append_hex(&mut text, id);
    }
    assert(text@ =~= shown_id(id as nat));
    text
}

/// An ASCII upper-case letter in lower case; any other character unchanged.
pub open spec fn lower_char(c: char) -> char {
    if 0x41 <= c as u32 <= 0x5a {
        (c as u32 + 0x20) as char
    } else {
        c
    }
}

/// A text with its ASCII letters in lower case.
pub open spec fn lower_case(s: Seq<char>) -> Seq<char> {
    s.map_values(|c: char| lower_char(c))
}

/// Whether a text is nothing but white space.
pub open spec fn is_blank(s: Seq<char>) -> bool {
    forall|i: int| 0 <= i < s.len() ==> is_white_space(#[trigger] s[i])
}

proof fn lemma_trim_start_lower_case(s: Seq<char>)
    ensures
        trim_start(lower_case(s)) == lower_case(trim_start(s)),
    decreases s.len(),
{
    if s.len() > 0 {
        assert(lower_case(s).drop_first() =~= lower_case(s.drop_first()));
        lemma_trim_start_lower_case(s.drop_first());
    }
}

proof fn lemma_trim_end_lower_case(s: Seq<char>)
    ensures
        trim_end(lower_case(s)) == lower_case(trim_end(s)),
    decreases s.len(),
{
    if s.len() > 0 {
        assert(lower_case(s).drop_last() =~= lower_case(s.drop_last()));
        lemma_trim_end_lower_case(s.drop_last());
    }
}

proof fn lemma_lower_char(c: char)
    ensures
        lower_char(c) == '0' <==> c == '0',
        lower_char(c) == 'x' <==> (c == 'x' || c == 'X'),
        lower_char(c) != 'X',
{
}

/// The case of the digits and of the prefix does not matter.
pub proof fn law_case_is_ignored(s: Seq<char>)
    ensures
        pci_id(lower_case(s)) == pci_id(s),
{
    lemma_trim_start_lower_case(s);
    lemma_trim_end_lower_case(trim_start(s));
    let t = trimmed(s);
    if t.len() >= 2 {
        lemma_lower_char(t[0]);
        lemma_lower_char(t[1]);
    }
    assert(without_prefix(lower_case(t)) =~= lower_case(without_prefix(t)));
}

proof fn lemma_trim_start_blank_front(w: Seq<char>, s: Seq<char>)
    requires
        is_blank(w),
    ensures
        trim_start(w + s) == trim_start(s),
    decreases w.len(),
{
    if w.len() == 0 {
        assert(w + s =~= s);
    } else {
        assert((w + s).drop_first() =~= w.drop_first() + s);
        assert(is_white_space(w[0]));
        lemma_trim_start_blank_front(w.drop_first(), s);
    }
}

proof fn lemma_trim_end_blank_back(s: Seq<char>, w: Seq<char>)
    requires
        is_blank(w),
    ensures
        trim_end(s + w) == trim_end(s),
    decreases w.len(),
{
    if w.len() == 0 {
        assert(s + w =~= s);
    } else {
        assert((s + w).drop_last() =~= s + w.drop_last());
        assert(is_white_space(w.last()));
        lemma_trim_end_blank_back(s, w.drop_last());
    }
}

proof fn lemma_blank_trims_to_nothing(w: Seq<char>)
    requires
        is_blank(w),
    ensures
        trim_start(w).len() == 0,
        trim_end(w).len() == 0,
    decreases w.len(),
{
    lemma_trim_start_blank_front(w, Seq::empty());
    lemma_trim_end_blank_back(Seq::empty(), w);
    assert(w + Seq::<char>::empty() =~= w);
    assert(Seq::<char>::empty() + w =~= w);
}

proof fn lemma_trim_start_keeps_back(s: Seq<char>, w: Seq<char>)
    requires
        trim_start(s).len() > 0,
    ensures
        trim_start(s + w) == trim_start(s) + w,
    decreases s.len(),
{
    if s.len() > 0 && is_white_space(s[0]) {
        assert((s + w).drop_first() =~= s.drop_first() + w);
        lemma_trim_start_keeps_back(s.drop_first(), w);
    }
}

proof fn lemma_trims_to_nothing_is_blank(s: Seq<char>)
    requires
        trim_start(s).len() == 0,
    ensures
        is_blank(s),
    decreases s.len(),
{
    if s.len() > 0 {
        lemma_trims_to_nothing_is_blank(s.drop_first());
        assert forall|i: int| 0 <= i < s.len() implies is_white_space(#[trigger] s[i]) by {
            if i > 0 {
                assert(s[i] == s.drop_first()[i - 1]);
            }
        }
    }
}

/// White space around an identifier does not matter.
pub proof fn law_white_space_is_ignored(front: Seq<char>, s: Seq<char>, back: Seq<char>)
    requires
        is_blank(front),
        is_blank(back),
    ensures
        pci_id(front + s + back) == pci_id(s),
{
    assert(front + s + back =~= front + (s + back));
    lemma_trim_start_blank_front(front, s + back);
    if trim_start(s).len() > 0 {
        lemma_trim_start_keeps_back(s, back);
        lemma_trim_end_blank_back(trim_start(s), back);
    } else {
        lemma_trims_to_nothing_is_blank(s);
        lemma_trim_start_blank_front(s, back);
        lemma_blank_trims_to_nothing(back);
        assert(trimmed(s + back) =~= trimmed(s));
    }
}

proof fn lemma_trimming_shortens(s: Seq<char>)
    ensures
        trim_start(s).len() <= s.len(),
        trim_end(s).len() <= s.len(),
    decreases s.len(),
{
    if s.len() > 0 {
        lemma_trimming_shortens(s.drop_first());
        lemma_trimming_shortens(s.drop_last());
    }
}

/// A text without white space around it and without a prefix of its own denotes
/// the same with `0x` and with `0X` in front, and is refused alike.
pub proof fn law_prefix_is_optional(s: Seq<char>)
    requires
        trimmed(s) == s,
        without_prefix(s) == s,
    ensures
        pci_id(seq!['0', 'x'] + s) == pci_id(s),
        pci_id(seq!['0', 'X'] + s) == pci_id(s),
{
    let lower = seq!['0', 'x'] + s;
    let upper = seq!['0', 'X'] + s;
    if s.len() > 0 {
        lemma_trimming_shortens(s);
        lemma_trimming_shortens(trim_start(s));
        lemma_trimming_shortens(s.drop_first());
        lemma_trimming_shortens(s.drop_last());
        assert(trim_start(s) == s);
        assert(lower.last() == s.last() && upper.last() == s.last());
    }
    assert(trimmed(lower) == lower);
    assert(trimmed(upper) == upper);
    assert(without_prefix(lower) =~= s);
    assert(without_prefix(upper) =~= s);
}

/// Every identifier fits in sixteen bits.
pub proof fn law_identifiers_fit_in_sixteen_bits(s: Seq<char>)
    ensures
        pci_id(s) matches Some(v) ==> v <= 0xffff,
{
}

proof fn lemma_digit_reads_back(d: nat)
    requires
        d < 16,
    ensures
        digit_value(digit_char(d)) == Some(d),
{
}

proof fn lemma_split_in_digits(v: nat)
    requires
        v <= 0xffff,
    ensures
        v == 0x1000 * (v / 0x1000) + 0x100 * (v / 0x100 % 16) + 0x10 * (v / 0x10 % 16) + v % 16,
        v / 0x1000 < 16,
{
    lemma_div_denominator(v as int, 0x10, 0x10);
    lemma_div_denominator(v as int, 0x100, 0x10);
    lemma_fundamental_div_mod(v as int, 0x10);
    lemma_fundamental_div_mod((v / 0x10) as int, 0x10);
    lemma_fundamental_div_mod((v / 0x100) as int, 0x10);
}

/// Reading gives back the identifier that was shown, up to sixteen bits.
#[verifier::rlimit(40)]
pub proof fn law_shown_identifiers_read_back(v: nat)
    requires
        v <= 0xffff,
    ensures
        pci_id(shown_id(v)) == Some(v),
{
    let (a, b, c, d) = (v / 0x1000, v / 0x100 % 16, v / 0x10 % 16, v % 16);
    lemma_split_in_digits(v);
    lemma_digit_reads_back(a);
    lemma_digit_reads_back(b);
    lemma_digit_reads_back(c);
    lemma_digit_reads_back(d);
    let digits = seq![digit_char(a), digit_char(b), digit_char(c), digit_char(d)];
    assert(padded_digits(v) == digits);
    assert(four_digits(digits) == Some(v));
    assert(trimmed(digits) == digits);
    law_prefix_is_optional(digits);
}

/// An identifier of more than sixteen bits is shown with more than four
/// digits, so that its text is not read back as another identifier.
pub proof fn law_wider_identifiers_do_not_read_back(v: nat)
    requires
        v > 0xffff,
    ensures
        pci_id(shown_id(v)) is None,
{
    let shown = shown_id(v);
    let digits = hex_digits(v);
    lemma_hex_digits(v);
    assert(shown.last() == digits.last());
    assert(trimmed(shown) == shown);
    assert(without_prefix(shown) =~= digits);
    assert(v / 16 > 0xfff && v / 16 / 16 > 0xff && v / 16 / 16 / 16 > 0xf && v / 16 / 16 / 16 / 16
        > 0);
    reveal_with_fuel(hex_digits, 5);
    assert(digits.len() > 4);
}

proof fn lemma_hex_digits(v: nat)
    ensures
        hex_digits(v).len() > 0,
        digit_value(hex_digits(v).last()) is Some,
    decreases v,
{
    if v >= 16 {
        lemma_hex_digits(v / 16);
        lemma_digit_reads_back(v % 16);
    }
}

/// The code points with the Unicode property `White_Space`, one by one.
pub open spec fn white_space_code_points() -> Seq<u32> {
    seq![
        0x09u32,
        0x0a,
        0x0b,
        0x0c,
        0x0d,
        0x20,
        0x85,
        0xa0,
        0x1680,
        0x2000,
        0x2001,
        0x2002,
        0x2003,
        0x2004,
        0x2005,
        0x2006,
        0x2007,
        0x2008,
        0x2009,
        0x200a,
        0x2028,
        0x2029,
        0x202f,
        0x205f,
        0x3000,
    ]
}

/// What a character counts as a hexadecimal digit: its distance from `0`, or ten
/// more than that from `a` or `A`. It is negative if the character is no digit.
pub open spec fn digit_weight(c: char) -> int {
    let u = c as int;
    if '0' as int <= u <= '9' as int {
        u - '0' as int
    } else if 'a' as int <= u <= 'f' as int {
        10 + u - 'a' as int
    } else if 'A' as int <= u <= 'F' as int {
        10 + u - 'A' as int
    } else {
        -1
    }
}

/// Whether a text is front, an optional prefix, four digits and back, with
/// nothing but white space in front and back.
pub open spec fn is_written_as(
    s: Seq<char>,
    front: Seq<char>,
    prefix: Seq<char>,
    digits: Seq<char>,
    back: Seq<char>,
) -> bool {
    &&& s == front + (prefix + digits) + back
    &&& forall|i: int|
        0 <= i < front.len() ==> white_space_code_points().contains(#[trigger] front[i] as u32)
    &&& forall|i: int|
        0 <= i < back.len() ==> white_space_code_points().contains(#[trigger] back[i] as u32)
    &&& prefix.len() == 0 || prefix == seq!['0', 'x'] || prefix == seq!['0', 'X']
    &&& digits.len() == 4
    &&& forall|i: int| 0 <= i < 4 ==> 0 <= digit_weight(#[trigger] digits[i]) < 16
}

#[verifier::rlimit(40)]
proof fn lemma_white_space_is_listed(c: char)
    ensures
        is_white_space(c) <==> white_space_code_points().contains(c as u32),
{
    let list = white_space_code_points();
    let u = c as u32;
    if is_white_space(c) {
        let at: int = if u <= 0x0d {
            u - 0x09
        } else if u == 0x20 {
            5
        } else if u == 0x85 {
            6
        } else if u == 0xa0 {
            7
        } else if u == 0x1680 {
            8
        } else if u <= 0x200a {
            9 + (u - 0x2000)
        } else if u == 0x2028 {
            20
        } else if u == 0x2029 {
            21
        } else if u == 0x202f {
            22
        } else if u == 0x205f {
            23
        } else {
            24
        };
        assert(list[at] == u);
    }
}

proof fn lemma_blank_is_listed(s: Seq<char>)
    ensures
        is_blank(s) <==> forall|i: int|
            0 <= i < s.len() ==> white_space_code_points().contains(#[trigger] s[i] as u32),
{
    assert forall|i: int| 0 <= i < s.len() implies is_white_space(#[trigger] s[i])
        == white_space_code_points().contains(s[i] as u32) by {
        lemma_white_space_is_listed(s[i]);
    }
}

proof fn lemma_digit_weight(c: char)
    ensures
        match digit_value(c) {
            Some(v) => digit_weight(c) == v && v < 16,
            None => !(0 <= digit_weight(c) < 16),
        },
        0 <= digit_weight(c) < 16 ==> !is_white_space(c) && c != 'x' && c != 'X',
{
}

proof fn lemma_front_is_blank(s: Seq<char>) -> (front: Seq<char>)
    ensures
        is_blank(front),
        s == front + trim_start(s),
    decreases s.len(),
{
    if s.len() > 0 && is_white_space(s[0]) {
        let rest = lemma_front_is_blank(s.drop_first());
        let front = seq![s[0]] + rest;
        assert(s =~= seq![s[0]] + s.drop_first());
        assert(s =~= front + trim_start(s));
        front
    } else {
        assert(s =~= Seq::<char>::empty() + s);
        Seq::empty()
    }
}

proof fn lemma_back_is_blank(s: Seq<char>) -> (back: Seq<char>)
    ensures
        is_blank(back),
        s == trim_end(s) + back,
    decreases s.len(),
{
    if s.len() > 0 && is_white_space(s.last()) {
        let rest = lemma_back_is_blank(s.drop_last());
        let back = rest.push(s.last());
        assert(s =~= s.drop_last().push(s.last()));
        assert(s =~= trim_end(s) + back);
        back
    } else {
        assert(s =~= s + Seq::<char>::empty());
        Seq::empty()
    }
}

/// A text that is read is written as white space, an optional `0x` or `0X`, four
/// hexadecimal digits and white space, and is read as the number that the digits
/// stand for, the first the most significant.
pub proof fn law_read_texts_are_four_digits(text: &str, r: Result<u32, PciIdError>)
    requires
        call_ensures(parse_pci_id, (text,), r),
    ensures
        r matches Ok(v) ==> exists|
            front: Seq<char>,
            prefix: Seq<char>,
            digits: Seq<char>,
            back: Seq<char>,
        | #[trigger]
            is_written_as(text@, front, prefix, digits, back) && v == 0x1000 * digit_weight(
                digits[0],
            ) + 0x100 * digit_weight(digits[1]) + 0x10 * digit_weight(digits[2]) + digit_weight(
                digits[3],
            ),
{
    if r is Ok {
        let s = text@;
        let front = lemma_front_is_blank(s);
        let back = lemma_back_is_blank(trim_start(s));
        let core = trimmed(s);
        let digits = without_prefix(core);
        let prefix = core.take(core.len() - digits.len());
        assert(core =~= prefix + digits);
        assert(prefix.len() == 2 ==> prefix =~= seq!['0', 'x'] || prefix =~= seq!['0', 'X']);
        assert(s =~= front + (prefix + digits) + back);
        lemma_blank_is_listed(front);
        lemma_blank_is_listed(back);
        assert forall|i: int| 0 <= i < 4 implies 0 <= digit_weight(#[trigger] digits[i]) < 16 by {
            lemma_digit_weight(digits[i]);
        }
        lemma_digit_weight(digits[0]);
        lemma_digit_weight(digits[1]);
        lemma_digit_weight(digits[2]);
        lemma_digit_weight(digits[3]);
        assert(is_written_as(s, front, prefix, digits, back));
    }
}

/// Every text that is written as white space, an optional `0x` or `0X`, four
/// hexadecimal digits and white space is read, as the number that the digits
/// stand for.
pub proof fn law_four_digits_are_read(
    text: &str,
    front: Seq<char>,
    prefix: Seq<char>,
    digits: Seq<char>,
    back: Seq<char>,
    r: Result<u32, PciIdError>,
)
    requires
        is_written_as(text@, front, prefix, digits, back),
        call_ensures(parse_pci_id, (text,), r),
    ensures
        r matches Ok(v) && v == 0x1000 * digit_weight(digits[0]) + 0x100 * digit_weight(digits[1])
            + 0x10 * digit_weight(digits[2]) + digit_weight(digits[3]),
{
    lemma_blank_is_listed(front);
    lemma_blank_is_listed(back);
    law_white_space_is_ignored(front, prefix + digits, back);
    lemma_digit_weight(digits[0]);
    lemma_digit_weight(digits[1]);
    lemma_digit_weight(digits[2]);
    lemma_digit_weight(digits[3]);
    assert(trimmed(digits) == digits);
    assert(without_prefix(digits) == digits);
    law_prefix_is_optional(digits);
    if prefix.len() == 0 {
        assert(prefix + digits =~= digits);
    }
}

/// The number that a text of digits stands for in base sixteen.
pub open spec fn base_sixteen(digits: Seq<char>) -> int
    decreases digits.len(),
{
    if digits.len() == 0 {
        0
    } else {
        16 * base_sixteen(digits.drop_last()) + digit_weight(digits.last())
    }
}

/// Whether a character is a digit or a lower-case letter.
pub open spec fn is_lower(c: char) -> bool {
    '0' as int <= c as int <= '9' as int || 'a' as int <= c as int <= 'f' as int
}

proof fn lemma_digit_char(d: nat)
    requires
        d < 16,
    ensures
        digit_weight(digit_char(d)) == d,
        is_lower(digit_char(d)),
        digit_char(d) == '0' <==> d == 0,
{
}

proof fn lemma_hex_digits_value(v: nat)
    ensures
        base_sixteen(hex_digits(v)) == v,
        forall|i: int| 0 <= i < hex_digits(v).len() ==> is_lower(#[trigger] hex_digits(v)[i]),
        hex_digits(v).len() > 0,
        v > 0 ==> hex_digits(v)[0] != '0',
    decreases v,
{
    let digits = hex_digits(v);
    lemma_digit_char(v % 16);
    if v < 16 {
        assert(digits.drop_last() =~= Seq::empty());
        assert(v % 16 == v);
        reveal_with_fuel(base_sixteen, 2);
    } else {
        lemma_hex_digits_value(v / 16);
        assert(digits.drop_last() =~= hex_digits(v / 16));
        lemma_fundamental_div_mod(v as int, 16);
    }
}

/// An identifier is shown as `0x` and digits, letters in lower case, that stand
/// for it in base sixteen: four of them, or more where four are too few, and then
/// the first is not zero.
#[verifier::rlimit(40)]
pub proof fn law_shown_form(id: u32, text: String)
    requires
        call_ensures(show_pci_id, (id,), text),
    ensures
        text@.take(2) == seq!['0', 'x'],
        base_sixteen(text@.skip(2)) == id,
        forall|i: int| 2 <= i < text@.len() ==> is_lower(#[trigger] text@[i]),
        id <= 0xffff ==> text@.len() == 6,
        id > 0xffff ==> text@.len() > 6 && text@[2] != '0',
{
    let v = id as nat;
    let digits = padded_digits(v);
    assert(text@.take(2) =~= seq!['0', 'x']);
    assert(text@.skip(2) =~= digits);
    if v <= 0xffff {
        lemma_split_in_digits(v);
        lemma_digit_char(v / 0x1000);
        lemma_digit_char(v / 0x100 % 16);
        lemma_digit_char(v / 0x10 % 16);
        lemma_digit_char(v % 16);
        let three = digits.drop_last();
        let two = three.drop_last();
        let one = two.drop_last();
        assert(one.drop_last() =~= Seq::empty());
        assert(base_sixteen(one.drop_last()) == 0);
        assert(base_sixteen(one) == v / 0x1000);
        assert(base_sixteen(two) == 16 * (v / 0x1000) + v / 0x100 % 16);
        assert(base_sixteen(three) == 16 * base_sixteen(two) + v / 0x10 % 16);
    } else {
        lemma_hex_digits_value(v);
        reveal_with_fuel(hex_digits, 5);
        assert(v / 16 > 0xfff && v / 16 / 16 > 0xff && v / 16 / 16 / 16 > 0xf && v / 16 / 16 / 16
            / 16 > 0);
        assert(digits.len() > 4);
        assert(text@[2] == digits[0]);
    }
    assert forall|i: int| 2 <= i < text@.len() implies is_lower(#[trigger] text@[i]) by {
        assert(text@[i] == digits[i - 2]);
    }
}

} // verus!
