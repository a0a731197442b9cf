//! The conversion algorithms behind the numeral systems.
use vstd::prelude::*;

use crate::text::push_char;

verus! {

/// The digits of `n` in bijective base `alphabet.len()`: no symbol stands for
/// zero, the first symbol stands for one. Empty for zero.
pub open spec fn bijective(alphabet: Seq<char>, n: nat) -> Seq<char>
    decreases n,
{
    if n == 0 || alphabet.len() == 0 {
        seq![]
    } else {
        let k = alphabet.len();
        bijective(alphabet, ((n - 1) / k as int) as nat).push(alphabet[(n - 1) % k as int])
    }
}

/// A number in a zeroless system: `-` for zero, else its bijective digits.
pub open spec fn zeroless_spec(alphabet: Seq<char>, n: nat) -> Seq<char> {
    if n == 0 {
        seq!['-']
    } else {
        bijective(alphabet, n)
    }
}

/// The decimal digits of `n`, most significant first, written with
/// `digits[0]` to `digits[9]`. Zero is the single zero digit.
pub open spec fn positional(digits: Seq<char>, n: nat) -> Seq<char>
    decreases n,
{
    if n < 10 {
        seq![digits[n as int]]
    } else {
        positional(digits, n / 10).push(digits[(n % 10) as int])
    }
}

fn push_bijective(out: &mut String, alphabet: &[char], n: u64)
    requires
        alphabet@.len() > 0,
    ensures
        final(out)@ == old(out)@ + bijective(alphabet@, n as nat),
    decreases n,
{
    if n == 0 {
        assert(old(out)@ + bijective(alphabet@, 0) =~= old(out)@);
        return;
    }
    let k = alphabet.len() as u64;
    let m = n - 1;
    push_bijective(out, alphabet, m / k);
    push_char(out, alphabet[(m % k) as usize]);
    assert(old(out)@ + bijective(alphabet@, n as nat) =~= old(out)@ + bijective(
        alphabet@,
        (m / k) as nat,
    ) + seq![alphabet@[(m % k) as int]]);
}

/// Writes `n` in a bijective base over `alphabet` (the scheme of spreadsheet
/// column names); zero is written `-`.
pub fn zeroless(alphabet: &[char], n: u64) -> (r: String)
    requires
        alphabet@.len() > 0,
    ensures
        r@ == zeroless_spec(alphabet@, n as nat),
{
    let mut out = String::new();
    if n == 0 {
        push_char(&mut out, '-');
        return out;
    }
    push_bijective(&mut out, alphabet, n);
    out
}

fn push_positional(out: &mut String, digits: &[char], n: u64)
    requires
        digits@.len() == 10,
    ensures
        final(out)@ == old(out)@ + positional(digits@, n as nat),
    decreases n,
{
    if n < 10 {
        push_char(out, digits[n as usize]);
        return;
    }
    push_positional(out, digits, n / 10);
    push_char(out, digits[(n % 10) as usize]);
    assert(old(out)@ + positional(digits@, n as nat) =~= old(out)@ + positional(
        digits@,
        (n / 10) as nat,
    ) + seq![digits@[(n % 10) as int]]);
}

/// Writes `n` in decimal with the ten digits `digits`, zero digit first.
pub fn decimal(digits: &[char], n: u64) -> (r: String)
    requires
        digits@.len() == 10,
    ensures
        r@ == positional(digits@, n as nat),
{
    let mut out = String::new();
    push_positional(&mut out, digits, n);
    assert(out@ =~= positional(digits@, n as nat));
    out
}

/// The six marks that the symbol system cycles through.
pub open spec fn symbol_marks() -> Seq<char> {
    seq!['*', '†', '‡', '§', '¶', '‖']
}

/// `-` for zero; else the mark `(n - 1) % 6`, repeated `⌈n / 6⌉` times.
pub open spec fn symbols_spec(n: nat) -> Seq<char> {
    if n == 0 {
        seq!['-']
    } else {
        Seq::new(((n - 1) / 6 + 1) as nat, |i: int| symbol_marks()[(n - 1) % 6])
    }
}

/// Writes `n` with repeated marks.
pub fn symbols(n: u64) -> (r: String)
    ensures
        r@ == symbols_spec(n as nat),
{
    let mut out = String::new();
    if n == 0 {
        push_char(&mut out, '-');
        return out;
    }
    let marks: [char; 6] = ['*', '†', '‡', '§', '¶', '‖'];
    assert(marks@ =~= symbol_marks());
    let mark = marks[((n - 1) % 6) as usize];
    let amount: u64 = (n - 1) / 6 + 1;
    let mut i: u64 = 0;
    while i < amount
        invariant
            i <= amount,
            out@ =~= Seq::new(i as nat, |j: int| mark),
        decreases amount - i,
    {
        push_char(&mut out, mark);
        i = i + 1;
    }
    assert(out@ =~= symbols_spec(n as nat));
    out
}

/// The values of the Roman table, in descending order.
pub open spec fn roman_values() -> Seq<u64> {
    seq![1000000, 500000, 100000, 50000, 10000, 5000, 4000, 1000, 900, 500, 400, 100, 90, 50, 40, 10, 9, 5, 4, 1]
}
/// The name of the `i`-th entry of the Roman table, in capitals; values from
/// 4000 up carry a combining overline on each letter.
pub open spec fn roman_name(i: int) -> Seq<char> {
    seq![
        seq!['M', '̅'],
        seq!['D', '̅'],
        seq!['C', '̅'],
        seq!['L', '̅'],
        seq!['X', '̅'],
        seq!['V', '̅'],
        seq!['I', '̅', 'V', '̅'],
        seq!['M'],
        seq!['C', 'M'],
        seq!['D'],
        seq!['C', 'D'],
        seq!['C'],
        seq!['X', 'C'],
        seq!['L'],
        seq!['X', 'L'],
        seq!['X'],
        seq!['I', 'X'],
        seq!['V'],
        seq!['I', 'V'],
        seq!['I'],
    ][i]
}

/// A letter of a Roman name in the requested case; other characters (the
/// overline) stay as they are.
pub open spec fn roman_case(c: char, upper: bool) -> char {
    if upper {
        c
    } else {
        match c {
            'M' => 'm',
            'D' => 'd',
            'C' => 'c',
            'L' => 'l',
            'X' => 'x',
            'V' => 'v',
            'I' => 'i',
            _ => c,
        }
    }
}

/// The name of the `i`-th entry of the Roman table in the requested case.
pub open spec fn roman_cased(i: int, upper: bool) -> Seq<char> {
    roman_name(i).map_values(|c: char| roman_case(c, upper))
}

/// Greedy Roman conversion from table entry `i` on: while the rest is at
/// least the entry's value, write its name and subtract.
pub open spec fn roman_from(i: nat, n: nat, upper: bool) -> Seq<char>
    decreases 20 - i, n,
{
    if i >= 20 {
        seq![]
    } else if n >= roman_values()[i as int] && roman_values()[i as int] > 0 {
        roman_cased(i as int, upper) + roman_from(i, (n - roman_values()[i as int]) as nat, upper)
    } else {
        roman_from(i + 1, n, upper)
    }
}

/// A Roman numeral: `N` (or `n`) for zero, else the greedy conversion.
pub open spec fn roman_spec(n: nat, upper: bool) -> Seq<char> {
    if n == 0 {
        if upper {
            seq!['N']
        } else {
            seq!['n']
        }
    } else {
        roman_from(0, n, upper)
    }
}

fn roman_letter(c: char, upper: bool) -> (r: char)
    ensures
        r == roman_case(c, upper),
{
    if upper {
        c
    } else {
        match c {
            'M' => 'm',
            'D' => 'd',
            'C' => 'c',
            'L' => 'l',
            'X' => 'x',
            'V' => 'v',
            'I' => 'i',
            _ => c,
        }
    }
}

fn push_roman_name(out: &mut String, i: usize, upper: bool)
    requires
        i < 20,
    ensures
        final(out)@ == old(out)@ + roman_cased(i as int, upper),
{
    let name: Vec<char> = match i {
        0 => vec!['M', '̅'],
        1 => vec!['D', '̅'],
        2 => vec!['C', '̅'],
        3 => vec!['L', '̅'],
        4 => vec!['X', '̅'],
        5 => vec!['V', '̅'],
        6 => vec!['I', '̅', 'V', '̅'],
        7 => vec!['M'],
        8 => vec!['C', 'M'],
        9 => vec!['D'],
        10 => vec!['C', 'D'],
        11 => vec!['C'],
        12 => vec!['X', 'C'],
        13 => vec!['L'],
        14 => vec!['X', 'L'],
        15 => vec!['X'],
        16 => vec!['I', 'X'],
        17 => vec!['V'],
        18 => vec!['I', 'V'],
        19 => vec!['I'],
        _ => vec![],
    };

    assert(name@ =~= roman_name(i as int));
    let mut j: usize = 0;
    while j < name.len()
        invariant
            j <= name@.len(),
            name@ == roman_name(i as int),
            out@ =~= old(out)@ + roman_cased(i as int, upper).take(j as int),
        decreases name@.len() - j,
    {
        let c = roman_letter(name[j], upper);
        push_char(out, c);
        j = j + 1;
        assert(roman_cased(i as int, upper).take(j as int) =~= roman_cased(i as int, upper).take(
            j - 1,
        ).push(c));
    }
    assert(roman_cased(i as int, upper).take(j as int) =~= roman_cased(i as int, upper));
}

/// Writes `n` as a Roman numeral, with overlined letters for thousands.
pub fn roman_numeral(n: u64, upper: bool) -> (r: String)
    ensures
        r@ == roman_spec(n as nat, upper),
{
    let mut out = String::new();
    if n == 0 {
        push_char(&mut out, if upper { 'N' } else { 'n' });
        return out;
    }
    let values: [u64; 20] = [1000000, 500000, 100000, 50000, 10000, 5000, 4000, 1000, 900, 500, 400, 100, 90, 50, 40, 10, 9, 5, 4, 1];
    assert(values@ =~= roman_values());
    let mut i: usize = 0;
    let mut m: u64 = n;
    while i < 20
        invariant
            i <= 20,
            values@ == roman_values(),
            out@ + roman_from(i as nat, m as nat, upper) == roman_spec(n as nat, upper),
        decreases 20 - i, m,
    {
        let value = values[i];
        if m >= value {
            let ghost before = out@;
            push_roman_name(&mut out, i, upper);
            m = m - value;
            assert(before + roman_cased(i as int, upper) + roman_from(i as nat, m as nat, upper)
                =~= before + (roman_cased(i as int, upper) + roman_from(i as nat, m as nat, upper)));
        } else {
            i = i + 1;
        }
    }
    assert(out@ + roman_from(i as nat, m as nat, upper) =~= out@);
    out
}

/// The letters of the Hebrew table, in descending order of value.
pub open spec fn hebrew_letters() -> Seq<char> {
    seq!['ת', 'ש', 'ר', 'ק', 'צ', 'פ', 'ע', 'ס', 'נ', 'מ', 'ל', 'כ', 'י', 'ט', 'ח', 'ז', 'ו', 'ה', 'ד', 'ג', 'ב', 'א']
}

/// The values of the Hebrew letters, in descending order.
pub open spec fn hebrew_values() -> Seq<u64> {
    seq![400, 300, 200, 100, 90, 80, 70, 60, 50, 40, 30, 20, 10, 9, 8, 7, 6, 5, 4, 3, 2, 1]
}

/// Greedy Hebrew conversion from table entry `i` on; `first` holds while
/// nothing has been written yet. A rest of 15 or 16 ends the numeral with
/// `ט״ו` or `ט״ז`. A letter that finishes the numeral gets a geresh after it
/// when it is the only letter, and a gershayim before it otherwise.
pub open spec fn hebrew_from(i: nat, n: nat, first: bool) -> Seq<char>
    decreases 22 - i, n,
{
    if i >= 22 || n == 0 {
        seq![]
    } else if n >= hebrew_values()[i as int] {
        let letter = hebrew_letters()[i as int];
        let value = hebrew_values()[i as int];
        if n == 15 {
            seq!['ט', '״', 'ו']
        } else if n == 16 {
            seq!['ט', '״', 'ז']
        } else if n == value {
            if first {
                seq![letter, '׳']
            } else {
                seq!['״', letter]
            }
        } else {
            seq![letter] + hebrew_from(i, (n - value) as nat, false)
        }
    } else {
        hebrew_from(i + 1, n, first)
    }
}

/// A Hebrew numeral: `-` for zero.
pub open spec fn hebrew_spec(n: nat) -> Seq<char> {
    if n == 0 {
        seq!['-']
    } else {
        hebrew_from(0, n, true)
    }
}

/// Writes `n` as a Hebrew numeral with geresh or gershayim.
pub fn hebrew_numeral(n: u64) -> (r: String)
    ensures
        r@ == hebrew_spec(n as nat),
{
    let mut out = String::new();
    if n == 0 {
        push_char(&mut out, '-');
        return out;
    }
    let letters: [char; 22] = ['ת', 'ש', 'ר', 'ק', 'צ', 'פ', 'ע', 'ס', 'נ', 'מ', 'ל', 'כ', 'י', 'ט', 'ח', 'ז', 'ו', 'ה', 'ד', 'ג', 'ב', 'א'];
    let values: [u64; 22] = [400, 300, 200, 100, 90, 80, 70, 60, 50, 40, 30, 20, 10, 9, 8, 7, 6, 5, 4, 3, 2, 1];
    assert(letters@ =~= hebrew_letters());
    assert(values@ =~= hebrew_values());
    let mut i: usize = 0;
    let mut m: u64 = n;
    let mut first = true;
    while i < 22 && m > 0
        invariant
            i <= 22,
            letters@ == hebrew_letters(),
            values@ == hebrew_values(),
            out@ + hebrew_from(i as nat, m as nat, first) == hebrew_spec(n as nat),
        decreases 22 - i, m,
    {
        let ghost before = out@;
        let letter = letters[i];
        let value = values[i];
        if m >= value {
            if m == 15 || m == 16 {
                push_char(&mut out, 'ט');
                push_char(&mut out, '״');
                push_char(&mut out, if m == 15 { 'ו' } else { 'ז' });
                m = 0;
            } else if m == value {
                if first {
                    push_char(&mut out, letter);
                    push_char(&mut out, '׳');
                } else {
                    push_char(&mut out, '״');
                    push_char(&mut out, letter);
                }
                m = 0;
            } else {
                push_char(&mut out, letter);
                m = m - value;
                assert(before + (seq![letter] + hebrew_from(i as nat, m as nat, false))
                    =~= out@ + hebrew_from(i as nat, m as nat, false));
            }
            first = false;
        } else {
            i = i + 1;
        }
    }
    assert(out@ + hebrew_from(i as nat, m as nat, first) =~= out@);
    out
}

/// The nine Greek letters for the digits 1 to 9 at a decimal place: 0 for
/// ones, 1 for tens, 2 for hundreds.
#[verifier::opaque]
pub open spec fn greek_table(place: int, upper: bool) -> Seq<char> {
    if place == 0 {
        if upper {
            seq!['Α', 'Β', 'Γ', 'Δ', 'Ε', 'Ϛ', 'Ζ', 'Η', 'Θ']
        } else {
            seq!['α', 'β', 'γ', 'δ', 'ε', 'ϛ', 'ζ', 'η', 'θ']
        }
    } else if place == 1 {
        if upper {
            seq!['Ι', 'Κ', 'Λ', 'Μ', 'Ν', 'Ξ', 'Ο', 'Π', 'Ϟ']
        } else {
            seq!['ι', 'κ', 'λ', 'μ', 'ν', 'ξ', 'ο', 'π', 'ϙ']
        }
    } else {
        if upper {
            seq!['Ρ', 'Σ', 'Τ', 'Υ', 'Φ', 'Χ', 'Ψ', 'Ω', 'Ϡ']
        } else {
            seq!['ρ', 'σ', 'τ', 'υ', 'φ', 'χ', 'ψ', 'ω', 'ϡ']
        }
    }
}

/// The letter for digit `d` at `place`, or nothing for a zero digit.
pub open spec fn greek_place(d: int, place: int, upper: bool) -> Seq<char> {
    if d == 0 {
        seq![]
    } else {
        seq![greek_table(place, upper)[d - 1]]
    }
}

/// One base-10000 chunk `c` (non-zero) at myriad power `p`: the power as a
/// lowercase digit followed by `Μ` (when `p > 0`), the thousands with a
/// lower numeral sign, hundreds, tens and ones, and a keraia when there are no
/// thousands.
pub open spec fn greek_chunk(c: int, p: int, upper: bool) -> Seq<char> {
    greek_power(p) + greek_thousands(c / 1000, upper) + greek_place((c / 100) % 10, 2, upper)
        + greek_place((c / 10) % 10, 1, upper) + greek_place(c % 10, 0, upper) + greek_keraia(
        c / 1000,
    )
}

/// The mark of myriad power `p`: nothing for `p == 0`, else the power as a
/// lowercase digit followed by `Μ`.
pub open spec fn greek_power(p: int) -> Seq<char> {
    if p == 0 {
        seq![]
    } else {
        seq![greek_table(0, false)[p - 1], 'Μ']
    }
}

/// The thousands digit `th` with the lower numeral sign before it.
pub open spec fn greek_thousands(th: int, upper: bool) -> Seq<char> {
    if th == 0 {
        seq![]
    } else {
        seq!['͵', greek_table(0, upper)[th - 1]]
    }
}

/// The keraia (U+0374, the Greek numeral sign) that closes a chunk without
/// thousands.
pub open spec fn greek_keraia(th: int) -> Seq<char> {
    if th == 0 {
        seq!['\u{0374}']
    } else {
        seq![]
    }
}

/// The non-zero chunks of `n`, lowest at myriad power `p`, highest first,
/// separated by `, `.
pub open spec fn greek_body(n: nat, p: nat, upper: bool) -> Seq<char>
    decreases n,
{
    if n == 0 {
        seq![]
    } else {
        let high = greek_body(n / 10000, p + 1, upper);
        let c = n % 10000;
        if c == 0 {
            high
        } else if n / 10000 == 0 {
            greek_chunk(c as int, p as int, upper)
        } else {
            high + seq![',', ' '] + greek_chunk(c as int, p as int, upper)
        }
    }
}

/// A Greek numeral: the Greek zero sign for zero.
pub open spec fn greek_spec(n: nat, upper: bool) -> Seq<char> {
    if n == 0 {
        seq!['𐆊']
    } else {
        greek_body(n, 0, upper)
    }
}

/// The largest number whose chunks start at myriad power `p` within `u64`.
pub open spec fn greek_cap(p: nat) -> nat {
    if p == 0 {
        18446744073709551615
    } else if p == 1 {
        1844674407370955
    } else if p == 2 {
        184467440737
    } else if p == 3 {
        18446744
    } else if p == 4 {
        1844
    } else {
        0
    }
}

fn greek_letter(place: usize, d: u64, upper: bool) -> (r: char)
    requires
        place < 3,
        1 <= d <= 9,
    ensures
        r == greek_table(place as int, upper)[d - 1],
{
    let table: [char; 9] = if place == 0 {
        if upper {
            ['Α', 'Β', 'Γ', 'Δ', 'Ε', 'Ϛ', 'Ζ', 'Η', 'Θ']
        } else {
            ['α', 'β', 'γ', 'δ', 'ε', 'ϛ', 'ζ', 'η', 'θ']
        }
    } else if place == 1 {
        if upper {
            ['Ι', 'Κ', 'Λ', 'Μ', 'Ν', 'Ξ', 'Ο', 'Π', 'Ϟ']
        } else {
            ['ι', 'κ', 'λ', 'μ', 'ν', 'ξ', 'ο', 'π', 'ϙ']
        }
    } else {
        if upper {
            ['Ρ', 'Σ', 'Τ', 'Υ', 'Φ', 'Χ', 'Ψ', 'Ω', 'Ϡ']
        } else {
            ['ρ', 'σ', 'τ', 'υ', 'φ', 'χ', 'ψ', 'ω', 'ϡ']
        }
    };
    reveal(greek_table);
    assert(table@ =~= greek_table(place as int, upper));
    table[(d - 1) as usize]
}

fn push_greek_place(out: &mut String, d: u64, place: usize, upper: bool)
    requires
        d <= 9,
        place < 3,
    ensures
        final(out)@ == old(out)@ + greek_place(d as int, place as int, upper),
{
    if d == 0 {
        assert(old(out)@ + greek_place(0, place as int, upper) =~= old(out)@);
    } else {
        let c = greek_letter(place, d, upper);
        push_char(out, c);
    }
}

#[verifier::rlimit(60)]
fn push_greek_chunk(out: &mut String, c: u64, p: u64, upper: bool)
    requires
        0 < c < 10000,
        p <= 4,
    ensures
        final(out)@ == old(out)@ + greek_chunk(c as int, p as int, upper),
{
    let ghost start = out@;
    let th = c / 1000;
    let h = (c / 100) % 10;
    let t = (c / 10) % 10;
    let o = c % 10;
    if p != 0 {
        let m = greek_letter(0, p, false);
        push_char(out, m);
        push_char(out, 'Μ');
    }
    assert(out@ =~= start + greek_power(p as int));
    let ghost a = out@;
    if th != 0 {
        let d = greek_letter(0, th, upper);
        push_char(out, '͵');
        push_char(out, d);
    }
    assert(out@ =~= a + greek_thousands(th as int, upper));
    push_greek_place(out, h, 2, upper);
    push_greek_place(out, t, 1, upper);
    push_greek_place(out, o, 0, upper);
    let ghost e = out@;
    if th == 0 {
        push_char(out, '\u{0374}');
    }
    assert(out@ =~= e + greek_keraia(th as int));
}

fn push_greek_body(out: &mut String, n: u64, p: u64, upper: bool)
    requires
        p <= 4,
        n <= greek_cap(p as nat),
    ensures
        final(out)@ == old(out)@ + greek_body(n as nat, p as nat, upper),
    decreases n,
{
    if n == 0 {
        assert(old(out)@ + greek_body(0, p as nat, upper) =~= old(out)@);
        return;
    }
    let high = n / 10000;
    let c = n % 10000;
    if high != 0 {
        assert(p < 4);
        push_greek_body(out, high, p + 1, upper);
    } else {
        assert(old(out)@ + greek_body(0, (p + 1) as nat, upper) =~= old(out)@);
    }
    let ghost mid = out@;
    if c != 0 {
        if high != 0 {
            push_char(out, ',');
            push_char(out, ' ');
        }
        push_greek_chunk(out, c, p, upper);
    }
    assert(out@ =~= old(out)@ + greek_body(n as nat, p as nat, upper));
}

/// Writes `n` as a Greek numeral, in myriad chunks.
pub fn greek_numeral(n: u64, upper: bool) -> (r: String)
    ensures
        r@ == greek_spec(n as nat, upper),
{
    let mut out = String::new();
    if n == 0 {
        push_char(&mut out, '𐆊');
        return out;
    }
    push_greek_body(&mut out, n, 0, upper);
    assert(out@ =~= greek_spec(n as nat, upper));
    out
}

/// The Chinese numeral of `n`, grouped by ten thousands, in the traditional
/// or simplified variant and in the banknote (upper) or standard case.
pub uninterp spec fn chinese_numeral(traditional: bool, upper: bool, n: nat) -> Seq<char>;

/// Relies on `chinese_number::from_u64_to_chinese_ten_thousand` for the
/// Chinese numeral of `n`; its source writes zero as `零` in every variant and
/// case.
#[verifier::external_body]
pub(crate) fn chinese(traditional: bool, upper: bool, n: u64) -> (r: String)
    ensures
        r@ == chinese_numeral(traditional, upper, n as nat),
        n == 0 ==> r@ == seq!['零'],
{
    let variant = match traditional {
        true => chinese_number::ChineseVariant::Traditional,
        false => chinese_number::ChineseVariant::Simple,
    };
    let case = match upper {
        true => chinese_number::ChineseCase::Upper,
        false => chinese_number::ChineseCase::Lower,
    };
    chinese_number::from_u64_to_chinese_ten_thousand(variant, case, n)
}

/// Different numbers have different bijective digits.
pub proof fn lemma_bijective_injective(alphabet: Seq<char>, n1: nat, n2: nat)
    requires
        alphabet.len() > 0,
        alphabet.no_duplicates(),
        bijective(alphabet, n1) == bijective(alphabet, n2),
    ensures
        n1 == n2,
    decreases n1,
{
    let k = alphabet.len() as int;
    if n1 == 0 || n2 == 0 {
        assert(bijective(alphabet, n1).len() == 0 && bijective(alphabet, n2).len() == 0);
    } else {
        let q1 = ((n1 - 1) / k) as nat;
        let q2 = ((n2 - 1) / k) as nat;
        let r1 = (n1 - 1) % k;
        let r2 = (n2 - 1) % k;
        let b1 = bijective(alphabet, n1);
        let b2 = bijective(alphabet, n2);
        assert(b1.last() == alphabet[r1]);
        assert(b2.last() == alphabet[r2]);
        assert(r1 == r2);
        assert(b1.drop_last() =~= bijective(alphabet, q1));
        assert(b2.drop_last() =~= bijective(alphabet, q2));
        lemma_bijective_injective(alphabet, q1, q2);
        vstd::arithmetic::div_mod::lemma_fundamental_div_mod(n1 - 1, k);
        vstd::arithmetic::div_mod::lemma_fundamental_div_mod(n2 - 1, k);
    }
}

} // verus!
