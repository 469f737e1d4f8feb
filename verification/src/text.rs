//! Text that is built piece by piece: numbers, colours and quoted strings.

use vstd::prelude::*;
use vstd::string::*;

verus! {

/// The character of one decimal or lower-case hexadecimal digit.
pub open spec fn digit(d: nat) -> char {
    if d < 10 {
        (48 + d) as char
    } else {
        (87 + d) as char
    }
}

/// The character of one upper-case hexadecimal digit.
pub open spec fn upper_digit(d: nat) -> char {
    if d < 10 {
        (48 + d) as char
    } else {
        (55 + d) as char
    }
}

/// `n` in decimal, without leading zeros.
pub open spec fn decimal(n: nat) -> Seq<char>
    decreases n,
{
    if n < 10 {
        seq![digit(n)]
    } else {
        decimal(n / 10).push(digit(n % 10))
    }
}

/// `n` in decimal, with leading zeros up to `width` characters.
pub open spec fn padded(n: nat, width: nat) -> Seq<char> {
    let text = decimal(n);
    if text.len() >= width {
        text
    } else {
        Seq::new((width - text.len()) as nat, |i: int| '0') + text
    }
}

/// One byte as two lower-case hexadecimal digits.
pub open spec fn hex(b: u8) -> Seq<char> {
    seq![digit(b as nat / 16), digit(b as nat % 16)]
}

/// One byte as two upper-case hexadecimal digits.
pub open spec fn upper_hex(b: u8) -> Seq<char> {
    seq![upper_digit(b as nat / 16), upper_digit(b as nat % 16)]
}

/// `text` with every character `c` written as `with`.
pub open spec fn replaced(text: Seq<char>, c: char, with: Seq<char>) -> Seq<char>
    decreases text.len(),
{
    if text.len() == 0 {
        Seq::empty()
    } else {
        replaced(text.drop_last(), c, with) + (if text.last() == c {
            with
        } else {
            seq![text.last()]
        })
    }
}

/// Whether the two texts are the same.
pub fn same_text(a: &str, b: &str) -> (r: bool)
    ensures
        r == (a@ == b@),
{
    a.to_owned() == b.to_owned()
}

fn digit_text(d: u8) -> (s: &'static str)
    requires
        d < 16,
    ensures
        s@ == seq![digit(d as nat)],
{
    proof {
        reveal_strlit("0");
        reveal_strlit("1");
        reveal_strlit("2");
        reveal_strlit("3");
        reveal_strlit("4");
        reveal_strlit("5");
        reveal_strlit("6");
        reveal_strlit("7");
        reveal_strlit("8");
        reveal_strlit("9");
        reveal_strlit("a");
        reveal_strlit("b");
        reveal_strlit("c");
        reveal_strlit("d");
        reveal_strlit("e");
        reveal_strlit("f");
    }
    match d {
        0 => "0",
        1 => "1",
        2 => "2",
        3 => "3",
        4 => "4",
        5 => "5",
        6 => "6",
        7 => "7",
        8 => "8",
        9 => "9",
        10 => "a",
        11 => "b",
        12 => "c",
        13 => "d",
        14 => "e",
        _ => "f",
    }
}

fn upper_digit_text(d: u8) -> (s: &'static str)
    requires
        d < 16,
    ensures
        s@ == seq![upper_digit(d as nat)],
{
    proof {
        reveal_strlit("A");
        reveal_strlit("B");
        reveal_strlit("C");
        reveal_strlit("D");
        reveal_strlit("E");
        reveal_strlit("F");
    }
    match d {
        10 => "A",
        11 => "B",
        12 => "C",
        13 => "D",
        14 => "E",
        15 => "F",
        _ => digit_text(d),
    }
}

/// `n` in decimal.
pub fn decimal_text(n: u64) -> (s: String)
    ensures
        s@ == decimal(n as nat),
    decreases n,
{
    if n < 10 {
        digit_text(n as u8).to_owned()
    } else {
        let mut s = decimal_text(n / 10);
        s.append(digit_text((n % 10) as u8));
        s
    }
}

/// `n` in decimal with leading zeros up to `width` characters.
pub fn padded_text(n: u64, width: usize) -> (s: String)
    ensures
        s@ == padded(n as nat, width as nat),
{
    let digits = decimal_text(n);
    let len: usize = digits.as_str().unicode_len();
    let mut s = String::new();
    let mut have: usize = len;
    while have < width
        invariant
            len == decimal(n as nat).len(),
            have == len + s@.len(),
            len <= width ==> have <= width,
            len > width ==> have == len,
            s@ == Seq::new(s@.len(), |i: int| '0'),
        decreases width - have,
    {
        proof {
            reveal_strlit("0");
        }
        s.append("0");
        have = have + 1;
    }
    s.append(digits.as_str());
    assert(s@ =~= padded(n as nat, width as nat));
    s
}

/// One byte as two lower-case hexadecimal digits.
pub fn hex_text(b: u8) -> (s: String)
    ensures
        s@ == hex(b),
{
    let mut s = digit_text(b / 16).to_owned();
    s.append(digit_text(b % 16));
    s
}

/// One byte as two upper-case hexadecimal digits.
pub fn upper_hex_text(b: u8) -> (s: String)
    ensures
        s@ == upper_hex(b),
{
    let mut s = upper_digit_text(b / 16).to_owned();
    s.append(upper_digit_text(b % 16));
    s
}

/// `text` with every character `c` written as `with`.
pub fn replace(text: &str, c: char, with: &str) -> (s: String)
    ensures
        s@ == replaced(text@, c, with@),
{
    let n: usize = text.unicode_len();
    let mut s = String::new();
    let mut i: usize = 0;
    while i < n
        invariant
            i <= n,
            n == text@.len(),
            s@ == replaced(text@.take(i as int), c, with@),
        decreases n - i,
    {
        proof {
            assert(text@.take(i + 1).drop_last() =~= text@.take(i as int));
        }
        if text.get_char(i) == c {
            s.append(with);
        } else {
            let one = text.substring_char(i, i + 1);
            assert(one@ =~= seq![text@[i as int]]);
            s.append(one);
        }
        i = i + 1;
    }
    assert(text@.take(n as int) =~= text@);
    s
}

// ── Reading back ──────────────────────────────────────────────────────────────

/// What a decimal or hexadecimal digit counts for.
pub open spec fn digit_value(c: char) -> int {
    if 48 <= c as int <= 57 {
        c as int - 48
    } else if 97 <= c as int <= 102 {
        c as int - 87
    } else {
        c as int - 55
    }
}

/// The number that a text of decimal digits stands for.
pub open spec fn number(text: Seq<char>) -> int
    decreases text.len(),
{
    if text.len() == 0 {
        0
    } else {
        number(text.drop_last()) * 10 + digit_value(text.last())
    }
}

/// A decimal text reads back as its number, holds digits only, and has no zero in front
/// but for the number zero itself.
pub proof fn decimal_reads_back(n: nat)
    ensures
        number(decimal(n)) == n,
        decimal(n).len() > 0,
        forall|i: int| 0 <= i < decimal(n).len() ==> 48 <= (#[trigger] decimal(n)[i]) as int <= 57,
        n > 0 ==> decimal(n)[0] != '0',
        n < 10 ==> decimal(n).len() == 1,
    decreases n,
{
    if n < 10 {
        assert(decimal(n).drop_last() =~= Seq::empty());
        assert(number(Seq::<char>::empty()) == 0);
    } else {
        decimal_reads_back(n / 10);
        assert(decimal(n).drop_last() =~= decimal(n / 10));
        assert(decimal(n)[0] == decimal(n / 10)[0]);
    }
}

proof fn zeros_in_front(k: nat, text: Seq<char>)
    ensures
        number(Seq::new(k, |i: int| '0') + text) == number(text),
    decreases text.len(), k,
{
    let zeros = Seq::new(k, |i: int| '0');
    if text.len() > 0 {
        zeros_in_front(k, text.drop_last());
        assert((zeros + text).drop_last() =~= zeros + text.drop_last());
        assert((zeros + text).last() == text.last());
    } else if k > 0 {
        zeros_in_front((k - 1) as nat, text);
        assert((zeros + text).drop_last() =~= Seq::new((k - 1) as nat, |i: int| '0') + text);
        assert((zeros + text).last() == '0');
        assert(digit_value('0') == 0);
    } else {
        assert(zeros + text =~= text);
    }
}

/// A padded text reads back as its number and is at least as long as asked; where the
/// number is longer, nothing is put in front of it.
pub proof fn padded_reads_back(n: nat, width: nat)
    ensures
        number(padded(n, width)) == n,
        padded(n, width).len() >= width,
        n > 0 && padded(n, width).len() > width ==> padded(n, width)[0] != '0',
{
    decimal_reads_back(n);
    let text = decimal(n);
    if text.len() < width {
        zeros_in_front((width - text.len()) as nat, text);
    }
}

/// Two hexadecimal digits read back as their byte.
pub proof fn hex_reads_back(b: u8)
    ensures
        hex(b).len() == 2,
        digit_value(hex(b)[0]) * 16 + digit_value(hex(b)[1]) == b,
        upper_hex(b).len() == 2,
        digit_value(upper_hex(b)[0]) * 16 + digit_value(upper_hex(b)[1]) == b,
        forall|i: int|
            0 <= i < 2 ==> 48 <= (#[trigger] hex(b)[i]) as int <= 57 || 97 <= hex(b)[i] as int
                <= 102,
        forall|i: int|
            0 <= i < 2 ==> 48 <= (#[trigger] upper_hex(b)[i]) as int <= 57 || 65 <= upper_hex(
                b,
            )[i] as int <= 70,
{
}

/// Replacing works on each character by itself: what comes of a text is what comes of
/// its parts, the sought character is written anew, and any other stays.
pub proof fn replaced_by_character(a: Seq<char>, b: Seq<char>, c: char, x: char, with: Seq<char>)
    ensures
        replaced(a + b, c, with) == replaced(a, c, with) + replaced(b, c, with),
        replaced(seq![c], c, with) == with,
        x != c ==> replaced(seq![x], c, with) == seq![x],
        replaced(Seq::empty(), c, with) == Seq::<char>::empty(),
    decreases b.len(),
{
    reveal_with_fuel(replaced, 2);
    assert(seq![c].drop_last() =~= Seq::empty());
    assert(seq![x].drop_last() =~= Seq::empty());
    assert(replaced(seq![c], c, with) =~= with);
    if x != c {
        assert(replaced(seq![x], c, with) =~= seq![x]);
    }
    if b.len() == 0 {
        assert(a + b =~= a);
        assert(replaced(a, c, with) + replaced(b, c, with) =~= replaced(a, c, with));
    } else {
        replaced_by_character(a, b.drop_last(), c, x, with);
        assert((a + b).drop_last() =~= a + b.drop_last());
        assert((a + b).last() == b.last());
        let end = if b.last() == c { with } else { seq![b.last()] };
        assert(replaced(a, c, with) + replaced(b.drop_last(), c, with) + end =~= replaced(
            a,
            c,
            with,
        ) + (replaced(b.drop_last(), c, with) + end));
    }
}

/// Joining three texts does not depend on where they are joined first.
pub proof fn text_joined(a: Seq<char>, b: Seq<char>, c: Seq<char>)
    ensures
        (a + b) + c == a + (b + c),
{
    assert((a + b) + c =~= a + (b + c));
}

} // verus!
