//! Colour look-up tables in `.cube` files.
//!
//! The text of a file is read here up to the words of its rows; the words become
//! numbers elsewhere, and the finished rows come back to be checked.

use crate::float::F32;
use crate::text::{decimal, decimal_reads_back, decimal_text, number};
use vstd::prelude::*;
use vstd::string::*;

verus! {

/// A table with `size³` colours, red varying fastest, then green, then blue.
#[derive(Debug)]
pub struct Lut3d {
    size: usize,
    data: Vec<[F32; 3]>,
}

/// The three words of a row.
#[derive(Debug)]
pub struct CubeRow {
    pub r: Vec<char>,
    pub g: Vec<char>,
    pub b: Vec<char>,
}

/// Why a file is not a table.
#[derive(Clone, Copy, PartialEq, Eq, Structural, Debug)]
pub enum LutError {
    /// The size is no number.
    BadSize,
    /// There is no size, or one below two.
    NoSize,
    /// There are not as many rows as the size asks for.
    RowCount { found: usize, size: usize, expected: usize },
}

/// The text of a file so far: its size, zero where none was named, and its rows.
#[derive(Debug)]
pub struct CubeText {
    pub size: usize,
    pub rows: Vec<CubeRow>,
}

/// A row as a value.
pub struct Row {
    pub r: Seq<char>,
    pub g: Seq<char>,
    pub b: Seq<char>,
}

impl View for CubeRow {
    type V = Row;

    open spec fn view(&self) -> Row {
        Row { r: self.r@, g: self.g@, b: self.b@ }
    }
}

/// The rows as values.
pub open spec fn rows_of(rows: Seq<CubeRow>) -> Seq<Row> {
    rows.map_values(|r: CubeRow| r@)
}

// ── Lines and words ───────────────────────────────────────────────────────────

/// Whether a character is white space.
pub open spec fn is_space(c: char) -> bool {
    ||| '\u{9}' <= c <= '\u{d}'
    ||| c == ' '
    ||| c == '\u{85}'
    ||| c == '\u{a0}'
    ||| c == '\u{1680}'
    ||| '\u{2000}' <= c <= '\u{200a}'
    ||| c == '\u{2028}'
    ||| c == '\u{2029}'
    ||| c == '\u{202f}'
    ||| c == '\u{205f}'
    ||| c == '\u{3000}'
}

fn space(c: char) -> (r: bool)
    ensures
        r == is_space(c),
{
    ('\u{9}' <= c && c <= '\u{d}') || c == ' ' || c == '\u{85}' || c == '\u{a0}' || c == '\u{1680}'
        || ('\u{2000}' <= c && c <= '\u{200a}') || c == '\u{2028}' || c == '\u{2029}' || c
        == '\u{202f}' || c == '\u{205f}' || c == '\u{3000}'
}

/// The lines of a text; the last one may be empty.
pub open spec fn lines_of(s: Seq<char>) -> Seq<Seq<char>>
    decreases s.len(),
{
    if s.len() == 0 {
        seq![Seq::empty()]
    } else {
        let before = lines_of(s.drop_last());
        if s.last() == '\n' {
            before.push(Seq::empty())
        } else {
            before.drop_last().push(before.last().push(s.last()))
        }
    }
}

/// A text without white space at its end.
pub open spec fn trim_end(s: Seq<char>) -> Seq<char>
    decreases s.len(),
{
    if s.len() > 0 && is_space(s.last()) {
        trim_end(s.drop_last())
    } else {
        s
    }
}

/// A text without white space at its start.
pub open spec fn trim_start(s: Seq<char>) -> Seq<char>
    decreases s.len(),
{
    if s.len() > 0 && is_space(s[0]) {
        trim_start(s.drop_first())
    } else {
        s
    }
}

/// A text without white space around it.
pub open spec fn trimmed(s: Seq<char>) -> Seq<char> {
    trim_start(trim_end(s))
}

/// The words of a text that have ended, and the one that it ends in.
pub open spec fn split_words(s: Seq<char>) -> (Seq<Seq<char>>, Seq<char>)
    decreases s.len(),
{
    if s.len() == 0 {
        (Seq::empty(), Seq::empty())
    } else {
        let before = split_words(s.drop_last());
        if !is_space(s.last()) {
            (before.0, before.1.push(s.last()))
        } else if before.1.len() > 0 {
            (before.0.push(before.1), Seq::empty())
        } else {
            before
        }
    }
}

/// The words of a text, without the white space between them.
pub open spec fn words(s: Seq<char>) -> Seq<Seq<char>> {
    let parts = split_words(s);
    if parts.1.len() > 0 {
        parts.0.push(parts.1)
    } else {
        parts.0
    }
}

/// Whether `s` begins with `prefix`.
pub open spec fn begins_with(s: Seq<char>, prefix: Seq<char>) -> bool {
    prefix.len() <= s.len() && s.take(prefix.len() as int) == prefix
}

/// Whether a character is a decimal digit.
pub open spec fn is_digit(c: char) -> bool {
    '0' <= c <= '9'
}

/// The number that digits stand for.
pub open spec fn digits_value(s: Seq<char>) -> nat
    decreases s.len(),
{
    if s.len() == 0 {
        0
    } else {
        10 * digits_value(s.drop_last()) + (s.last() as nat - '0' as nat) as nat
    }
}

/// Whether a text is digits only, and at least one.
pub open spec fn all_digits(s: Seq<char>) -> bool {
    s.len() > 0 && forall|i: int| 0 <= i < s.len() ==> is_digit(#[trigger] s[i])
}

/// The size that a text names: digits, with a plus sign before them at most, whose
/// number the machine can count to.
pub open spec fn size_named(s: Seq<char>) -> Option<usize> {
    let digits = if s.len() > 0 && s[0] == '+' {
        s.drop_first()
    } else {
        s
    };
    if all_digits(digits) && digits_value(digits) <= usize::MAX {
        Some(digits_value(digits) as usize)
    } else {
        None
    }
}

// ── Files ─────────────────────────────────────────────────────────────────────

/// What was read so far: the size and the rows, or why reading ended.
pub enum Reading {
    Going { size: usize, rows: Seq<Row> },
    Stopped { error: LutError },
}

/// After one more line. Blank lines, comments, titles, domains and the sizes of
/// one-dimensional tables say nothing; a line with fewer than three words neither.
pub open spec fn read_line(so_far: Reading, line: Seq<char>) -> Reading {
    match so_far {
        Reading::Stopped { .. } => so_far,
        Reading::Going { size, rows } => {
            let l = trimmed(line);
            if l.len() == 0 || l[0] == '#' {
                so_far
            } else if begins_with(l, "LUT_3D_SIZE"@) {
                match size_named(trimmed(l.skip("LUT_3D_SIZE"@.len() as int))) {
                    Some(n) => Reading::Going { size: n, rows },
                    None => Reading::Stopped { error: LutError::BadSize },
                }
            } else if begins_with(l, "LUT_1D_SIZE"@) || begins_with(l, "TITLE"@) || begins_with(
                l,
                "DOMAIN_"@,
            ) {
                so_far
            } else if words(l).len() >= 3 {
                Reading::Going {
                    size,
                    rows: rows.push(Row { r: words(l)[0], g: words(l)[1], b: words(l)[2] }),
                }
            } else {
                so_far
            }
        },
    }
}

/// After the lines.
pub open spec fn read_lines(lines: Seq<Seq<char>>) -> Reading
    decreases lines.len(),
{
    if lines.len() == 0 {
        Reading::Going { size: 0, rows: Seq::empty() }
    } else {
        read_line(read_lines(lines.drop_last()), lines.last())
    }
}

fn trim(s: &Vec<char>) -> (r: Vec<char>)
    ensures
        r@ == trimmed(s@),
{
    let mut to: usize = s.len();
    assert(s@.take(to as int) =~= s@);
    while to > 0 && space(s[to - 1])
        invariant
            to <= s@.len(),
            trim_end(s@) == trim_end(s@.take(to as int)),
        decreases to,
    {
        assert(s@.take(to as int).drop_last() =~= s@.take(to - 1));
        to = to - 1;
    }
    assert(to > 0 ==> s@.take(to as int).last() == s@[to - 1]);
    let ghost kept = s@.take(to as int);
    assert(trim_end(s@) == kept);
    let mut from: usize = 0;
    assert(kept.skip(0) =~= kept);
    while from < to && space(s[from])
        invariant
            from <= to <= s@.len(),
            kept == s@.take(to as int),
            trim_start(kept) == trim_start(kept.skip(from as int)),
        decreases to - from,
    {
        assert(kept.skip(from as int).drop_first() =~= kept.skip(from + 1));
        assert(kept.skip(from as int)[0] == s@[from as int]);
        from = from + 1;
    }
    assert(from < to ==> kept.skip(from as int)[0] == s@[from as int]);
    copy(s, from, to)
}

fn copy(s: &Vec<char>, from: usize, to: usize) -> (r: Vec<char>)
    requires
        from <= to <= s@.len(),
    ensures
        r@ == s@.take(to as int).skip(from as int),
{
    let mut r: Vec<char> = Vec::new();
    let mut i: usize = from;
    while i < to
        invariant
            from <= i <= to <= s@.len(),
            r@ == s@.take(i as int).skip(from as int),
        decreases to - i,
    {
        r.push(s[i]);
        i = i + 1;
        assert(r@ =~= s@.take(i as int).skip(from as int));
    }
    assert(r@ =~= s@.take(to as int).skip(from as int));
    r
}

/// The words of a line as values.
pub open spec fn word_values(w: Seq<Vec<char>>) -> Seq<Seq<char>> {
    w.map_values(|v: Vec<char>| v@)
}

fn split(s: &Vec<char>) -> (r: Vec<Vec<char>>)
    ensures
        word_values(r@) == words(s@),
{
    let mut done: Vec<Vec<char>> = Vec::new();
    let mut current: Vec<char> = Vec::new();
    let mut i: usize = 0;
    assert(s@.take(0) =~= Seq::empty());
    assert(word_values(done@) =~= Seq::empty());
    while i < s.len()
        invariant
            i <= s@.len(),
            (word_values(done@), current@) == split_words(s@.take(i as int)),
        decreases s@.len() - i,
    {
        assert(s@.take(i + 1).drop_last() =~= s@.take(i as int));
        let ghost had = done@;
        if !space(s[i]) {
            current.push(s[i]);
        } else if current.len() > 0 {
            let mut word: Vec<char> = Vec::new();
            std::mem::swap(&mut word, &mut current);
            done.push(word);
            assert(word_values(done@) =~= word_values(had).push(word@));
        }
        i = i + 1;
    }
    assert(s@.take(s@.len() as int) =~= s@);
    let ghost had = done@;
    if current.len() > 0 {
        let ghost last = current@;
        done.push(current);
        assert(word_values(done@) =~= word_values(had).push(last));
    }
    done
}

fn has_prefix(s: &Vec<char>, prefix: &str) -> (r: bool)
    ensures
        r == begins_with(s@, prefix@),
{
    let n: usize = prefix.unicode_len();
    if n > s.len() {
        return false;
    }
    let mut i: usize = 0;
    while i < n
        invariant
            i <= n <= s@.len(),
            n == prefix@.len(),
            forall|k: int| 0 <= k < i ==> s@[k] == #[trigger] prefix@[k],
        decreases n - i,
    {
        if s[i] != prefix.get_char(i) {
            assert(s@.take(n as int)[i as int] != prefix@[i as int]);
            return false;
        }
        i = i + 1;
    }
    assert(s@.take(n as int) =~= prefix@);
    true
}

fn parse_size(s: &Vec<char>) -> (r: Option<usize>)
    ensures
        r == size_named(s@),
{
    let from: usize = if s.len() > 0 && s[0] == '+' {
        1
    } else {
        0
    };
    let ghost digits = if s@.len() > 0 && s@[0] == '+' {
        s@.drop_first()
    } else {
        s@
    };
    assert(digits =~= s@.skip(from as int));
    if from >= s.len() {
        return None;
    }
    let mut value: usize = 0;
    let mut fits = true;
    let mut i: usize = from;
    assert(digits.take(0) =~= Seq::empty());
    while i < s.len()
        invariant
            from <= i <= s@.len(),
            digits == s@.skip(from as int),
            size_named(s@) == (if all_digits(digits) && digits_value(digits) <= usize::MAX {
                Some(digits_value(digits) as usize)
            } else {
                None
            }),
            forall|k: int| 0 <= k < i - from ==> is_digit(#[trigger] digits[k]),
            fits ==> value == digits_value(digits.take(i - from)),
            !fits ==> digits_value(digits.take(i - from)) > usize::MAX,
        decreases s@.len() - i,
    {
        let c = s[i];
        assert(digits[i - from] == c);
        if c < '0' || c > '9' {
            return None;
        }
        let ghost some = digits.take(i - from);
        let ghost more = digits.take(i + 1 - from);
        assert(more.drop_last() =~= some);
        assert(more.last() == c);
        let d: usize = (c as u32 - '0' as u32) as usize;
        if fits {
            match value.checked_mul(10) {
                Some(tens) => {
                    match tens.checked_add(d) {
                        Some(v) => {
                            value = v;
                        },
                        None => {
                            fits = false;
                        },
                    }
                },
                None => {
                    fits = false;
                },
            }
        }
        i = i + 1;
    }
    assert(digits.take(digits.len() as int) =~= digits);
    if fits {
        Some(value)
    } else {
        None
    }
}

/// Whether `r` is the outcome of a reading.
pub open spec fn is_outcome(reading: Reading, r: Result<CubeText, LutError>) -> bool {
    match reading {
        Reading::Going { size, rows } => r is Ok && r->Ok_0.size == size && rows_of(r->Ok_0.rows@)
            == rows,
        Reading::Stopped { error } => r == Err::<CubeText, LutError>(error),
    }
}

fn take_line(so_far: CubeText, line: &Vec<char>) -> (r: Result<CubeText, LutError>)
    ensures
        is_outcome(
            read_line(Reading::Going { size: so_far.size, rows: rows_of(so_far.rows@) }, line@),
            r,
        ),
{
    let l = trim(line);
    if l.len() == 0 || l[0] == '#' {
        return Ok(so_far);
    }
    if has_prefix(&l, "LUT_3D_SIZE") {
        let n: usize = "LUT_3D_SIZE".unicode_len();
        let rest = copy(&l, n, l.len());
        assert(l@.take(l@.len() as int) =~= l@);
        match parse_size(&trim(&rest)) {
            Some(size) => {
                return Ok(CubeText { size, rows: so_far.rows });
            },
            None => {
                return Err(LutError::BadSize);
            },
        }
    }
    if has_prefix(&l, "LUT_1D_SIZE") || has_prefix(&l, "TITLE") || has_prefix(&l, "DOMAIN_") {
        return Ok(so_far);
    }
    let parts = split(&l);
    assert(word_values(parts@).len() == parts@.len());
    if parts.len() >= 3 {
        let mut rows = so_far.rows;
        let ghost had = rows@;
        let row = CubeRow {
            r: copy(&parts[0], 0, parts[0].len()),
            g: copy(&parts[1], 0, parts[1].len()),
            b: copy(&parts[2], 0, parts[2].len()),
        };
        proof {
            let all = word_values(parts@);
            assert(all[0] == parts@[0]@ && all[1] == parts@[1]@ && all[2] == parts@[2]@);
            assert(row.r@ =~= all[0]);
            assert(row.g@ =~= all[1]);
            assert(row.b@ =~= all[2]);
        }
        rows.push(row);
        assert(rows_of(rows@) =~= rows_of(had).push(row@));
        return Ok(CubeText { size: so_far.size, rows });
    }
    Ok(so_far)
}

proof fn stopped_stays(lines: Seq<Seq<char>>, n: int)
    requires
        0 <= n <= lines.len(),
        read_lines(lines.take(n)) is Stopped,
    ensures
        read_lines(lines) == read_lines(lines.take(n)),
    decreases lines.len() - n,
{
    if n == lines.len() {
        assert(lines.take(n) =~= lines);
    } else {
        assert(lines.take(n + 1).drop_last() =~= lines.take(n));
        stopped_stays(lines, n + 1);
    }
}

proof fn lines_grow(s: Seq<char>, n: int)
    requires
        0 <= n <= s.len(),
    ensures
        lines_of(s).len() >= lines_of(s.take(n)).len() >= 1,
        forall|k: int|
            0 <= k < lines_of(s.take(n)).len() - 1 ==> #[trigger] lines_of(s)[k] == lines_of(
                s.take(n),
            )[k],
    decreases s.len() - n,
{
    if n == s.len() {
        assert(s.take(n) =~= s);
        lines_exist(s);
    } else {
        lines_grow(s, n + 1);
        lines_exist(s.take(n));
        assert(s.take(n + 1).drop_last() =~= s.take(n));
        assert forall|k: int| 0 <= k < lines_of(s.take(n)).len() - 1 implies #[trigger] lines_of(
            s,
        )[k] == lines_of(s.take(n))[k] by {
            assert(lines_of(s.take(n + 1))[k] == lines_of(s.take(n))[k]);
        }
    }
}

proof fn lines_exist(s: Seq<char>)
    ensures
        lines_of(s).len() >= 1,
    decreases s.len(),
{
    if s.len() > 0 {
        lines_exist(s.drop_last());
    }
}

/// Reads the text of a `.cube` file.
pub fn read_cube(text: &Vec<char>) -> (r: Result<CubeText, LutError>)
    ensures
        is_outcome(read_lines(lines_of(text@)), r),
{
    let ghost lines = lines_of(text@);
    let mut so_far = CubeText { size: 0, rows: Vec::new() };
    let mut line: Vec<char> = Vec::new();
    let mut i: usize = 0;
    proof {
        assert(text@.take(0) =~= Seq::empty());
        let l = lines_of(text@.take(0));
        assert(l.drop_last() =~= Seq::empty());
        assert(rows_of(so_far.rows@) =~= Seq::empty());
    }
    while i < text.len()
        invariant
            i <= text@.len(),
            lines == lines_of(text@),
            lines_of(text@.take(i as int)).len() >= 1,
            line@ == lines_of(text@.take(i as int)).last(),
            read_lines(lines_of(text@.take(i as int)).drop_last()) == (Reading::Going {
                size: so_far.size,
                rows: rows_of(so_far.rows@),
            }),
        decreases text@.len() - i,
    {
        let ghost before = lines_of(text@.take(i as int));
        proof {
            assert(text@.take(i + 1).drop_last() =~= text@.take(i as int));
            assert(text@.take(i + 1).last() == text@[i as int]);
        }
        if text[i] == '\n' {
            let ghost now = lines_of(text@.take(i + 1));
            proof {
                assert(now.drop_last() =~= before);
                lines_grow(text@, i + 1);
                assert(lines.take(before.len() as int) =~= before);
            }
            match take_line(so_far, &line) {
                Ok(t) => {
                    so_far = t;
                },
                Err(e) => {
                    proof {
                        stopped_stays(lines, before.len() as int);
                    }
                    return Err(e);
                },
            }
            line = Vec::new();
            assert(line@ =~= now.last());
        } else {
            line.push(text[i]);
            assert(lines_of(text@.take(i + 1)).drop_last() =~= before.drop_last());
        }
        i = i + 1;
    }
    assert(text@.take(text@.len() as int) =~= text@);
    take_line(so_far, &line)
}

// ── Tables ────────────────────────────────────────────────────────────────────

impl LutError {
    /// What is said of the error.
    pub open spec fn text(self) -> Seq<char> {
        match self {
            LutError::BadSize => "invalid LUT_3D_SIZE"@,
            LutError::NoSize => "missing or too-small LUT_3D_SIZE"@,
            LutError::RowCount { found, size, expected } => "LUT entry count "@ + decimal(
                found as nat,
            ) + " does not match LUT_3D_SIZE "@ + decimal(size as nat) + " (expected "@ + decimal(
                expected as nat,
            ) + ")"@,
        }
    }

    /// What is said of the error.
    pub fn message(&self) -> (s: String)
        ensures
            s@ == self.text(),
    {
        match self {
            LutError::BadSize => "invalid LUT_3D_SIZE".to_owned(),
            LutError::NoSize => "missing or too-small LUT_3D_SIZE".to_owned(),
            LutError::RowCount { found, size, expected } => {
                let mut s = "LUT entry count ".to_owned();
                s.append(decimal_text(*found as u64).as_str());
                s.append(" does not match LUT_3D_SIZE ");
                s.append(decimal_text(*size as u64).as_str());
                s.append(" (expected ");
                s.append(decimal_text(*expected as u64).as_str());
                s.append(")");
                s
            },
        }
    }
}

impl Lut3d {
    /// How many colours there are along each axis.
    pub closed spec fn side(self) -> nat {
        self.size as nat
    }

    /// The colours in the order of the file.
    pub closed spec fn colors(self) -> Seq<[F32; 3]> {
        self.data@
    }

    /// The table has a size and as many colours as that asks for.
    pub open spec fn wf(self) -> bool {
        &&& 2 <= self.side() <= usize::MAX
        &&& self.colors().len() == self.side() * self.side() * self.side()
        &&& self.colors().len() <= usize::MAX
    }

    /// A table of the rows that a file named, where they are as many as its size asks
    /// for.
    pub fn new(size: usize, data: Vec<[F32; 3]>) -> (r: Result<Lut3d, LutError>)
        requires
            size * size * size <= usize::MAX,
        ensures
            r is Err <==> size < 2 || data@.len() != size * size * size,
            size < 2 ==> r == Err::<Lut3d, LutError>(LutError::NoSize),
            size >= 2 && data@.len() != size * size * size ==> r == Err::<Lut3d, LutError>(
                LutError::RowCount {
                    found: data@.len() as usize,
                    size,
                    expected: (size * size * size) as usize,
                },
            ),
            r is Ok ==> r->Ok_0.wf() && r->Ok_0.side() == size && r->Ok_0.colors() == data@,
    {
        if size < 2 {
            return Err(LutError::NoSize);
        }
        assert(size * size <= size * size * size) by (nonlinear_arith)
            requires
                size >= 2,
        ;
        let expected: usize = size * size * size;
        if data.len() != expected {
            return Err(LutError::RowCount { found: data.len(), size, expected });
        }
        Ok(Lut3d { size, data })
    }

    /// How many colours there are along each axis.
    pub fn size(&self) -> (n: usize)
        ensures
            n == self.side(),
    {
        self.size
    }

    /// The colour at a corner of the grid.
    pub fn at(&self, r: usize, g: usize, b: usize) -> (c: [F32; 3])
        requires
            self.wf(),
            r < self.side(),
            g < self.side(),
            b < self.side(),
        ensures
            c == self.colors()[r + g * self.side() + b * self.side() * self.side()],
    {
        let n: usize = self.size;
        assert(r + g * n + b * n * n < n * n * n && g * n <= n * n && b * n * n <= n * n * n && b
            * n <= n * n && n * n <= n * n * n) by (nonlinear_arith)
            requires
                r < n,
                g < n,
                b < n,
                n >= 2,
        ;
        self.data[r + g * n + b * n * n]
    }
}

/// Every corner of the grid has a colour of its own.
pub proof fn corners_are_distinct(n: int, r: int, g: int, b: int, r2: int, g2: int, b2: int)
    requires
        2 <= n,
        0 <= r < n,
        0 <= g < n,
        0 <= b < n,
        0 <= r2 < n,
        0 <= g2 < n,
        0 <= b2 < n,
        r + g * n + b * n * n == r2 + g2 * n + b2 * n * n,
    ensures
        r == r2 && g == g2 && b == b2,
{
    assert(b == b2) by (nonlinear_arith)
        requires
            2 <= n,
            0 <= r < n,
            0 <= g < n,
            0 <= r2 < n,
            0 <= g2 < n,
            r + g * n + b * n * n == r2 + g2 * n + b2 * n * n,
    {
        assert(0 <= r + g * n < n * n);
        assert(0 <= r2 + g2 * n < n * n);
        if b < b2 {
            assert(b2 * n * n >= b * n * n + n * n);
        }
        if b2 < b {
            assert(b * n * n >= b2 * n * n + n * n);
        }
    }
    assert(g == g2) by (nonlinear_arith)
        requires
            2 <= n,
            0 <= r < n,
            0 <= r2 < n,
            r + g * n == r2 + g2 * n,
    {
        if g < g2 {
            assert(g2 * n >= g * n + n);
        }
        if g2 < g {
            assert(g * n >= g2 * n + n);
        }
    }
}

// ── What reading gives ────────────────────────────────────────────────────────

/// White space is told by its code.
pub proof fn white_space_is_told_by_its_code(c: char)
    ensures
        ({
            let n = c as int;
            is_space(c) <==> 0x9 <= n <= 0xd || n == 0x20 || n == 0x85 || n == 0xa0 || n == 0x1680
                || 0x2000 <= n <= 0x200a || 0x2028 <= n <= 0x2029 || n == 0x202f || n == 0x205f
                || n == 0x3000
        }),
        is_digit(c) <==> 0x30 <= c as int <= 0x39,
{
}

/// The text that lines make up.
pub open spec fn joined_lines(lines: Seq<Seq<char>>) -> Seq<char>
    decreases lines.len(),
{
    if lines.len() == 0 {
        Seq::empty()
    } else if lines.len() == 1 {
        lines[0]
    } else {
        joined_lines(lines.drop_last()).push('\n') + lines.last()
    }
}

/// A text is split at its line ends and nowhere else: no line holds one, and the lines make
/// up the text again.
pub proof fn lines_make_up_the_text(s: Seq<char>)
    ensures
        joined_lines(lines_of(s)) == s,
        lines_of(s).len() >= 1,
        forall|i: int, k: int|
            0 <= i < lines_of(s).len() && 0 <= k < lines_of(s)[i].len() ==> #[trigger] lines_of(
                s,
            )[i][k] != '\n',
    decreases s.len(),
{
    if s.len() > 0 {
        let front = s.drop_last();
        lines_make_up_the_text(front);
        let before = lines_of(front);
        let now = lines_of(s);
        assert(front.push(s.last()) =~= s);
        if s.last() == '\n' {
            assert(now.drop_last() =~= before);
            assert(joined_lines(now) =~= s);
        } else {
            assert(now.drop_last() =~= before.drop_last());
            assert(now.last() == before.last().push(s.last()));
            if before.len() == 1 {
                assert(joined_lines(now) =~= s);
            } else {
                assert(joined_lines(now) =~= s);
            }
        }
    } else {
        assert(joined_lines(lines_of(s)) =~= s);
    }
}

proof fn trim_end_is_a_prefix(s: Seq<char>)
    ensures
        trim_end(s).len() <= s.len(),
        trim_end(s) == s.take(trim_end(s).len() as int),
        forall|i: int| trim_end(s).len() <= i < s.len() ==> is_space(#[trigger] s[i]),
        trim_end(s).len() > 0 ==> !is_space(trim_end(s).last()),
    decreases s.len(),
{
    if s.len() > 0 && is_space(s.last()) {
        let front = s.drop_last();
        trim_end_is_a_prefix(front);
        assert(front.take(trim_end(front).len() as int) =~= s.take(trim_end(s).len() as int));
        assert forall|i: int| trim_end(s).len() <= i < s.len() implies is_space(
            #[trigger] s[i],
        ) by {
            if i < front.len() {
                assert(front[i] == s[i]);
            }
        }
    } else {
        assert(s.take(s.len() as int) =~= s);
    }
}

proof fn trim_start_is_a_suffix(s: Seq<char>)
    ensures
        trim_start(s).len() <= s.len(),
        trim_start(s) == s.skip(s.len() - trim_start(s).len()),
        forall|i: int| 0 <= i < s.len() - trim_start(s).len() ==> is_space(#[trigger] s[i]),
        trim_start(s).len() > 0 ==> !is_space(trim_start(s)[0]),
    decreases s.len(),
{
    if s.len() > 0 && is_space(s[0]) {
        let rest = s.drop_first();
        trim_start_is_a_suffix(rest);
        assert(rest.skip(rest.len() - trim_start(rest).len()) =~= s.skip(
            s.len() - trim_start(s).len(),
        ));
        assert forall|i: int| 0 <= i < s.len() - trim_start(s).len() implies is_space(
            #[trigger] s[i],
        ) by {
            if i > 0 {
                assert(rest[i - 1] == s[i]);
            }
        }
    } else {
        assert(s.skip(0) =~= s);
    }
}

/// Trimming takes white space off both ends and nothing else.
pub proof fn trimming_takes_only_white_space(s: Seq<char>)
    ensures
        trimmed(s).len() > 0 ==> !is_space(trimmed(s)[0]) && !is_space(trimmed(s).last()),
        exists|i: int, j: int|
            0 <= i <= j <= s.len() && trimmed(s) == #[trigger] s.subrange(i, j) && (forall|k: int|
                0 <= k < i || j <= k < s.len() ==> is_space(#[trigger] s[k])),
{
    trim_end_is_a_prefix(s);
    let e = trim_end(s);
    trim_start_is_a_suffix(e);
    let t = trimmed(s);
    let j = e.len() as int;
    let i = e.len() - t.len();
    assert(t =~= s.subrange(i, j));
    assert forall|k: int| 0 <= k < i || j <= k < s.len() implies is_space(#[trigger] s[k]) by {
        if k < i {
            assert(e[k] == s[k]);
        }
    }
    if t.len() > 0 {
        assert(t.last() == e.last());
    }
}

proof fn words_before_a_space(a: Seq<char>, space: char, b: Seq<char>)
    requires
        is_space(space),
    ensures
        split_words(a.push(space) + b).0 == words(a) + split_words(b).0,
        split_words(a.push(space) + b).1 == split_words(b).1,
    decreases b.len(),
{
    let all = a.push(space) + b;
    if b.len() == 0 {
        assert(all =~= a.push(space));
        assert(all.drop_last() =~= a);
        assert(words(a) + split_words(b).0 =~= words(a));
        assert(split_words(b).1 =~= Seq::empty());
        assert(split_words(all).1 =~= Seq::empty());
    } else {
        words_before_a_space(a, space, b.drop_last());
        assert(all.drop_last() =~= a.push(space) + b.drop_last());
        assert(all.last() == b.last());
        assert(split_words(all).0 =~= words(a) + split_words(b).0);
    }
}

proof fn one_word(w: Seq<char>)
    requires
        forall|i: int| 0 <= i < w.len() ==> !is_space(#[trigger] w[i]),
    ensures
        split_words(w).0.len() == 0,
        split_words(w).1 == w,
    decreases w.len(),
{
    if w.len() > 0 {
        let front = w.drop_last();
        assert forall|i: int| 0 <= i < front.len() implies !is_space(#[trigger] front[i]) by {
            assert(front[i] == w[i]);
        }
        one_word(front);
        assert(front.push(w.last()) =~= w);
    } else {
        assert(split_words(w).1 =~= w);
    }
}

/// White space parts words, and only that: the words of a text are those before a space
/// and those behind it, and a text without white space is one word.
pub proof fn words_are_parted_by_white_space(
    a: Seq<char>,
    space: char,
    b: Seq<char>,
    word: Seq<char>,
)
    requires
        is_space(space),
        word.len() > 0,
        forall|i: int| 0 <= i < word.len() ==> !is_space(#[trigger] word[i]),
    ensures
        words(a.push(space) + b) == words(a) + words(b),
        words(word) == seq![word],
        words(Seq::empty()).len() == 0,
{
    words_before_a_space(a, space, b);
    assert(words(a.push(space) + b) =~= words(a) + words(b));
    one_word(word);
    assert(words(word) =~= seq![word]);
}

proof fn digits_are_a_number(s: Seq<char>)
    requires
        forall|i: int| 0 <= i < s.len() ==> 48 <= (#[trigger] s[i]) as int <= 57,
    ensures
        digits_value(s) == number(s),
    decreases s.len(),
{
    if s.len() > 0 {
        let front = s.drop_last();
        assert forall|i: int| 0 <= i < front.len() implies 48 <= (#[trigger] front[i]) as int
            <= 57 by {
            assert(front[i] == s[i]);
        }
        digits_are_a_number(front);
    }
}

/// A size reads back from its digits, with a plus sign before them or without; a text with
/// anything else in it, and one without digits, names none.
pub proof fn size_reads_back(n: usize, s: Seq<char>, at: int)
    requires
        0 <= at < s.len(),
        !(48 <= s[at] as int <= 57),
        at > 0 || s[0] != '+',
    ensures
        size_named(decimal(n as nat)) == Some(n),
        size_named(seq!['+'] + decimal(n as nat)) == Some(n),
        size_named(s) is None,
        size_named(Seq::empty()) is None,
        size_named(seq!['+']) is None,
{
    let d = decimal(n as nat);
    decimal_reads_back(n as nat);
    digits_are_a_number(d);
    assert(48 <= d[0] as int <= 57);
    assert(all_digits(d));
    let plus = seq!['+'] + d;
    assert(plus.drop_first() =~= d);
    let digits = if s[0] == '+' {
        s.drop_first()
    } else {
        s
    };
    if s[0] == '+' {
        assert(digits[at - 1] == s[at]);
    }
    assert(!all_digits(digits));
    assert(seq!['+'].drop_first() =~= Seq::empty());
}

/// A text begins with what stands at its start.
pub proof fn text_begins_with_its_start(a: Seq<char>, b: Seq<char>)
    ensures
        begins_with(a + b, a),
        begins_with(b, a) ==> b == a + b.skip(a.len() as int),
{
    assert((a + b).take(a.len() as int) =~= a);
    if begins_with(b, a) {
        assert(b =~= b.take(a.len() as int) + b.skip(a.len() as int));
    }
}

/// A line that names a size sets it and keeps the rows; one that names none where a size
/// should stand ends the reading.
pub proof fn size_line_sets_the_size(
    line: Seq<char>,
    rest: Seq<char>,
    size: usize,
    rows: Seq<Row>,
    n: usize,
)
    requires
        trimmed(line) == "LUT_3D_SIZE"@ + rest,
    ensures
        trimmed(rest) == decimal(n as nat) ==> read_line(
            Reading::Going { size, rows },
            line,
        ) == (Reading::Going { size: n, rows }),
        size_named(trimmed(rest)) is None ==> read_line(Reading::Going { size, rows }, line)
            == (Reading::Stopped { error: LutError::BadSize }),
{
    let key = "LUT_3D_SIZE"@;
    reveal_strlit("LUT_3D_SIZE");
    text_begins_with_its_start(key, rest);
    assert(trimmed(line).skip(key.len() as int) =~= rest);
    assert(trimmed(line)[0] == 'L');
    if trimmed(rest) == decimal(n as nat) {
        let d = decimal(n as nat);
        decimal_reads_back(n as nat);
        digits_are_a_number(d);
        assert(48 <= d[0] as int <= 57);
        assert(all_digits(d));
    }
}

/// A line of three words or more that begins with no keyword is a row of its first three,
/// added behind the others; the size stays.
pub proof fn row_line_adds_its_row(line: Seq<char>, size: usize, rows: Seq<Row>)
    requires
        trimmed(line).len() > 0,
        trimmed(line)[0] != '#',
        !begins_with(trimmed(line), "LUT_3D_SIZE"@),
        !begins_with(trimmed(line), "LUT_1D_SIZE"@),
        !begins_with(trimmed(line), "TITLE"@),
        !begins_with(trimmed(line), "DOMAIN_"@),
        words(trimmed(line)).len() >= 3,
    ensures
        ({
            let w = words(trimmed(line));
            let now = read_line(Reading::Going { size, rows }, line);
            &&& now is Going
            &&& now->size == size
            &&& now->rows.len() == rows.len() + 1
            &&& now->rows.drop_last() == rows
            &&& now->rows.last().r == w[0]
            &&& now->rows.last().g == w[1]
            &&& now->rows.last().b == w[2]
        }),
{
    let w = words(trimmed(line));
    assert(rows.push(Row { r: w[0], g: w[1], b: w[2] }).drop_last() =~= rows);
}

proof fn keyword_starts(l: Seq<char>, key: Seq<char>)
    requires
        key.len() > 0,
    ensures
        begins_with(l, key) ==> l.len() > 0 && l[0] == key[0],
{
    if begins_with(l, key) {
        assert(l.take(key.len() as int)[0] == key[0]);
    }
}

/// Blank lines, comments, titles, domains, the sizes of one-dimensional tables and lines of
/// fewer than three words change nothing.
pub proof fn other_lines_say_nothing(line: Seq<char>, size: usize, rows: Seq<Row>, rest: Seq<char>)
    requires
        ({
            let l = trimmed(line);
            ||| l.len() == 0
            ||| l == seq!['#'] + rest
            ||| l == "LUT_1D_SIZE"@ + rest
            ||| l == "TITLE"@ + rest
            ||| l == "DOMAIN_"@ + rest
            ||| words(l).len() < 3 && !begins_with(l, "LUT_3D_SIZE"@)
        }),
    ensures
        read_line(Reading::Going { size, rows }, line) == (Reading::Going { size, rows }),
{
    let l = trimmed(line);
    reveal_strlit("LUT_3D_SIZE");
    reveal_strlit("LUT_1D_SIZE");
    reveal_strlit("TITLE");
    reveal_strlit("DOMAIN_");
    keyword_starts(l, "LUT_3D_SIZE"@);
    if l == seq!['#'] + rest {
        assert(l[0] == '#');
    } else if l == "LUT_1D_SIZE"@ + rest {
        text_begins_with_its_start("LUT_1D_SIZE"@, rest);
        if begins_with(l, "LUT_3D_SIZE"@) {
            assert(l.take(11)[4] == '3');
            assert(l[4] == '1');
        }
    } else if l == "TITLE"@ + rest {
        text_begins_with_its_start("TITLE"@, rest);
        assert(l[0] == 'T');
    } else if l == "DOMAIN_"@ + rest {
        text_begins_with_its_start("DOMAIN_"@, rest);
        assert(l[0] == 'D');
    }
}

/// Lines are read one after the other, and nothing after the one that ends the reading.
pub proof fn lines_are_read_in_turn(lines: Seq<Seq<char>>, line: Seq<char>)
    ensures
        read_lines(Seq::empty()) == (Reading::Going { size: 0, rows: Seq::empty() }),
        read_lines(lines) is Going ==> read_lines(lines.push(line)) == read_line(
            read_lines(lines),
            line,
        ),
        read_lines(lines) is Stopped ==> read_lines(lines.push(line)) == read_lines(lines),
{
    assert(lines.push(line).drop_last() =~= lines);
}

/// What was read is handed over as it is: the size, and each row with its three words.
pub proof fn reading_is_handed_over(reading: Reading, r: Result<CubeText, LutError>, i: int)
    requires
        is_outcome(reading, r),
    ensures
        reading is Going <==> r is Ok,
        r is Ok ==> r->Ok_0.size == reading->size && r->Ok_0.rows@.len() == reading->rows.len(),
        r is Ok && 0 <= i < r->Ok_0.rows@.len() ==> {
            &&& r->Ok_0.rows@[i].r@ == reading->rows[i].r
            &&& r->Ok_0.rows@[i].g@ == reading->rows[i].g
            &&& r->Ok_0.rows@[i].b@ == reading->rows[i].b
        },
        r is Err ==> reading->error == r->Err_0,
{
    if r is Ok && 0 <= i < r->Ok_0.rows@.len() {
        assert(rows_of(r->Ok_0.rows@)[i] == r->Ok_0.rows@[i]@);
    }
}

/// A message names its error, and one on rows tells how many there are, the size and how
/// many that asks for.
pub proof fn message_names_the_error(found: usize, size: usize, expected: usize)
    ensures
        LutError::BadSize.text() == "invalid LUT_3D_SIZE"@,
        LutError::NoSize.text() == "missing or too-small LUT_3D_SIZE"@,
        (LutError::RowCount { found, size, expected }).text() == "LUT entry count "@ + decimal(
            found as nat,
        ) + " does not match LUT_3D_SIZE "@ + decimal(size as nat) + " (expected "@ + decimal(
            expected as nat,
        ) + ")"@,
{
}

} // verus!
