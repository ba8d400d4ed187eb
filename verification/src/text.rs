//! Text as sequences of characters: conversions between strings and
//! character vectors, and the splitting of a text into lines.

use vstd::prelude::*;

verus! {

/// The characters of `s`, in order.
pub fn chars_of(s: &str) -> (v: Vec<char>)
    ensures
        v@ == s@,
{
    let mut v: Vec<char> = Vec::new();
    for c in it: s.chars()
        invariant
            v@ == it.seq().take(it.index() as int),
            it.seq() == s@,
    {
        v.push(c);
    }
    v
}

/// `String::from_iter` over a slice of characters: the string made of
/// `chars[from..to]`, character for character.
#[verifier::external_body]
pub(crate) fn string_of(chars: &Vec<char>, from: usize, to: usize) -> (s: String)
    requires
        from <= to <= chars.len(),
    ensures
        s@ == chars@.subrange(from as int, to as int),
{
    String::from_iter(chars[from..to].iter())
}

/// Whether two vectors hold the same characters.
pub fn same_chars(a: &Vec<char>, b: &Vec<char>) -> (r: bool)
    ensures
        r == (a@ == b@),
{
    if a.len() != b.len() {
        return false;
    }
    let mut k: usize = 0;
    while k < a.len()
        invariant
            a.len() == b.len(),
            k <= a.len(),
            forall|j: int| 0 <= j < k ==> a@[j] == b@[j],
        decreases a.len() - k,
    {
        if a[k] != b[k] {
            return false;
        }
        k += 1;
    }
    assert(a@ =~= b@);
    true
}

/// Whether `line[from..to]` is `word`.
pub fn range_is(line: &Vec<char>, from: usize, to: usize, word: &Vec<char>) -> (r: bool)
    requires
        from <= to <= line.len(),
    ensures
        r == (line@.subrange(from as int, to as int) == word@),
{
    if to - from != word.len() {
        return false;
    }
    let mut k: usize = 0;
    while k < word.len()
        invariant
            from <= to <= line.len(),
            to - from == word.len(),
            k <= word.len(),
            forall|j: int| 0 <= j < k ==> line@[from + j] == word@[j],
        decreases word.len() - k,
    {
        if line[from + k] != word[k] {
            assert(line@.subrange(from as int, to as int)[k as int] != word@[k as int]);
            return false;
        }
        k += 1;
    }
    assert(line@.subrange(from as int, to as int) =~= word@);
    true
}

/// The views of the vectors of `v`.
pub open spec fn views(v: Seq<Vec<char>>) -> Seq<Seq<char>> {
    v.map_values(|line: Vec<char>| line@)
}

/// A line as it was cut off at a line feed: a carriage return directly
/// before the line feed belongs to the line break.
pub open spec fn without_cr(line: Seq<char>) -> Seq<char> {
    if line.len() > 0 && line.last() == '\r' {
        line.drop_last()
    } else {
        line
    }
}

/// The lines that were closed by a line feed in `s`, and the characters
/// after the last line feed.
pub open spec fn scan_lines(s: Seq<char>) -> (Seq<Seq<char>>, Seq<char>)
    decreases s.len(),
{
    if s.len() == 0 {
        (Seq::empty(), Seq::empty())
    } else {
        let (closed, rest) = scan_lines(s.drop_last());
        if s.last() == '\n' {
            (closed.push(without_cr(rest)), Seq::empty())
        } else {
            (closed, rest.push(s.last()))
        }
    }
}

/// The lines of a text. A line ends at a line feed, or at a carriage return
/// followed by a line feed; neither belongs to the line. What follows the
/// last line feed is a line if it is not empty.
pub open spec fn lines_of(s: Seq<char>) -> Seq<Seq<char>> {
    let (closed, rest) = scan_lines(s);
    if rest.len() > 0 {
        closed.push(rest)
    } else {
        closed
    }
}

/// Splits a text into its lines.
pub fn split_lines(text: &Vec<char>) -> (lines: Vec<Vec<char>>)
    ensures
        views(lines@) == lines_of(text@),
{
    let mut lines: Vec<Vec<char>> = Vec::new();
    let mut rest: Vec<char> = Vec::new();
    let mut i: usize = 0;
    while i < text.len()
        invariant
            i <= text.len(),
            (views(lines@), rest@) == scan_lines(text@.take(i as int)),
        decreases text.len() - i,
    {
        let c = text[i];
        proof {
            assert(text@.take(i + 1).drop_last() == text@.take(i as int));
        }
        if c == '\n' {
            let n = rest.len();
            if n > 0 && rest[n - 1] == '\r' {
                rest.pop();
            }
            let ghost before = views(lines@);
            lines.push(rest);
            assert(views(lines@) == before.push(rest@));
            rest = Vec::new();
        } else {
            rest.push(c);
        }
        i += 1;
    }
    assert(text@.take(i as int) == text@);
    if rest.len() > 0 {
        let ghost before = views(lines@);
        lines.push(rest);
        assert(views(lines@) == before.push(rest@));
    }
    lines
}


/// Characters without a line feed go to the open line.
pub proof fn lemma_scan_lines_add(a: Seq<char>, b: Seq<char>)
    requires
        forall|i: int| 0 <= i < b.len() ==> b[i] != '\n',
    ensures
        scan_lines(a + b) == (scan_lines(a).0, scan_lines(a).1 + b),
    decreases b.len(),
{
    if b.len() == 0 {
        assert(a + b == a);
        assert(scan_lines(a).1 + b == scan_lines(a).1);
    } else {
        lemma_scan_lines_add(a, b.drop_last());
        assert((a + b).drop_last() == a + b.drop_last());
        assert(scan_lines(a).1 + b == (scan_lines(a).1 + b.drop_last()).push(b.last()));
    }
}

/// A line feed closes the open line.
pub proof fn lemma_scan_lines_feed(a: Seq<char>)
    ensures
        scan_lines(a.push('\n')) == (
            scan_lines(a).0.push(without_cr(scan_lines(a).1)),
            Seq::<char>::empty(),
        ),
{
    assert(a.push('\n').drop_last() == a);
}


/// After a text that ends with a line break, the lines of what follows
/// come after its own lines.
pub proof fn lemma_scan_lines_concat(a: Seq<char>, b: Seq<char>)
    requires
        scan_lines(a).1.len() == 0,
    ensures
        scan_lines(a + b) == (scan_lines(a).0 + scan_lines(b).0, scan_lines(b).1),
    decreases b.len(),
{
    if b.len() == 0 {
        assert(a + b == a);
        assert(scan_lines(a).0 + scan_lines(b).0 == scan_lines(a).0);
        assert(scan_lines(a).1 == scan_lines(b).1);
    } else {
        lemma_scan_lines_concat(a, b.drop_last());
        assert((a + b).drop_last() == a + b.drop_last());
        let (closed, rest) = scan_lines(b.drop_last());
        if b.last() == '\n' {
            assert(scan_lines(a).0 + closed.push(without_cr(rest)) == (scan_lines(a).0
                + closed).push(without_cr(rest)));
        }
    }
}

/// The character of a digit.
pub open spec fn digit_of(d: int) -> char {
    if d == 0 {
        '0'
    } else if d == 1 {
        '1'
    } else if d == 2 {
        '2'
    } else if d == 3 {
        '3'
    } else if d == 4 {
        '4'
    } else if d == 5 {
        '5'
    } else if d == 6 {
        '6'
    } else if d == 7 {
        '7'
    } else if d == 8 {
        '8'
    } else {
        '9'
    }
}

/// The digits of a natural number, the highest first and no zero before it.
pub open spec fn digits_of(n: nat) -> Seq<char>
    decreases n,
{
    if n < 10 {
        seq![digit_of(n as int)]
    } else {
        digits_of(n / 10).push(digit_of((n % 10) as int))
    }
}

/// A whole number in decimal, with a minus sign before it if it is
/// negative.
pub open spec fn decimal_of(n: int) -> Seq<char> {
    if n < 0 {
        seq!['-'] + digits_of((-n) as nat)
    } else {
        digits_of(n as nat)
    }
}

fn digit(d: u64) -> (c: char)
    requires
        d < 10,
    ensures
        c == digit_of(d as int),
{
    if d == 0 {
        '0'
    } else if d == 1 {
        '1'
    } else if d == 2 {
        '2'
    } else if d == 3 {
        '3'
    } else if d == 4 {
        '4'
    } else if d == 5 {
        '5'
    } else if d == 6 {
        '6'
    } else if d == 7 {
        '7'
    } else if d == 8 {
        '8'
    } else {
        '9'
    }
}

fn push_digits(n: u64, out: &mut Vec<char>)
    ensures
        final(out)@ == old(out)@ + digits_of(n as nat),
    decreases n,
{
    if n >= 10 {
        push_digits(n / 10, out);
    }
    out.push(digit(n % 10));
}

/// An unsigned number in decimal.
pub fn decimal_u64(n: u64) -> (text: String)
    ensures
        text@ == decimal_of(n as int),
{
    let mut out: Vec<char> = Vec::new();
    push_digits(n, &mut out);
    string_of(&out, 0, out.len())
}

/// A signed number in decimal.
pub fn decimal_i64(n: i64) -> (text: String)
    ensures
        text@ == decimal_of(n as int),
{
    let mut out: Vec<char> = Vec::new();
    if n < 0 {
        out.push('-');
        let size: u64 = (-(n + 1)) as u64 + 1;
        push_digits(size, &mut out);
    } else {
        push_digits(n as u64, &mut out);
    }
    string_of(&out, 0, out.len())
}

} // verus!
