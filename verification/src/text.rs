//! Character sequences: padding, line splitting and decimal numerals.

use vstd::prelude::*;
use vstd::string::StringExecFns;

verus! {

/// Whether `c` has the Unicode property `White_Space`.
pub open spec fn is_whitespace(c: char) -> bool {
    ||| ('\u{9}' <= c && c <= '\u{d}')
    ||| c == ' '
    ||| c == '\u{85}'
    ||| c == '\u{a0}'
    ||| c == '\u{1680}'
    ||| ('\u{2000}' <= c && c <= '\u{200a}')
    ||| c == '\u{2028}'
    ||| c == '\u{2029}'
    ||| c == '\u{202f}'
    ||| c == '\u{205f}'
    ||| c == '\u{3000}'
}

/// What is taken off both ends of a piece of text.
#[derive(Clone, Copy, Debug)]
pub enum Padding {
    /// Any white space.
    Whitespace,
    /// The double quote.
    Quote,
}

impl Padding {
    /// Whether `c` counts as this kind of padding.
    pub open spec fn holds(self, c: char) -> bool {
        match self {
            Padding::Whitespace => is_whitespace(c),
            Padding::Quote => c == '"',
        }
    }

    /// Tells whether `c` counts as this kind of padding.
    pub fn has(self, c: char) -> (r: bool)
        ensures
            r == self.holds(c),
    {
        match self {
            Padding::Whitespace => {
                ('\u{9}' <= c && c <= '\u{d}') || c == ' ' || c == '\u{85}' || c == '\u{a0}' || c
                    == '\u{1680}' || ('\u{2000}' <= c && c <= '\u{200a}') || c == '\u{2028}' || c
                    == '\u{2029}' || c == '\u{202f}' || c == '\u{205f}' || c == '\u{3000}'
            },
            Padding::Quote => c == '"',
        }
    }
}

/// `s` without the padding it begins with.
pub open spec fn without_leading(s: Seq<char>, pad: Padding) -> Seq<char>
    decreases s.len(),
{
    if s.len() > 0 && pad.holds(s[0]) {
        without_leading(s.drop_first(), pad)
    } else {
        s
    }
}

/// `s` without the padding it ends with.
pub open spec fn without_trailing(s: Seq<char>, pad: Padding) -> Seq<char>
    decreases s.len(),
{
    if s.len() > 0 && pad.holds(s.last()) {
        without_trailing(s.drop_last(), pad)
    } else {
        s
    }
}

/// `s` without the padding at either end.
pub open spec fn stripped(s: Seq<char>, pad: Padding) -> Seq<char> {
    without_trailing(without_leading(s, pad), pad)
}

/// `s` without the white space around it.
pub open spec fn trimmed(s: Seq<char>) -> Seq<char> {
    stripped(s, Padding::Whitespace)
}

/// `s` without the double quotes around it.
pub open spec fn unquoted(s: Seq<char>) -> Seq<char> {
    stripped(s, Padding::Quote)
}

/// The position of the first `c` in `s`, or the length of `s` where it has none.
pub open spec fn first_index(s: Seq<char>, c: char) -> nat
    decreases s.len(),
{
    if s.len() == 0 || s[0] == c {
        0
    } else {
        1 + first_index(s.drop_first(), c)
    }
}

/// The lines of `text`. A line ends with a line feed, or with a carriage
/// return and a line feed, neither of which belongs to it; the last line may
/// go without. Text that ends with a line ending has no empty line after it.
pub open spec fn lines(text: Seq<char>) -> Seq<Seq<char>>
    decreases text.len(),
{
    if text.len() == 0 {
        Seq::empty()
    } else {
        let n = first_index(text, '\n');
        if n >= text.len() {
            seq![text]
        } else {
            seq![line_body(text.subrange(0, n as int))] + lines(
                text.subrange(n as int + 1, text.len() as int),
            )
        }
    }
}

/// A line that a line feed ended, without the carriage return before the feed.
pub open spec fn line_body(s: Seq<char>) -> Seq<char> {
    if s.len() > 0 && s.last() == '\r' {
        s.drop_last()
    } else {
        s
    }
}

/// `first_index` is the one position before which no `c` stands and at
/// which `s` ends or holds `c`.
pub proof fn lemma_first_index(s: Seq<char>, c: char, k: int)
    requires
        0 <= k <= s.len(),
        forall|j: int| 0 <= j < k ==> s[j] != c,
        k < s.len() ==> s[k] == c,
    ensures
        first_index(s, c) == k,
    decreases k,
{
    if k > 0 {
        lemma_first_index(s.drop_first(), c, k - 1);
    }
}

/// Padding at the front goes up to the first character that is none.
pub proof fn lemma_without_leading(s: Seq<char>, pad: Padding, k: int)
    requires
        0 <= k <= s.len(),
        forall|j: int| 0 <= j < k ==> pad.holds(s[j]),
        k < s.len() ==> !pad.holds(s[k]),
    ensures
        without_leading(s, pad) == s.subrange(k, s.len() as int),
    decreases k,
{
    if k == 0 {
        assert(s.subrange(0, s.len() as int) =~= s);
    } else {
        let t = s.drop_first();
        lemma_without_leading(t, pad, k - 1);
        assert(t.subrange(k - 1, t.len() as int) =~= s.subrange(k, s.len() as int));
    }
}

/// Padding at the back starts after the last character that is none.
pub proof fn lemma_without_trailing(s: Seq<char>, pad: Padding, k: int)
    requires
        0 <= k <= s.len(),
        forall|j: int| k <= j < s.len() ==> pad.holds(s[j]),
        k > 0 ==> !pad.holds(s[k - 1]),
    ensures
        without_trailing(s, pad) == s.subrange(0, k),
    decreases s.len() - k,
{
    if k == s.len() {
        assert(s.subrange(0, k) =~= s);
    } else {
        let t = s.drop_last();
        lemma_without_trailing(t, pad, k);
        assert(t.subrange(0, k) =~= s.subrange(0, k));
    }
}

/// The characters of `text`, one by one.
pub fn chars_of(text: &str) -> (r: Vec<char>)
    ensures
        r@ == text@,
{
    let mut out: Vec<char> = Vec::new();
    for c in it: text.chars()
        invariant
            out@ == it.seq().take(it.index() as int),
            it.seq() == text@,
    {
        out.push(c);
    }
    out
}

/// The first position from `lo` on, before `hi`, that holds `c`; `hi` where none does.
pub fn find(chars: &Vec<char>, lo: usize, hi: usize, c: char) -> (r: usize)
    requires
        lo <= hi <= chars.len(),
    ensures
        lo <= r <= hi,
        r - lo == first_index(chars@.subrange(lo as int, hi as int), c),
{
    let mut i: usize = lo;
    while i < hi && chars[i] != c
        invariant
            lo <= i <= hi <= chars.len(),
            forall|j: int| lo <= j < i ==> chars@[j] != c,
        decreases hi - i,
    {
        i += 1;
    }
    proof {
        lemma_first_index(chars@.subrange(lo as int, hi as int), c, i - lo);
    }
    i
}

/// Where `chars[lo..hi]` begins and ends once the padding around it is gone.
pub fn strip_bounds(chars: &Vec<char>, lo: usize, hi: usize, pad: Padding) -> (r: (usize, usize))
    requires
        lo <= hi <= chars.len(),
    ensures
        lo <= r.0 <= r.1 <= hi,
        chars@.subrange(r.0 as int, r.1 as int) == stripped(
            chars@.subrange(lo as int, hi as int),
            pad,
        ),
{
    let mut a: usize = lo;
    while a < hi && pad.has(chars[a])
        invariant
            lo <= a <= hi <= chars.len(),
            forall|j: int| lo <= j < a ==> pad.holds(chars@[j]),
        decreases hi - a,
    {
        a += 1;
    }
    let mut b: usize = hi;
    while b > a && pad.has(chars[b - 1])
        invariant
            a <= b <= hi <= chars.len(),
            forall|j: int| b <= j < hi ==> pad.holds(chars@[j]),
        decreases b,
    {
        b -= 1;
    }
    proof {
        let s = chars@.subrange(lo as int, hi as int);
        let t = chars@.subrange(a as int, hi as int);
        lemma_without_leading(s, pad, a - lo);
        assert(s.subrange(a - lo, s.len() as int) =~= t);
        lemma_without_trailing(t, pad, b - a);
        assert(t.subrange(0, b - a) =~= chars@.subrange(a as int, b as int));
    }
    (a, b)
}

/// The numeral for a value below ten.
pub open spec fn digit(d: nat) -> char {
    if d == 0 {
        '0'
    } else if d == 1 {
        '1'
    } else if d == 2 {
        '2'
    } else if d == 3 {
        '3'
    } else if d == 4 {
        '4'
    } else if d == 5 {
        '5'
    } else if d == 6 {
        '6'
    } else if d == 7 {
        '7'
    } else if d == 8 {
        '8'
    } else {
        '9'
    }
}

/// `n` written in decimal, without leading zeros.
pub open spec fn decimal(n: nat) -> Seq<char>
    decreases n,
{
    if n < 10 {
        seq![digit(n)]
    } else {
        decimal(n / 10).push(digit(n % 10))
    }
}

/// The numeral for `d` as text.
fn digit_text(d: usize) -> (r: &'static str)
    requires
        d < 10,
    ensures
        r@ == seq![digit(d as nat)],
{
    proof {
        reveal_strlit("0");
        reveal_strlit("1");
        reveal_strlit("2");
        reveal_strlit("3");
        reveal_strlit("4");
        reveal_strlit("5");
        reveal_strlit("6");
        reveal_strlit("7");
        reveal_strlit("8");
        reveal_strlit("9");
    }
    let r = if d == 0 {
        "0"
    } else if d == 1 {
        "1"
    } else if d == 2 {
        "2"
    } else if d == 3 {
        "3"
    } else if d == 4 {
        "4"
    } else if d == 5 {
        "5"
    } else if d == 6 {
        "6"
    } else if d == 7 {
        "7"
    } else if d == 8 {
        "8"
    } else {
        "9"
    };
    assert(r@ =~= seq![digit(d as nat)]);
    r
}

/// Writes `n` in decimal at the end of `out`.
pub fn push_decimal(out: &mut String, n: usize)
    ensures
        final(out)@ == old(out)@ + decimal(n as nat),
    decreases n,
{
    if n >= 10 {
        push_decimal(out, n / 10);
    }
    out.append(digit_text(n % 10));
    proof {
        if n >= 10 {
            assert(old(out)@ + decimal(n as nat / 10) + seq![digit(n as nat % 10)] =~= old(out)@
                + decimal(n as nat));
        }
    }
}

/// `n` written in decimal.
pub fn decimal_string(n: usize) -> (r: String)
    ensures
        r@ == decimal(n as nat),
{
    let mut out = String::new();
    push_decimal(&mut out, n);
    assert(Seq::<char>::empty() + decimal(n as nat) =~= decimal(n as nat));
    out
}

} // verus!
