//! Reading a player's line: a move as a cell index, a replay vote as yes/no.
use vstd::prelude::*;

verus! {

/// What `str::trim` returns for a text.
pub uninterp spec fn trimmed(s: Seq<char>) -> Seq<char>;

/// What `str::to_lowercase` returns for a text.
pub uninterp spec fn lowercased(s: Seq<char>) -> Seq<char>;

/// Relies on `str::trim`: the text without leading and trailing whitespace.
#[verifier::external_body]
pub(crate) fn trim_text(s: &str) -> (r: &str)
    ensures
        r@ == trimmed(s@),
{
    s.trim()
}

/// Relies on `str::to_lowercase`: the text with every letter in lower case.
#[verifier::external_body]
fn lowercase_text(s: &str) -> (r: String)
    ensures
        r@ == lowercased(s@),
{
    s.to_lowercase()
}

/// Whether `c` is one of the ASCII digits `0` to `9`.
pub open spec fn is_digit(c: char) -> bool {
    '0' <= c && c <= '9'
}

/// The value of an ASCII digit.
pub open spec fn digit_value(c: char) -> int {
    (c as u32) as int - 48
}

/// The decimal value of a sequence of ASCII digits.
pub open spec fn decimal_value(d: Seq<char>) -> int
    decreases d.len(),
{
    if d.len() == 0 {
        0
    } else {
        10 * decimal_value(d.drop_last()) + digit_value(d.last())
    }
}

/// The digits of a number written with an optional leading `+`.
pub open spec fn unsigned_digits(t: Seq<char>) -> Seq<char> {
    if t.len() > 0 && t[0] == '+' {
        t.drop_first()
    } else {
        t
    }
}

/// The text is an unsigned decimal number, as `usize` parsing reads one:
/// an optional `+`, then one or more ASCII digits.
pub open spec fn is_unsigned_number(t: Seq<char>) -> bool {
    let d = unsigned_digits(t);
    d.len() > 0 && forall|i: int| 0 <= i < d.len() ==> is_digit(#[trigger] d[i])
}

/// The 0-based cell that a move names: the text is a number from 1 to 9,
/// the 1-based position of the cell.
pub open spec fn move_index(t: Seq<char>) -> Option<int> {
    if is_unsigned_number(t) && 1 <= decimal_value(unsigned_digits(t)) <= 9 {
        Some(decimal_value(unsigned_digits(t)) - 1)
    } else {
        None
    }
}

/// No move is read from a text that is not an unsigned number (a word, a
/// negative number, an empty line), nor from a number that is zero or larger
/// than the last position.
pub proof fn lemma_rejected_move_texts(t: Seq<char>)
    ensures
        !is_unsigned_number(t) ==> move_index(t) is None,
        t.len() > 0 && t[0] == '-' ==> move_index(t) is None,
        is_unsigned_number(t) && decimal_value(unsigned_digits(t)) == 0 ==> move_index(t) is None,
        is_unsigned_number(t) && decimal_value(unsigned_digits(t)) > 9 ==> move_index(t) is None,
{
    if t.len() > 0 && t[0] == '-' {
        assert(!is_digit(unsigned_digits(t)[0]));
    }
}

/// A move names one of the nine cells.
pub proof fn lemma_move_index_in_range(t: Seq<char>)
    ensures
        move_index(t) matches Some(i) ==> 0 <= i < 9,
{
}

proof fn lemma_decimal_value_nonneg(d: Seq<char>)
    requires
        forall|i: int| 0 <= i < d.len() ==> is_digit(#[trigger] d[i]),
    ensures
        decimal_value(d) >= 0,
    decreases d.len(),
{
    if d.len() > 0 {
        let p = d.drop_last();
        assert forall|i: int| 0 <= i < p.len() implies is_digit(#[trigger] p[i]) by {
            assert(p[i] == d[i]);
        }
        lemma_decimal_value_nonneg(p);
    }
}

/// The cell (0-based) named by a move that has already been trimmed: `Some`
/// exactly when the text is an unsigned decimal number from 1 to 9.
pub fn parse_move(text: &str) -> (r: Option<usize>)
    ensures
        match r {
            Some(i) => move_index(text@) == Some(i as int),
            None => move_index(text@) is None,
        },
{
    let n = text.unicode_len();
    let mut start: usize = 0;
    if n > 0 && text.get_char(0) == '+' {
        start = 1;
    }
    let ghost d = unsigned_digits(text@);
    assert(d =~= text@.subrange(start as int, n as int));
    if start >= n {
        return None;
    }
    let mut value: usize = 0;
    let mut large = false;
    let mut i: usize = start;
    while i < n
        invariant
            start <= i <= n,
            n == text@.len(),
            d == text@.subrange(start as int, n as int),
            d == unsigned_digits(text@),
            forall|j: int| 0 <= j < i - start ==> is_digit(#[trigger] d[j]),
            !large ==> value <= 9 && value == decimal_value(d.take(i - start)),
            large ==> decimal_value(d.take(i - start)) > 9,
        decreases n - i,
    {
        let c = text.get_char(i);
        if c < '0' || c > '9' {
            assert(!is_digit(d[i - start]));
            return None;
        }
        let ghost k = i - start;
        proof {
            assert(d.take(k + 1).drop_last() =~= d.take(k));
            assert(d.take(k + 1).last() == c);
            assert forall|j: int| 0 <= j < k implies is_digit(#[trigger] d.take(k)[j]) by {
                assert(d.take(k)[j] == d[j]);
            }
            lemma_decimal_value_nonneg(d.take(k));
        }
        if !large {
            let next = 10 * value + ((c as u32 - 48) as usize);
            if next > 9 {
                large = true;
            } else {
                value = next;
            }
        }
        i = i + 1;
    }
    assert(d.take(n - start) =~= d);
    if large || value < 1 {
        None
    } else {
        Some(value - 1)
    }
}

/// The cell (0-based) named by a line as it came from a player: the line is
/// trimmed, then read as a number from 1 to 9.
pub fn read_move(line: &str) -> (r: Option<usize>)
    ensures
        match r {
            Some(i) => move_index(trimmed(line@)) == Some(i as int),
            None => move_index(trimmed(line@)) is None,
        },
{
    parse_move(trim_text(line))
}

/// A vote already trimmed and lower-cased is a yes exactly when it reads
/// `yes`.
pub fn is_affirmative(folded: &str) -> (r: bool)
    ensures
        r == (folded@ == "yes"@),
{
    proof {
        reveal_strlit("yes");
    }
    let n = folded.unicode_len();
    if n != 3 {
        return false;
    }
    let r = folded.get_char(0) == 'y' && folded.get_char(1) == 'e' && folded.get_char(2) == 's';
    if r {
        assert(folded@ =~= "yes"@);
    }
    r
}

/// A reply to the replay prompt counts as yes: the line, trimmed and
/// lower-cased, reads `yes`. A closed channel counts as no.
pub open spec fn vote_is_yes(reply: Option<Seq<char>>) -> bool {
    match reply {
        Some(s) => lowercased(trimmed(s)) == "yes"@,
        None => false,
    }
}

/// The view of a reply: its characters, if one came.
pub open spec fn reply_view(reply: &Option<String>) -> Option<Seq<char>> {
    match reply {
        Some(s) => Some(s@),
        None => None,
    }
}

/// Reads a reply to the replay prompt as a vote, case-insensitively; `None`
/// (the channel closed) is a no.
pub fn read_vote(reply: &Option<String>) -> (r: bool)
    ensures
        r == vote_is_yes(reply_view(reply)),
{
    match reply {
        Some(s) => {
            let folded = lowercase_text(trim_text(s.as_str()));
            is_affirmative(folded.as_str())
        },
        None => false,
    }
}

} // verus!
