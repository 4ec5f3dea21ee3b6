//! Character-level helpers: decimal rendering of integers, whitespace
//! tokenizing, and string building.

use vstd::prelude::*;

verus! {

/// The character of the decimal digit `d` (`0 <= d < 10`).
pub open spec fn digit_char(d: int) -> char {
    (48 + d) as char
}

/// The decimal digits of `n`, most significant first, without leading zeros
/// (zero is written as a single `0`).
pub open spec fn nat_text(n: nat) -> Seq<char>
    decreases n,
{
    if n < 10 {
        seq![digit_char(n as int)]
    } else {
        nat_text(n / 10).push(digit_char((n % 10) as int))
    }
}

/// The text of an integer as Rust's `Display` writes it: an optional `-`
/// followed by the decimal digits of its magnitude.
pub open spec fn int_text(i: int) -> Seq<char> {
    if i < 0 {
        seq!['-'] + nat_text((-i) as nat)
    } else {
        nat_text(i as nat)
    }
}

/// The text of a boolean as Rust's `Display` writes it.
pub open spec fn bool_text(b: bool) -> Seq<char> {
    if b {
        seq!['t', 'r', 'u', 'e']
    } else {
        seq!['f', 'a', 'l', 's', 'e']
    }
}

/// Appends one character (`String::push`).
#[verifier::external_body]
pub(crate) fn push_char(s: &mut String, c: char)
    ensures
        final(s)@ == old(s)@.push(c),
{
    s.push(c);
}

/// Appends the decimal digits of `n`.
fn push_digits(s: &mut String, n: u64)
    ensures
        final(s)@ == old(s)@ + nat_text(n as nat),
    decreases n,
{
    if n >= 10 {
        push_digits(s, n / 10);
    }
    let d: u8 = (n % 10) as u8;
    let c: char = (48u8 + d) as char;
    push_char(s, c);
    proof {
        if n >= 10 {
            assert(nat_text(n as nat) == nat_text((n / 10) as nat).push(digit_char((n % 10) as int)));
        }
    }
}

/// Appends the decimal text of a signed 64-bit integer.
pub fn push_i64(s: &mut String, x: i64)
    ensures
        final(s)@ == old(s)@ + int_text(x as int),
{
    if x < 0 {
        push_char(s, '-');
        let wide: i128 = x as i128;
        let mag: u64 = (-wide) as u64;
        push_digits(s, mag);
        assert(final(s)@ =~= old(s)@ + int_text(x as int));
    } else {
        push_digits(s, x as u64);
    }
}

/// The decimal text of a signed 64-bit integer (`i64::to_string`).
pub fn i64_text(x: i64) -> (res: String)
    ensures
        res@ == int_text(x as int),
{
    let mut s = String::new();
    push_i64(&mut s, x);
    assert(s@ =~= int_text(x as int));
    s
}

/// Appends the text of a boolean.
pub fn push_bool(s: &mut String, b: bool)
    ensures
        final(s)@ == old(s)@ + bool_text(b),
{
    if b {
        s.append("true");
        proof { reveal_strlit("true"); }
    } else {
        s.append("false");
        proof { reveal_strlit("false"); }
    }
    assert(final(s)@ =~= old(s)@ + bool_text(b));
}


/// Whether a character has the Unicode `White_Space` property: U+0009 to
/// U+000D, U+0020, U+0085, U+00A0, U+1680, U+2000 to U+200A, U+2028,
/// U+2029, U+202F, U+205F and U+3000.
pub open spec fn white_space(c: char) -> bool {
    let u = c as u32;
    ||| (0x09 <= u && u <= 0x0d)
    ||| u == 0x20
    ||| u == 0x85
    ||| u == 0xa0
    ||| u == 0x1680
    ||| (0x2000 <= u && u <= 0x200a)
    ||| u == 0x2028
    ||| u == 0x2029
    ||| u == 0x202f
    ||| u == 0x205f
    ||| u == 0x3000
}

/// Tests a character for the Unicode `White_Space` property
/// (`char::is_whitespace`, documented as that property). Claimed of it:
/// the result is `white_space(c)`.
#[verifier::external_body]
pub(crate) fn is_white_space(c: char) -> (res: bool)
    ensures
        res == white_space(c),
{
    c.is_whitespace()
}

/// The words of `s`: its maximal runs of characters without the
/// `White_Space` property, in order (what `str::split_whitespace` yields).
pub open spec fn words(s: Seq<char>) -> Seq<Seq<char>>
    decreases s.len(),
{
    if s.len() == 0 {
        seq![]
    } else {
        let front = s.drop_last();
        let c = s.last();
        let w = words(front);
        if white_space(c) {
            w
        } else if front.len() > 0 && !white_space(front.last()) {
            w.update(w.len() - 1, w.last().push(c))
        } else {
            w.push(seq![c])
        }
    }
}

/// A line that does not hold the two fields that a list line needs.
#[derive(Debug, Clone, Copy, PartialEq, Eq, Structural)]
pub enum LineError {
    /// The line holds no word: the fund number is missing.
    MissingFund,
    /// The line holds one word: the inventory number is missing.
    MissingInventory,
}

/// A word count capped at three: only the first two words are read.
pub open spec fn capped_len(w: Seq<Seq<char>>) -> int {
    if w.len() < 3 {
        w.len() as int
    } else {
        3
    }
}

/// There are no more words than characters, and a text that ends in a
/// character without the `White_Space` property holds at least one word.
proof fn lemma_words_len(s: Seq<char>)
    ensures
        words(s).len() <= s.len(),
        s.len() > 0 && !white_space(s.last()) ==> words(s).len() > 0,
    decreases s.len(),
{
    if s.len() > 0 {
        lemma_words_len(s.drop_last());
    }
}

/// Splits a line of the fund/inventory list into its first two words: the
/// fund number and the inventory number. Words are separated by any run of
/// Unicode white space; words after the second are ignored.
pub fn parse_list_line(line: &str) -> (res: Result<(String, String), LineError>)
    ensures
        words(line@).len() == 0 <==> res == Err::<(String, String), LineError>(LineError::MissingFund),
        words(line@).len() == 1 <==> res == Err::<(String, String), LineError>(LineError::MissingInventory),
        res matches Ok((fund, inventory)) ==> {
            &&& words(line@).len() >= 2
            &&& fund@ == words(line@)[0]
            &&& inventory@ == words(line@)[1]
        },
{
    broadcast use vstd::string::group_string_axioms;
    let mut first = String::new();
    let mut second = String::new();
    let mut count: usize = 0;
    let mut in_word = false;
    let ghost text = line@;
    for c in it: line.chars()
        invariant
            it.seq() == text,
            text == line@,
            it.index() <= text.len(),
            count as int == capped_len(words(text.take(it.index() as int))),
            in_word == (it.index() > 0 && !white_space(text[it.index() - 1])),
            count >= 1 ==> first@ == words(text.take(it.index() as int))[0],
            count >= 2 ==> second@ == words(text.take(it.index() as int))[1],
            count <= 1 ==> second@.len() == 0,
            count == 0 ==> first@.len() == 0,
    {
        let ghost k = it.index();
        let ghost before = text.take(k as int);
        let ghost after = text.take(k + 1);
        assert(after.drop_last() =~= before);
        assert(after.last() == c);
        proof {
            lemma_words_len(before);
            if k > 0 {
                assert(before.last() == text[k - 1]);
            }
        }
        let ws = is_white_space(c);
        if ws {
            in_word = false;
        } else if in_word {
            if count == 1 {
                push_char(&mut first, c);
            } else if count == 2 {
                push_char(&mut second, c);
            }
        } else {
            if count < 3 {
                count = count + 1;
            }
            if count == 1 {
                push_char(&mut first, c);
            } else if count == 2 {
                push_char(&mut second, c);
            }
            in_word = true;
        }
    }
    assert(text.take(text.len() as int) =~= text);
    if count == 0 {
        Err(LineError::MissingFund)
    } else if count == 1 {
        Err(LineError::MissingInventory)
    } else {
        Ok((first, second))
    }
}


/// The parts joined with `sep` between each two (`[a, b, c]` gives
/// `a sep b sep c`; no parts give the empty text).
pub open spec fn join(parts: Seq<Seq<char>>, sep: Seq<char>) -> Seq<char>
    decreases parts.len(),
{
    if parts.len() == 0 {
        Seq::empty()
    } else if parts.len() == 1 {
        parts[0]
    } else {
        join(parts.drop_last(), sep) + sep + parts.last()
    }
}

/// The views of a list of strings.
pub open spec fn texts(v: Seq<String>) -> Seq<Seq<char>> {
    v.map_values(|s: String| s@)
}

/// Appends the strings of `parts`, with `sep` between each two.
pub fn push_joined(s: &mut String, parts: &Vec<String>, sep: &str)
    ensures
        final(s)@ == old(s)@ + join(texts(parts@), sep@),
{
    let ghost start = s@;
    let ghost all = texts(parts@);
    let n = parts.len();
    let mut i: usize = 0;
    assert(all.take(0) =~= Seq::<Seq<char>>::empty());
    while i < n
        invariant
            n == parts@.len(),
            all == texts(parts@),
            i <= n,
            s@ == start + join(all.take(i as int), sep@),
        decreases n - i,
    {
        assert(all.take(i + 1).drop_last() =~= all.take(i as int));
        assert(all.take(i + 1).last() == parts@[i as int]@);
        if i > 0 {
            s.append(sep);
        }
        s.append(parts[i].as_str());
        proof {
            if i == 0 {
                assert(all.take(1) =~= seq![parts@[0]@]);
            }
        }
        assert(s@ =~= start + join(all.take(i + 1), sep@));
        i = i + 1;
    }
    assert(all.take(n as int) =~= all);
}

/// A text between single quotes, as the SQL statements quote their string
/// values (nothing inside is escaped).
pub open spec fn quoted(t: Seq<char>) -> Seq<char> {
    seq!['\''] + t + seq!['\'']
}

/// A parenthesized, comma-separated tuple of values: `(a, b, c)`.
pub open spec fn tuple_text(values: Seq<Seq<char>>) -> Seq<char> {
    seq!['('] + join(values, seq![',', ' ']) + seq![')']
}

/// Appends a parenthesized, comma-separated tuple of values.
pub fn push_tuple(s: &mut String, values: &Vec<String>)
    ensures
        final(s)@ == old(s)@ + tuple_text(texts(values@)),
{
    let ghost start = s@;
    push_char(s, '(');
    push_joined(s, values, ", ");
    push_char(s, ')');
    proof {
        reveal_strlit(", ");
        assert(", "@ =~= seq![',', ' ']);
    }
    assert(s@ =~= start + tuple_text(texts(values@)));
}

/// A quoted copy of a text.
pub fn quote(t: &str) -> (res: String)
    ensures
        res@ == quoted(t@),
{
    let mut s = String::new();
    push_char(&mut s, '\'');
    s.append(t);
    push_char(&mut s, '\'');
    assert(s@ =~= quoted(t@));
    s
}

} // verus!
