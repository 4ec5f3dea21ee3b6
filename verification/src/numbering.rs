//! Archive numbers such as `4л` or `12а`: a run of digits followed by a
//! non-digit suffix, split with the pattern `(\d*)(\D*)`.

use vstd::prelude::*;

verus! {

/// The pattern that splits an archive number into its digits and its
/// suffix.
pub const NUMBER_PATTERN: &'static str = "(\\d*)(\\D*)";

/// The code point ranges of the Unicode general category `Nd` (decimal
/// digits), Unicode 16.0, as the table `DECIMAL_NUMBER` of regex-syntax
/// lists them: the characters that `\d` matches.
pub open spec fn decimal_digit_ranges() -> Seq<(u32, u32)> {
    seq![
        (0x30, 0x39),
        (0x660, 0x669),
        (0x6f0, 0x6f9),
        (0x7c0, 0x7c9),
        (0x966, 0x96f),
        (0x9e6, 0x9ef),
        (0xa66, 0xa6f),
        (0xae6, 0xaef),
        (0xb66, 0xb6f),
        (0xbe6, 0xbef),
        (0xc66, 0xc6f),
        (0xce6, 0xcef),
        (0xd66, 0xd6f),
        (0xde6, 0xdef),
        (0xe50, 0xe59),
        (0xed0, 0xed9),
        (0xf20, 0xf29),
        (0x1040, 0x1049),
        (0x1090, 0x1099),
        (0x17e0, 0x17e9),
        (0x1810, 0x1819),
        (0x1946, 0x194f),
        (0x19d0, 0x19d9),
        (0x1a80, 0x1a89),
        (0x1a90, 0x1a99),
        (0x1b50, 0x1b59),
        (0x1bb0, 0x1bb9),
        (0x1c40, 0x1c49),
        (0x1c50, 0x1c59),
        (0xa620, 0xa629),
        (0xa8d0, 0xa8d9),
        (0xa900, 0xa909),
        (0xa9d0, 0xa9d9),
        (0xa9f0, 0xa9f9),
        (0xaa50, 0xaa59),
        (0xabf0, 0xabf9),
        (0xff10, 0xff19),
        (0x104a0, 0x104a9),
        (0x10d30, 0x10d39),
        (0x10d40, 0x10d49),
        (0x11066, 0x1106f),
        (0x110f0, 0x110f9),
        (0x11136, 0x1113f),
        (0x111d0, 0x111d9),
        (0x112f0, 0x112f9),
        (0x11450, 0x11459),
        (0x114d0, 0x114d9),
        (0x11650, 0x11659),
        (0x116c0, 0x116c9),
        (0x116d0, 0x116e3),
        (0x11730, 0x11739),
        (0x118e0, 0x118e9),
        (0x11950, 0x11959),
        (0x11bf0, 0x11bf9),
        (0x11c50, 0x11c59),
        (0x11d50, 0x11d59),
        (0x11da0, 0x11da9),
        (0x11f50, 0x11f59),
        (0x16130, 0x16139),
        (0x16a60, 0x16a69),
        (0x16ac0, 0x16ac9),
        (0x16b50, 0x16b59),
        (0x16d70, 0x16d79),
        (0x1ccf0, 0x1ccf9),
        (0x1d7ce, 0x1d7ff),
        (0x1e140, 0x1e149),
        (0x1e2f0, 0x1e2f9),
        (0x1e4f0, 0x1e4f9),
        (0x1e5f1, 0x1e5fa),
        (0x1e950, 0x1e959),
        (0x1fbf0, 0x1fbf9)
    ]
}

/// Whether `c` is a Unicode decimal digit (general category `Nd`).
pub open spec fn decimal_digit(c: char) -> bool {
    exists|i: int|
        0 <= i < decimal_digit_ranges().len() && decimal_digit_ranges()[i].0 <= (c as u32)
            && (c as u32) <= #[trigger] decimal_digit_ranges()[i].1
}

/// The length of the longest prefix of `s` made of decimal digits.
pub open spec fn digit_run(s: Seq<char>) -> nat
    decreases s.len(),
{
    if s.len() > 0 && decimal_digit(s[0]) {
        1 + digit_run(s.drop_first())
    } else {
        0
    }
}

/// The length of the longest prefix of `s` without decimal digits.
pub open spec fn non_digit_run(s: Seq<char>) -> nat
    decreases s.len(),
{
    if s.len() > 0 && !decimal_digit(s[0]) {
        1 + non_digit_run(s.drop_first())
    } else {
        0
    }
}

/// The leading decimal digits of `s`.
pub open spec fn number_part(s: Seq<char>) -> Seq<char> {
    s.take(digit_run(s) as int)
}

/// The run of characters without decimal digits that follows the leading
/// digits of `s`.
pub open spec fn suffix_part(s: Seq<char>) -> Seq<char> {
    let rest = s.skip(digit_run(s) as int);
    rest.take(non_digit_run(rest) as int)
}

/// What `regex::Regex::new(pattern)` followed by `Regex::captures(haystack)`
/// gives: the text of each capture group (group 0 first), `None` for a group
/// that did not take part; `None` in all where the pattern does not compile
/// or does not match.
pub uninterp spec fn regex_groups(pattern: Seq<char>, haystack: Seq<char>) -> Option<Seq<Option<Seq<char>>>>;

/// The view of an optional string.
pub open spec fn opt_text(o: Option<String>) -> Option<Seq<char>> {
    match o {
        Some(t) => Some(t@),
        None => None,
    }
}

/// The view of a list of capture groups.
pub open spec fn groups_text(r: Option<Vec<Option<String>>>) -> Option<Seq<Option<Seq<char>>>> {
    match r {
        Some(v) => Some(v@.map_values(|g: Option<String>| opt_text(g))),
        None => None,
    }
}

/// Compiles `pattern` with `regex::Regex::new` and runs `Regex::captures` on
/// `haystack`, returning the text of every group. Claimed of it: the result
/// is the named outcome of those two calls; and for `NUMBER_PATTERN`, whose
/// groups `\d*` and `\D*` may both be empty so that the leftmost match
/// always starts at 0, there is a match with three groups of which groups 1
/// and 2 take part: group 1 is the longest prefix of decimal digits (`\d`,
/// Unicode `Nd`, as regex-syntax's table lists it) and group 2 the longest
/// run without them that follows, as greedy repetition takes them.
#[verifier::external_body]
fn regex_captures(pattern: &str, haystack: &str) -> (res: Option<Vec<Option<String>>>)
    ensures
        groups_text(res) == regex_groups(pattern@, haystack@),
        pattern@ == NUMBER_PATTERN@ ==> (res is Some && res.unwrap()@.len() == 3
            && res.unwrap()@[1] is Some && res.unwrap()@[2] is Some),
        pattern@ == NUMBER_PATTERN@ ==> (res.unwrap()@[1].unwrap()@ == number_part(haystack@)
            && res.unwrap()@[2].unwrap()@ == suffix_part(haystack@)),
{
    match regex::Regex::new(pattern) {
        Ok(re) => match re.captures(haystack) {
            Some(caps) => Some(caps.iter().map(|m| m.map(|m| m.as_str().to_string())).collect()),
            None => None,
        },
        Err(_) => None,
    }
}

/// The number and the suffix read from capture groups 1 and 2: the text of
/// group 1, or the empty text where it is absent; the text of group 2, where
/// present.
pub open spec fn number_parts_of(groups: Seq<Option<Seq<char>>>) -> (Seq<char>, Option<Seq<char>>) {
    (
        if groups.len() > 1 && groups[1] is Some {
            groups[1].unwrap()
        } else {
            Seq::empty()
        },
        if groups.len() > 2 {
            groups[2]
        } else {
            None
        },
    )
}

/// Reads the number and the suffix out of the capture groups of
/// `NUMBER_PATTERN`.
pub fn number_parts(groups: &Vec<Option<String>>) -> (res: (String, Option<String>))
    ensures
        (res.0@, opt_text(res.1)) == number_parts_of(groups@.map_values(|g: Option<String>| opt_text(g))),
{
    let ghost gs = groups@.map_values(|g: Option<String>| opt_text(g));
    let number = if groups.len() > 1 {
        match &groups[1] {
            Some(t) => t.clone(),
            None => String::new(),
        }
    } else {
        String::new()
    };
    let suffix = if groups.len() > 2 {
        match &groups[2] {
            Some(t) => Some(t.clone()),
            None => None,
        }
    } else {
        None
    };
    proof {
        if groups.len() > 1 {
            assert(gs[1] == opt_text(groups@[1]));
        }
        if groups.len() > 2 {
            assert(gs[2] == opt_text(groups@[2]));
        }
    }
    (number, suffix)
}

/// The number and suffix of an archive number: its leading decimal digits
/// and the run without decimal digits that follows them (what groups 1 and 2
/// of `NUMBER_PATTERN` hold, see `split_number`).
pub open spec fn split_number_of(text: Seq<char>) -> (Seq<char>, Option<Seq<char>>) {
    (number_part(text), Some(suffix_part(text)))
}

/// Splits an archive number into its leading digits and the suffix after
/// them (`"4л"` into `"4"` and `"л"`, `"12"` into `"12"` and `""`): the
/// leading decimal digits, and the run without decimal digits that follows.
/// The suffix is always present.
pub fn split_number(text: &str) -> (res: (String, Option<String>))
    ensures
        (res.0@, opt_text(res.1)) == split_number_of(text@),
        (res.0@, opt_text(res.1)) == number_parts_of(regex_groups(NUMBER_PATTERN@, text@).unwrap()),
        res.1 is Some,
        res.0@ == number_part(text@),
        res.1.unwrap()@ == suffix_part(text@),
{
    let caps = regex_captures(NUMBER_PATTERN, text);
    let groups = caps.unwrap();
    let res = number_parts(&groups);
    proof {
        let gs = groups@.map_values(|g: Option<String>| opt_text(g));
        assert(gs[1] == opt_text(groups@[1]));
        assert(gs[2] == opt_text(groups@[2]));
    }
    res
}

/// The number and the suffix follow each other from the start: together
/// they form a prefix of the text; the number holds only decimal digits and
/// the suffix none.
pub proof fn lemma_split_is_prefix(s: Seq<char>)
    ensures
        number_part(s) + suffix_part(s) =~= s.take((number_part(s).len() + suffix_part(s).len()) as int),
        forall|i: int| 0 <= i < number_part(s).len() ==> decimal_digit(#[trigger] number_part(s)[i]),
        forall|i: int| 0 <= i < suffix_part(s).len() ==> !decimal_digit(#[trigger] suffix_part(s)[i]),
{
    lemma_digit_run(s);
    lemma_non_digit_run(s.skip(digit_run(s) as int));
}

proof fn lemma_digit_run(s: Seq<char>)
    ensures
        digit_run(s) <= s.len(),
        forall|i: int| 0 <= i < digit_run(s) ==> decimal_digit(#[trigger] s[i]),
    decreases s.len(),
{
    if s.len() > 0 && decimal_digit(s[0]) {
        lemma_digit_run(s.drop_first());
        assert forall|i: int| 0 <= i < digit_run(s) implies decimal_digit(#[trigger] s[i]) by {
            if i > 0 {
                assert(s[i] == s.drop_first()[i - 1]);
            }
        }
    }
}

proof fn lemma_non_digit_run(s: Seq<char>)
    ensures
        non_digit_run(s) <= s.len(),
        forall|i: int| 0 <= i < non_digit_run(s) ==> !decimal_digit(#[trigger] s[i]),
    decreases s.len(),
{
    if s.len() > 0 && !decimal_digit(s[0]) {
        lemma_non_digit_run(s.drop_first());
        assert forall|i: int| 0 <= i < non_digit_run(s) implies !decimal_digit(#[trigger] s[i]) by {
            if i > 0 {
                assert(s[i] == s.drop_first()[i - 1]);
            }
        }
    }
}

} // verus!
