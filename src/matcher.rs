//! Compiled regular expressions, kept together with the source they were
//! compiled from, and the quote-context rule that decides whether a match
//! lies in executable text or inside a quoted literal.

use vstd::prelude::*;
use vstd::string::*;
use vstd::utf8::encode_utf8;

verus! {

#[verifier::external_type_specification]
#[verifier::external_body]
pub struct ExRegex(regex::Regex);

/// Whether `regex::Regex::new` accepts the pattern.
pub uninterp spec fn regex_compiles(pattern: Seq<char>) -> bool;

/// The message of the error `regex::Regex::new` gives for a rejected pattern.
pub uninterp spec fn regex_error_text(pattern: Seq<char>) -> Seq<char>;

/// Byte offsets at which the successive non-overlapping matches of the
/// pattern begin in the UTF-8 encoding of the text.
pub uninterp spec fn regex_match_starts(pattern: Seq<char>, text: Seq<char>) -> Seq<usize>;

/// Whether the pattern matches anywhere in the text.
pub uninterp spec fn regex_is_match(pattern: Seq<char>, text: Seq<char>) -> bool;

/// The text with every non-overlapping match of the pattern replaced by the
/// expansion of `replacement`.
pub uninterp spec fn regex_replace_all(
    pattern: Seq<char>,
    text: Seq<char>,
    replacement: Seq<char>,
) -> Seq<char>;

/// A regular expression compiled from `source`. Values are made only by
/// [`compile`], so the matcher always belongs to the source it is kept with.
#[derive(Debug)]
pub struct CompiledRegex {
    re: regex::Regex,
    source: String,
}

impl CompiledRegex {
    /// The pattern this regular expression was compiled from.
    pub closed spec fn source(&self) -> Seq<char> {
        self.source@
    }

    /// The pattern this regular expression was compiled from.
    pub fn as_str(&self) -> (r: &str)
        ensures
            r@ == self.source(),
    {
        self.source.as_str()
    }
}

/// Relies on `regex::Regex::new`: whether a pattern compiles, and the error
/// message when it does not, depend on the pattern alone.
#[verifier::external_body]
pub(crate) fn compile(source: &str) -> (r: Result<CompiledRegex, String>)
    ensures
        r is Ok <==> regex_compiles(source@),
        r matches Ok(re) ==> re.source() == source@,
        r matches Err(msg) ==> msg@ == regex_error_text(source@),
{
    match regex::Regex::new(source) {
        Ok(re) => Ok(CompiledRegex { re, source: source.to_string() }),
        Err(e) => Err(e.to_string()),
    }
}

/// Relies on `regex::Regex::find_iter` and `regex::Match::start`: the byte
/// offsets where the successive non-overlapping matches begin, each of which
/// can slice the text.
#[verifier::external_body]
pub(crate) fn match_starts(re: &CompiledRegex, text: &str) -> (r: Vec<usize>)
    ensures
        r@ == regex_match_starts(re.source(), text@),
        forall|i: int| 0 <= i < r@.len() ==> r@[i] <= text.spec_bytes().len(),
{
    re.re.find_iter(text).map(|m| m.start()).collect()
}

/// Relies on `regex::Regex::is_match`: whether there is a match anywhere.
#[verifier::external_body]
pub(crate) fn is_match(re: &CompiledRegex, text: &str) -> (r: bool)
    ensures
        r == regex_is_match(re.source(), text@),
{
    re.re.is_match(text)
}

/// Relies on `regex::Regex::replace_all` with a `&str` replacement.
#[verifier::external_body]
pub(crate) fn replace_all(re: &CompiledRegex, text: &str, replacement: &str) -> (r: String)
    ensures
        r@ == regex_replace_all(re.source(), text@, replacement@),
{
    re.re.replace_all(text, replacement).to_string()
}

pub const BACKSLASH: u8 = 0x5c;

pub const SINGLE_QUOTE: u8 = 0x27;

pub const DOUBLE_QUOTE: u8 = 0x22;

/// Number of bytes equal to `x` in `b`.
pub open spec fn count_byte(b: Seq<u8>, x: u8) -> nat
    decreases b.len(),
{
    if b.len() == 0 {
        0
    } else {
        count_byte(b.drop_last(), x) + if b.last() == x { 1nat } else { 0nat }
    }
}

/// Number of places where `x` directly follows a backslash in `b`.
pub open spec fn count_escaped(b: Seq<u8>, x: u8) -> nat
    decreases b.len(),
{
    if b.len() < 2 {
        0
    } else {
        count_escaped(b.drop_last(), x) + if b[b.len() - 2] == BACKSLASH && b.last() == x {
            1nat
        } else {
            0nat
        }
    }
}

/// Quotes `x` in `b` that are not preceded by a backslash.
pub open spec fn unescaped_quotes(b: Seq<u8>, x: u8) -> int {
    count_byte(b, x) - count_escaped(b, x)
}

/// The text `prefix` leaves a single- or double-quoted literal open: an odd
/// number of unescaped quotes of either kind.
pub open spec fn inside_literal(prefix: Seq<u8>) -> bool {
    unescaped_quotes(prefix, SINGLE_QUOTE) % 2 == 1 || unescaped_quotes(prefix, DOUBLE_QUOTE) % 2
        == 1
}

/// One of `starts` lies within `bytes` and outside every quoted literal.
pub open spec fn live_somewhere(bytes: Seq<u8>, starts: Seq<usize>) -> bool {
    exists|i: int|
        0 <= i < starts.len() && starts[i] <= bytes.len() && !inside_literal(
            #[trigger] bytes.subrange(0, starts[i] as int),
        )
}

/// A match of `pattern` in `text` starts outside every quoted literal.
pub open spec fn fires(pattern: Seq<char>, text: Seq<char>) -> bool {
    live_somewhere(encode_utf8(text), regex_match_starts(pattern, text))
}

proof fn lemma_escaped_le_count(b: Seq<u8>, x: u8)
    ensures
        count_escaped(b, x) <= count_byte(b, x),
    decreases b.len(),
{
    if b.len() >= 2 {
        lemma_escaped_le_count(b.drop_last(), x);
    } else if b.len() == 1 {
        assert(count_byte(b.drop_last(), x) == 0);
    }
}

/// Whether the first `end` bytes of `bytes` leave a quoted literal open.
pub fn literal_open_before(bytes: &[u8], end: usize) -> (r: bool)
    requires
        end <= bytes@.len(),
    ensures
        r == inside_literal(bytes@.subrange(0, end as int)),
{
    let mut single: usize = 0;
    let mut single_esc: usize = 0;
    let mut double: usize = 0;
    let mut double_esc: usize = 0;
    let mut i: usize = 0;
    while i < end
        invariant
            end <= bytes@.len(),
            i <= end,
            single as nat == count_byte(bytes@.subrange(0, i as int), SINGLE_QUOTE),
            single_esc as nat == count_escaped(bytes@.subrange(0, i as int), SINGLE_QUOTE),
            double as nat == count_byte(bytes@.subrange(0, i as int), DOUBLE_QUOTE),
            double_esc as nat == count_escaped(bytes@.subrange(0, i as int), DOUBLE_QUOTE),
            single <= i,
            double <= i,
            single_esc <= i,
            double_esc <= i,
        decreases end - i,
    {
        let b = bytes[i];
        let escaped = i > 0 && bytes[i - 1] == BACKSLASH;
        proof {
            let p = bytes@.subrange(0, i + 1);
            assert(p.drop_last() =~= bytes@.subrange(0, i as int));
            assert(p.last() == b);
            if i > 0 {
                assert(p[p.len() - 2] == bytes@[i - 1]);
            }
        }
        if b == SINGLE_QUOTE {
            single = single + 1;
            if escaped {
                single_esc = single_esc + 1;
            }
        }
        if b == DOUBLE_QUOTE {
            double = double + 1;
            if escaped {
                double_esc = double_esc + 1;
            }
        }
        i = i + 1;
    }
    proof {
        lemma_escaped_le_count(bytes@.subrange(0, end as int), SINGLE_QUOTE);
        lemma_escaped_le_count(bytes@.subrange(0, end as int), DOUBLE_QUOTE);
    }
    (single - single_esc) % 2 == 1 || (double - double_esc) % 2 == 1
}

/// Whether one of the match offsets `starts` lies in `bytes` outside every
/// quoted literal.
pub fn any_live_start(bytes: &[u8], starts: &Vec<usize>) -> (r: bool)
    ensures
        r == live_somewhere(bytes@, starts@),
{
    let mut i: usize = 0;
    while i < starts.len()
        invariant
            i <= starts@.len(),
            forall|k: int|
                0 <= k < i ==> !(starts@[k] <= bytes@.len() && !inside_literal(
                    #[trigger] bytes@.subrange(0, starts@[k] as int),
                )),
        decreases starts@.len() - i,
    {
        if starts[i] <= bytes.len() && !literal_open_before(bytes, starts[i]) {
            return true;
        }
        i = i + 1;
    }
    false
}

/// Whether `re` matches `command` at least once outside a quoted literal.
pub fn is_dangerous_in_context(command: &str, re: &CompiledRegex) -> (r: bool)
    ensures
        r == fires(re.source(), command@),
{
    let starts = match_starts(re, command);
    any_live_start(command.as_bytes(), &starts)
}

} // verus!
