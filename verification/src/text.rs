//! Text: characters, digits, and the searches and trims that addresses,
//! tokens and documents need.
use vstd::prelude::*;

verus! {

/// `String::push` appends one character.
pub assume_specification[ String::push ](s: &mut String, c: char)
    ensures
        final(s)@ == old(s)@.push(c),
;

/// The character of a decimal digit.
pub open spec fn digit_char(d: nat) -> char {
    (48 + d) as char
}

/// The decimal digits of `n`, filled up with zeros on the left to `width`
/// characters.
pub open spec fn padded_decimal(n: nat, width: nat) -> Seq<char>
    decreases n,
{
    let rest = if width == 0 { 0 } else { (width - 1) as nat };
    if n < 10 {
        Seq::new(rest, |i: int| '0').push(digit_char(n))
    } else {
        padded_decimal(n / 10, rest).push(digit_char(n % 10))
    }
}

/// The decimal digits of `n`.
pub open spec fn decimal(n: nat) -> Seq<char> {
    padded_decimal(n, 0)
}

proof fn lemma_padded_decimal_below(n: nat, width: nat, digits: nat)
    requires
        n < vstd::arithmetic::power::pow(10, digits),
    ensures
        padded_decimal(n, width).len() <= width + digits + 1,
        vstd::utf8::is_ascii_chars(padded_decimal(n, width)),
    decreases digits,
{
    reveal(vstd::arithmetic::power::pow);
    if n >= 10 {
        let rest = if width == 0 { 0 } else { (width - 1) as nat };
        lemma_padded_decimal_below(n / 10, rest, (digits - 1) as nat);
    }
}

/// A decimal number is short and made of ASCII characters.
pub proof fn lemma_padded_decimal(n: nat, width: nat)
    requires
        n <= u64::MAX,
    ensures
        padded_decimal(n, width).len() <= width + 21,
        vstd::utf8::is_ascii_chars(padded_decimal(n, width)),
{
    reveal_with_fuel(vstd::arithmetic::power::pow, 21);
    lemma_padded_decimal_below(n, width, 20);
}

/// A decimal number is made of digits, and of at least one.
pub proof fn lemma_decimal_is_digits(n: nat)
    ensures
        decimal(n).len() > 0,
        forall|i: int| 0 <= i < decimal(n).len() ==> '0' <= #[trigger] decimal(n)[i] <= '9',
    decreases n,
{
    if n >= 10 {
        lemma_decimal_is_digits(n / 10);
        assert(decimal(n) == decimal(n / 10).push(digit_char(n % 10)));
    }
}

/// Appends the decimal digits of `n`, filled up with zeros on the left to
/// `width` characters.
pub fn push_padded(out: &mut String, n: u64, width: usize)
    ensures
        final(out)@ == old(out)@ + padded_decimal(n as nat, width as nat),
    decreases n,
{
    let rest: usize = if width == 0 { 0 } else { width - 1 };
    if n < 10 {
        let mut i: usize = 0;
        while i < rest
            invariant
                i <= rest,
                out@ == old(out)@ + Seq::new(i as nat, |k: int| '0'),
            decreases rest - i,
        {
            out.push('0');
            i = i + 1;
        }
    } else {
        push_padded(out, n / 10, rest);
    }
    let digit: u8 = (n % 10) as u8;
    out.push((48 + digit) as char);
}

/// Appends the decimal digits of `n`.
pub fn push_decimal(out: &mut String, n: u64)
    ensures
        final(out)@ == old(out)@ + decimal(n as nat),
{
    push_padded(out, n, 0);
}

/// The characters of a text.
pub fn chars_of(s: &str) -> (chars: Vec<char>)
    ensures
        chars@ == s@,
{
    let mut chars: Vec<char> = Vec::new();
    for c in it: s.chars()
        invariant
            chars@ == s@.take(it.index()),
            it.seq() == s@,
    {
        chars.push(c);
    }
    chars
}

/// The text made of the characters `chars[from..to]`.
pub fn text_of(chars: &Vec<char>, from: usize, to: usize) -> (text: String)
    requires
        from <= to <= chars.len(),
    ensures
        text@ == chars@.subrange(from as int, to as int),
{
    let mut text = String::new();
    let mut i: usize = from;
    while i < to
        invariant
            from <= i <= to <= chars.len(),
            text@ == chars@.subrange(from as int, i as int),
        decreases to - i,
    {
        text.push(chars[i]);
        i = i + 1;
    }
    text
}

/// `prefix` with `rest` behind it.
pub fn joined(prefix: &str, rest: &str) -> (text: String)
    ensures
        text@ == prefix@ + rest@,
{
    let mut text = prefix.to_string();
    text.append(rest);
    text
}

/// Whether `pattern` stands in `text` at position `i`.
pub open spec fn stands_at(text: Seq<char>, pattern: Seq<char>, i: int) -> bool {
    0 <= i && i + pattern.len() <= text.len() && text.subrange(i, i + pattern.len()) == pattern
}

/// Whether `i` is the first position at which `pattern` stands in `text`.
pub open spec fn first_stands_at(text: Seq<char>, pattern: Seq<char>, i: int) -> bool {
    stands_at(text, pattern, i) && forall|j: int| 0 <= j < i ==> !stands_at(text, pattern, j)
}

/// `text` with the first occurrence of `pattern` replaced by `replacement`;
/// `text` itself where there is none.
pub open spec fn replaced_first(
    text: Seq<char>,
    pattern: Seq<char>,
    replacement: Seq<char>,
) -> Seq<char> {
    if exists|i: int| first_stands_at(text, pattern, i) {
        let i = choose|i: int| first_stands_at(text, pattern, i);
        text.take(i) + replacement + text.skip(i + pattern.len())
    } else {
        text
    }
}

/// Whether the characters of `pattern` stand in `chars` from position `at`.
fn matches_at(chars: &Vec<char>, pattern: &Vec<char>, at: usize) -> (matched: bool)
    requires
        at + pattern.len() <= chars.len(),
    ensures
        matched == stands_at(chars@, pattern@, at as int),
{
    let mut k: usize = 0;
    while k < pattern.len()
        invariant
            k <= pattern.len(),
            at + pattern.len() <= chars.len(),
            forall|j: int| 0 <= j < k ==> chars[at + j] == pattern[j],
        decreases pattern.len() - k,
    {
        if chars[at + k] != pattern[k] {
            assert(chars@.subrange(at as int, at + pattern.len())[k as int] != pattern@[k as int]);
            return false;
        }
        k = k + 1;
    }
    assert(chars@.subrange(at as int, at + pattern.len()) =~= pattern@);
    true
}

/// Replaces the first occurrence of `pattern` in `text`.
pub fn replace_first(text: &str, pattern: &str, replacement: &str) -> (replaced: String)
    requires
        pattern@.len() > 0,
    ensures
        replaced@ == replaced_first(text@, pattern@, replacement@),
{
    let chars: Vec<char> = chars_of(text);
    let wanted: Vec<char> = chars_of(pattern);
    let mut i: usize = 0;
    while i < chars.len() && wanted.len() <= chars.len() - i
        invariant
            chars@ == text@,
            wanted@ == pattern@,
            pattern@.len() > 0,
            i <= chars.len(),
            forall|j: int| 0 <= j < i ==> !stands_at(text@, pattern@, j),
        decreases chars.len() - i,
    {
        if matches_at(&chars, &wanted, i) {
            let mut replaced = text_of(&chars, 0, i);
            replaced.append(replacement);
            let tail = text_of(&chars, i + wanted.len(), chars.len());
            replaced.append(tail.as_str());
            proof {
                assert(first_stands_at(text@, pattern@, i as int));
                let k = choose|k: int| first_stands_at(text@, pattern@, k);
                assert(k == i) by {
                    if k < i {
                        assert(!stands_at(text@, pattern@, k));
                    } else if k > i {
                        assert(!stands_at(text@, pattern@, i as int));
                    }
                }
                assert(chars@.subrange(0, i as int) =~= text@.take(i as int));
                assert(chars@.subrange(i + wanted.len(), chars.len() as int) =~= text@.skip(
                    i + pattern@.len(),
                ));
            }
            return replaced;
        }
        i = i + 1;
    }
    let whole = text_of(&chars, 0, chars.len());
    assert(whole@ =~= text@);
    assert forall|k: int| !first_stands_at(text@, pattern@, k) by {
        if first_stands_at(text@, pattern@, k) {
            assert(k < i);
        }
    }
    whole
}

/// The lower-case form of an ASCII letter; every other character itself.
pub open spec fn ascii_lower(c: char) -> char {
    if 'A' <= c <= 'Z' {
        (c as nat + 32) as char
    } else {
        c
    }
}

/// The lower-case form of an ASCII letter; every other character itself.
pub fn to_ascii_lower(c: char) -> (lower: char)
    ensures
        lower == ascii_lower(c),
{
    if 'A' <= c && c <= 'Z' {
        ((c as u8) + 32) as char
    } else {
        c
    }
}

/// A text with its ASCII letters in lower case.
pub open spec fn ascii_lowered(text: Seq<char>) -> Seq<char> {
    text.map_values(|c: char| ascii_lower(c))
}

/// The upper-case form of an ASCII letter; every other character itself.
pub open spec fn ascii_upper(c: char) -> char {
    if 'a' <= c <= 'z' {
        (c as nat - 32) as char
    } else {
        c
    }
}

/// A text with its ASCII letters in upper case.
pub open spec fn ascii_uppered(text: Seq<char>) -> Seq<char> {
    text.map_values(|c: char| ascii_upper(c))
}

/// Whether `text` is `wanted`, or `wanted` with all its ASCII letters in upper
/// case.
pub fn is_text_or_uppered(text: &str, wanted: &str) -> (same: bool)
    ensures
        same == (text@ == wanted@ || text@ == ascii_uppered(wanted@)),
{
    let left: Vec<char> = chars_of(text);
    let right: Vec<char> = chars_of(wanted);
    if left.len() != right.len() {
        return false;
    }
    let mut as_is: bool = true;
    let mut uppered: bool = true;
    let mut i: usize = 0;
    while i < left.len()
        invariant
            left@ == text@,
            right@ == wanted@,
            left.len() == right.len(),
            i <= left.len(),
            as_is <==> forall|j: int| 0 <= j < i ==> #[trigger] text@[j] == wanted@[j],
            uppered <==> forall|j: int|
                0 <= j < i ==> #[trigger] text@[j] == ascii_upper(wanted@[j]),
        decreases left.len() - i,
    {
        let c: char = right[i];
        let upper: char = if 'a' <= c && c <= 'z' { ((c as u8) - 32) as char } else { c };
        as_is = as_is && left[i] == c;
        uppered = uppered && left[i] == upper;
        i = i + 1;
    }
    proof {
        if as_is {
            assert(text@ =~= wanted@);
        }
        if uppered {
            assert(text@ =~= ascii_uppered(wanted@));
        }
        if text@ == ascii_uppered(wanted@) {
            assert forall|j: int| 0 <= j < i implies #[trigger] text@[j] == ascii_upper(
                wanted@[j],
            ) by {
                assert(ascii_uppered(wanted@)[j] == ascii_upper(wanted@[j]));
            }
        }
    }
    as_is || uppered
}

/// Whether two texts are the same but for the case of ASCII letters.
pub open spec fn same_ignoring_ascii_case(a: Seq<char>, b: Seq<char>) -> bool {
    a.len() == b.len() && forall|i: int|
        0 <= i < a.len() ==> ascii_lower(#[trigger] a[i]) == ascii_lower(b[i])
}

/// Whether two texts are the same but for the case of ASCII letters.
pub fn eq_ignore_ascii_case(a: &str, b: &str) -> (same: bool)
    ensures
        same == same_ignoring_ascii_case(a@, b@),
{
    let left: Vec<char> = chars_of(a);
    let right: Vec<char> = chars_of(b);
    if left.len() != right.len() {
        return false;
    }
    let mut i: usize = 0;
    while i < left.len()
        invariant
            left@ == a@,
            right@ == b@,
            left.len() == right.len(),
            i <= left.len(),
            forall|j: int| 0 <= j < i ==> ascii_lower(#[trigger] a@[j]) == ascii_lower(b@[j]),
        decreases left.len() - i,
    {
        if to_ascii_lower(left[i]) != to_ascii_lower(right[i]) {
            assert(ascii_lower(a@[i as int]) != ascii_lower(b@[i as int]));
            return false;
        }
        i = i + 1;
    }
    true
}

/// A check's outcome with its message taken as characters.
pub open spec fn outcome_view(outcome: Result<(), String>) -> Result<(), Seq<char>> {
    match outcome {
        Ok(_) => Ok(()),
        Err(message) => Err(message@),
    }
}

/// A text, or the message of a failure, taken as characters.
pub open spec fn text_result_view(result: Result<String, String>) -> Result<Seq<char>, Seq<char>> {
    match result {
        Ok(text) => Ok(text@),
        Err(message) => Err(message@),
    }
}

/// Whether Unicode gives a character the property `White_Space`.
pub open spec fn is_white_space(c: char) -> bool {
    ||| '\u{9}' <= c <= '\u{d}'
    ||| c == '\u{20}'
    ||| c == '\u{85}'
    ||| c == '\u{a0}'
    ||| c == '\u{1680}'
    ||| '\u{2000}' <= c <= '\u{200a}'
    ||| c == '\u{2028}'
    ||| c == '\u{2029}'
    ||| c == '\u{202f}'
    ||| c == '\u{205f}'
    ||| c == '\u{3000}'
}

/// A kind of character that is stripped from the ends of a text.
#[derive(Clone, Copy, Debug, PartialEq, Eq, Structural)]
pub enum Strippable {
    /// White space.
    WhiteSpace,
    /// This character.
    Just(char),
}

impl Strippable {
    /// Whether a character is of this kind.
    pub open spec fn covers(self, c: char) -> bool {
        match self {
            Strippable::WhiteSpace => is_white_space(c),
            Strippable::Just(wanted) => c == wanted,
        }
    }

    /// Whether a character is of this kind.
    pub fn matches(&self, c: char) -> (covered: bool)
        ensures
            covered == self.covers(c),
            *self matches Strippable::Just(wanted) ==> covered == (c == wanted),
            *self is WhiteSpace ==> (covered <==> 9 <= c as u32 <= 13 || c as u32 == 0x20 || c as u32
                == 0x85 || c as u32 == 0xa0 || c as u32 == 0x1680 || 0x2000 <= c as u32 <= 0x200a
                || c as u32 == 0x2028 || c as u32 == 0x2029 || c as u32 == 0x202f || c as u32
                == 0x205f || c as u32 == 0x3000),
    {
        match self {
            Strippable::WhiteSpace => {
                '\u{9}' <= c && c <= '\u{d}' || c == '\u{20}' || c == '\u{85}' || c == '\u{a0}' || c
                    == '\u{1680}' || '\u{2000}' <= c && c <= '\u{200a}' || c == '\u{2028}' || c
                    == '\u{2029}' || c == '\u{202f}' || c == '\u{205f}' || c == '\u{3000}'
            },
            Strippable::Just(wanted) => c == *wanted,
        }
    }
}

/// `text` from its first character on that is not of a kind.
pub open spec fn stripped_start(text: Seq<char>, kind: Strippable) -> Seq<char>
    decreases text.len(),
{
    if text.len() > 0 && kind.covers(text[0]) {
        stripped_start(text.skip(1), kind)
    } else {
        text
    }
}

/// `text` up to its last character that is not of a kind.
pub open spec fn stripped_end(text: Seq<char>, kind: Strippable) -> Seq<char>
    decreases text.len(),
{
    if text.len() > 0 && kind.covers(text.last()) {
        stripped_end(text.drop_last(), kind)
    } else {
        text
    }
}

/// `text` without the white space at its ends.
pub open spec fn trimmed(text: Seq<char>) -> Seq<char> {
    stripped_end(stripped_start(text, Strippable::WhiteSpace), Strippable::WhiteSpace)
}

/// Strips the leading characters of one kind and the trailing ones of another.
pub fn strip(text: &str, leading: Strippable, trailing: Strippable) -> (stripped: String)
    ensures
        stripped@ == stripped_end(stripped_start(text@, leading), trailing),
{
    let chars: Vec<char> = chars_of(text);
    let mut from: usize = 0;
    assert(chars@.skip(0) =~= chars@);
    while from < chars.len() && leading.matches(chars[from])
        invariant
            from <= chars.len(),
            stripped_start(chars@, leading) == stripped_start(chars@.skip(from as int), leading),
        decreases chars.len() - from,
    {
        assert(chars@.skip(from as int).skip(1) =~= chars@.skip(from + 1));
        from = from + 1;
    }
    let mut to: usize = chars.len();
    let ghost kept = chars@.skip(from as int);
    assert(chars@.subrange(from as int, to as int) =~= kept);
    while from < to && trailing.matches(chars[to - 1])
        invariant
            from <= to <= chars.len(),
            stripped_end(kept, trailing) == stripped_end(
                chars@.subrange(from as int, to as int),
                trailing,
            ),
        decreases to - from,
    {
        assert(chars@.subrange(from as int, to as int).drop_last() =~= chars@.subrange(
            from as int,
            to - 1,
        ));
        to = to - 1;
    }
    text_of(&chars, from, to)
}

/// Removes the white space at the ends of a text.
pub fn trim(text: &str) -> (bare: String)
    ensures
        bare@ == trimmed(text@),
{
    strip(text, Strippable::WhiteSpace, Strippable::WhiteSpace)
}

/// Trimming leaves nothing of a text exactly where it is all white space.
pub proof fn law_only_white_space_trims_to_nothing(text: Seq<char>)
    ensures
        trimmed(text).len() == 0 <==> forall|i: int|
            0 <= i < text.len() ==> is_white_space(#[trigger] text[i]),
    decreases text.len(),
{
    let white = Strippable::WhiteSpace;
    if text.len() > 0 && white.covers(text[0]) {
        let rest = text.skip(1);
        law_only_white_space_trims_to_nothing(rest);
        assert(trimmed(text) == trimmed(rest));
        assert(forall|i: int| 0 < i < text.len() ==> #[trigger] text[i] == rest[i - 1]);
        assert(forall|i: int| 0 <= i < rest.len() ==> #[trigger] rest[i] == text[i + 1]);
    } else if text.len() > 0 {
        lemma_stripped_end_keeps_start(text, white);
    }
}

proof fn lemma_stripped_end_keeps_start(text: Seq<char>, kind: Strippable)
    requires
        text.len() > 0,
        !kind.covers(text[0]),
    ensures
        stripped_end(text, kind).len() > 0,
    decreases text.len(),
{
    if kind.covers(text.last()) {
        lemma_stripped_end_keeps_start(text.drop_last(), kind);
    }
}

/// An optional text taken as characters.
pub open spec fn text_option_view(text: Option<String>) -> Option<Seq<char>> {
    match text {
        Some(text) => Some(text@),
        None => None,
    }
}

/// The text that debug-formatting a text gives: in double quotes, with escapes.
pub uninterp spec fn debug_quoted(text: Seq<char>) -> Seq<char>;

/// `str`'s `Debug`.
///
/// What it gives is a function of the text.
#[verifier::external_body]
pub(crate) fn quote(text: &str) -> (quoted: String)
    ensures
        quoted@ == debug_quoted(text@),
{
    format!("{text:?}")
}

/// The number that a text of decimal digits says.
pub open spec fn decimal_value(text: Seq<char>) -> nat
    decreases text.len(),
{
    if text.len() == 0 {
        0
    } else {
        10 * decimal_value(text.drop_last()) + (text.last() as nat - '0' as nat) as nat
    }
}

proof fn lemma_zeros_say_nothing(n: nat)
    ensures
        decimal_value(Seq::new(n, |i: int| '0')) == 0,
    decreases n,
{
    if n > 0 {
        let fewer = (n - 1) as nat;
        lemma_zeros_say_nothing(fewer);
        assert(Seq::new(n, |i: int| '0').drop_last() =~= Seq::new(fewer, |i: int| '0'));
    }
}

/// A padded decimal says its number: reading its digits gives the number back,
/// it is at least as long as asked for, and where it is longer it has no zero
/// in front.
pub proof fn law_decimal_reads_back(n: nat, width: nat)
    ensures
        decimal_value(padded_decimal(n, width)) == n,
        padded_decimal(n, width).len() >= 1,
        padded_decimal(n, width).len() >= width,
        forall|i: int|
            0 <= i < padded_decimal(n, width).len() ==> '0' <= #[trigger] padded_decimal(
                n,
                width,
            )[i] <= '9',
        padded_decimal(n, width).len() > width && n > 0 ==> padded_decimal(n, width)[0] != '0',
        padded_decimal(n, width).len() > width && n == 0 ==> padded_decimal(n, width).len() == 1,
    decreases n,
{
    let text = padded_decimal(n, width);
    let rest = if width == 0 { 0 } else { (width - 1) as nat };
    if n < 10 {
        lemma_zeros_say_nothing(rest);
        assert(text.drop_last() =~= Seq::new(rest, |i: int| '0'));
    } else {
        law_decimal_reads_back(n / 10, rest);
        assert(text.drop_last() =~= padded_decimal(n / 10, rest));
    }
}

/// Replacing the first occurrence of a pattern puts the replacement where the
/// pattern first stands, and keeps everything before and behind it.
pub proof fn law_first_occurrence_is_replaced(
    before: Seq<char>,
    pattern: Seq<char>,
    behind: Seq<char>,
    replacement: Seq<char>,
)
    requires
        forall|x: Seq<char>, y: Seq<char>|
            before + pattern + behind == #[trigger] (x + pattern + y) ==> before.len() <= x.len(),
    ensures
        replaced_first(before + pattern + behind, pattern, replacement) == before + replacement
            + behind,
{
    let text = before + pattern + behind;
    let i = before.len() as int;
    assert(text.subrange(i, i + pattern.len()) =~= pattern);
    assert(first_stands_at(text, pattern, i)) by {
        assert forall|j: int| 0 <= j < i implies !stands_at(text, pattern, j) by {
            if stands_at(text, pattern, j) {
                let x = text.take(j);
                let y = text.skip(j + pattern.len());
                assert(text =~= x + pattern + y);
            }
        }
    }
    let k = choose|k: int| first_stands_at(text, pattern, k);
    if k < i {
        assert(!stands_at(text, pattern, k));
    } else if k > i {
        assert(!stands_at(text, pattern, i));
    }
    assert(text.take(i) =~= before);
    assert(text.skip(i + pattern.len()) =~= behind);
}

/// A text in which a pattern stands nowhere is left as it is.
pub proof fn law_nothing_to_replace(
    text: Seq<char>,
    pattern: Seq<char>,
    replacement: Seq<char>,
)
    requires
        forall|before: Seq<char>, behind: Seq<char>|
            text != #[trigger] (before + pattern + behind),
    ensures
        replaced_first(text, pattern, replacement) == text,
{
    assert forall|i: int| !first_stands_at(text, pattern, i) by {
        if stands_at(text, pattern, i) {
            let before = text.take(i);
            let behind = text.skip(i + pattern.len());
            assert(text =~= before + pattern + behind);
        }
    }
}

/// The case of a letter: upper and lower case of an ASCII letter are 32 apart,
/// and no other character has a case.
pub proof fn law_ascii_case(c: char)
    ensures
        'A' <= c <= 'Z' ==> ascii_lower(c) as nat == c as nat + 32 && ascii_upper(c) == c,
        'a' <= c <= 'z' ==> ascii_upper(c) as nat + 32 == c as nat && ascii_lower(c) == c,
        !('A' <= c <= 'Z') && !('a' <= c <= 'z') ==> ascii_lower(c) == c && ascii_upper(c) == c,
{
}

/// Two texts are the same but for the case of ASCII letters exactly where they
/// are the same in lower case.
pub proof fn law_same_in_lower_case(a: Seq<char>, b: Seq<char>)
    ensures
        same_ignoring_ascii_case(a, b) <==> a.map_values(|c: char| ascii_lower(c))
            == b.map_values(|c: char| ascii_lower(c)),
{
    let lower = |c: char| ascii_lower(c);
    if same_ignoring_ascii_case(a, b) {
        assert(a.map_values(lower) =~= b.map_values(lower));
    }
    if a.map_values(lower) == b.map_values(lower) {
        assert(a.map_values(lower).len() == a.len() && b.map_values(lower).len() == b.len());
        assert forall|i: int| 0 <= i < a.len() implies ascii_lower(#[trigger] a[i]) == ascii_lower(
            b[i],
        ) by {
            assert(a.map_values(lower)[i] == b.map_values(lower)[i]);
        }
    }
}

/// Stripping takes away characters of the kinds at the ends, and all of them:
/// a text that neither begins with the one kind nor ends with the other is what
/// is left, whatever of those kinds stands round it.
pub proof fn law_strip_takes_the_ends(
    leading: Seq<char>,
    core: Seq<char>,
    trailing: Seq<char>,
    first: Strippable,
    last: Strippable,
)
    requires
        forall|i: int| 0 <= i < leading.len() ==> first.covers(#[trigger] leading[i]),
        forall|i: int| 0 <= i < trailing.len() ==> last.covers(#[trigger] trailing[i]),
        core.len() > 0,
        !first.covers(core[0]),
        !last.covers(core.last()),
    ensures
        stripped_end(stripped_start(leading + core + trailing, first), last) == core,
    decreases leading.len() + trailing.len(),
{
    let text = leading + core + trailing;
    if leading.len() > 0 {
        assert(first.covers(leading[0]));
        assert(text.skip(1) =~= leading.skip(1) + core + trailing);
        law_strip_takes_the_ends(leading.skip(1), core, trailing, first, last);
    } else {
        assert(text =~= core + trailing);
        lemma_strip_end_to(core, trailing, last);
    }
}

proof fn lemma_strip_end_to(core: Seq<char>, trailing: Seq<char>, kind: Strippable)
    requires
        forall|i: int| 0 <= i < trailing.len() ==> kind.covers(#[trigger] trailing[i]),
        core.len() > 0,
        !kind.covers(core.last()),
    ensures
        stripped_end(core + trailing, kind) == core,
    decreases trailing.len(),
{
    if trailing.len() > 0 {
        assert(kind.covers(trailing[trailing.len() - 1]));
        assert((core + trailing).drop_last() =~= core + trailing.drop_last());
        lemma_strip_end_to(core, trailing.drop_last(), kind);
    } else {
        assert(core + trailing =~= core);
    }
}

/// Trimming takes away the white space at both ends, and all of it.
pub proof fn law_trim_takes_white_space(leading: Seq<char>, core: Seq<char>, trailing: Seq<char>)
    requires
        forall|i: int| 0 <= i < leading.len() ==> is_white_space(#[trigger] leading[i]),
        forall|i: int| 0 <= i < trailing.len() ==> is_white_space(#[trigger] trailing[i]),
        core.len() > 0,
        !is_white_space(core[0]),
        !is_white_space(core.last()),
    ensures
        trimmed(leading + core + trailing) == core,
{
    law_strip_takes_the_ends(
        leading,
        core,
        trailing,
        Strippable::WhiteSpace,
        Strippable::WhiteSpace,
    );
}

/// A character is strippable as itself alone, or as white space.
pub proof fn law_strippable_kinds(c: char, wanted: char)
    ensures
        Strippable::Just(wanted).covers(c) <==> c == wanted,
        Strippable::WhiteSpace.covers(c) <==> is_white_space(c),
{
}

/// The characters that are white space: the tab to the carriage return, the
/// space, the next line, and the spaces and separators of Unicode.
pub proof fn law_white_space_characters(c: char)
    ensures
        is_white_space(c) <==> 9 <= c as u32 <= 13 || c as u32 == 0x20 || c as u32
                == 0x85 || c as u32 == 0xa0 || c as u32 == 0x1680 || 0x2000 <= c as u32 <= 0x200a
                || c as u32 == 0x2028 || c as u32 == 0x2029 || c as u32 == 0x202f || c as u32
                == 0x205f || c as u32 == 0x3000,
{
}

/// Stripping leaves nothing of a text that is made of characters of the one kind
/// and behind them of the other.
pub proof fn law_strip_can_leave_nothing(
    leading: Seq<char>,
    trailing: Seq<char>,
    first: Strippable,
    last: Strippable,
)
    requires
        forall|i: int| 0 <= i < leading.len() ==> first.covers(#[trigger] leading[i]),
        forall|i: int| 0 <= i < trailing.len() ==> last.covers(#[trigger] trailing[i]),
        trailing.len() > 0 ==> !first.covers(trailing[0]),
    ensures
        stripped_end(stripped_start(leading + trailing, first), last).len() == 0,
    decreases leading.len() + trailing.len(),
{
    let text = leading + trailing;
    if leading.len() > 0 {
        assert(first.covers(leading[0]));
        assert(text.skip(1) =~= leading.skip(1) + trailing);
        law_strip_can_leave_nothing(leading.skip(1), trailing, first, last);
    } else if trailing.len() > 0 {
        assert(text =~= trailing);
        assert(last.covers(trailing[trailing.len() - 1]));
        let fewer = trailing.drop_last();
        assert(leading + fewer =~= fewer);
        law_strip_can_leave_nothing(leading, fewer, first, last);
    }
}

/// A text in upper or lower case is its characters in that case, one by one.
pub proof fn law_case_of_texts(text: Seq<char>)
    ensures
        ascii_lowered(text).len() == text.len(),
        ascii_uppered(text).len() == text.len(),
        forall|i: int|
            0 <= i < text.len() ==> #[trigger] ascii_lowered(text)[i] == ascii_lower(text[i]),
        forall|i: int|
            0 <= i < text.len() ==> #[trigger] ascii_uppered(text)[i] == ascii_upper(text[i]),
{
}

/// The last digit of a decimal is the number of ones, and the digits before it
/// are those of the tens.
pub proof fn law_decimal_ends_with_the_ones(n: nat, width: nat)
    ensures
        padded_decimal(n, width).last() as nat == '0' as nat + n % 10,
        n >= 10 && width > 0 ==> padded_decimal(n, width).drop_last() == padded_decimal(
            n / 10,
            (width - 1) as nat,
        ),
        n >= 10 ==> decimal(n).drop_last() == decimal(n / 10),
        n < 10 ==> decimal(n).len() == 1,
{
    if n >= 10 {
        assert(decimal(n).drop_last() =~= decimal(n / 10));
    }
}

/// The views of outcomes, texts and messages keep what they hold.
pub proof fn law_views_of_results_are_faithful(text: String, message: String)
    ensures
        outcome_view(Ok(())) == Ok::<(), Seq<char>>(()),
        outcome_view(Err(message)) == Err::<(), Seq<char>>(message@),
        text_result_view(Ok(text)) == Ok::<Seq<char>, Seq<char>>(text@),
        text_result_view(Err(message)) == Err::<Seq<char>, Seq<char>>(message@),
        text_option_view(Some(text)) == Some(text@),
        text_option_view(None) == None::<Seq<char>>,
{
}

}
