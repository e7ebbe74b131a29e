//! Text: what the library asks of strings, over their characters.

use vstd::prelude::*;
use vstd::string::*;
use vstd::utf8::{decode_utf8, valid_utf8};

verus! {

// ---------------------------------------------------------------------------
// Trimming and case
// ---------------------------------------------------------------------------

/// The characters with the Unicode property `White_Space`.
pub open spec fn is_white_space(c: char) -> bool {
    let n = c as int;
    ||| 0x9 <= n <= 0xD
    ||| n == 0x20
    ||| n == 0x85
    ||| n == 0xA0
    ||| n == 0x1680
    ||| 0x2000 <= n <= 0x200A
    ||| n == 0x2028
    ||| n == 0x2029
    ||| n == 0x202F
    ||| n == 0x205F
    ||| n == 0x3000
}

/// `s` without the white space at its start.
pub open spec fn trimmed_start(s: Seq<char>) -> Seq<char>
    decreases s.len(),
{
    if s.len() > 0 && is_white_space(s[0]) {
        trimmed_start(s.drop_first())
    } else {
        s
    }
}

/// `s` without the white space at its end.
pub open spec fn trimmed_end(s: Seq<char>) -> Seq<char>
    decreases s.len(),
{
    if s.len() > 0 && is_white_space(s.last()) {
        trimmed_end(s.drop_last())
    } else {
        s
    }
}

/// `s` without the white space at either end.
pub open spec fn trimmed(s: Seq<char>) -> Seq<char> {
    trimmed_end(trimmed_start(s))
}

/// `s` is white space and nothing else.
pub open spec fn is_blank(s: Seq<char>) -> bool {
    forall|i: int| 0 <= i < s.len() ==> is_white_space(#[trigger] s[i])
}

/// White space before a text is trimmed.
pub proof fn lemma_blank_start(blank: Seq<char>, s: Seq<char>)
    requires
        is_blank(blank),
    ensures
        trimmed(blank + s) == trimmed(s),
    decreases blank.len(),
{
    if blank.len() > 0 {
        assert(is_white_space(blank[0]));
        assert((blank + s).drop_first() =~= blank.drop_first() + s);
        lemma_blank_start(blank.drop_first(), s);
    } else {
        assert(blank + s =~= s);
    }
}

/// White space goes from the end of a text.
proof fn lemma_blank_goes_from_the_end(s: Seq<char>, blank: Seq<char>)
    requires
        is_blank(blank),
    ensures
        trimmed_end(s + blank) == trimmed_end(s),
    decreases blank.len(),
{
    if blank.len() > 0 {
        assert(is_white_space(blank[blank.len() - 1]));
        assert((s + blank).drop_last() =~= s + blank.drop_last());
        lemma_blank_goes_from_the_end(s, blank.drop_last());
    } else {
        assert(s + blank =~= s);
    }
}

/// White space after a text is trimmed.
pub proof fn lemma_blank_end(s: Seq<char>, blank: Seq<char>)
    requires
        is_blank(blank),
    ensures
        trimmed(s + blank) == trimmed(s),
    decreases s.len(),
{
    if s.len() == 0 {
        assert(s + blank =~= blank + s);
        lemma_blank_start(blank, s);
    } else if is_white_space(s[0]) {
        assert((s + blank).drop_first() =~= s.drop_first() + blank);
        lemma_blank_end(s.drop_first(), blank);
    } else {
        assert((s + blank)[0] == s[0]);
        lemma_blank_goes_from_the_end(s, blank);
    }
}

/// The letters `A` to `Z` become `a` to `z`; every other character stays.
pub open spec fn ascii_lower_char(c: char) -> char {
    if 'A' <= c <= 'Z' {
        ((c as int) + 32) as char
    } else {
        c
    }
}

/// [`ascii_lower_char`] on each character.
pub open spec fn ascii_lowercase(s: Seq<char>) -> Seq<char> {
    s.map_values(|c: char| ascii_lower_char(c))
}

/// `str::to_ascii_lowercase`: "ASCII letters 'A' to 'Z' are mapped to 'a' to
/// 'z', but non-ASCII letters are unchanged".
pub assume_specification[ str::to_ascii_lowercase ](s: &str) -> (r: String)
    ensures
        r@ == ascii_lowercase(s@),
;

/// The letters `a` to `z` become `A` to `Z`; every other character stays.
pub open spec fn ascii_upper_char(c: char) -> char {
    if 'a' <= c <= 'z' {
        ((c as int) - 32) as char
    } else {
        c
    }
}

/// [`ascii_upper_char`] on each character.
pub open spec fn ascii_uppercase(s: Seq<char>) -> Seq<char> {
    s.map_values(|c: char| ascii_upper_char(c))
}

/// Every character is below 128.
pub open spec fn is_ascii_text(s: Seq<char>) -> bool {
    forall|i: int| 0 <= i < s.len() ==> (#[trigger] s[i] as int) < 128
}

/// What `str::to_lowercase` makes of a text: its Unicode lower case.
pub uninterp spec fn lowercase(s: Seq<char>) -> Seq<char>;

/// `str::to_lowercase`. Its result is named [`lowercase`]; on ASCII text it is
/// the ASCII lower case.
pub assume_specification[ str::to_lowercase ](s: &str) -> (r: String)
    ensures
        r@ == lowercase(s@),
        is_ascii_text(s@) ==> r@ == ascii_lowercase(s@),
;

/// What `str::to_uppercase` makes of a text: its Unicode upper case.
pub uninterp spec fn uppercase(s: Seq<char>) -> Seq<char>;

/// `str::to_uppercase`. Its result is named [`uppercase`]; on ASCII text it is
/// the ASCII upper case.
pub assume_specification[ str::to_uppercase ](s: &str) -> (r: String)
    ensures
        r@ == uppercase(s@),
        is_ascii_text(s@) ==> r@ == ascii_uppercase(s@),
;

// ---------------------------------------------------------------------------
// Bytes to text
// ---------------------------------------------------------------------------

/// What `String::from_utf8_lossy` makes of bytes: their UTF-8 text, with
/// replacement characters for what is not UTF-8.
pub uninterp spec fn utf8_lossy(bytes: Seq<u8>) -> Seq<char>;

/// `String::from_utf8_lossy`. Its result is named [`utf8_lossy`]; on valid
/// UTF-8 it is the decoded text.
#[verifier::external_body]
pub(crate) fn text_of_bytes(bytes: &[u8]) -> (r: String)
    ensures
        r@ == utf8_lossy(bytes@),
        valid_utf8(bytes@) ==> r@ == decode_utf8(bytes@),
{
    String::from_utf8_lossy(bytes).into_owned()
}

// ---------------------------------------------------------------------------
// Comparing, searching and joining
// ---------------------------------------------------------------------------

/// The texts of a sequence of strings.
pub open spec fn texts(strings: Seq<String>) -> Seq<Seq<char>> {
    strings.map_values(|s: String| s@)
}

/// The text of an optional string.
pub open spec fn opt_text(s: Option<String>) -> Option<Seq<char>> {
    match s {
        Some(text) => Some(text@),
        None => None,
    }
}

/// The text of an optional string slice.
pub open spec fn opt_str(s: Option<&str>) -> Option<Seq<char>> {
    match s {
        Some(text) => Some(text@),
        None => None,
    }
}

/// Whether a character is white space.
fn is_space(c: char) -> (r: bool)
    ensures
        r == is_white_space(c),
{
    let n: u32 = c as u32;
    (0x9 <= n && n <= 0xD) || n == 0x20 || n == 0x85 || n == 0xA0 || n == 0x1680 || (0x2000 <= n
        && n <= 0x200A) || n == 0x2028 || n == 0x2029 || n == 0x202F || n == 0x205F || n == 0x3000
}

/// Takes the white space off either end of a text.
pub fn trim_text(text: &str) -> (r: &str)
    ensures
        r@ == trimmed(text@),
{
    let s = chars_of(text);
    let mut start: usize = 0;
    proof {
        assert(s@.skip(0) =~= s@);
    }
    while start < s.len() && is_space(s[start])
        invariant
            start <= s@.len(),
            trimmed_start(s@) == trimmed_start(s@.skip(start as int)),
        decreases s@.len() - start,
    {
        proof {
            assert(s@.skip(start as int).drop_first() =~= s@.skip(start + 1));
        }
        start += 1;
    }
    let ghost rest = s@.skip(start as int);
    let mut end: usize = s.len();
    proof {
        assert(trimmed_start(s@) == rest);
        assert(s@.subrange(start as int, end as int) =~= rest);
    }
    while end > start && is_space(s[end - 1])
        invariant
            start <= end <= s@.len(),
            trimmed_end(rest) == trimmed_end(s@.subrange(start as int, end as int)),
        decreases end,
    {
        proof {
            let here = s@.subrange(start as int, end as int);
            assert(here.last() == s@[end - 1]);
            assert(here.drop_last() =~= s@.subrange(start as int, end - 1));
        }
        end -= 1;
    }
    proof {
        let here = s@.subrange(start as int, end as int);
        if here.len() > 0 {
            assert(here.last() == s@[end - 1]);
        }
        assert(trimmed_end(here) == here);
    }
    text.substring_char(start, end)
}

/// Whether two texts are the same.
pub fn same_text(a: &str, b: &str) -> (r: bool)
    ensures
        r == (a@ == b@),
{
    a.to_owned() == b.to_owned()
}

/// Whether two texts are the same but for the case of ASCII letters.
pub fn same_text_ignoring_ascii_case(a: &str, b: &str) -> (r: bool)
    ensures
        r == (ascii_lowercase(a@) == ascii_lowercase(b@)),
{
    a.to_ascii_lowercase() == b.to_ascii_lowercase()
}

/// `a` followed by `b`.
pub fn joined(a: &str, b: &str) -> (r: String)
    ensures
        r@ == a@ + b@,
{
    let mut out = a.to_owned();
    out.append(b);
    out
}

/// The characters of a text.
pub fn chars_of(text: &str) -> (r: Vec<char>)
    ensures
        r@ == text@,
{
    let mut out: Vec<char> = Vec::new();
    for c in it: text.chars()
        invariant
            out@ == text@.take(it.index() as int),
            it.seq() == text@,
    {
        proof {
            assert(text@.take(it.index() as int).push(c) =~= text@.take(it.index() as int + 1));
        }
        out.push(c);
    }
    proof {
        assert(text@.take(text@.len() as int) =~= text@);
    }
    out
}

/// `pattern` stands in `s` at position `i`.
pub open spec fn occurs_at(s: Seq<char>, pattern: Seq<char>, i: int) -> bool {
    &&& 0 <= i
    &&& i + pattern.len() <= s.len()
    &&& s.subrange(i, i + pattern.len()) == pattern
}

/// `pattern` stands somewhere in `s`.
pub open spec fn occurs_in(s: Seq<char>, pattern: Seq<char>) -> bool {
    exists|i: int| occurs_at(s, pattern, i)
}

/// Whether `pattern` stands at position `i` of the characters `s`.
fn matches_at(s: &Vec<char>, pattern: &Vec<char>, i: usize) -> (r: bool)
    requires
        i + pattern@.len() <= s@.len(),
    ensures
        r == occurs_at(s@, pattern@, i as int),
{
    let n: usize = s.len();
    let mut k: usize = 0;
    while k < pattern.len()
        invariant
            n == s@.len(),
            i + pattern@.len() <= n,
            k <= pattern@.len(),
            forall|j: int| 0 <= j < k ==> s@[i + j] == #[trigger] pattern@[j],
        decreases pattern@.len() - k,
    {
        if s[i + k] != pattern[k] {
            proof {
                assert(s@.subrange(i as int, i + pattern@.len())[k as int] != pattern@[k as int]);
            }
            return false;
        }
        k += 1;
    }
    proof {
        assert(s@.subrange(i as int, i + pattern@.len()) =~= pattern@);
    }
    true
}

/// Whether `pattern` stands somewhere in `text`.
pub fn contains_text(text: &str, pattern: &str) -> (r: bool)
    ensures
        r == occurs_in(text@, pattern@),
{
    let s = chars_of(text);
    let p = chars_of(pattern);
    if p.len() > s.len() {
        return false;
    }
    let last: usize = s.len() - p.len();
    let mut i: usize = 0;
    while i <= last
        invariant
            s@ == text@,
            p@ == pattern@,
            p@.len() <= s@.len(),
            last == s@.len() - p@.len(),
            i <= last + 1,
            forall|j: int| 0 <= j < i ==> !occurs_at(s@, p@, j),
        decreases last + 1 - i,
    {
        if matches_at(&s, &p, i) {
            return true;
        }
        if i == last {
            return false;
        }
        i += 1;
    }
    false
}

/// `s` with each occurrence of `pattern`, taken from the left and without
/// overlap, put as `with`.
pub open spec fn replaced(s: Seq<char>, pattern: Seq<char>, with: Seq<char>) -> Seq<char>
    recommends
        pattern.len() > 0,
    decreases s.len(),
{
    if s.len() == 0 || pattern.len() == 0 {
        s
    } else if occurs_at(s, pattern, 0) {
        with + replaced(s.skip(pattern.len() as int), pattern, with)
    } else {
        seq![s[0]] + replaced(s.drop_first(), pattern, with)
    }
}

/// Puts `with` for each occurrence of `pattern`, from the left.
pub fn replace_text(text: &str, pattern: &str, with: &str) -> (r: String)
    requires
        pattern@.len() > 0,
    ensures
        r@ == replaced(text@, pattern@, with@),
{
    let s = chars_of(text);
    let p = chars_of(pattern);
    let mut out = String::new();
    let mut start: usize = 0;
    let mut i: usize = 0;
    proof {
        assert(s@.skip(0) =~= s@);
        assert(Seq::<char>::empty() + s@.subrange(0, 0) + replaced(s@, p@, with@) =~= replaced(
            s@,
            p@,
            with@,
        ));
    }
    while i < s.len()
        invariant
            s@ == text@,
            p@ == pattern@,
            p@.len() > 0,
            start <= i <= s@.len(),
            replaced(s@, p@, with@) == out@ + s@.subrange(start as int, i as int) + replaced(
                s@.skip(i as int),
                p@,
                with@,
            ),
        decreases s@.len() - i,
    {
        let ghost rest = s@.skip(i as int);
        let ghost before = out@ + s@.subrange(start as int, i as int);
        let here: bool = p.len() <= s.len() - i && matches_at(&s, &p, i);
        proof {
            if p@.len() <= s@.len() - i {
                assert(rest.subrange(0, p@.len() as int) =~= s@.subrange(i as int, i + p@.len()));
            }
            assert(here == occurs_at(rest, p@, 0));
        }
        if here {
            out.append(text.substring_char(start, i));
            out.append(with);
            proof {
                assert(rest.skip(p@.len() as int) =~= s@.skip(i + p@.len()));
                assert(replaced(rest, p@, with@) == with@ + replaced(
                    s@.skip(i + p@.len()),
                    p@,
                    with@,
                ));
                assert(before + (with@ + replaced(s@.skip(i + p@.len()), p@, with@)) =~= out@
                    + s@.subrange(i + p@.len(), i + p@.len()) + replaced(
                    s@.skip(i + p@.len()),
                    p@,
                    with@,
                ));
            }
            i += p.len();
            start = i;
        } else {
            proof {
                assert(rest.drop_first() =~= s@.skip(i + 1));
                assert(rest[0] == s@[i as int]);
                assert(replaced(rest, p@, with@) == seq![s@[i as int]] + replaced(
                    s@.skip(i + 1),
                    p@,
                    with@,
                ));
                assert(before + (seq![s@[i as int]] + replaced(s@.skip(i + 1), p@, with@)) =~= out@
                    + s@.subrange(start as int, i + 1) + replaced(s@.skip(i + 1), p@, with@));
            }
            i += 1;
        }
    }
    out.append(text.substring_char(start, s.len()));
    proof {
        assert(s@.skip(s@.len() as int) =~= Seq::<char>::empty());
        assert(out@ =~= replaced(s@, p@, with@));
    }
    out
}

/// `s` without the slashes at its start.
pub open spec fn without_leading_slashes(s: Seq<char>) -> Seq<char>
    decreases s.len(),
{
    if s.len() > 0 && s[0] == '/' {
        without_leading_slashes(s.drop_first())
    } else {
        s
    }
}

/// Takes the slashes off the start of a path.
pub fn strip_leading_slashes(path: &str) -> (r: &str)
    ensures
        r@ == without_leading_slashes(path@),
{
    let s = chars_of(path);
    let mut i: usize = 0;
    proof {
        assert(s@.skip(0) =~= s@);
    }
    while i < s.len() && s[i] == '/'
        invariant
            s@ == path@,
            i <= s@.len(),
            without_leading_slashes(s@) == without_leading_slashes(s@.skip(i as int)),
        decreases s@.len() - i,
    {
        proof {
            assert(s@.skip(i as int).drop_first() =~= s@.skip(i + 1));
        }
        i += 1;
    }
    proof {
        let rest = s@.skip(i as int);
        assert(without_leading_slashes(rest) == rest);
        assert(rest =~= path@.subrange(i as int, s@.len() as int));
    }
    path.substring_char(i, s.len())
}

// ---------------------------------------------------------------------------
// Laws
// ---------------------------------------------------------------------------

/// White space is what Unicode gives the property `White_Space`.
pub proof fn white_space_is_that_of_unicode(c: char)
    ensures
        is_white_space(c) <==> seq![
            '\t',
            '\n',
            '\u{b}',
            '\u{c}',
            '\r',
            ' ',
            '\u{85}',
            '\u{a0}',
            '\u{1680}',
            '\u{2000}',
            '\u{2001}',
            '\u{2002}',
            '\u{2003}',
            '\u{2004}',
            '\u{2005}',
            '\u{2006}',
            '\u{2007}',
            '\u{2008}',
            '\u{2009}',
            '\u{200a}',
            '\u{2028}',
            '\u{2029}',
            '\u{202f}',
            '\u{205f}',
            '\u{3000}',
        ].contains(c),
{
    let all = seq![
        '\t',
        '\n',
        '\u{b}',
        '\u{c}',
        '\r',
        ' ',
        '\u{85}',
        '\u{a0}',
        '\u{1680}',
        '\u{2000}',
        '\u{2001}',
        '\u{2002}',
        '\u{2003}',
        '\u{2004}',
        '\u{2005}',
        '\u{2006}',
        '\u{2007}',
        '\u{2008}',
        '\u{2009}',
        '\u{200a}',
        '\u{2028}',
        '\u{2029}',
        '\u{202f}',
        '\u{205f}',
        '\u{3000}',
    ];
    let n = c as int;
    assert(all.len() == 25);
    if is_white_space(c) {
        let i: int = if n <= 0xD {
            n - 9
        } else if n == 0x20 {
            5
        } else if n == 0x85 {
            6
        } else if n == 0xA0 {
            7
        } else if n == 0x1680 {
            8
        } else if n <= 0x200A {
            n - 0x2000 + 9
        } else if n == 0x2028 {
            20
        } else if n == 0x2029 {
            21
        } else if n == 0x202F {
            22
        } else if n == 0x205F {
            23
        } else {
            24
        };
        assert(all[i] == c);
    }
    if all.contains(c) {
        let i = choose|i: int| 0 <= i < all.len() && all[i] == c;
        assert(all[i] == c);
    }
}

/// Trimming takes the white space off both ends of a text, and nothing else.
pub proof fn trimming_leaves_what_stands_between(
    before: Seq<char>,
    middle: Seq<char>,
    after: Seq<char>,
)
    requires
        forall|i: int| 0 <= i < before.len() ==> is_white_space(#[trigger] before[i]),
        forall|i: int| 0 <= i < after.len() ==> is_white_space(#[trigger] after[i]),
        middle.len() > 0 ==> !is_white_space(middle[0]) && !is_white_space(
            middle[middle.len() - 1],
        ),
    ensures
        trimmed(before + middle + after) == middle,
{
    assert(before + middle + after =~= before + (middle + after));
    lemma_blank_start(before, middle + after);
    lemma_blank_end(middle, after);
    assert(trimmed_start(middle) == middle);
    assert(trimmed_end(middle) == middle);
}

/// A pattern occurs in a text where the text is something, the pattern, and
/// something more.
pub proof fn patterns_occur_between_two_parts(s: Seq<char>, pattern: Seq<char>)
    ensures
        occurs_in(s, pattern) <==> exists|a: Seq<char>, b: Seq<char>|
            s == #[trigger] (a + pattern + b),
{
    if occurs_in(s, pattern) {
        let i = choose|i: int| occurs_at(s, pattern, i);
        let a = s.take(i);
        let b = s.skip(i + pattern.len());
        assert forall|k: int| 0 <= k < pattern.len() implies s[i + k] == pattern[k] by {
            assert(s.subrange(i, i + pattern.len())[k] == s[i + k]);
        }
        assert(s =~= a + pattern + b);
    }
    if exists|a: Seq<char>, b: Seq<char>| s == #[trigger] (a + pattern + b) {
        let (a, b) = choose|a: Seq<char>, b: Seq<char>| s == #[trigger] (a + pattern + b);
        assert(s.subrange(a.len() as int, (a.len() + pattern.len()) as int) =~= pattern);
        assert(occurs_at(s, pattern, a.len() as int));
    }
}

/// Where a pattern does not occur, nothing is replaced.
pub proof fn texts_without_the_pattern_stay(s: Seq<char>, pattern: Seq<char>, with: Seq<char>)
    requires
        pattern.len() > 0,
        forall|a: Seq<char>, b: Seq<char>| s != #[trigger] (a + pattern + b),
    ensures
        replaced(s, pattern, with) == s,
    decreases s.len(),
{
    patterns_occur_between_two_parts(s, pattern);
    if s.len() > 0 {
        assert(!occurs_at(s, pattern, 0));
        let rest = s.drop_first();
        assert forall|a: Seq<char>, b: Seq<char>| rest != #[trigger] (a + pattern + b) by {
            if rest == a + pattern + b {
                assert(s =~= seq![s[0]] + rest);
                assert(seq![s[0]] + (a + pattern + b) =~= (seq![s[0]] + a) + pattern + b);
            }
        }
        texts_without_the_pattern_stay(rest, pattern, with);
        assert(seq![s[0]] + rest =~= s);
    }
}

/// The first occurrence of a pattern is replaced, what stands before it stays,
/// and it goes on in the same way behind it.
pub proof fn the_first_occurrence_is_replaced(
    before: Seq<char>,
    pattern: Seq<char>,
    after: Seq<char>,
    with: Seq<char>,
)
    requires
        pattern.len() > 0,
        forall|i: int|
            0 <= i < before.len() ==> #[trigger] (before + pattern + after).subrange(
                i,
                i + pattern.len(),
            ) != pattern,
    ensures
        replaced(before + pattern + after, pattern, with) == before + with + replaced(
            after,
            pattern,
            with,
        ),
    decreases before.len(),
{
    let s = before + pattern + after;
    if before.len() == 0 {
        assert(s.subrange(0, pattern.len() as int) =~= pattern);
        assert(s.skip(pattern.len() as int) =~= after);
        assert(before + with + replaced(after, pattern, with) =~= with + replaced(
            after,
            pattern,
            with,
        ));
    } else {
        let rest = before.drop_first();
        assert(s.subrange(0int, 0int + pattern.len()) != pattern);
        assert(!occurs_at(s, pattern, 0));
        assert(s.drop_first() =~= rest + pattern + after);
        assert forall|i: int| 0 <= i < rest.len() implies #[trigger] (rest + pattern
            + after).subrange(i, i + pattern.len()) != pattern by {
            assert(s.subrange(i + 1, i + 1 + pattern.len()) != pattern);
            assert((rest + pattern + after).subrange(i, i + pattern.len()) =~= s.subrange(
                i + 1,
                i + 1 + pattern.len(),
            ));
        }
        the_first_occurrence_is_replaced(rest, pattern, after, with);
        assert(seq![s[0]] + (rest + with + replaced(after, pattern, with)) =~= before + with
            + replaced(after, pattern, with));
    }
}

/// All slashes at the start of a path are taken off, and nothing else.
pub proof fn leading_slashes_are_taken_off(slashes: Seq<char>, path: Seq<char>)
    requires
        forall|i: int| 0 <= i < slashes.len() ==> #[trigger] slashes[i] == '/',
        path.len() > 0 ==> path[0] != '/',
    ensures
        without_leading_slashes(slashes + path) == path,
    decreases slashes.len(),
{
    if slashes.len() == 0 {
        assert(slashes + path =~= path);
    } else {
        assert(slashes[0] == '/');
        assert((slashes + path).drop_first() =~= slashes.drop_first() + path);
        leading_slashes_are_taken_off(slashes.drop_first(), path);
    }
}

/// The texts of strings are theirs, one for one.
pub proof fn texts_are_those_of_the_strings(strings: Seq<String>, s: String, slice: &str)
    ensures
        texts(strings).len() == strings.len(),
        forall|i: int| 0 <= i < strings.len() ==> #[trigger] texts(strings)[i] == strings[i]@,
        opt_text(Some(s)) == Some(s@),
        opt_text(None) is None,
        opt_str(Some(slice)) == Some(slice@),
        opt_str(None) is None,
{
}

} // verus!
