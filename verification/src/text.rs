//! Text handling: comparison, trimming, splitting, joining and decimal numbers.
use vstd::prelude::*;

verus! {

/// Lexicographic order by code point: `a` comes before `b`.
pub open spec fn before(a: Seq<char>, b: Seq<char>) -> bool
    decreases a.len(),
{
    if b.len() == 0 {
        false
    } else if a.len() == 0 {
        true
    } else if a[0] == b[0] {
        before(a.drop_first(), b.drop_first())
    } else {
        a[0] < b[0]
    }
}

/// No text comes before itself.
pub proof fn before_is_irreflexive(a: Seq<char>)
    ensures
        !before(a, a),
    decreases a.len(),
{
    if a.len() > 0 {
        before_is_irreflexive(a.drop_first());
    }
}

/// The order is transitive.
pub proof fn before_is_transitive(a: Seq<char>, b: Seq<char>, c: Seq<char>)
    requires
        before(a, b),
        before(b, c),
    ensures
        before(a, c),
    decreases a.len(),
{
    if a.len() > 0 && a[0] == b[0] && b[0] == c[0] {
        before_is_transitive(a.drop_first(), b.drop_first(), c.drop_first());
    }
}

/// Of two different texts, one comes before the other.
pub proof fn before_is_total(a: Seq<char>, b: Seq<char>)
    ensures
        before(a, b) || a == b || before(b, a),
    decreases a.len(),
{
    if a.len() > 0 && b.len() > 0 && a[0] == b[0] {
        before_is_total(a.drop_first(), b.drop_first());
        if a.drop_first() == b.drop_first() {
            assert(a =~= seq![a[0]] + a.drop_first());
            assert(b =~= seq![b[0]] + b.drop_first());
        }
    } else if a.len() == 0 && b.len() == 0 {
        assert(a =~= b);
    }
}

/// How one text stands to another in lexicographic order.
#[derive(Clone, Copy, Debug, PartialEq, Eq, Structural)]
pub enum Standing {
    Before,
    Same,
    After,
}

/// The code points of a text.
pub fn characters(text: &str) -> (chars: Vec<char>)
    ensures
        chars@ == text@,
{
    let mut chars: Vec<char> = Vec::new();
    for c in iter: text.chars()
        invariant
            iter.seq() == text@,
            chars@ == text@.take(iter.index() as int),
    {
        chars.push(c);
    }
    assert(text@.take(text@.len() as int) =~= text@);
    chars
}

/// Compares two texts code point by code point.
pub fn compare(a: &str, b: &str) -> (standing: Standing)
    ensures
        match standing {
            Standing::Before => before(a@, b@) && a@ != b@,
            Standing::Same => a@ == b@,
            Standing::After => before(b@, a@) && a@ != b@,
        },
{
    let left = characters(a);
    let right = characters(b);
    let mut i: usize = 0;
    proof {
        assert(left@.skip(0) =~= left@);
        assert(right@.skip(0) =~= right@);
    }
    while i < left.len() && i < right.len()
        invariant
            left@ == a@,
            right@ == b@,
            i <= left.len(),
            i <= right.len(),
            left@.take(i as int) =~= right@.take(i as int),
            before(a@, b@) == before(left@.skip(i as int), right@.skip(i as int)),
            before(b@, a@) == before(right@.skip(i as int), left@.skip(i as int)),
        decreases left.len() - i,
    {
        let x = left[i];
        let y = right[i];
        if x != y {
            if x < y {
                return Standing::Before;
            } else {
                return Standing::After;
            }
        }
        proof {
            assert(left@.skip(i as int).drop_first() =~= left@.skip(i + 1));
            assert(right@.skip(i as int).drop_first() =~= right@.skip(i + 1));
            assert(left@.take(i + 1) =~= left@.take(i as int).push(x));
            assert(right@.take(i + 1) =~= right@.take(i as int).push(x));
        }
        i += 1;
    }
    if i < left.len() {
        Standing::After
    } else if i < right.len() {
        Standing::Before
    } else {
        proof {
            assert(left@.take(i as int) =~= left@);
            assert(right@.take(i as int) =~= right@);
        }
        Standing::Same
    }
}

/// Whether two texts are the same.
pub fn same(a: &str, b: &str) -> (equal: bool)
    ensures
        equal == (a@ == b@),
{
    match compare(a, b) {
        Standing::Same => true,
        _ => false,
    }
}

/// Copies an optional text.
pub fn copy_text(text: &Option<String>) -> (copy: Option<String>)
    ensures
        copy.deep_view() == text.deep_view(),
{
    match text {
        Some(known) => Some(known.clone()),
        None => None,
    }
}

/// What a list of texts says.
pub open spec fn texts(parts: Seq<String>) -> Seq<Seq<char>> {
    parts.map_values(|part: String| part@)
}

/// Texts one after the other, with a separator between neighbours.
pub open spec fn joined(parts: Seq<Seq<char>>, separator: Seq<char>) -> Seq<char>
    decreases parts.len(),
{
    if parts.len() == 0 {
        Seq::empty()
    } else if parts.len() == 1 {
        parts[0]
    } else {
        joined(parts.drop_last(), separator) + separator + parts.last()
    }
}

/// Puts texts one after the other, with a separator between neighbours.
pub fn join(parts: &Vec<String>, separator: &str) -> (whole: String)
    ensures
        whole@ == joined(texts(parts@), separator@),
{
    let mut whole = String::new();
    let ghost all = texts(parts@);
    for i in 0..parts.len()
        invariant
            all == texts(parts@),
            whole@ == joined(all.take(i as int), separator@),
    {
        if i > 0 {
            whole.append(separator);
        }
        whole.append(parts[i].as_str());
        proof {
            assert(all.take(i + 1).drop_last() =~= all.take(i as int));
            assert(all.take(i + 1).last() == parts@[i as int]@);
            if i == 0 {
                assert(whole@ =~= parts@[0]@);
            }
        }
    }
    assert(all.take(parts@.len() as int) =~= all);
    whole
}

/// A text without the given character at its end.
pub open spec fn without_trailing(text: Seq<char>, c: char) -> Seq<char>
    decreases text.len(),
{
    if text.len() > 0 && text.last() == c {
        without_trailing(text.drop_last(), c)
    } else {
        text
    }
}

/// Cuts every `c` off the end of a text.
pub fn trim_end(text: &str, c: char) -> (rest: &str)
    ensures
        rest@ == without_trailing(text@, c),
{
    let chars = characters(text);
    let mut end: usize = chars.len();
    assert(text@.take(end as int) =~= text@);
    while end > 0 && chars[end - 1] == c
        invariant
            chars@ == text@,
            end <= chars.len(),
            without_trailing(text@, c) == without_trailing(text@.take(end as int), c),
        decreases end,
    {
        assert(text@.take(end as int).drop_last() =~= text@.take(end - 1));
        end -= 1;
    }
    assert(text@.take(end as int) =~= text@.subrange(0, end as int));
    text.substring_char(0, end)
}

/// Whether a character is white space by the Unicode property of that name.
pub open spec fn is_white_space(c: char) -> bool {
    ||| '\u{9}' <= c <= '\u{d}'
    ||| c == ' '
    ||| c == '\u{85}'
    ||| c == '\u{a0}'
    ||| c == '\u{1680}'
    ||| '\u{2000}' <= c <= '\u{200a}'
    ||| c == '\u{2028}'
    ||| c == '\u{2029}'
    ||| c == '\u{202f}'
    ||| c == '\u{205f}'
    ||| c == '\u{3000}'
}

fn white_space(c: char) -> (white: bool)
    ensures
        white == is_white_space(c),
{
    (c >= '\u{9}' && c <= '\u{d}') || c == ' ' || c == '\u{85}' || c == '\u{a0}' || c == '\u{1680}'
        || (c >= '\u{2000}' && c <= '\u{200a}') || c == '\u{2028}' || c == '\u{2029}'
        || c == '\u{202f}' || c == '\u{205f}' || c == '\u{3000}'
}

/// A text without white space at its start.
pub open spec fn trimmed_start(text: Seq<char>) -> Seq<char>
    decreases text.len(),
{
    if text.len() > 0 && is_white_space(text[0]) {
        trimmed_start(text.drop_first())
    } else {
        text
    }
}

/// A text without white space at its end.
pub open spec fn trimmed_end(text: Seq<char>) -> Seq<char>
    decreases text.len(),
{
    if text.len() > 0 && is_white_space(text.last()) {
        trimmed_end(text.drop_last())
    } else {
        text
    }
}

/// A text without white space at its ends.
pub open spec fn trimmed(text: Seq<char>) -> Seq<char> {
    trimmed_end(trimmed_start(text))
}

/// Cuts white space off both ends of a text.
pub fn trim(text: &str) -> (rest: &str)
    ensures
        rest@ == trimmed(text@),
{
    let chars = characters(text);
    let mut start: usize = 0;
    assert(text@.skip(0) =~= text@);
    while start < chars.len() && white_space(chars[start])
        invariant
            chars@ == text@,
            start <= chars.len(),
            trimmed_start(text@) == trimmed_start(text@.skip(start as int)),
        decreases chars.len() - start,
    {
        assert(text@.skip(start as int).drop_first() =~= text@.skip(start + 1));
        start += 1;
    }
    let mut end: usize = chars.len();
    let ghost middle = text@.skip(start as int);
    assert(trimmed_start(text@) == middle);
    assert(text@.subrange(start as int, end as int) =~= middle);
    while end > start && white_space(chars[end - 1])
        invariant
            chars@ == text@,
            start <= end <= chars.len(),
            trimmed_end(middle) == trimmed_end(text@.subrange(start as int, end as int)),
        decreases end,
    {
        assert(text@.subrange(start as int, end as int).drop_last() =~= text@.subrange(
            start as int,
            end - 1,
        ));
        end -= 1;
    }
    text.substring_char(start, end)
}

/// The parts of a text before and after the first `c`, which belongs to neither.
pub open spec fn halves(text: Seq<char>, c: char) -> Option<(Seq<char>, Seq<char>)> {
    match text.index_of_first(c) {
        Some(at) => Some((text.take(at), text.skip(at + 1))),
        None => None,
    }
}

/// Splits a text at the first `c`, which belongs to neither part.
pub fn split_once<'a>(text: &'a str, c: char) -> (parts: Option<(&'a str, &'a str)>)
    ensures
        match parts {
            Some((head, tail)) => halves(text@, c) == Some((head@, tail@)),
            None => halves(text@, c) is None,
        },
{
    let chars = characters(text);
    let mut at: usize = 0;
    proof {
        text@.index_of_first_ensures(c);
    }
    while at < chars.len()
        invariant
            chars@ == text@,
            at <= chars.len(),
            forall|i: int| 0 <= i < at ==> text@[i] != c,
        decreases chars.len() - at,
    {
        if chars[at] == c {
            let head = text.substring_char(0, at);
            let tail = text.substring_char(at + 1, chars.len());
            proof {
                text@.index_of_first_ensures(c);
                assert(text@.contains(text@[at as int]));
                assert(head@ =~= text@.take(at as int));
                assert(tail@ =~= text@.skip(at + 1));
            }
            return Some((head, tail));
        }
        at += 1;
    }
    None
}

/// The decimal digit of a number below ten.
pub open spec fn digit(n: nat) -> char {
    (('0' as nat) + n % 10) as char
}

/// A number in decimal, without leading zeros.
pub open spec fn decimal(n: nat) -> Seq<char>
    decreases n,
{
    if n < 10 {
        seq![digit(n)]
    } else {
        decimal(n / 10).push(digit(n % 10))
    }
}

fn digit_text(n: u64) -> (text: &'static str)
    requires
        n < 10,
    ensures
        text@ == seq![digit(n as nat)],
{
    proof {
        reveal_strlit("0");
        reveal_strlit("1");
        reveal_strlit("2");
        reveal_strlit("3");
        reveal_strlit("4");
        reveal_strlit("5");
        reveal_strlit("6");
        reveal_strlit("7");
        reveal_strlit("8");
        reveal_strlit("9");
    }
    let text = match n {
        0 => "0",
        1 => "1",
        2 => "2",
        3 => "3",
        4 => "4",
        5 => "5",
        6 => "6",
        7 => "7",
        8 => "8",
        _ => "9",
    };
    assert(text@ =~= seq![digit(n as nat)]);
    text
}

/// Writes a number in decimal.
pub fn to_decimal(n: u64) -> (text: String)
    ensures
        text@ == decimal(n as nat),
    decreases n,
{
    if n < 10 {
        digit_text(n).to_owned()
    } else {
        let text = to_decimal(n / 10).concat(digit_text(n % 10));
        assert(text@ =~= decimal(n as nat));
        text
    }
}

/// One text comes before another exactly where the first place at which they differ has the
/// smaller character, or where it is a shorter beginning of the other.
pub proof fn before_is_by_first_difference(a: Seq<char>, b: Seq<char>)
    ensures
        before(a, b) <==> exists|i: int|
            0 <= i <= a.len() && i < b.len() && #[trigger] a.take(i) == b.take(i) && (i == a.len()
                || a[i] < b[i]),
    decreases a.len(),
{
    if before(a, b) {
        if a.len() == 0 || a[0] != b[0] {
            assert(a.take(0) =~= b.take(0));
        } else {
            let x = a.drop_first();
            let y = b.drop_first();
            before_is_by_first_difference(x, y);
            let i = choose|i: int|
                0 <= i <= x.len() && i < y.len() && #[trigger] x.take(i) == y.take(i) && (i
                    == x.len() || x[i] < y[i]);
            assert(a.take(i + 1) =~= seq![a[0]] + x.take(i));
            assert(b.take(i + 1) =~= seq![b[0]] + y.take(i));
        }
    }
    if exists|i: int|
        0 <= i <= a.len() && i < b.len() && #[trigger] a.take(i) == b.take(i) && (i == a.len()
            || a[i] < b[i]) {
        let i = choose|i: int|
            0 <= i <= a.len() && i < b.len() && #[trigger] a.take(i) == b.take(i) && (i == a.len()
                || a[i] < b[i]);
        if i > 0 {
            assert(a.take(i)[0] == b.take(i)[0]);
            let x = a.drop_first();
            let y = b.drop_first();
            assert(x.take(i - 1) =~= a.take(i).drop_first());
            assert(y.take(i - 1) =~= b.take(i).drop_first());
            before_is_by_first_difference(x, y);
        }
    }
}

/// What is left of a text without the characters at its end does not end with one, and is
/// followed by nothing else in the text.
pub proof fn only_trailing_characters_are_cut(text: Seq<char>, c: char)
    ensures
        ({
            let rest = without_trailing(text, c);
            &&& rest.len() <= text.len()
            &&& rest == text.take(rest.len() as int)
            &&& rest.len() > 0 ==> rest.last() != c
            &&& forall|i: int| rest.len() <= i < text.len() ==> text[i] == c
        }),
    decreases text.len(),
{
    if text.len() > 0 && text.last() == c {
        let shorter = text.drop_last();
        only_trailing_characters_are_cut(shorter, c);
        let rest = without_trailing(text, c);
        assert(rest =~= text.take(rest.len() as int));
        assert forall|i: int| rest.len() <= i < text.len() implies text[i] == c by {
            if i < shorter.len() {
                assert(shorter[i] == c);
            }
        }
    } else {
        assert(text.take(text.len() as int) =~= text);
    }
}

proof fn lemma_trimmed_start(text: Seq<char>)
    ensures
        ({
            let rest = trimmed_start(text);
            let cut = text.len() - rest.len();
            &&& 0 <= cut
            &&& rest == text.skip(cut)
            &&& rest.len() > 0 ==> !is_white_space(rest[0])
            &&& forall|i: int| 0 <= i < cut ==> is_white_space(#[trigger] text[i])
        }),
    decreases text.len(),
{
    if text.len() > 0 && is_white_space(text[0]) {
        let shorter = text.drop_first();
        lemma_trimmed_start(shorter);
        let rest = trimmed_start(text);
        let cut = text.len() - rest.len();
        assert(rest =~= text.skip(cut));
        assert forall|i: int| 0 <= i < cut implies is_white_space(#[trigger] text[i]) by {
            if i > 0 {
                assert(shorter[i - 1] == text[i]);
            }
        }
    } else {
        assert(text.skip(0) =~= text);
    }
}

proof fn lemma_trimmed_end(text: Seq<char>)
    ensures
        ({
            let rest = trimmed_end(text);
            &&& rest.len() <= text.len()
            &&& rest == text.take(rest.len() as int)
            &&& rest.len() > 0 ==> !is_white_space(rest.last())
            &&& forall|i: int| rest.len() <= i < text.len() ==> is_white_space(#[trigger] text[i])
        }),
    decreases text.len(),
{
    if text.len() > 0 && is_white_space(text.last()) {
        let shorter = text.drop_last();
        lemma_trimmed_end(shorter);
        let rest = trimmed_end(text);
        assert(rest =~= text.take(rest.len() as int));
        assert forall|i: int| rest.len() <= i < text.len() implies is_white_space(
            #[trigger] text[i],
        ) by {
            if i < shorter.len() {
                assert(shorter[i] == text[i]);
            }
        }
    } else {
        assert(text.take(text.len() as int) =~= text);
    }
}

/// A trimmed text has no white space at its ends, and nothing but white space was cut off.
pub proof fn only_white_space_is_trimmed(text: Seq<char>)
    ensures
        ({
            let rest = trimmed(text);
            &&& rest.len() > 0 ==> !is_white_space(rest[0]) && !is_white_space(rest.last())
            &&& exists|from: int|
                0 <= from && from + rest.len() <= text.len() && rest == #[trigger] text.subrange(
                    from,
                    from + rest.len(),
                ) && (forall|i: int| 0 <= i < from ==> is_white_space(#[trigger] text[i])) && (
                forall|i: int|
                    from + rest.len() <= i < text.len() ==> is_white_space(#[trigger] text[i]))
        }),
{
    lemma_trimmed_start(text);
    let middle = trimmed_start(text);
    lemma_trimmed_end(middle);
    let rest = trimmed(text);
    let from = text.len() - middle.len();
    assert(rest =~= text.subrange(from, from + rest.len()));
    assert forall|i: int| from + rest.len() <= i < text.len() implies is_white_space(
        #[trigger] text[i],
    ) by {
        assert(middle[i - from] == text[i]);
    }
}

/// White space is the tabulator, the line and page ends and the space; beyond ASCII it is the
/// next line, and the spaces and separators of other scripts. No letter, digit or mark is.
pub proof fn white_space_is_that_of_unicode(c: char)
    ensures
        c < '\u{80}' ==> (is_white_space(c) <==> c == ' ' || c == '\t' || c == '\n' || c == '\r' || c
            == '\u{b}' || c == '\u{c}'),
        c >= '\u{80}' ==> (is_white_space(c) <==> c == '\u{85}' || c == '\u{a0}' || c == '\u{1680}'
            || c == '\u{2000}' || c == '\u{2001}' || c == '\u{2002}' || c == '\u{2003}' || c
            == '\u{2004}' || c == '\u{2005}' || c == '\u{2006}' || c == '\u{2007}' || c == '\u{2008}'
            || c == '\u{2009}' || c == '\u{200a}' || c == '\u{2028}' || c == '\u{2029}' || c
            == '\u{202f}' || c == '\u{205f}' || c == '\u{3000}'),
{
}

/// A text is split at the first separator: what is before it has none, and the three parts are
/// the text.
pub proof fn halves_make_up_the_text(text: Seq<char>, c: char)
    ensures
        match halves(text, c) {
            Some((head, tail)) => !head.contains(c) && text == head + seq![c] + tail,
            None => !text.contains(c),
        },
{
    text.index_of_first_ensures(c);
    if let Some((head, tail)) = halves(text, c) {
        assert(text =~= head + seq![c] + tail);
    }
}

/// Joining puts the separator between neighbours: a text behind others comes after a separator,
/// and the first does not.
pub proof fn joining_separates_neighbours(
    parts: Seq<Seq<char>>,
    part: Seq<char>,
    separator: Seq<char>,
)
    ensures
        joined(seq![part], separator) == part,
        parts.len() > 0 ==> joined(parts.push(part), separator) == joined(parts, separator)
            + separator + part,
{
    assert(parts.push(part).drop_last() =~= parts);
}

/// The number that decimal digits stand for.
pub open spec fn number_of(digits: Seq<char>) -> nat
    decreases digits.len(),
{
    if digits.len() == 0 {
        0
    } else {
        10 * number_of(digits.drop_last()) + (digits.last() as nat - '0' as nat) as nat
    }
}

/// A number in decimal stands for that number, with digits alone and without a leading zero.
pub proof fn decimals_stand_for_their_number(n: nat)
    ensures
        number_of(decimal(n)) == n,
        decimal(n).len() > 0,
        n > 0 ==> decimal(n)[0] != '0',
        forall|i: int| 0 <= i < decimal(n).len() ==> '0' <= #[trigger] decimal(n)[i] <= '9',
    decreases n,
{
    reveal_with_fuel(number_of, 2);
    if n >= 10 {
        decimals_stand_for_their_number(n / 10);
        assert(decimal(n).drop_last() =~= decimal(n / 10));
    } else {
        assert(decimal(n).drop_last() =~= Seq::empty());
    }
}

}
