//! Text as sequences of characters: the vocabulary that the contracts of the
//! other modules are written in, and the functions that compute it.

use vstd::prelude::*;
use vstd::string::*;

verus! {

/// `String::push` appends one character.
pub assume_specification[ String::push ](text: &mut String, c: char)
    ensures
        final(text)@ == old(text)@.push(c),
;

/// The characters with the Unicode property `White_Space`.
pub open spec fn is_whitespace(c: char) -> bool {
    let n = c as u32;
    ||| 0x09 <= n <= 0x0d
    ||| n == 0x20
    ||| n == 0x85
    ||| n == 0xa0
    ||| n == 0x1680
    ||| 0x2000 <= n <= 0x200a
    ||| n == 0x2028
    ||| n == 0x2029
    ||| n == 0x202f
    ||| n == 0x205f
    ||| n == 0x3000
}

/// `s` without its leading white space.
pub open spec fn trimmed_start(s: Seq<char>) -> Seq<char>
    decreases s.len(),
{
    if s.len() > 0 && is_whitespace(s.first()) {
        trimmed_start(s.drop_first())
    } else {
        s
    }
}

/// `s` without its trailing white space.
pub open spec fn trimmed_end(s: Seq<char>) -> Seq<char>
    decreases s.len(),
{
    if s.len() > 0 && is_whitespace(s.last()) {
        trimmed_end(s.drop_last())
    } else {
        s
    }
}

/// `s` without white space at either end.
pub open spec fn trimmed(s: Seq<char>) -> Seq<char> {
    trimmed_end(trimmed_start(s))
}

/// The ASCII letters and digits.
pub open spec fn is_ascii_alphanumeric(c: char) -> bool {
    ||| '0' <= c <= '9'
    ||| 'a' <= c <= 'z'
    ||| 'A' <= c <= 'Z'
}

/// `s` with a dash in place of every character that is no ASCII letter or digit.
pub open spec fn dashed(s: Seq<char>) -> Seq<char> {
    s.map_values(|c: char| if is_ascii_alphanumeric(c) { c } else { '-' })
}

/// `part` occurs in `s`.
pub open spec fn contains_text(s: Seq<char>, part: Seq<char>) -> bool {
    exists|i: int| #[trigger] occurs_at(s, part, i)
}

/// `part` occurs in `s` at position `i`.
pub open spec fn occurs_at(s: Seq<char>, part: Seq<char>, i: int) -> bool {
    &&& 0 <= i
    &&& i + part.len() <= s.len()
    &&& s.subrange(i, i + part.len()) == part
}

/// The two sides of the last `c` in `s`, if there is one.
pub open spec fn split_at_last(s: Seq<char>, c: char) -> Option<(Seq<char>, Seq<char>)>
    decreases s.len(),
{
    if s.len() == 0 {
        None
    } else if s.last() == c {
        Some((s.drop_last(), Seq::empty()))
    } else {
        match split_at_last(s.drop_last(), c) {
            Some((left, right)) => Some((left, right.push(s.last()))),
            None => None,
        }
    }
}

/// The pieces of `s` between the occurrences of `c`.
pub open spec fn split(s: Seq<char>, c: char) -> Seq<Seq<char>>
    decreases s.len(),
{
    if s.len() == 0 {
        seq![Seq::empty()]
    } else if s.last() == c {
        split(s.drop_last(), c).push(Seq::empty())
    } else {
        let before = split(s.drop_last(), c);
        before.drop_last().push(before.last().push(s.last()))
    }
}

/// `parts` one after the other, with `separator` between two of them.
pub open spec fn joined(parts: Seq<Seq<char>>, separator: Seq<char>) -> Seq<char>
    decreases parts.len(),
{
    if parts.len() == 0 {
        Seq::empty()
    } else if parts.len() == 1 {
        parts[0]
    } else {
        joined(parts.drop_last(), separator) + separator + parts.last()
    }
}

/// `s` followed by as many spaces as bring it to `width` characters.
pub open spec fn padded(s: Seq<char>, width: nat) -> Seq<char> {
    if s.len() < width {
        s + Seq::new((width - s.len()) as nat, |i: int| ' ')
    } else {
        s
    }
}

/// The model of a result: that of its value, or that of its error.
pub open spec fn outcome<T: DeepView, E: DeepView>(result: Result<T, E>) -> Result<T::V, E::V> {
    match result {
        Ok(value) => Ok(value.deep_view()),
        Err(error) => Err(error.deep_view()),
    }
}

/// The characters of `s`.
pub fn chars_of(s: &str) -> (chars: Vec<char>)
    ensures
        chars@ == s@,
{
    let mut chars: Vec<char> = Vec::new();
    for c in it: s.chars()
        invariant
            it.seq() == s@,
            chars@ == s@.take(it.index() as int),
    {
        proof {
            assert(s@.take(it.index() as int).push(c) == s@.take(it.index() as int + 1));
        }
        chars.push(c);
    }
    proof {
        assert(s@.take(s@.len() as int) == s@);
    }
    chars
}

/// The text made of `chars[from..to]`.
pub fn text_of(chars: &Vec<char>, from: usize, to: usize) -> (text: String)
    requires
        from <= to <= chars@.len(),
    ensures
        text@ == chars@.subrange(from as int, to as int),
{
    let mut text = String::new();
    let mut i: usize = from;
    while i < to
        invariant
            from <= i <= to <= chars@.len(),
            text@ == chars@.subrange(from as int, i as int),
        decreases to - i,
    {
        proof {
            assert(chars@.subrange(from as int, i as int).push(chars@[i as int])
                == chars@.subrange(from as int, i + 1));
        }
        text.push(chars[i]);
        i = i + 1;
    }
    text
}

/// Whether `c` is white space.
pub fn whitespace(c: char) -> (yes: bool)
    ensures
        yes == is_whitespace(c),
{
    let n: u32 = c as u32;
    (0x09 <= n && n <= 0x0d) || n == 0x20 || n == 0x85 || n == 0xa0 || n == 0x1680 || (0x2000 <= n
        && n <= 0x200a) || n == 0x2028 || n == 0x2029 || n == 0x202f || n == 0x205f || n == 0x3000
}

/// Whether `c` is an ASCII letter or digit.
pub fn ascii_alphanumeric(c: char) -> (yes: bool)
    ensures
        yes == is_ascii_alphanumeric(c),
{
    ('0' <= c && c <= '9') || ('a' <= c && c <= 'z') || ('A' <= c && c <= 'Z')
}

/// `value` without white space at either end.
pub fn trim(value: &str) -> (text: String)
    ensures
        text@ == trimmed(value@),
{
    let chars = chars_of(value);
    let mut from: usize = 0;
    proof {
        assert(chars@.skip(0) == value@);
    }
    while from < chars.len() && whitespace(chars[from])
        invariant
            from <= chars@.len(),
            chars@ == value@,
            trimmed_start(value@) == trimmed_start(chars@.skip(from as int)),
        decreases chars@.len() - from,
    {
        proof {
            let rest = chars@.skip(from as int);
            assert(rest.drop_first() == chars@.skip(from + 1));
        }
        from = from + 1;
    }
    let ghost start = chars@.skip(from as int);
    proof {
        assert(trimmed_start(start) == start);
        assert(start == chars@.subrange(from as int, chars@.len() as int));
    }
    let mut to: usize = chars.len();
    while to > from && whitespace(chars[to - 1])
        invariant
            from <= to <= chars@.len(),
            chars@ == value@,
            trimmed_end(start) == trimmed_end(chars@.subrange(from as int, to as int)),
        decreases to,
    {
        proof {
            let rest = chars@.subrange(from as int, to as int);
            assert(rest.last() == chars@[to - 1]);
            assert(rest.drop_last() == chars@.subrange(from as int, to - 1));
        }
        to = to - 1;
    }
    proof {
        let rest = chars@.subrange(from as int, to as int);
        assert(to > from ==> rest.last() == chars@[to - 1]);
        assert(trimmed_end(rest) == rest);
    }
    text_of(&chars, from, to)
}

/// `value` with a dash for every character that is no ASCII letter or digit.
pub fn dash(value: &str) -> (text: String)
    ensures
        text@ == dashed(value@),
{
    let chars = chars_of(value);
    let mut text = String::new();
    let mut i: usize = 0;
    while i < chars.len()
        invariant
            i <= chars@.len(),
            chars@ == value@,
            text@ == dashed(value@).take(i as int),
        decreases chars@.len() - i,
    {
        let c = chars[i];
        let shown = if ascii_alphanumeric(c) {
            c
        } else {
            '-'
        };
        proof {
            assert(dashed(value@)[i as int] == shown);
            assert(dashed(value@).take(i as int).push(shown) == dashed(value@).take(i + 1));
        }
        text.push(shown);
        i = i + 1;
    }
    proof {
        assert(dashed(value@).take(i as int) == dashed(value@));
    }
    text
}

/// Whether `c` occurs in `value`.
pub fn has_char(value: &str, c: char) -> (yes: bool)
    ensures
        yes == value@.contains(c),
{
    let chars = chars_of(value);
    let mut i: usize = 0;
    while i < chars.len()
        invariant
            i <= chars@.len(),
            chars@ == value@,
            forall|j: int| 0 <= j < i ==> chars@[j] != c,
        decreases chars@.len() - i,
    {
        if chars[i] == c {
            return true;
        }
        i = i + 1;
    }
    false
}

/// Whether `part` occurs in `value`.
pub fn has_text(value: &str, part: &str) -> (yes: bool)
    ensures
        yes == contains_text(value@, part@),
{
    let chars = chars_of(value);
    let wanted = chars_of(part);
    if wanted.len() > chars.len() {
        return false;
    }
    let last: usize = chars.len() - wanted.len();
    let mut i: usize = 0;
    while i <= last
        invariant
            chars@ == value@,
            wanted@ == part@,
            last == chars@.len() - wanted@.len(),
            i <= last + 1,
            chars@.len() <= usize::MAX,
            forall|j: int| 0 <= j < i ==> !#[trigger] occurs_at(value@, part@, j),
        decreases last + 1 - i,
    {
        let mut k: usize = 0;
        while k < wanted.len() && chars[i + k] == wanted[k]
            invariant
                chars@ == value@,
                wanted@ == part@,
                last == chars@.len() - wanted@.len(),
                i <= last,
                k <= wanted@.len(),
                chars@.len() <= usize::MAX,
                forall|j: int| 0 <= j < k ==> chars@[i + j] == #[trigger] wanted@[j],
            decreases wanted@.len() - k,
        {
            k = k + 1;
        }
        if k == wanted.len() {
            proof {
                assert(value@.subrange(i as int, i + part@.len()) == part@);
                assert(occurs_at(value@, part@, i as int));
            }
            return true;
        }
        proof {
            assert(value@.subrange(i as int, i + part@.len())[k as int] != part@[k as int]);
            assert(!occurs_at(value@, part@, i as int));
        }
        if i == last {
            return false;
        }
        i = i + 1;
    }
    false
}

/// What `split_at_last` gives is the text around the last `c`: nothing after it holds `c`.
pub proof fn lemma_split_at_last(s: Seq<char>, c: char, i: int)
    requires
        0 <= i < s.len(),
        s[i] == c,
        forall|j: int| i < j < s.len() ==> s[j] != c,
    ensures
        split_at_last(s, c) == Some((s.take(i), s.skip(i + 1))),
    decreases s.len(),
{
    if i == s.len() - 1 {
        assert(s.drop_last() == s.take(i));
        assert(s.skip(i + 1) == Seq::<char>::empty());
    } else {
        lemma_split_at_last(s.drop_last(), c, i);
        assert(s.drop_last().take(i) == s.take(i));
        assert(s.drop_last().skip(i + 1).push(s.last()) == s.skip(i + 1));
    }
}

/// A text without `c` has no last `c`.
pub proof fn lemma_split_at_last_none(s: Seq<char>, c: char)
    requires
        !s.contains(c),
    ensures
        split_at_last(s, c) is None,
    decreases s.len(),
{
    if s.len() > 0 {
        assert(s.contains(s.last()));
        assert(!s.drop_last().contains(c)) by {
            assert forall|j: int| 0 <= j < s.len() - 1 implies s.drop_last()[j] != c by {
                assert(s.contains(s[j]));
            }
        }
        lemma_split_at_last_none(s.drop_last(), c);
    }
}

/// The two sides of the last `c` in `value`, if there is one.
pub fn rsplit_once(value: &str, c: char) -> (sides: Option<(String, String)>)
    ensures
        match sides {
            Some((left, right)) => split_at_last(value@, c) == Some((left@, right@)),
            None => split_at_last(value@, c) is None,
        },
{
    let chars = chars_of(value);
    let mut i: usize = chars.len();
    while i > 0
        invariant
            i <= chars@.len(),
            chars@ == value@,
            forall|j: int| i <= j < chars@.len() ==> chars@[j] != c,
        decreases i,
    {
        i = i - 1;
        if chars[i] == c {
            proof {
                lemma_split_at_last(value@, c, i as int);
                assert(value@.take(i as int) == value@.subrange(0, i as int));
                assert(value@.skip(i + 1) == value@.subrange(i + 1, value@.len() as int));
            }
            return Some((text_of(&chars, 0, i), text_of(&chars, i + 1, chars.len())));
        }
    }
    proof {
        assert(!value@.contains(c));
        lemma_split_at_last_none(value@, c);
    }
    None
}

/// The pieces of `value` between the occurrences of `c`.
pub fn split_text(value: &str, c: char) -> (parts: Vec<String>)
    ensures
        parts.deep_view() == split(value@, c),
{
    let chars = chars_of(value);
    let mut parts: Vec<String> = Vec::new();
    let mut piece = String::new();
    let mut i: usize = 0;
    proof {
        assert(value@.take(0) == Seq::<char>::empty());
        assert(parts.deep_view().push(piece@) == split(value@.take(0), c));
    }
    while i < chars.len()
        invariant
            i <= chars@.len(),
            chars@ == value@,
            parts.deep_view().push(piece@) == split(value@.take(i as int), c),
        decreases chars@.len() - i,
    {
        let ghost before = parts.deep_view();
        let ghost last = piece@;
        let ghost next = value@.take(i + 1);
        proof {
            assert(next.drop_last() == value@.take(i as int));
            assert(next.last() == chars@[i as int]);
            assert(before.push(last).drop_last() == before);
        }
        if chars[i] == c {
            parts.push(piece);
            piece = String::new();
            proof {
                assert(parts.deep_view() == before.push(last));
                assert(piece@ == Seq::<char>::empty());
            }
        } else {
            piece.push(chars[i]);
        }
        i = i + 1;
    }
    let ghost before = parts.deep_view();
    parts.push(piece);
    proof {
        assert(value@.take(i as int) == value@);
        assert(parts.deep_view() == before.push(piece@));
    }
    parts
}

/// There is always a piece, and there are no more than the characters can part.
pub proof fn lemma_split_len(s: Seq<char>, c: char)
    ensures
        0 < split(s, c).len() <= s.len() + 1,
    decreases s.len(),
{
    if s.len() > 0 {
        lemma_split_len(s.drop_last(), c);
    }
}

/// The pieces of a text, put together again around what they were split at, are the text.
pub proof fn joining_undoes_splitting(s: Seq<char>, c: char)
    ensures
        joined(split(s, c), seq![c]) == s,
    decreases s.len(),
{
    let parts = split(s, c);
    if s.len() > 0 {
        let before = split(s.drop_last(), c);
        joining_undoes_splitting(s.drop_last(), c);
        lemma_split_len(s.drop_last(), c);
        if s.last() == c {
            assert(parts.drop_last() == before);
            assert(joined(parts, seq![c]) == s.drop_last() + seq![c] + Seq::<char>::empty());
        } else {
            assert(parts.drop_last() == before.drop_last());
            if before.len() > 1 {
                let front = joined(before.drop_last(), seq![c]) + seq![c];
                assert(s.drop_last() == front + before.last());
                assert(joined(parts, seq![c]) == front + before.last().push(s.last()));
            }
        }
        assert(s == s.drop_last().push(s.last()));
    }
}

/// Whether two texts hold the same characters.
pub fn same_text(a: &str, b: &str) -> (same: bool)
    ensures
        same == (a@ == b@),
{
    a.to_owned() == b.to_owned()
}

/// `value` with spaces behind it up to `width` characters.
pub fn pad(value: &str, width: usize) -> (text: String)
    ensures
        text@ == padded(value@, width as nat),
{
    let mut text = value.to_owned();
    let mut n: usize = value.unicode_len();
    while n < width
        invariant
            value@.len() <= n,
            n <= width || n == value@.len(),
            n == text@.len(),
            text@ == value@ + Seq::new((n - value@.len()) as nat, |i: int| ' '),
        decreases width - n,
    {
        proof {
            let spaces = Seq::new((n - value@.len()) as nat, |i: int| ' ');
            assert((value@ + spaces).push(' ') == value@ + Seq::new(
                (n + 1 - value@.len()) as nat,
                |i: int| ' ',
            ));
        }
        text.push(' ');
        n = n + 1;
    }
    proof {
        assert(value@.len() >= width ==> text@ == value@);
    }
    text
}

/// `count` times the character `c`.
pub fn repeat(c: char, count: usize) -> (text: String)
    ensures
        text@ == Seq::new(count as nat, |i: int| c),
{
    let mut text = String::new();
    let mut n: usize = 0;
    while n < count
        invariant
            n <= count,
            text@ == Seq::new(n as nat, |i: int| c),
        decreases count - n,
    {
        text.push(c);
        n = n + 1;
    }
    text
}

/// `parts` with `separator` between them.
pub fn join(parts: &Vec<String>, separator: &str) -> (text: String)
    ensures
        text@ == joined(parts.deep_view(), separator@),
{
    let mut text = String::new();
    let mut i: usize = 0;
    while i < parts.len()
        invariant
            i <= parts@.len(),
            text@ == joined(parts.deep_view().take(i as int), separator@),
        decreases parts@.len() - i,
    {
        proof {
            assert(parts.deep_view().take(i + 1).drop_last() == parts.deep_view().take(i as int));
            assert(parts.deep_view().take(i + 1).last() == parts@[i as int]@);
        }
        if i > 0 {
            text.append(separator);
        }
        text.append(parts[i].as_str());
        i = i + 1;
    }
    proof {
        assert(parts.deep_view().take(i as int) == parts.deep_view());
    }
    text
}

/// One text after the other.
pub fn concat2(a: &str, b: &str) -> (text: String)
    ensures
        text@ == a@ + b@,
{
    a.to_owned().concat(b)
}

/// Three texts in a row.
pub fn concat3(a: &str, b: &str, c: &str) -> (text: String)
    ensures
        text@ == a@ + b@ + c@,
{
    a.to_owned().concat(b).concat(c)
}

/// Four texts in a row.
pub fn concat4(a: &str, b: &str, c: &str, d: &str) -> (text: String)
    ensures
        text@ == a@ + b@ + c@ + d@,
{
    a.to_owned().concat(b).concat(c).concat(d)
}

/// `s` is made of white space alone.
pub open spec fn blank(s: Seq<char>) -> bool {
    forall|i: int| 0 <= i < s.len() ==> is_whitespace(#[trigger] s[i])
}

/// White space is what Unicode says: of the ASCII characters the blank and those from the tab to
/// the carriage return, and no letter, digit or other visible one.
pub proof fn ascii_white_space(c: char)
    requires
        (c as u32) < 128,
    ensures
        is_whitespace(c) <==> c == ' ' || c == '\t' || c == '\n' || c == '\r' || c as u32 == 11
            || c as u32 == 12,
{
}

/// Beyond ASCII, white space is the next line, the spaces that do not break, the spaces of the
/// different widths, the two separators, and the ideographic space.
pub proof fn wide_white_space(c: char)
    requires
        c as u32 >= 128,
    ensures
        is_whitespace(c) <==> c as u32 == 133 || c as u32 == 160 || c as u32 == 5760 || 8192 <= c
            as u32 <= 8202 || c as u32 == 8232 || c as u32 == 8233 || c as u32 == 8239 || c as u32
            == 8287 || c as u32 == 12288,
{
}

/// What is taken off the front of a text is white space.
proof fn lemma_start_is_tail(s: Seq<char>)
    ensures
        exists|before: Seq<char>| #[trigger] (before + trimmed_start(s)) == s && blank(before),
        trimmed_start(s).len() > 0 ==> !is_whitespace(trimmed_start(s).first()),
    decreases s.len(),
{
    if s.len() > 0 && is_whitespace(s.first()) {
        lemma_start_is_tail(s.drop_first());
        let rest = choose|before: Seq<char>| #[trigger]
            (before + trimmed_start(s.drop_first())) == s.drop_first() && blank(before);
        let before = seq![s.first()] + rest;
        assert(s =~= seq![s.first()] + s.drop_first());
        assert(before + trimmed_start(s) =~= seq![s.first()] + (rest + trimmed_start(
            s.drop_first(),
        )));
        assert forall|i: int| 0 <= i < before.len() implies is_whitespace(#[trigger] before[i]) by {
            if i > 0 {
                assert(before[i] == rest[i - 1]);
            }
        }
    } else {
        assert(Seq::<char>::empty() + trimmed_start(s) =~= s);
    }
}

/// What is taken off the end of a text is white space.
proof fn lemma_end_is_head(s: Seq<char>)
    ensures
        exists|after: Seq<char>| #[trigger] (trimmed_end(s) + after) == s && blank(after),
        trimmed_end(s).len() > 0 ==> !is_whitespace(trimmed_end(s).last()),
    decreases s.len(),
{
    if s.len() > 0 && is_whitespace(s.last()) {
        lemma_end_is_head(s.drop_last());
        let rest = choose|after: Seq<char>| #[trigger]
            (trimmed_end(s.drop_last()) + after) == s.drop_last() && blank(after);
        let after = rest.push(s.last());
        assert(s =~= s.drop_last().push(s.last()));
        assert(trimmed_end(s) + after =~= (trimmed_end(s.drop_last()) + rest).push(s.last()));
        assert forall|i: int| 0 <= i < after.len() implies is_whitespace(#[trigger] after[i]) by {
            if i < rest.len() {
                assert(after[i] == rest[i]);
            }
        }
    } else {
        assert(trimmed_end(s) + Seq::<char>::empty() =~= s);
    }
}

/// Trimming takes white space off both ends, and nothing else: what is left stands in the text
/// between white space, and neither begins nor ends with it.
pub proof fn trimming_takes_margins_off(s: Seq<char>)
    ensures
        exists|before: Seq<char>, after: Seq<char>|
            #[trigger] (before + trimmed(s) + after) == s && blank(before) && blank(after),
        trimmed(s).len() > 0 ==> !is_whitespace(trimmed(s).first()) && !is_whitespace(
            trimmed(s).last(),
        ),
{
    lemma_start_is_tail(s);
    let left = trimmed_start(s);
    lemma_end_is_head(left);
    let before = choose|before: Seq<char>| #[trigger] (before + left) == s && blank(before);
    let after = choose|after: Seq<char>| #[trigger]
        (trimmed_end(left) + after) == left && blank(after);
    assert(before + trimmed(s) + after =~= s);
    if trimmed(s).len() > 0 {
        assert(left[0] == trimmed(s)[0]);
    }
}

/// A dash stands for each character that is no ASCII letter or digit, and the others stay.
pub proof fn dashes_stand_for_the_rest(s: Seq<char>)
    ensures
        dashed(s).len() == s.len(),
        forall|i: int|
            0 <= i < s.len() ==> #[trigger] dashed(s)[i] == (if 'a' <= s[i] <= 'z' || 'A' <= s[i]
                <= 'Z' || '0' <= s[i] <= '9' {
                s[i]
            } else {
                '-'
            }),
{
}

/// A text occurs in another that has it between two others, and in no other.
pub proof fn occurrence_is_a_middle(s: Seq<char>, part: Seq<char>)
    ensures
        contains_text(s, part) <==> exists|before: Seq<char>, after: Seq<char>|
            #[trigger] (before + part + after) == s,
{
    if contains_text(s, part) {
        let i = choose|i: int| #[trigger] occurs_at(s, part, i);
        assert(s.take(i) + part + s.skip(i + part.len()) =~= s);
    }
    if exists|before: Seq<char>, after: Seq<char>| #[trigger] (before + part + after) == s {
        let (before, after) = choose|before: Seq<char>, after: Seq<char>|
            #[trigger] (before + part + after) == s;
        assert(s.subrange(before.len() as int, before.len() as int + part.len()) =~= part);
        assert(occurs_at(s, part, before.len() as int));
    }
}

/// A text that is split at the last of a character falls into what stands before and behind it,
/// and it does not occur behind it.
pub proof fn last_split_is_exact(s: Seq<char>, c: char)
    ensures
        match split_at_last(s, c) {
            Some((left, right)) => s == left + seq![c] + right && !right.contains(c),
            None => !s.contains(c),
        },
    decreases s.len(),
{
    if s.len() > 0 && s.last() != c {
        last_split_is_exact(s.drop_last(), c);
        match split_at_last(s.drop_last(), c) {
            Some((left, right)) => {
                assert(s =~= s.drop_last().push(s.last()));
                assert(left + seq![c] + right.push(s.last()) =~= (left + seq![c] + right).push(
                    s.last(),
                ));
                assert forall|i: int| 0 <= i < right.len() + 1 implies right.push(s.last())[i]
                    != c by {
                    if i < right.len() {
                        assert(right.contains(right[i]));
                    }
                }
            },
            None => {
                assert forall|i: int| 0 <= i < s.len() implies s[i] != c by {
                    if i < s.len() - 1 {
                        assert(s.drop_last().contains(s.drop_last()[i]));
                    }
                }
            },
        }
    } else if s.len() > 0 {
        assert(s =~= s.drop_last() + seq![c] + Seq::<char>::empty());
    }
}

/// No piece of a split text holds the character that it was split at.
pub proof fn pieces_are_whole(s: Seq<char>, c: char, i: int)
    requires
        0 <= i < split(s, c).len(),
    ensures
        !split(s, c)[i].contains(c),
    decreases s.len(),
{
    if s.len() > 0 {
        let before = split(s.drop_last(), c);
        lemma_split_len(s.drop_last(), c);
        if i < before.len() {
            pieces_are_whole(s.drop_last(), c, i);
        }
        if s.last() != c && i == before.len() - 1 {
            let piece = before.last().push(s.last());
            assert forall|j: int| 0 <= j < piece.len() implies piece[j] != c by {
                if j < piece.len() - 1 {
                    assert(before[i].contains(before[i][j]));
                }
            }
        }
    }
}

/// A part more is joined behind the separator, and a part alone without one.
pub proof fn parts_are_joined_by_separators(
    parts: Seq<Seq<char>>,
    part: Seq<char>,
    separator: Seq<char>,
)
    ensures
        joined(Seq::empty(), separator) == Seq::<char>::empty(),
        joined(seq![part], separator) == part,
        parts.len() > 0 ==> joined(parts.push(part), separator) == joined(parts, separator)
            + separator + part,
{
    assert(parts.push(part).drop_last() =~= parts);
}

/// A text is brought to a width by blanks behind it, and is never cut.
pub proof fn padding_is_behind(s: Seq<char>, width: nat)
    ensures
        padded(s, width).len() == (if s.len() >= width {
            s.len()
        } else {
            width
        }),
        padded(s, width).take(s.len() as int) == s,
        forall|i: int| s.len() <= i < padded(s, width).len() ==> #[trigger] padded(s, width)[i]
            == ' ',
{
    assert(padded(s, width).take(s.len() as int) =~= s);
}

} // verus!
