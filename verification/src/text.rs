//! Text operations that the rest of the library is built from, each stated over `Seq<char>`.

use vstd::prelude::*;

verus! {

/// `String::from` of a string slice copies it.
pub assume_specification<'a>[ <String as From<&'a str>>::from ](s: &str) -> (r: String)
    ensures
        r@ == s@,
;

/// `From` of a type for itself hands the value back.
pub assume_specification<Itself>[ <Itself as From<Itself>>::from ](t: Itself) -> (r: Itself)
    ensures
        r == t,
;

/// The contents of each string of a list.
pub open spec fn texts(list: Seq<String>) -> Seq<Seq<char>> {
    list.map_values(|s: String| s@)
}

/// The contents of an optional string.
pub open spec fn opt_text(text: Option<String>) -> Option<Seq<char>> {
    match text {
        Some(s) => Some(s@),
        None => None,
    }
}

/// A copy of an optional string.
pub fn copy_opt(text: &Option<String>) -> (copy: Option<String>)
    ensures
        copy == *text,
{
    match text {
        Some(s) => Some(s.clone()),
        None => None,
    }
}

/// The contents of an optional string, or `default` if there is none.
pub open spec fn or_default(text: Option<String>, default: Seq<char>) -> Seq<char> {
    match text {
        Some(s) => s@,
        None => default,
    }
}

/// A copy of an optional string, or of `default` if there is none.
pub fn text_or(text: &Option<String>, default: &str) -> (res: String)
    ensures
        res@ == or_default(*text, default@),
{
    match text {
        Some(s) => s.clone(),
        None => default.to_owned(),
    }
}

/// The characters of a string, in order.
pub fn chars_of(s: &str) -> (chars: Vec<char>)
    ensures
        chars@ == s@,
{
    let mut chars: Vec<char> = Vec::new();
    for c in it: s.chars()
        invariant
            chars@ == it.seq().take(it.index()),
            it.seq() == s@,
    {
        chars.push(c);
    }
    chars
}

/// Whether `pattern` stands in `text` at position `at`.
pub open spec fn occurs_at(pattern: Seq<char>, text: Seq<char>, at: int) -> bool {
    &&& 0 <= at
    &&& at + pattern.len() <= text.len()
    &&& text.subrange(at, at + pattern.len()) == pattern
}

/// Whether `pattern` stands anywhere in `text`.
pub open spec fn occurs(pattern: Seq<char>, text: Seq<char>) -> bool {
    exists|at: int| occurs_at(pattern, text, at)
}

/// Whether `pattern` stands in `text` at position `at`.
pub fn is_at(pattern: &Vec<char>, text: &Vec<char>, at: usize) -> (found: bool)
    requires
        at <= text@.len(),
    ensures
        found == occurs_at(pattern@, text@, at as int),
{
    let text_len: usize = text.len();
    if pattern.len() > text_len - at {
        return false;
    }
    let mut i: usize = 0;
    while i < pattern.len()
        invariant
            i <= pattern@.len(),
            at + pattern@.len() <= text_len,
            text_len == text@.len(),
            forall|k: int| at <= k < at + i ==> #[trigger] text@[k] == pattern@[k - at],
        decreases pattern@.len() - i,
    {
        if text[at + i] != pattern[i] {
            proof {
                assert(text@.subrange(at as int, at + pattern@.len())[i as int] == text@[at + i]);
            }
            return false;
        }
        i += 1;
    }
    proof {
        assert(text@.subrange(at as int, at + pattern@.len()) =~= pattern@);
    }
    true
}

/// Whether `pattern` stands anywhere in `text`.
pub fn contains_text(text: &str, pattern: &str) -> (found: bool)
    ensures
        found == occurs(pattern@, text@),
{
    let text_chars = chars_of(text);
    let pattern_chars = chars_of(pattern);
    let mut at: usize = 0;
    while at < text_chars.len()
        invariant
            text_chars@ == text@,
            pattern_chars@ == pattern@,
            at <= text_chars@.len(),
            forall|k: int| 0 <= k < at ==> !occurs_at(pattern_chars@, text_chars@, k),
        decreases text_chars@.len() - at,
    {
        if is_at(&pattern_chars, &text_chars, at) {
            return true;
        }
        at += 1;
    }
    is_at(&pattern_chars, &text_chars, at)
}

/// Whether the character `c` stands anywhere in `text`.
pub fn contains_char(text: &str, c: char) -> (found: bool)
    ensures
        found == text@.contains(c),
{
    let chars = chars_of(text);
    let mut i: usize = 0;
    while i < chars.len()
        invariant
            chars@ == text@,
            i <= chars@.len(),
            forall|k: int| 0 <= k < i ==> chars@[k] != c,
        decreases chars@.len() - i,
    {
        if chars[i] == c {
            return true;
        }
        i += 1;
    }
    false
}

/// The position of the first `c` at or after `from`, or the length of `text` if there is none.
pub open spec fn find_from(text: Seq<char>, c: char, from: int) -> int
    decreases text.len() - from,
{
    if 0 <= from < text.len() && text[from] != c {
        find_from(text, c, from + 1)
    } else {
        from
    }
}

/// `find_from` is the least position at or after `from` that holds `c`.
pub proof fn find_from_is_first(text: Seq<char>, c: char, from: int)
    requires
        0 <= from <= text.len(),
    ensures
        from <= find_from(text, c, from) <= text.len(),
        forall|k: int| from <= k < find_from(text, c, from) ==> text[k] != c,
        find_from(text, c, from) < text.len() ==> text[find_from(text, c, from)] == c,
    decreases text.len() - from,
{
    if from < text.len() && text[from] != c {
        find_from_is_first(text, c, from + 1);
    }
}

/// The position of the first `c` at or after `from`, or the length of `text` if there is none.
pub fn find_char(text: &Vec<char>, c: char, from: usize) -> (at: usize)
    requires
        from <= text@.len(),
    ensures
        at == find_from(text@, c, from as int),
        from <= at <= text@.len(),
{
    let mut at: usize = from;
    while at < text.len() && text[at] != c
        invariant
            from <= at <= text@.len(),
            find_from(text@, c, from as int) == find_from(text@, c, at as int),
        decreases text@.len() - at,
    {
        at += 1;
    }
    at
}

/// The characters with the Unicode property `White_Space`.
pub open spec fn white_space(c: char) -> bool {
    let code = c as u32;
    ||| 0x9 <= code <= 0xd
    ||| code == 0x20
    ||| code == 0x85
    ||| code == 0xa0
    ||| code == 0x1680
    ||| 0x2000 <= code <= 0x200a
    ||| code == 0x2028
    ||| code == 0x2029
    ||| code == 0x202f
    ||| code == 0x205f
    ||| code == 0x3000
}

/// Whether `c` has the Unicode property `White_Space`.
pub fn is_white_space(c: char) -> (yes: bool)
    ensures
        yes == white_space(c),
{
    let code = c as u32;
    (0x9 <= code && code <= 0xd) || code == 0x20 || code == 0x85 || code == 0xa0 || code == 0x1680
        || (0x2000 <= code && code <= 0x200a) || code == 0x2028 || code == 0x2029 || code == 0x202f
        || code == 0x205f || code == 0x3000
}

/// `text` without its leading white space.
pub open spec fn trim_start(text: Seq<char>) -> Seq<char>
    decreases text.len(),
{
    if text.len() > 0 && white_space(text.first()) {
        trim_start(text.drop_first())
    } else {
        text
    }
}

/// `text` without its trailing white space.
pub open spec fn trim_end(text: Seq<char>) -> Seq<char>
    decreases text.len(),
{
    if text.len() > 0 && white_space(text.last()) {
        trim_end(text.drop_last())
    } else {
        text
    }
}

/// `text` without its leading and trailing white space.
pub open spec fn trimmed(text: Seq<char>) -> Seq<char> {
    trim_end(trim_start(text))
}

/// `text` without its leading and trailing white space.
pub fn trim(text: &str) -> (res: String)
    ensures
        res@ == trimmed(text@),
{
    let chars = chars_of(text);
    let mut from: usize = 0;
    proof {
        assert(chars@.skip(0) =~= chars@);
    }
    while from < chars.len() && is_white_space(chars[from])
        invariant
            from <= chars@.len(),
            trim_start(chars@) == trim_start(chars@.skip(from as int)),
        decreases chars@.len() - from,
    {
        proof {
            assert(chars@.skip(from as int).drop_first() =~= chars@.skip(from + 1));
        }
        from += 1;
    }
    let mut to: usize = chars.len();
    proof {
        assert(chars@.subrange(from as int, to as int) =~= chars@.skip(from as int));
    }
    while from < to && is_white_space(chars[to - 1])
        invariant
            from <= to <= chars@.len(),
            trimmed(chars@) == trim_end(chars@.subrange(from as int, to as int)),
        decreases to - from,
    {
        proof {
            assert(chars@.subrange(from as int, to as int).drop_last()
                =~= chars@.subrange(from as int, to - 1));
        }
        to -= 1;
    }
    text.substring_char(from, to).to_owned()
}

/// A line without the carriage return that ends it, if one does.
pub open spec fn strip_carriage_return(line: Seq<char>) -> Seq<char> {
    if line.len() > 0 && line.last() == '\r' {
        line.drop_last()
    } else {
        line
    }
}

/// The lines of `text` from position `from` on.
///
/// A line ends at `\n` or `\r\n`, which is not part of it; the last line need not be ended.
pub open spec fn lines_from(text: Seq<char>, from: int) -> Seq<Seq<char>>
    decreases text.len() - from,
    when 0 <= from
{
    if from >= text.len() {
        Seq::empty()
    } else {
        let end = find_from(text, '\n', from);
        if from <= end < text.len() {
            seq![strip_carriage_return(text.subrange(from, end))] + lines_from(text, end + 1)
        } else {
            seq![text.skip(from)]
        }
    }
}

/// The lines of `text`.
pub open spec fn lines(text: Seq<char>) -> Seq<Seq<char>> {
    lines_from(text, 0)
}

/// The first `limit` elements of a list, or all of it if it has no more.
pub open spec fn at_most<A>(list: Seq<A>, limit: int) -> Seq<A> {
    if list.len() <= limit {
        list
    } else {
        list.take(limit)
    }
}

/// The first `limit` lines of `text`.
pub fn first_lines(text: &str, limit: usize) -> (res: Vec<String>)
    ensures
        texts(res@) == at_most(lines(text@), limit as int),
{
    let chars = chars_of(text);
    let mut res: Vec<String> = Vec::new();
    let mut from: usize = 0;
    proof {
        assert(texts(res@) =~= Seq::<Seq<char>>::empty());
        assert(texts(res@) + lines_from(text@, 0) =~= lines(text@));
    }
    while from < chars.len() && res.len() < limit
        invariant
            chars@ == text@,
            from <= chars@.len(),
            res@.len() <= limit,
            texts(res@) + lines_from(text@, from as int) == lines(text@),
        decreases chars@.len() - from,
    {
        let end = find_char(&chars, '\n', from);
        let ghost before = texts(res@);
        let ghost line = lines_from(text@, from as int)[0];
        let ghost rest = lines_from(text@, from as int).skip(1);
        let stop = if from < end && end < chars.len() && chars[end - 1] == '\r' {
            end - 1
        } else {
            end
        };
        proof {
            if end < chars@.len() {
                assert(rest =~= lines_from(text@, end + 1));
                assert(strip_carriage_return(text@.subrange(from as int, end as int))
                    =~= text@.subrange(from as int, stop as int));
            } else {
                assert(rest =~= Seq::<Seq<char>>::empty());
                assert(text@.skip(from as int) =~= text@.subrange(from as int, stop as int));
            }
        }
        res.push(text.substring_char(from, stop).to_owned());
        proof {
            assert(texts(res@) =~= before.push(line));
            assert(before + lines_from(text@, from as int) =~= before.push(line) + rest);
        }
        if end < chars.len() {
            from = end + 1;
        } else {
            from = end;
        }
    }
    proof {
        let all = texts(res@) + lines_from(text@, from as int);
        if from >= chars@.len() {
            assert(all =~= texts(res@));
        } else {
            assert(all.take(limit as int) =~= texts(res@));
            if all.len() <= limit {
                assert(all =~= texts(res@));
            }
        }
    }
    res
}

/// No line holds a line feed.
pub proof fn law_lines_are_single(text: Seq<char>, from: int, at: int)
    requires
        0 <= from,
        0 <= at < lines_from(text, from).len(),
    ensures
        !lines_from(text, from)[at].contains('\n'),
    decreases text.len() - from,
{
    let end = find_from(text, '\n', from);
    find_from_is_first(text, '\n', from);
    if end < text.len() {
        let line = strip_carriage_return(text.subrange(from, end));
        if at == 0 {
            assert forall|k: int| 0 <= k < line.len() implies line[k] != '\n' by {
                assert(line[k] == text[from + k]);
            }
        } else {
            law_lines_are_single(text, end + 1, at - 1);
        }
    } else {
        let line = text.skip(from);
        assert forall|k: int| 0 <= k < line.len() implies line[k] != '\n' by {
            assert(line[k] == text[from + k]);
        }
    }
}

} // verus!
