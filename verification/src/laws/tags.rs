//! Laws of the templates that are supported.

use vstd::prelude::*;

use crate::template::is_supported_template;

verus! {

use crate::template::{closes_at, comment_end, comment_end_is_ahead, first_word, opens_at,
    plain_tag, shallow_from, skip_spaces, supported_at, tag_end, word_char};
use crate::text::occurs_at;

/// Letters, digits, the underscore and the space.
pub open spec fn plain_char(c: char) -> bool {
    ||| 'a' <= c <= 'z'
    ||| 'A' <= c <= 'Z'
    ||| '0' <= c <= '9'
    ||| c == '_'
    ||| c == ' '
}

/// Whether two characters stand at a position, one behind the other.
pub open spec fn pair_at(text: Seq<char>, at: int, first: char, second: char) -> bool {
    0 <= at && at + 1 < text.len() && text[at] == first && text[at + 1] == second
}

/// Whether the tag at `at` is closed, and holds no more than 256 characters, all of them plain but
/// for a dash at either end.
pub open spec fn well_formed_tag(text: Seq<char>, at: int, closer: char) -> bool {
    exists|end: int|
        {
            &&& at + 2 <= end <= at + 258
            &&& #[trigger] pair_at(text, end, closer, '}')
            &&& forall|k: int|
                at + 2 <= k < end ==> plain_char(#[trigger] text[k]) || text[k] == '-' && (k == at + 2
                    || k == end - 1)
        }
}

/// Whether the tag at `at` begins with `word`, but for a dash and spaces before it.
pub open spec fn begins_with(text: Seq<char>, at: int, word: Seq<char>) -> bool {
    exists|w: int|
        {
            &&& at + 2 <= w
            &&& #[trigger] occurs_at(word, text, w)
            &&& forall|k: int|
                at + 2 <= k < w ==> #[trigger] text[k] == ' ' || k == at + 2 && text[k] == '-'
        }
}

/// Whether the tags at a position, if there are any, are those of a supported template.
pub open spec fn tags_are_fine(text: Seq<char>, at: int) -> bool {
    &&& pair_at(text, at, '{', '{') ==> well_formed_tag(text, at, '}')
    &&& pair_at(text, at, '{', '%') ==> {
        &&& well_formed_tag(text, at, '%')
        &&& {
            ||| begins_with(text, at, "if "@)
            ||| begins_with(text, at, "elif "@)
            ||| begins_with(text, at, "else"@)
            ||| begins_with(text, at, "endif"@)
        }
    }
}

/// How many tags of conditionals begin from position `from` on.
pub open spec fn tags_from(text: Seq<char>, from: int) -> nat
    decreases text.len() - from,
{
    if !(0 <= from < text.len()) {
        0
    } else if pair_at(text, from, '{', '%') {
        1 + tags_from(text, from + 1)
    } else {
        tags_from(text, from + 1)
    }
}

proof fn pair_is_pattern(text: Seq<char>, at: int, first: char, second: char, pattern: Seq<char>)
    requires
        pattern.len() == 2,
        pattern[0] == first,
        pattern[1] == second,
    ensures
        occurs_at(pattern, text, at) <==> pair_at(text, at, first, second),
{
    if 0 <= at && at + 2 <= text.len() {
        let part = text.subrange(at, at + 2);
        assert(part[0] == text[at] && part[1] == text[at + 1]);
        if pair_at(text, at, first, second) {
            assert(part =~= pattern);
        }
    }
}

proof fn tag_end_holds(text: Seq<char>, from: int)
    requires
        0 <= from <= text.len(),
    ensures
        from <= tag_end(text, from) <= text.len(),
        forall|k: int|
            from <= k < tag_end(text, from) ==> word_char(#[trigger] text[k]) || text[k] == '-',
    decreases text.len() - from,
{
    if from < text.len() && (word_char(text[from]) || text[from] == '-') {
        tag_end_holds(text, from + 1);
    }
}

proof fn tag_end_is(text: Seq<char>, from: int, end: int)
    requires
        0 <= from <= end < text.len(),
        forall|k: int| from <= k < end ==> word_char(#[trigger] text[k]) || text[k] == '-',
        !word_char(text[end]) && text[end] != '-',
    ensures
        tag_end(text, from) == end,
    decreases end - from,
{
    if from < end {
        tag_end_is(text, from + 1, end);
    }
}

proof fn plain_tag_is_well_formed(text: Seq<char>, at: int, closer: char, pattern: Seq<char>)
    requires
        0 <= at,
        at + 2 <= text.len(),
        closer == '}' || closer == '%',
        pattern.len() == 2,
        pattern[0] == closer,
        pattern[1] == '}',
    ensures
        plain_tag(text, at + 2, pattern) <==> well_formed_tag(text, at, closer),
{
    if plain_tag(text, at + 2, pattern) {
        let end = tag_end(text, at + 2);
        tag_end_holds(text, at + 2);
        pair_is_pattern(text, end, closer, '}', pattern);
        assert(pair_at(text, end, closer, '}'));
        assert forall|k: int| at + 2 <= k < end implies plain_char(#[trigger] text[k]) || text[k] == '-'
            && (k == at + 2 || k == end - 1) by {}
    }
    if well_formed_tag(text, at, closer) {
        let end = choose|end: int|
            {
                &&& at + 2 <= end <= at + 258
                &&& #[trigger] pair_at(text, end, closer, '}')
                &&& forall|k: int|
                    at + 2 <= k < end ==> plain_char(#[trigger] text[k]) || text[k] == '-' && (k == at
                        + 2 || k == end - 1)
            };
        tag_end_is(text, at + 2, end);
        pair_is_pattern(text, end, closer, '}', pattern);
    }
}

proof fn skip_spaces_holds(text: Seq<char>, from: int)
    requires
        0 <= from,
    ensures
        from <= skip_spaces(text, from),
        forall|k: int| from <= k < skip_spaces(text, from) ==> #[trigger] text[k] == ' ',
    decreases text.len() - from,
{
    if from < text.len() && text[from] == ' ' {
        skip_spaces_holds(text, from + 1);
    }
}

proof fn skip_spaces_is(text: Seq<char>, from: int, to: int)
    requires
        0 <= from <= to < text.len(),
        forall|k: int| from <= k < to ==> #[trigger] text[k] == ' ',
        text[to] != ' ',
    ensures
        skip_spaces(text, from) == to,
    decreases to - from,
{
    if from < to {
        skip_spaces_is(text, from + 1, to);
    }
}

proof fn first_word_begins(text: Seq<char>, at: int, word: Seq<char>)
    requires
        0 <= at,
        at + 2 <= text.len(),
        word.len() > 0,
        word[0] != ' ' && word[0] != '-',
    ensures
        occurs_at(word, text, first_word(text, at + 2)) <==> begins_with(text, at, word),
{
    reveal_strlit("-");
    let from = at + 2;
    assert(occurs_at("-"@, text, from) <==> from < text.len() && text[from] == '-') by {
        if from < text.len() {
            assert(text.subrange(from, from + 1)[0] == text[from]);
            if text[from] == '-' {
                assert(text.subrange(from, from + 1) =~= "-"@);
            }
        }
    }
    if occurs_at(word, text, first_word(text, from)) {
        let w = first_word(text, from);
        skip_spaces_holds(text, from);
        skip_spaces_holds(text, from + 1);
        assert(begins_with(text, at, word));
    }
    if begins_with(text, at, word) {
        let w = choose|w: int|
            {
                &&& at + 2 <= w
                &&& #[trigger] occurs_at(word, text, w)
                &&& forall|k: int|
                    at + 2 <= k < w ==> #[trigger] text[k] == ' ' || k == at + 2 && text[k] == '-'
            };
        assert(text.subrange(w, w + word.len())[0] == text[w]);
        if text[from] == '-' {
            skip_spaces_is(text, from + 1, w);
        } else {
            skip_spaces_is(text, from, w);
        }
    }
}

proof fn supported_tags_are_fine(text: Seq<char>, at: int)
    requires
        0 <= at < text.len(),
    ensures
        supported_at(text, at) <==> tags_are_fine(text, at),
        opens_at(text, at) <==> pair_at(text, at, '{', '%') && begins_with(text, at, "if "@),
        closes_at(text, at) <==> pair_at(text, at, '{', '%') && begins_with(text, at, "endif"@),
{
    reveal_strlit("{{");
    reveal_strlit("{%");
    reveal_strlit("}}");
    reveal_strlit("%}");
    reveal_strlit("if ");
    reveal_strlit("elif ");
    reveal_strlit("else");
    reveal_strlit("endif");
    pair_is_pattern(text, at, '{', '{', "{{"@);
    pair_is_pattern(text, at, '{', '%', "{%"@);
    if at + 2 <= text.len() {
        plain_tag_is_well_formed(text, at, '}', "}}"@);
        plain_tag_is_well_formed(text, at, '%', "%}"@);
        first_word_begins(text, at, "if "@);
        first_word_begins(text, at, "elif "@);
        first_word_begins(text, at, "else"@);
        first_word_begins(text, at, "endif"@);
    }
}

proof fn tags_from_shrinks(text: Seq<char>, from: int, to: int)
    requires
        0 <= from <= to,
    ensures
        tags_from(text, to) <= tags_from(text, from),
    decreases to - from,
{
    if from < to {
        tags_from_shrinks(text, from + 1, to);
    }
}

proof fn few_tags_are_shallow(text: Seq<char>, from: int, depth: int)
    requires
        0 <= from,
        0 <= depth,
        depth + tags_from(text, from) <= 32,
    ensures
        shallow_from(text, from, depth),
    decreases text.len() - from,
{
    if from < text.len() {
        reveal_strlit("{#");
        reveal_strlit("{%");
        pair_is_pattern(text, from, '{', '%', "{%"@);
        if occurs_at("{#"@, text, from) {
            let behind = comment_end(text, from + 2);
            comment_end_is_ahead(text, from + 2);
            tags_from_shrinks(text, from, behind);
            few_tags_are_shallow(text, behind, depth);
        } else if opens_at(text, from) {
            few_tags_are_shallow(text, from + 1, depth + 1);
        } else if closes_at(text, from) && depth > 0 {
            few_tags_are_shallow(text, from + 1, depth - 1);
        } else {
            few_tags_are_shallow(text, from + 1, depth);
        }
    }
}

/// Every tag of a supported template is fine, and a template with fine tags, of which no more than
/// 32 belong to conditionals, is supported. Text without tags is supported whatever it holds.
pub proof fn law_supported_tags(template: &str, yes: bool)
    requires
        call_ensures(is_supported_template, (template,), yes),
    ensures
        yes ==> forall|at: int| 0 <= at < template@.len() ==> #[trigger] tags_are_fine(template@, at),
        tags_from(template@, 0) <= 32 && (forall|at: int|
            0 <= at < template@.len() ==> #[trigger] tags_are_fine(template@, at)) ==> yes,
{
    let text = template@;
    assert forall|at: int| 0 <= at < text.len() implies (#[trigger] supported_at(text, at)
        <==> tags_are_fine(text, at)) by {
        supported_tags_are_fine(text, at);
    }
    if yes {
        assert forall|at: int| 0 <= at < text.len() implies #[trigger] tags_are_fine(text, at) by {
            assert(supported_at(text, at));
        }
    }
    if tags_from(text, 0) <= 32 && (forall|at: int|
        0 <= at < text.len() ==> #[trigger] tags_are_fine(text, at)) {
        assert forall|at: int| 0 <= at < text.len() implies #[trigger] supported_at(text, at) by {
            assert(tags_are_fine(text, at));
        }
        few_tags_are_shallow(text, 0, 0);
    }
}

/// How many conditionals are open before position `to`, where a template has no comments.
pub open spec fn open_before(text: Seq<char>, to: int) -> int
    decreases to,
{
    if to <= 0 {
        0
    } else {
        let before = open_before(text, to - 1);
        if pair_at(text, to - 1, '{', '%') && begins_with(text, to - 1, "if "@) {
            before + 1
        } else if pair_at(text, to - 1, '{', '%') && begins_with(text, to - 1, "endif"@) && before > 0 {
            before - 1
        } else {
            before
        }
    }
}

proof fn shallow_is_bounded(text: Seq<char>, from: int)
    requires
        0 <= from <= text.len(),
        open_before(text, from) <= 32,
        forall|k: int| 0 <= k < text.len() ==> !#[trigger] pair_at(text, k, '{', '#'),
    ensures
        shallow_from(text, from, open_before(text, from)) <==> forall|to: int|
            from <= to <= text.len() ==> #[trigger] open_before(text, to) <= 32,
    decreases text.len() - from,
{
    if from < text.len() {
        reveal_strlit("{#");
        pair_is_pattern(text, from, '{', '#', "{#"@);
        assert(!pair_at(text, from, '{', '#'));
        supported_tags_are_fine(text, from);
        assert(open_before(text, from + 1) <= open_before(text, from) + 1);
        if open_before(text, from + 1) <= 32 {
            shallow_is_bounded(text, from + 1);
            assert(shallow_from(text, from, open_before(text, from)) == shallow_from(
                text,
                from + 1,
                open_before(text, from + 1),
            ));
            assert forall|to: int|
                from <= to <= text.len() && (forall|t: int|
                    from + 1 <= t <= text.len() ==> #[trigger] open_before(text, t) <= 32) implies #[trigger] open_before(
                text,
                to,
            ) <= 32 by {}
        }
    }
}

/// A template without comments is supported exactly if its tags are fine, and no more than 32 of its
/// conditionals are open anywhere.
pub proof fn law_supported_without_comments(template: &str, yes: bool)
    requires
        call_ensures(is_supported_template, (template,), yes),
        forall|k: int| 0 <= k < template@.len() ==> !#[trigger] pair_at(template@, k, '{', '#'),
    ensures
        yes <==> {
            &&& forall|at: int|
                0 <= at < template@.len() ==> #[trigger] tags_are_fine(template@, at)
            &&& forall|to: int|
                0 <= to <= template@.len() ==> #[trigger] open_before(template@, to) <= 32
        },
{
    let text = template@;
    assert forall|at: int| 0 <= at < text.len() implies (#[trigger] supported_at(text, at)
        <==> tags_are_fine(text, at)) by {
        supported_tags_are_fine(text, at);
    }
    assert((forall|at: int| 0 <= at < text.len() ==> #[trigger] supported_at(text, at))
        <==> forall|at: int| 0 <= at < text.len() ==> #[trigger] tags_are_fine(text, at)) by {
        assert forall|at: int| 0 <= at < text.len() implies (#[trigger] tags_are_fine(text, at)
            <==> supported_at(text, at)) by {
            supported_tags_are_fine(text, at);
        }
    }
    shallow_is_bounded(text, 0);
}

} // verus!
