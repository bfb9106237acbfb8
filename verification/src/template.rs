//! Template rendering with the `tera` crate.
//!
//! Tera templates can call functions that read the clock, the environment or a random source, can
//! call themselves, and can fail in the middle of a loop. The templates that are rendered here do
//! none of that: see [`supported_template`].

use vstd::prelude::*;

use crate::text::{chars_of, is_at};
use tera::{Context, Tera};

verus! {

use crate::text::{occurs_at, trimmed};

/// A Tera instance: a collection of templates, each with a name.
#[verifier::external_type_specification]
#[verifier::external_body]
pub struct ExTera(tera::Tera);

/// A Tera context: the values that a template can refer to, each with a name.
#[verifier::external_type_specification]
#[verifier::external_body]
pub struct ExContext(tera::Context);

/// An error of the `tera` crate.
#[verifier::external_type_specification]
#[verifier::external_body]
pub struct ExTeraError(tera::Error);

/// How many characters the contents of a tag may have. Tera evaluates a condition by recursion, one
/// level for each of its terms.
pub const MAX_TAG: usize = 256;

/// How deep conditionals may be nested. Tera parses and renders them by recursion.
pub const MAX_DEPTH: usize = 32;

/// The characters of words and of the space between them.
pub open spec fn word_char(c: char) -> bool {
    ||| 'a' as int <= c as int <= 'z' as int
    ||| 'A' as int <= c as int <= 'Z' as int
    ||| '0' as int <= c as int <= '9' as int
    ||| c == '_'
    ||| c == ' '
}

/// The first position at or after `from` that holds neither a word character nor a dash.
pub open spec fn tag_end(text: Seq<char>, from: int) -> int
    decreases text.len() - from,
{
    if 0 <= from < text.len() && (word_char(text[from]) || text[from] == '-') {
        tag_end(text, from + 1)
    } else {
        from
    }
}

/// Whether the tag whose contents begin at `from` holds words only, is not too long and is closed by
/// `closer`. A dash, which trims white space, may stand at either end.
pub open spec fn plain_tag(text: Seq<char>, from: int, closer: Seq<char>) -> bool {
    let end = tag_end(text, from);
    &&& end - from <= MAX_TAG
    &&& occurs_at(closer, text, end)
    &&& forall|k: int| from < k < end - 1 ==> #[trigger] text[k] != '-'
}

/// The first position at or after `from` that does not hold a space.
pub open spec fn skip_spaces(text: Seq<char>, from: int) -> int
    decreases text.len() - from,
{
    if 0 <= from < text.len() && text[from] == ' ' {
        skip_spaces(text, from + 1)
    } else {
        from
    }
}

/// Where the first word stands in the tag whose contents begin at `from`.
pub open spec fn first_word(text: Seq<char>, from: int) -> int {
    if occurs_at("-"@, text, from) {
        skip_spaces(text, from + 1)
    } else {
        skip_spaces(text, from)
    }
}

/// Whether the tag whose contents begin at `from` is one of those that make up a conditional.
pub open spec fn conditional_tag(text: Seq<char>, from: int) -> bool {
    let word = first_word(text, from);
    ||| occurs_at("if "@, text, word)
    ||| occurs_at("elif "@, text, word)
    ||| occurs_at("else"@, text, word)
    ||| occurs_at("endif"@, text, word)
}

/// Whether the template is free of trouble at position `at`: no tag begins there, or it is a plain
/// placeholder, or it is the plain tag of a conditional.
pub open spec fn supported_at(text: Seq<char>, at: int) -> bool {
    &&& occurs_at("{{"@, text, at) ==> plain_tag(text, at + 2, "}}"@)
    &&& occurs_at("{%"@, text, at) ==> {
        &&& plain_tag(text, at + 2, "%}"@)
        &&& conditional_tag(text, at + 2)
    }
}

/// Whether a conditional begins at position `at`.
pub open spec fn opens_at(text: Seq<char>, at: int) -> bool {
    occurs_at("{%"@, text, at) && occurs_at("if "@, text, first_word(text, at + 2))
}

/// Whether a conditional ends at position `at`.
pub open spec fn closes_at(text: Seq<char>, at: int) -> bool {
    occurs_at("{%"@, text, at) && occurs_at("endif"@, text, first_word(text, at + 2))
}

/// The position behind the comment whose contents begin at `from`.
pub open spec fn comment_end(text: Seq<char>, from: int) -> int
    decreases text.len() - from,
{
    if 0 <= from < text.len() {
        if occurs_at("#}"@, text, from) {
            from + 2
        } else {
            comment_end(text, from + 1)
        }
    } else {
        from
    }
}

/// The end of a comment does not lie before its beginning.
pub proof fn comment_end_is_ahead(text: Seq<char>, from: int)
    ensures
        comment_end(text, from) >= from,
        from <= text.len() ==> comment_end(text, from) <= text.len(),
    decreases text.len() - from,
{
    reveal_strlit("#}");
    if 0 <= from < text.len() && !occurs_at("#}"@, text, from) {
        comment_end_is_ahead(text, from + 1);
    }
}

/// Whether conditionals are nested no deeper than `MAX_DEPTH` from position `from` on, where `depth`
/// of them are open. What stands in a comment does not count.
pub open spec fn shallow_from(text: Seq<char>, from: int, depth: int) -> bool
    decreases text.len() - from,
{
    if !(0 <= from < text.len()) {
        true
    } else if occurs_at("{#"@, text, from) {
        proof {
            reveal_strlit("{#");
            comment_end_is_ahead(text, from + 2);
        }
        shallow_from(text, comment_end(text, from + 2), depth)
    } else if opens_at(text, from) {
        depth < MAX_DEPTH && shallow_from(text, from + 1, depth + 1)
    } else if closes_at(text, from) && depth > 0 {
        shallow_from(text, from + 1, depth - 1)
    } else {
        shallow_from(text, from + 1, depth)
    }
}

/// Whether a template consists of text, comments, placeholders and conditionals, with a limited
/// number of words in each tag, and conditionals nested to a limited depth. Rendering such a
/// template calls no function, filter, macro or other template.
pub open spec fn supported_template(text: Seq<char>) -> bool {
    &&& forall|at: int| 0 <= at < text.len() ==> #[trigger] supported_at(text, at)
    &&& shallow_from(text, 0, 0)
}

fn is_word_char(c: char) -> (yes: bool)
    ensures
        yes == word_char(c),
{
    let code = c as u32;
    (0x61 <= code && code <= 0x7a) || (0x41 <= code && code <= 0x5a) || (0x30 <= code && code <= 0x39)
        || c == '_' || c == ' '
}

fn is_plain_tag(text: &Vec<char>, from: usize, closer: &Vec<char>) -> (yes: bool)
    requires
        from <= text@.len(),
    ensures
        yes == plain_tag(text@, from as int, closer@),
{
    let mut end: usize = from;
    while end < text.len() && (is_word_char(text[end]) || text[end] == '-')
        invariant
            from <= end <= text@.len(),
            tag_end(text@, from as int) == tag_end(text@, end as int),
        decreases text@.len() - end,
    {
        end += 1;
    }
    if end - from > MAX_TAG || !is_at(closer, text, end) {
        return false;
    }
    let mut k: usize = from;
    while k < end
        invariant
            from <= k <= end <= text@.len(),
            end == tag_end(text@, from as int),
            forall|j: int| from < j < k && j < end - 1 ==> #[trigger] text@[j] != '-',
        decreases end - k,
    {
        if from < k && k < end - 1 && text[k] == '-' {
            return false;
        }
        k += 1;
    }
    true
}

fn find_first_word(text: &Vec<char>, from: usize) -> (word: usize)
    requires
        from <= text@.len(),
    ensures
        word == first_word(text@, from as int),
        from <= word <= text@.len(),
{
    let text_len: usize = text.len();
    let mut word: usize = from;
    proof {
        reveal_strlit("-");
    }
    if is_at(&chars_of("-"), text, from) {
        word += 1;
    }
    let ghost first = word;
    while word < text_len && text[word] == ' '
        invariant
            first <= word <= text_len,
            text_len == text@.len(),
            skip_spaces(text@, first as int) == skip_spaces(text@, word as int),
        decreases text_len - word,
    {
        word += 1;
    }
    word
}

fn is_conditional_tag(text: &Vec<char>, from: usize) -> (yes: bool)
    requires
        from <= text@.len(),
    ensures
        yes == conditional_tag(text@, from as int),
{
    let word = find_first_word(text, from);
    is_at(&chars_of("if "), text, word) || is_at(&chars_of("elif "), text, word) || is_at(
        &chars_of("else"),
        text,
        word,
    ) || is_at(&chars_of("endif"), text, word)
}

fn find_comment_end(text: &Vec<char>, from: usize) -> (end: usize)
    requires
        from <= text@.len(),
    ensures
        end == comment_end(text@, from as int),
        from <= end <= text@.len(),
{
    let closer = chars_of("#}");
    proof {
        reveal_strlit("#}");
    }
    let mut at: usize = from;
    while at < text.len()
        invariant
            closer@ == "#}"@,
            "#}"@.len() == 2,
            from <= at <= text@.len(),
            comment_end(text@, from as int) == comment_end(text@, at as int),
        decreases text@.len() - at,
    {
        if is_at(&closer, text, at) {
            return at + 2;
        }
        at += 1;
    }
    at
}

fn is_shallow(text: &Vec<char>) -> (yes: bool)
    ensures
        yes == shallow_from(text@, 0, 0),
{
    let comment = chars_of("{#");
    let tag = chars_of("{%");
    let opener = chars_of("if ");
    let closer = chars_of("endif");
    proof {
        reveal_strlit("{#");
        reveal_strlit("{%");
    }
    let mut at: usize = 0;
    let mut depth: usize = 0;
    while at < text.len()
        invariant
            comment@ == "{#"@,
            tag@ == "{%"@,
            opener@ == "if "@,
            closer@ == "endif"@,
            "{#"@.len() == 2,
            "{%"@.len() == 2,
            at <= text@.len(),
            depth <= MAX_DEPTH,
            shallow_from(text@, 0, 0) == shallow_from(text@, at as int, depth as int),
        decreases text@.len() - at,
    {
        if is_at(&comment, text, at) {
            at = find_comment_end(text, at + 2);
            continue;
        }
        if is_at(&tag, text, at) {
            let word = find_first_word(text, at + 2);
            if is_at(&opener, text, word) {
                if depth >= MAX_DEPTH {
                    return false;
                }
                depth += 1;
            } else if is_at(&closer, text, word) && depth > 0 {
                depth -= 1;
            }
        }
        at += 1;
    }
    true
}

/// Whether a template consists of text, comments, placeholders and conditionals, within the limits
/// on tags and nesting.
pub fn is_supported_template(template: &str) -> (yes: bool)
    ensures
        yes == supported_template(template@),
{
    let text = chars_of(template);
    let placeholder = chars_of("{{");
    let placeholder_end = chars_of("}}");
    let tag = chars_of("{%");
    let tag_closer = chars_of("%}");
    proof {
        reveal_strlit("{{");
        reveal_strlit("{%");
    }
    let mut at: usize = 0;
    while at < text.len()
        invariant
            text@ == template@,
            placeholder@ == "{{"@,
            placeholder_end@ == "}}"@,
            tag@ == "{%"@,
            tag_closer@ == "%}"@,
            "{{"@.len() == 2,
            "{%"@.len() == 2,
            at <= text@.len(),
            forall|k: int| 0 <= k < at ==> #[trigger] supported_at(text@, k),
        decreases text@.len() - at,
    {
        if is_at(&placeholder, &text, at) && !is_plain_tag(&text, at + 2, &placeholder_end) {
            assert(!supported_at(text@, at as int));
            return false;
        }
        if is_at(&tag, &text, at) && !(is_plain_tag(&text, at + 2, &tag_closer)
            && is_conditional_tag(&text, at + 2)) {
            assert(!supported_at(text@, at as int));
            return false;
        }
        assert(supported_at(text@, at as int));
        at += 1;
    }
    is_shallow(&text)
}

/// Whether a word is the name of a value and nothing else to Tera.
pub open spec fn plain_name(word: Seq<char>) -> bool {
    &&& word.len() > 0
    &&& !('0' as int <= word[0] as int <= '9' as int)
    &&& forall|k: int| 0 <= k < word.len() ==> word_char(#[trigger] word[k]) && word[k] != ' '
    &&& !occurs_at("true"@, word, 0)
    &&& !occurs_at("false"@, word, 0)
    &&& !occurs_at("True"@, word, 0)
    &&& !occurs_at("False"@, word, 0)
    &&& word != "not"@
    &&& word != "__tera_context"@
}

/// The name in the placeholder whose contents begin at `from`.
pub open spec fn placeholder_name(text: Seq<char>, from: int) -> Seq<char> {
    trimmed(text.subrange(from, tag_end(text, from)))
}

/// Whether a template consists of text and of placeholders that hold a name each.
pub open spec fn placeholders_only(text: Seq<char>) -> bool {
    forall|at: int|
        #![trigger supported_at(text, at)]
        0 <= at < text.len() ==> {
            &&& supported_at(text, at)
            &&& !occurs_at("{%"@, text, at)
            &&& !occurs_at("{#"@, text, at)
            &&& occurs_at("{{"@, text, at) ==> plain_name(placeholder_name(text, at + 2))
        }
}

proof fn placeholders_are_shallow(text: Seq<char>, from: int, depth: int)
    requires
        placeholders_only(text),
    ensures
        shallow_from(text, from, depth),
    decreases text.len() - from,
{
    if 0 <= from < text.len() {
        assert(supported_at(text, from));
        placeholders_are_shallow(text, from + 1, depth);
    }
}

/// A template of text and placeholders is supported.
pub proof fn law_placeholders_are_supported(text: Seq<char>)
    requires
        placeholders_only(text),
    ensures
        supported_template(text),
{
    placeholders_are_shallow(text, 0, 0);
}

/// Whether Tera escapes the values of a template with this name, unless it is told otherwise.
pub open spec fn escapes(name: Seq<char>) -> bool {
    ||| occurs_at(".html"@, name, name.len() - 5)
    ||| occurs_at(".htm"@, name, name.len() - 4)
    ||| occurs_at(".xml"@, name, name.len() - 4)
}

/// The end of a tag does not lie before its beginning.
pub proof fn tag_end_is_ahead(text: Seq<char>, from: int)
    ensures
        tag_end(text, from) >= from,
    decreases text.len() - from,
{
    if 0 <= from < text.len() && (word_char(text[from]) || text[from] == '-') {
        tag_end_is_ahead(text, from + 1);
    }
}

/// A template from position `from` on, with every placeholder replaced by the value of its name;
/// `None` if a name has no value.
pub open spec fn filled_from(
    text: Seq<char>,
    entries: Map<Seq<char>, Seq<char>>,
    from: int,
) -> Option<Seq<char>>
    decreases text.len() - from,
{
    if !(0 <= from < text.len()) {
        Some(seq![])
    } else if occurs_at("{{"@, text, from) {
        proof {
            tag_end_is_ahead(text, from + 2);
        }
        let name = placeholder_name(text, from + 2);
        let next = tag_end(text, from + 2) + 2;
        let rest = if next <= text.len() {
            filled_from(text, entries, next)
        } else {
            None
        };
        if entries.contains_key(name) && rest is Some {
            Some(entries[name] + rest->0)
        } else {
            None
        }
    } else {
        match filled_from(text, entries, from + 1) {
            Some(rest) => Some(seq![text[from]] + rest),
            None => None,
        }
    }
}

/// A template with every placeholder replaced by the value of its name; `None` if a name has no
/// value.
pub open spec fn filled(text: Seq<char>, entries: Map<Seq<char>, Seq<char>>) -> Option<Seq<char>> {
    filled_from(text, entries, 0)
}

/// Text without placeholders is kept as it is.
pub proof fn law_plain_text_is_kept(text: Seq<char>, entries: Map<Seq<char>, Seq<char>>, from: int)
    requires
        0 <= from <= text.len(),
        forall|at: int| from <= at < text.len() ==> !#[trigger] occurs_at("{{"@, text, at),
    ensures
        filled_from(text, entries, from) == Some(text.skip(from)),
    decreases text.len() - from,
{
    if from < text.len() {
        law_plain_text_is_kept(text, entries, from + 1);
        assert(seq![text[from]] + text.skip(from + 1) =~= text.skip(from));
    } else {
        assert(text.skip(from) =~= Seq::<char>::empty());
    }
}

/// A template of text and placeholders can be filled in if each of its names has a value.
pub proof fn law_known_names_are_filled(
    text: Seq<char>,
    entries: Map<Seq<char>, Seq<char>>,
    from: int,
)
    requires
        0 <= from <= text.len(),
        placeholders_only(text),
        forall|at: int|
            from <= at < text.len() && #[trigger] occurs_at("{{"@, text, at)
                ==> entries.contains_key(placeholder_name(text, at + 2)),
    ensures
        filled_from(text, entries, from) is Some,
    decreases text.len() - from,
{
    if from < text.len() {
        if occurs_at("{{"@, text, from) {
            tag_end_is_ahead(text, from + 2);
            reveal_strlit("}}");
            assert(supported_at(text, from));
            law_known_names_are_filled(text, entries, tag_end(text, from + 2) + 2);
        } else {
            law_known_names_are_filled(text, entries, from + 1);
        }
    }
}

/// The templates of a Tera instance, by name.
pub uninterp spec fn template_texts(tera: tera::Tera) -> Map<Seq<char>, Seq<char>>;

/// The values of a context, by name.
pub uninterp spec fn context_entries(context: tera::Context) -> Map<Seq<char>, Seq<char>>;

/// Whether Tera can parse a supported template.
pub uninterp spec fn template_parses(text: Seq<char>) -> bool;

/// What Tera renders a template to, given its name, its text and the entries of the context, or
/// `None` if it fails. The name counts because Tera escapes the values of some file types.
pub uninterp spec fn rendered(
    name: Seq<char>,
    text: Seq<char>,
    entries: Map<Seq<char>, Seq<char>>,
) -> Option<Seq<char>>;

/// Calls `tera::Tera::default`, which makes an instance without templates.
#[verifier::external_body]
pub(crate) fn new_tera() -> (res: Tera)
    ensures
        (template_texts(res) == Map::<Seq<char>, Seq<char>>::empty()),
{
    Tera::default()
}

/// Calls `tera::Tera::add_raw_template`, which parses a template and adds it under its name. One
/// that does not parse is not added. Whether that succeeds depends on the text alone, since neither
/// this template nor those that are there refer to others. Text and placeholders always parse.
///
/// The parser refuses to go on when the stack is nearly used up, and counts its calls only if the
/// process sets a limit on them, which nothing here does. A supported template needs little of the
/// stack: its tags are short and not nested deep.
#[verifier::external_body]
pub(crate) fn add_template(tera: &mut Tera, name: &str, text: &str) -> (res: Result<(), tera::Error>)
    requires
        supported_template(text@),
        forall|other: Seq<char>| #[trigger]
            template_texts(*old(tera)).contains_key(other) ==> supported_template(
                template_texts(*old(tera))[other],
            ),
    ensures
        res is Ok <==> template_parses(text@),
        placeholders_only(text@) ==> res is Ok,
        template_texts(*final(tera)) == if res is Ok {
            template_texts(*old(tera)).insert(name@, text@)
        } else {
            template_texts(*old(tera))
        },
{
    tera.add_raw_template(name, text)
}

/// Calls `tera::Context::new`, which makes an empty context.
#[verifier::external_body]
pub(crate) fn new_context() -> (res: Context)
    ensures
        (context_entries(res) == Map::<Seq<char>, Seq<char>>::empty()),
{
    Context::new()
}

/// Calls `tera::Context::insert` with a string, which sets the value of a name.
#[verifier::external_body]
pub(crate) fn insert_text(context: &mut Context, name: &str, value: &str)
    ensures
        context_entries(*final(context)) == context_entries(*old(context)).insert(name@, value@),
{
    context.insert(name, value);
}

/// Calls `tera::Tera::render`, which renders a template of the instance. What comes out depends on
/// the name and the text of the template and on the context: a supported template has no other
/// source of values. Where the template consists of text and placeholders, and its name is not one
/// whose values are escaped, the placeholders are replaced by the values of their names, and
/// rendering fails if a name has none.
///
/// Conditions and nested conditionals are evaluated by recursion, to the small depth that a
/// supported template has.
#[verifier::external_body]
pub(crate) fn render(tera: &Tera, name: &str, context: &Context) -> (res: Result<String, tera::Error>)
    requires
        template_texts(*tera).contains_key(name@),
        supported_template(template_texts(*tera)[name@]),
    ensures
        match res {
            Ok(text) => rendered(name@, template_texts(*tera)[name@], context_entries(*context)) == Some(
                text@,
            ),
            Err(_) => rendered(name@, template_texts(*tera)[name@], context_entries(*context)) is None,
        },
        placeholders_only(template_texts(*tera)[name@]) && !escapes(name@) ==> match res {
            Ok(text) => filled(template_texts(*tera)[name@], context_entries(*context)) == Some(text@),
            Err(_) => filled(template_texts(*tera)[name@], context_entries(*context)) is None,
        },
{
    tera.render(name, context)
}

} // verus!
