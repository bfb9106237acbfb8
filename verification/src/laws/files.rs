//! Laws of the paths that are looked at, of what is found there, and of the text operations.

use vstd::prelude::*;

use crate::paths::{cloudflared_cert_path, config_path, detect_ssh_key, ssh_key_candidates};
use crate::text::{chars_of, contains_char, contains_text, copy_opt, find_char, first_lines, is_at,
    text_or, trim};

verus! {

use crate::paths::first_key;
use crate::text::{find_from, find_from_is_first, lines, lines_from, occurs, occurs_at,
    strip_carriage_return, texts, trim_end, trim_start, trimmed, white_space};

/// The configuration file is `.config/tengu/init.toml` below the home directory, with one slash
/// between the two.
pub proof fn law_config_path(home: Option<String>, path: String)
    requires
        call_ensures(config_path, (home,), path),
    ensures
        home is Some && home->0@.len() > 0 && home->0@.last() != '/' ==> path@ == home->0@
            + "/.config/tengu/init.toml"@,
        home is Some && (home->0@.len() == 0 || home->0@.last() == '/') ==> path@ == home->0@
            + ".config/tengu/init.toml"@,
        home is None ==> path@ == "./tengu/init.toml"@,
{
    reveal_strlit("/.config/tengu/init.toml");
    reveal_strlit(".config/tengu/init.toml");
    reveal_strlit("./tengu/init.toml");
    reveal_strlit(".config");
    reveal_strlit("tengu");
    reveal_strlit("init.toml");
    reveal_strlit("/");
    reveal_strlit(".");
    if home is Some {
        let dir = home->0@;
        assert(path@ =~= dir + "/.config/tengu/init.toml"@ || dir.len() == 0 || dir.last() == '/');
        assert(path@ =~= dir + ".config/tengu/init.toml"@ || dir.len() > 0 && dir.last() != '/');
    } else {
        assert(path@ =~= "./tengu/init.toml"@);
    }
}

/// The certificate of `cloudflared` is `.cloudflared/cert.pem` below the home directory, with one
/// slash between the two, or below the current one without a home.
pub proof fn law_certificate_path(home: Option<String>, path: String)
    requires
        call_ensures(cloudflared_cert_path, (home,), path),
    ensures
        home is Some && home->0@.len() > 0 && home->0@.last() != '/' ==> path@ == home->0@
            + "/.cloudflared/cert.pem"@,
        home is Some && (home->0@.len() == 0 || home->0@.last() == '/') ==> path@ == home->0@
            + ".cloudflared/cert.pem"@,
        home is None ==> path@ == ".cloudflared/cert.pem"@,
{
    reveal_strlit("/.cloudflared/cert.pem");
    reveal_strlit(".cloudflared/cert.pem");
    reveal_strlit(".cloudflared");
    reveal_strlit("cert.pem");
    reveal_strlit("/");
    reveal_strlit("");
    if home is Some {
        let dir = home->0@;
        assert(path@ =~= dir + "/.cloudflared/cert.pem"@ || dir.len() == 0 || dir.last() == '/');
        assert(path@ =~= dir + ".cloudflared/cert.pem"@ || dir.len() > 0 && dir.last() != '/');
    } else {
        assert(path@ =~= ".cloudflared/cert.pem"@);
    }
}

/// Keys are looked for in two files below the home directory, Ed25519 first, and nowhere without a
/// home.
pub proof fn law_key_candidates(home: Option<String>, paths: Vec<String>)
    requires
        call_ensures(ssh_key_candidates, (home,), paths),
    ensures
        home is None ==> paths@.len() == 0,
        home is Some ==> {
            &&& paths@.len() == 2
            &&& paths@[0]@ == home->0@ + "/.ssh/id_ed25519.pub"@
            &&& paths@[1]@ == home->0@ + "/.ssh/id_rsa.pub"@
        },
{
    let all = texts(paths@);
    assert(all.len() == paths@.len());
    assert forall|i: int| 0 <= i < all.len() implies all[i] == #[trigger] paths@[i]@ by {}
}

/// Whether a text holds white space only.
pub open spec fn blank(text: Seq<char>) -> bool {
    forall|k: int| 0 <= k < text.len() ==> white_space(#[trigger] text[k])
}

/// Whether `core` is what is left of `text` without the white space at both ends.
pub open spec fn core_of(text: Seq<char>, core: Seq<char>) -> bool {
    &&& core.len() > 0 ==> !white_space(core.first()) && !white_space(core.last())
    &&& exists|before: Seq<char>, after: Seq<char>|
        blank(before) && blank(after) && text == #[trigger] (before + core + after)
}

proof fn trim_start_cuts_white_space(text: Seq<char>)
    ensures
        exists|before: Seq<char>| blank(before) && text == #[trigger] (before + trim_start(text)),
        trim_start(text).len() > 0 ==> !white_space(trim_start(text).first()),
    decreases text.len(),
{
    if text.len() > 0 && white_space(text.first()) {
        let rest = text.drop_first();
        trim_start_cuts_white_space(rest);
        let inner = choose|before: Seq<char>|
            blank(before) && rest == #[trigger] (before + trim_start(rest));
        let before = seq![text.first()] + inner;
        assert(blank(before));
        assert(trim_start(text) == trim_start(rest));
        assert(text =~= seq![text.first()] + rest);
        assert(seq![text.first()] + (inner + trim_start(rest)) =~= before + trim_start(text));
    } else {
        let before = Seq::<char>::empty();
        assert(blank(before));
        assert(text =~= before + trim_start(text));
    }
}

proof fn trim_end_cuts_white_space(text: Seq<char>)
    ensures
        exists|after: Seq<char>| blank(after) && text == #[trigger] (trim_end(text) + after),
        trim_end(text).len() > 0 ==> !white_space(trim_end(text).last()),
        trim_end(text).len() > 0 ==> trim_end(text).first() == text.first(),
    decreases text.len(),
{
    if text.len() > 0 && white_space(text.last()) {
        let rest = text.drop_last();
        trim_end_cuts_white_space(rest);
        let inner = choose|after: Seq<char>|
            blank(after) && rest == #[trigger] (trim_end(rest) + after);
        let after = inner + seq![text.last()];
        assert(blank(after));
        assert(trim_end(text) == trim_end(rest));
        assert(text =~= rest + seq![text.last()]);
        assert((trim_end(rest) + inner) + seq![text.last()] =~= trim_end(text) + after);
    } else {
        let after = Seq::<char>::empty();
        assert(blank(after));
        assert(text =~= trim_end(text) + after);
    }
}

proof fn trimmed_is_core(text: Seq<char>)
    ensures
        core_of(text, trimmed(text)),
        trimmed(text).len() == 0 <==> blank(text),
{
    let start = trim_start(text);
    let core = trimmed(text);
    trim_start_cuts_white_space(text);
    trim_end_cuts_white_space(start);
    let before = choose|before: Seq<char>| blank(before) && text == #[trigger] (before + start);
    let after = choose|after: Seq<char>| blank(after) && start == #[trigger] (core + after);
    assert(text =~= before + core + after);
    if core.len() > 0 {
        assert(text[before.len() as int] == core.first());
    } else {
        assert forall|k: int| 0 <= k < text.len() implies white_space(#[trigger] text[k]) by {
            if k < before.len() {
                assert(text[k] == before[k]);
            } else {
                assert(text[k] == after[k - before.len()]);
            }
        }
    }
}

/// Trimming cuts white space at both ends, all of it and nothing else.
pub proof fn law_trim(text: &str, res: String)
    requires
        call_ensures(trim, (text,), res),
    ensures
        core_of(text@, res@),
        res@.len() == 0 <==> blank(text@),
{
    trimmed_is_core(text@);
}

proof fn first_key_of_blank_files(contents: Seq<Option<String>>)
    requires
        forall|j: int| 0 <= j < contents.len() && (#[trigger] contents[j]) is Some ==> blank(contents[j]->0@),
    ensures
        first_key(contents) is None,
    decreases contents.len(),
{
    if contents.len() > 0 {
        if contents[0] is Some {
            trimmed_is_core(contents[0]->0@);
        }
        let rest = contents.drop_first();
        assert forall|j: int| 0 <= j < rest.len() && (#[trigger] rest[j]) is Some implies blank(
            rest[j]->0@,
        ) by {
            assert(rest[j] == contents[j + 1]);
        }
        first_key_of_blank_files(rest);
    }
}

proof fn first_key_of_first_file(contents: Seq<Option<String>>, at: int)
    requires
        0 <= at < contents.len(),
        contents[at] is Some,
        !blank(contents[at]->0@),
        forall|j: int| 0 <= j < at && (#[trigger] contents[j]) is Some ==> blank(contents[j]->0@),
    ensures
        first_key(contents) == Some(trimmed(contents[at]->0@)),
    decreases contents.len(),
{
    if contents[0] is Some {
        trimmed_is_core(contents[0]->0@);
    }
    if at > 0 {
        let rest = contents.drop_first();
        assert(rest[at - 1] == contents[at]);
        assert forall|j: int| 0 <= j < at - 1 && (#[trigger] rest[j]) is Some implies blank(
            rest[j]->0@,
        ) by {
            assert(rest[j] == contents[j + 1]);
        }
        first_key_of_first_file(rest, at - 1);
    }
}

/// The key is that of the first file that was read and is not blank, without the white space around
/// it, however long it is.
pub proof fn law_key_of_first_file(contents: &Vec<Option<String>>, key: Option<String>, at: int)
    requires
        call_ensures(detect_ssh_key, (contents,), key),
        0 <= at < contents@.len(),
        contents@[at] is Some,
        !blank(contents@[at]->0@),
        forall|j: int| 0 <= j < at && (#[trigger] contents@[j]) is Some ==> blank(contents@[j]->0@),
    ensures
        key is Some,
        key->0@.len() > 0,
        core_of(contents@[at]->0@, key->0@),
{
    first_key_of_first_file(contents@, at);
    trimmed_is_core(contents@[at]->0@);
}

/// No key is found exactly if every file that was read is blank.
pub proof fn law_no_key_in_blank_files(contents: &Vec<Option<String>>, key: Option<String>)
    requires
        call_ensures(detect_ssh_key, (contents,), key),
    ensures
        key is None <==> forall|j: int|
            0 <= j < contents@.len() && (#[trigger] contents@[j]) is Some ==> blank(contents@[j]->0@),
{
    if forall|j: int|
        0 <= j < contents@.len() && (#[trigger] contents@[j]) is Some ==> blank(contents@[j]->0@) {
        first_key_of_blank_files(contents@);
    } else {
        first_key_finds_some(contents@);
    }
}

proof fn first_key_finds_some(contents: Seq<Option<String>>)
    requires
        exists|j: int|
            0 <= j < contents.len() && (#[trigger] contents[j]) is Some && !blank(contents[j]->0@),
    ensures
        first_key(contents) is Some,
    decreases contents.len(),
{
    let j = choose|j: int|
        0 <= j < contents.len() && (#[trigger] contents[j]) is Some && !blank(contents[j]->0@);
    if contents[0] is Some {
        trimmed_is_core(contents[0]->0@);
    }
    if j > 0 {
        let rest = contents.drop_first();
        assert(rest[j - 1] == contents[j]);
        first_key_finds_some(rest);
    }
}

/// A copy has the contents of the text, and a default counts only without one.
pub proof fn law_copies(text: &Option<String>, default: &str, copy: Option<String>, or: String)
    requires
        call_ensures(copy_opt, (text,), copy),
        call_ensures(text_or, (text, default), or),
    ensures
        copy == *text,
        text is Some ==> or@ == text->0@,
        text is None ==> or@ == default@,
{
}

/// The characters of a text are its characters.
pub proof fn law_chars(text: &str, chars: Vec<char>)
    requires
        call_ensures(chars_of, (text,), chars),
    ensures
        chars@.len() == text@.len(),
        forall|i: int| 0 <= i < text@.len() ==> chars@[i] == text@[i],
{
}

/// A character is found exactly if it stands between a beginning and an end.
pub proof fn law_contains_char(text: &str, c: char, found: bool)
    requires
        call_ensures(contains_char, (text, c), found),
    ensures
        found <==> exists|i: int| 0 <= i < text@.len() && text@[i] == c,
{
}

/// A text is found exactly if it stands between a beginning and an end.
pub proof fn law_contains_text(text: &str, pattern: &str, found: bool)
    requires
        call_ensures(contains_text, (text, pattern), found),
    ensures
        found <==> exists|before: Seq<char>, after: Seq<char>|
            text@ == #[trigger] (before + pattern@ + after),
{
    occurs_between(pattern@, text@);
}

/// A pattern occurs in a text exactly if the text is the pattern with something before and behind it.
pub proof fn occurs_between(pattern: Seq<char>, text: Seq<char>)
    ensures
        occurs(pattern, text) <==> exists|before: Seq<char>, after: Seq<char>|
            text == #[trigger] (before + pattern + after),
{
    if occurs(pattern, text) {
        let at = choose|at: int| occurs_at(pattern, text, at);
        let before = text.take(at);
        let after = text.skip(at + pattern.len());
        assert(text =~= before + text.subrange(at, at + pattern.len()) + after);
        assert(text == before + pattern + after);
    }
    if exists|before: Seq<char>, after: Seq<char>| text == #[trigger] (before + pattern + after) {
        let (before, after) = choose|before: Seq<char>, after: Seq<char>|
            text == #[trigger] (before + pattern + after);
        let at = before.len() as int;
        assert(text.subrange(at, at + pattern.len()) =~= pattern);
        assert(occurs_at(pattern, text, at));
    }
}

/// A pattern stands at a position exactly if all its characters follow there.
pub proof fn law_is_at(pattern: &Vec<char>, text: &Vec<char>, at: usize, found: bool)
    requires
        call_ensures(is_at, (pattern, text, at), found),
    ensures
        found <==> at + pattern@.len() <= text@.len() && forall|k: int|
            0 <= k < pattern@.len() ==> #[trigger] pattern@[k] == text@[at + k],
{
    if at + pattern@.len() <= text@.len() {
        let part = text@.subrange(at as int, at + pattern@.len());
        assert forall|k: int| 0 <= k < pattern@.len() implies part[k] == text@[at + k] by {}
        if forall|k: int| 0 <= k < pattern@.len() ==> #[trigger] pattern@[k] == text@[at + k] {
            assert(part =~= pattern@);
        }
    }
}

/// The position that is found is the first that holds the character, or the end of the text.
pub proof fn law_find_char(text: &Vec<char>, c: char, from: usize, at: usize)
    requires
        call_ensures(find_char, (text, c, from), at),
        from <= text@.len(),
    ensures
        from <= at <= text@.len(),
        forall|k: int| from <= k < at ==> text@[k] != c,
        at < text@.len() ==> text@[at as int] == c,
{
    find_from_is_first(text@, c, from as int);
}

proof fn find_from_shifts(text: Seq<char>, c: char, from: int, base: int)
    requires
        0 <= base <= from,
        from <= text.len(),
    ensures
        find_from(text, c, from) == base + find_from(text.skip(base), c, from - base),
    decreases text.len() - from,
{
    if from < text.len() {
        assert(text.skip(base)[from - base] == text[from]);
        if text[from] != c {
            find_from_shifts(text, c, from + 1, base);
        }
    }
}

proof fn lines_from_shifts(text: Seq<char>, from: int, base: int)
    requires
        0 <= base <= from,
        from <= text.len(),
    ensures
        lines_from(text, from) == lines_from(text.skip(base), from - base),
    decreases text.len() - from,
{
    let rest = text.skip(base);
    if from < text.len() {
        find_from_shifts(text, '\n', from, base);
        find_from_is_first(text, '\n', from);
        let end = find_from(text, '\n', from);
        if end < text.len() {
            assert(text.subrange(from, end) =~= rest.subrange(from - base, end - base));
            lines_from_shifts(text, end + 1, base);
        } else {
            assert(text.skip(from) =~= rest.skip(from - base));
        }
    }
}

/// A text without line feeds is one line, or none if it is empty.
pub proof fn law_one_line(text: Seq<char>)
    requires
        !text.contains('\n'),
    ensures
        lines(text) == if text.len() == 0 {
            Seq::<Seq<char>>::empty()
        } else {
            seq![text]
        },
{
    if text.len() > 0 {
        find_from_is_first(text, '\n', 0);
        assert(text.skip(0) =~= text);
    }
}

/// A line feed ends the first line, which is without the carriage return before it, and the lines
/// behind it follow.
pub proof fn law_first_line(line: Seq<char>, rest: Seq<char>)
    requires
        !line.contains('\n'),
    ensures
        line.len() > 0 && line.last() == '\r' ==> lines(line + seq!['\n'] + rest) == seq![
            line.drop_last(),
        ] + lines(rest),
        line.len() == 0 || line.last() != '\r' ==> lines(line + seq!['\n'] + rest) == seq![line]
            + lines(rest),
{
    let text = line + seq!['\n'] + rest;
    let end = find_from(text, '\n', 0);
    find_from_is_first(text, '\n', 0);
    assert(text[line.len() as int] == '\n');
    if end < line.len() {
        assert(line[end] == text[end]);
    }
    assert(end == line.len());
    assert(text.subrange(0, end) =~= line);
    lines_from_shifts(text, end + 1, end + 1);
    assert(text.skip(end + 1) =~= rest);
    assert(strip_carriage_return(line) == if line.len() > 0 && line.last() == '\r' {
        line.drop_last()
    } else {
        line
    });
}

/// The first lines are lines of the text in their order: all of them, or as many as are asked for.
pub proof fn law_first_lines(text: &str, limit: usize, res: Vec<String>)
    requires
        call_ensures(first_lines, (text, limit), res),
    ensures
        lines(text@).len() <= limit ==> res@.len() == lines(text@).len(),
        lines(text@).len() > limit ==> res@.len() == limit,
        forall|i: int| 0 <= i < res@.len() ==> (#[trigger] res@[i])@ == lines(text@)[i],
{
    let all = texts(res@);
    assert(all.len() == res@.len());
    assert forall|i: int| 0 <= i < res@.len() implies (#[trigger] res@[i])@ == lines(text@)[i] by {
        assert(all[i] == res@[i]@);
    }
}

} // verus!
