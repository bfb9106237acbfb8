//! Laws of the cloud-init configuration: what the template is given, and what it is filled with.

use vstd::prelude::*;

use crate::cloud_init::{cloud_init_values, render_cloud_init, render_result, template_result,
    CloudInitError, Entry};
use crate::resolve::ResolvedConfig;

verus! {

use crate::cloud_init::{as_map, entry_texts, law_every_value_has_its_name, values_of};
use crate::template::{filled, filled_from, law_placeholders_are_supported, law_plain_text_is_kept,
    placeholder_name, placeholders_only, plain_name, plain_tag, supported_at, supported_template,
    tag_end, word_char};
use crate::text::{occurs_at, trim_end, trim_start, trimmed, white_space};

/// The template is given twelve values, each the text of the configuration that its name says.
pub proof fn law_template_values(config: &ResolvedConfig, values: Vec<Entry>)
    requires
        call_ensures(cloud_init_values, (config,), values),
    ensures
        values@.len() == 12,
        values@[0].name@ == "domain_platform"@ && values@[0].value@ == config.domain_platform@,
        values@[1].name@ == "domain_apps"@ && values@[1].value@ == config.domain_apps@,
        values@[2].name@ == "domain_api"@ && values@[2].value@ == "api."@ + config.domain_platform@,
        values@[3].name@ == "domain_docs"@ && values@[3].value@ == "docs."@ + config.domain_platform@,
        values@[4].name@ == "domain_git"@ && values@[4].value@ == "git."@ + config.domain_platform@,
        values@[5].name@ == "domain_ssh"@ && values@[5].value@ == "ssh."@ + config.domain_platform@,
        values@[6].name@ == "cf_api_key"@ && values@[6].value@ == config.cf_api_key@,
        values@[7].name@ == "cf_email"@ && values@[7].value@ == config.cf_email@,
        values@[8].name@ == "resend_api_key"@ && values@[8].value@ == config.resend_api_key@,
        values@[9].name@ == "ssh_key"@ && values@[9].value@ == config.ssh_key@,
        values@[10].name@ == "notify_email"@ && values@[10].value@ == config.notify_email@,
        values@[11].name@ == "tengu_release"@ && values@[11].value@ == config.release@,
{
    let all = entry_texts(values@);
    assert(all.len() == values@.len());
    assert forall|i: int| 0 <= i < all.len() implies all[i] == (
        (#[trigger] values@[i]).name@,
        values@[i].value@,
    ) by {}
}

proof fn as_map_has_no_other_name(values: Seq<(Seq<char>, Seq<char>)>, name: Seq<char>)
    requires
        as_map(values).contains_key(name),
    ensures
        exists|i: int| 0 <= i < values.len() && (#[trigger] values[i]).0 == name,
    decreases values.len(),
{
    if values.last().0 == name {
        assert(values[values.len() - 1].0 == name);
    } else {
        let shorter = values.drop_last();
        as_map_has_no_other_name(shorter, name);
        let i = choose|i: int| 0 <= i < shorter.len() && (#[trigger] shorter[i]).0 == name;
        assert(values[i].0 == name);
    }
}

/// The values that a template is rendered with, by name: each is the text of the configuration that
/// its name says, and there are no others.
pub proof fn law_values_by_name(config: ResolvedConfig, other: Seq<char>)
    ensures
        as_map(values_of(config)).contains_key("domain_platform"@),
        as_map(values_of(config))["domain_platform"@] == config.domain_platform@,
        as_map(values_of(config)).contains_key("domain_apps"@),
        as_map(values_of(config))["domain_apps"@] == config.domain_apps@,
        as_map(values_of(config)).contains_key("domain_api"@),
        as_map(values_of(config))["domain_api"@] == "api."@ + config.domain_platform@,
        as_map(values_of(config)).contains_key("domain_docs"@),
        as_map(values_of(config))["domain_docs"@] == "docs."@ + config.domain_platform@,
        as_map(values_of(config)).contains_key("domain_git"@),
        as_map(values_of(config))["domain_git"@] == "git."@ + config.domain_platform@,
        as_map(values_of(config)).contains_key("domain_ssh"@),
        as_map(values_of(config))["domain_ssh"@] == "ssh."@ + config.domain_platform@,
        as_map(values_of(config)).contains_key("cf_api_key"@),
        as_map(values_of(config))["cf_api_key"@] == config.cf_api_key@,
        as_map(values_of(config)).contains_key("cf_email"@),
        as_map(values_of(config))["cf_email"@] == config.cf_email@,
        as_map(values_of(config)).contains_key("resend_api_key"@),
        as_map(values_of(config))["resend_api_key"@] == config.resend_api_key@,
        as_map(values_of(config)).contains_key("ssh_key"@),
        as_map(values_of(config))["ssh_key"@] == config.ssh_key@,
        as_map(values_of(config)).contains_key("notify_email"@),
        as_map(values_of(config))["notify_email"@] == config.notify_email@,
        as_map(values_of(config)).contains_key("tengu_release"@),
        as_map(values_of(config))["tengu_release"@] == config.release@,
        as_map(values_of(config)).contains_key(other) ==> {
            ||| other == "domain_platform"@
            ||| other == "domain_apps"@
            ||| other == "domain_api"@
            ||| other == "domain_docs"@
            ||| other == "domain_git"@
            ||| other == "domain_ssh"@
            ||| other == "cf_api_key"@
            ||| other == "cf_email"@
            ||| other == "resend_api_key"@
            ||| other == "ssh_key"@
            ||| other == "notify_email"@
            ||| other == "tengu_release"@
        },
{
    let values = values_of(config);
    assert forall|i: int| 0 <= i < values.len() implies as_map(values).contains_key(
        (#[trigger] values[i]).0,
    ) && as_map(values)[values[i].0] == values[i].1 by {
        law_every_value_has_its_name(config, i);
    }
    assert(values[0] == ("domain_platform"@, config.domain_platform@));
    assert(values[1] == ("domain_apps"@, config.domain_apps@));
    assert(values[2] == ("domain_api"@, "api."@ + config.domain_platform@));
    assert(values[3] == ("domain_docs"@, "docs."@ + config.domain_platform@));
    assert(values[4] == ("domain_git"@, "git."@ + config.domain_platform@));
    assert(values[5] == ("domain_ssh"@, "ssh."@ + config.domain_platform@));
    assert(values[6] == ("cf_api_key"@, config.cf_api_key@));
    assert(values[7] == ("cf_email"@, config.cf_email@));
    assert(values[8] == ("resend_api_key"@, config.resend_api_key@));
    assert(values[9] == ("ssh_key"@, config.ssh_key@));
    assert(values[10] == ("notify_email"@, config.notify_email@));
    assert(values[11] == ("tengu_release"@, config.release@));
    if as_map(values).contains_key(other) {
        as_map_has_no_other_name(values, other);
    }
}

/// What Tera refuses is an error of the template when it is added, and of rendering when it is
/// rendered; a text that comes out is handed on as it is.
pub proof fn law_engine_results(
    added: Result<(), tera::Error>,
    added_res: Result<(), CloudInitError>,
    rendered: Result<String, tera::Error>,
    rendered_res: Result<String, CloudInitError>,
)
    requires
        call_ensures(template_result, (added,), added_res),
        call_ensures(render_result, (rendered,), rendered_res),
    ensures
        added is Ok <==> added_res is Ok,
        added is Err ==> added_res->Err_0 == CloudInitError::Template(added->Err_0),
        rendered is Ok <==> rendered_res is Ok,
        rendered is Ok ==> rendered_res->Ok_0@ == rendered->Ok_0@,
        rendered is Err ==> rendered_res->Err_0 == CloudInitError::Render(rendered->Err_0),
{
}

proof fn occurs_at_shifts(pattern: Seq<char>, text: Seq<char>, at: int, base: int)
    requires
        0 <= base <= at,
        base <= text.len(),
    ensures
        occurs_at(pattern, text, at) <==> occurs_at(pattern, text.skip(base), at - base),
{
    if at + pattern.len() <= text.len() {
        assert(text.subrange(at, at + pattern.len()) =~= text.skip(base).subrange(
            at - base,
            at - base + pattern.len(),
        ));
    }
}

proof fn tag_end_shifts(text: Seq<char>, from: int, base: int)
    requires
        0 <= base <= from,
        base <= text.len(),
    ensures
        tag_end(text, from) == base + tag_end(text.skip(base), from - base),
    decreases text.len() - from,
{
    if from < text.len() {
        assert(text.skip(base)[from - base] == text[from]);
        if word_char(text[from]) || text[from] == '-' {
            tag_end_shifts(text, from + 1, base);
        }
    }
}

proof fn tag_ends_at(text: Seq<char>, from: int, end: int)
    requires
        0 <= from <= end < text.len(),
        forall|k: int| from <= k < end ==> word_char(#[trigger] text[k]),
        !word_char(text[end]) && text[end] != '-',
    ensures
        tag_end(text, from) == end,
    decreases end - from,
{
    if from < end {
        tag_ends_at(text, from + 1, end);
    }
}

proof fn tag_end_is_inside(text: Seq<char>, from: int)
    requires
        0 <= from <= text.len(),
    ensures
        from <= tag_end(text, from) <= text.len(),
    decreases text.len() - from,
{
    if from < text.len() && (word_char(text[from]) || text[from] == '-') {
        tag_end_is_inside(text, from + 1);
    }
}

proof fn filled_from_shifts(
    text: Seq<char>,
    entries: Map<Seq<char>, Seq<char>>,
    from: int,
    base: int,
)
    requires
        0 <= base <= from,
        base <= text.len(),
    ensures
        filled_from(text, entries, from) == filled_from(text.skip(base), entries, from - base),
    decreases text.len() - from,
{
    let rest = text.skip(base);
    if from < text.len() {
        occurs_at_shifts("{{"@, text, from, base);
        assert(rest[from - base] == text[from]);
        if occurs_at("{{"@, text, from) {
            reveal_strlit("{{");
            tag_end_shifts(text, from + 2, base);
            tag_end_is_inside(text, from + 2);
            let end = tag_end(text, from + 2);
            assert(text.subrange(from + 2, end) =~= rest.subrange(from + 2 - base, end - base));
            if end + 2 <= text.len() {
                filled_from_shifts(text, entries, end + 2, base);
            }
        } else {
            filled_from_shifts(text, entries, from + 1, base);
        }
    }
}

/// A template that begins with text without braces, followed by a placeholder with a name.
pub open spec fn with_placeholder(before: Seq<char>, name: Seq<char>, rest: Seq<char>) -> Seq<char> {
    before + "{{ "@ + name + " }}"@ + rest
}

proof fn name_between_spaces(name: Seq<char>)
    requires
        plain_name(name),
    ensures
        trimmed(seq![' '] + name + seq![' ']) == name,
{
    let text = seq![' '] + name + seq![' '];
    assert(white_space(' '));
    assert(word_char(name[0]) && word_char(name[name.len() - 1]));
    assert(!white_space(name[0]) && !white_space(name[name.len() - 1]));
    assert(text.drop_first() =~= name + seq![' ']);
    reveal_with_fuel(trim_start, 3);
    assert(trim_start(text) == name + seq![' ']);
    assert((name + seq![' ']).drop_last() =~= name);
    reveal_with_fuel(trim_end, 3);
}

proof fn placeholder_is_read(before: Seq<char>, name: Seq<char>, rest: Seq<char>)
    requires
        !before.contains('{'),
        plain_name(name),
        name.len() <= 100,
    ensures
        ({
            let text = with_placeholder(before, name, rest);
            let at = before.len() as int;
            let end = at + 3 + name.len() + 1;
            &&& occurs_at("{{"@, text, at)
            &&& tag_end(text, at + 2) == end
            &&& placeholder_name(text, at + 2) == name
            &&& plain_tag(text, at + 2, "}}"@)
            &&& text.skip(end + 2) == rest
            &&& text.len() == end + 2 + rest.len()
            &&& forall|k: int| 0 <= k < end + 2 && k != at && k != at + 1 ==> text[k] != '{'
            &&& text[at] == '{' && text[at + 1] == '{' && text[at + 2] == ' '
        }),
{
    reveal_strlit("{{");
    reveal_strlit("}}");
    reveal_strlit("{{ ");
    reveal_strlit(" }}");
    let text = with_placeholder(before, name, rest);
    let at = before.len() as int;
    let end = at + 3 + name.len() + 1;
    assert forall|k: int| at + 2 <= k < end implies word_char(#[trigger] text[k]) by {
        if at + 3 <= k < at + 3 + name.len() {
            assert(text[k] == name[k - at - 3]);
        }
    }
    assert(text[end] == '}');
    tag_ends_at(text, at + 2, end);
    assert(text.subrange(at, at + 2) =~= "{{"@);
    assert(text.subrange(end, end + 2) =~= "}}"@);
    assert(text.subrange(at + 2, end) =~= seq![' '] + name + seq![' ']);
    name_between_spaces(name);
    assert(text.skip(end + 2) =~= rest);
    assert forall|k: int| 0 <= k < end + 2 && k != at && k != at + 1 implies text[k] != '{' by {
        if k < at {
            assert(text[k] == before[k]);
        } else if at + 3 <= k < at + 3 + name.len() {
            assert(text[k] == name[k - at - 3]);
            assert(word_char(name[k - at - 3]));
        }
    }
}

proof fn no_tag_without_brace(text: Seq<char>, at: int)
    requires
        0 <= at < text.len(),
        text[at] != '{',
    ensures
        !occurs_at("{{"@, text, at),
        !occurs_at("{%"@, text, at),
        !occurs_at("{#"@, text, at),
        supported_at(text, at),
{
    reveal_strlit("{{");
    reveal_strlit("{%");
    reveal_strlit("{#");
    if occurs_at("{{"@, text, at) {
        assert(text.subrange(at, at + 2)[0] == text[at]);
    }
    if occurs_at("{%"@, text, at) {
        assert(text.subrange(at, at + 2)[0] == text[at]);
    }
    if occurs_at("{#"@, text, at) {
        assert(text.subrange(at, at + 2)[0] == text[at]);
    }
}

/// A placeholder with a name can stand before any template of text and placeholders, with any text
/// without braces before it.
pub proof fn law_placeholder_may_be_added(before: Seq<char>, name: Seq<char>, rest: Seq<char>)
    requires
        !before.contains('{'),
        plain_name(name),
        name.len() <= 100,
        placeholders_only(rest),
    ensures
        placeholders_only(with_placeholder(before, name, rest)),
        supported_template(with_placeholder(before, name, rest)),
{
    let text = with_placeholder(before, name, rest);
    let at = before.len() as int;
    let behind = at + 3 + name.len() + 3;
    placeholder_is_read(before, name, rest);
    assert forall|p: int|
        #![trigger supported_at(text, p)]
        0 <= p < text.len() implies {
        &&& supported_at(text, p)
        &&& !occurs_at("{%"@, text, p)
        &&& !occurs_at("{#"@, text, p)
        &&& occurs_at("{{"@, text, p) ==> plain_name(placeholder_name(text, p + 2))
    } by {
        reveal_strlit("{{");
        reveal_strlit("{%");
        reveal_strlit("{#");
        if p >= behind {
            let q = p - behind;
            assert(text.skip(behind) == rest);
            assert(supported_at(rest, q));
            occurs_at_shifts("{{"@, text, p, behind);
            occurs_at_shifts("{%"@, text, p, behind);
            occurs_at_shifts("{#"@, text, p, behind);
            if occurs_at("{{"@, text, p) {
                tag_end_shifts(text, p + 2, behind);
                tag_end_is_inside(text, p + 2);
                let end = tag_end(text, p + 2);
                occurs_at_shifts("}}"@, text, end, behind);
                assert forall|k: int| p + 2 < k < end - 1 implies #[trigger] text[k] != '-' by {
                    assert(text[k] == rest[k - behind]);
                }
                assert(text.subrange(p + 2, end) =~= rest.subrange(q + 2, end - behind));
            }
        } else if p == at {
            if occurs_at("{%"@, text, p) {
                assert(text.subrange(p, p + 2)[1] == text[p + 1]);
            }
            if occurs_at("{#"@, text, p) {
                assert(text.subrange(p, p + 2)[1] == text[p + 1]);
            }
        } else if p == at + 1 {
            if occurs_at("{{"@, text, p) {
                assert(text.subrange(p, p + 2)[1] == text[p + 1]);
            }
            if occurs_at("{%"@, text, p) {
                assert(text.subrange(p, p + 2)[1] == text[p + 1]);
            }
            if occurs_at("{#"@, text, p) {
                assert(text.subrange(p, p + 2)[1] == text[p + 1]);
            }
        } else {
            no_tag_without_brace(text, p);
        }
    }
    law_placeholders_are_supported(text);
}

proof fn text_is_kept_up_to(
    text: Seq<char>,
    entries: Map<Seq<char>, Seq<char>>,
    from: int,
    to: int,
)
    requires
        0 <= from <= to <= text.len(),
        forall|k: int| from <= k < to ==> text[k] != '{',
    ensures
        filled_from(text, entries, from) is Some <==> filled_from(text, entries, to) is Some,
        filled_from(text, entries, to) is Some ==> filled_from(text, entries, from)->0
            == text.subrange(from, to) + filled_from(text, entries, to)->0,
    decreases to - from,
{
    if from < to {
        no_tag_without_brace(text, from);
        text_is_kept_up_to(text, entries, from + 1, to);
        if filled_from(text, entries, to) is Some {
            let behind = filled_from(text, entries, to)->0;
            assert(seq![text[from]] + (text.subrange(from + 1, to) + behind) =~= text.subrange(
                from,
                to,
            ) + behind);
        }
    } else {
        if filled_from(text, entries, to) is Some {
            let behind = filled_from(text, entries, to)->0;
            assert(text.subrange(from, to) + behind =~= behind);
        }
    }
}

proof fn placeholder_is_replaced(
    before: Seq<char>,
    name: Seq<char>,
    rest: Seq<char>,
    entries: Map<Seq<char>, Seq<char>>,
)
    requires
        !before.contains('{'),
        plain_name(name),
        name.len() <= 100,
    ensures
        filled(with_placeholder(before, name, rest), entries) is Some <==> entries.contains_key(
            name,
        ) && filled(rest, entries) is Some,
        filled(with_placeholder(before, name, rest), entries) is Some ==> filled(
            with_placeholder(before, name, rest),
            entries,
        )->0 == before + entries[name] + filled(rest, entries)->0,
{
    let text = with_placeholder(before, name, rest);
    let at = before.len() as int;
    let behind = at + 3 + name.len() + 3;
    placeholder_is_read(before, name, rest);
    assert forall|k: int| 0 <= k < at implies text[k] != '{' by {}
    text_is_kept_up_to(text, entries, 0, at);
    filled_from_shifts(text, entries, behind, behind);
    reveal_strlit("{{ ");
    assert(text.subrange(0, at) =~= before);
    if filled(text, entries) is Some {
        assert(before + (entries[name] + filled(rest, entries)->0) =~= before + entries[name]
            + filled(rest, entries)->0);
    }
}

/// A template without braces is rendered as it is.
pub proof fn law_plain_template(
    config: &ResolvedConfig,
    template: &str,
    res: Result<String, CloudInitError>,
)
    requires
        call_ensures(render_cloud_init, (config, template), res),
        !template@.contains('{'),
    ensures
        supported_template(template@),
        res is Ok && res->Ok_0@ == template@,
{
    let text = template@;
    assert forall|p: int|
        #![trigger supported_at(text, p)]
        0 <= p < text.len() implies {
        &&& supported_at(text, p)
        &&& !occurs_at("{%"@, text, p)
        &&& !occurs_at("{#"@, text, p)
        &&& !occurs_at("{{"@, text, p)
    } by {
        no_tag_without_brace(text, p);
    }
    assert(placeholders_only(text));
    law_placeholders_are_supported(text);
    assert forall|p: int| 0 <= p < text.len() implies !#[trigger] occurs_at("{{"@, text, p) by {
        no_tag_without_brace(text, p);
    }
    law_plain_text_is_kept(text, as_map(values_of(*config)), 0);
    assert(text.skip(0) =~= text);
}

proof fn names_are_plain()
    ensures
        plain_name("domain_platform"@) && "domain_platform"@.len() <= 100,
        plain_name("domain_apps"@) && "domain_apps"@.len() <= 100,
        plain_name("domain_api"@) && "domain_api"@.len() <= 100,
        plain_name("domain_docs"@) && "domain_docs"@.len() <= 100,
        plain_name("domain_git"@) && "domain_git"@.len() <= 100,
        plain_name("domain_ssh"@) && "domain_ssh"@.len() <= 100,
        plain_name("cf_api_key"@) && "cf_api_key"@.len() <= 100,
        plain_name("cf_email"@) && "cf_email"@.len() <= 100,
        plain_name("resend_api_key"@) && "resend_api_key"@.len() <= 100,
        plain_name("ssh_key"@) && "ssh_key"@.len() <= 100,
        plain_name("notify_email"@) && "notify_email"@.len() <= 100,
        plain_name("tengu_release"@) && "tengu_release"@.len() <= 100,
{
    reveal_strlit("domain_platform");
    reveal_strlit("domain_apps");
    reveal_strlit("domain_api");
    reveal_strlit("domain_docs");
    reveal_strlit("domain_git");
    reveal_strlit("domain_ssh");
    reveal_strlit("cf_api_key");
    reveal_strlit("cf_email");
    reveal_strlit("resend_api_key");
    reveal_strlit("ssh_key");
    reveal_strlit("notify_email");
    reveal_strlit("tengu_release");
    reveal_strlit("true");
    reveal_strlit("false");
    reveal_strlit("True");
    reveal_strlit("False");
    reveal_strlit("not");
    reveal_strlit("__tera_context");
    let name = "domain_platform"@;
    assert(name.subrange(0, 4)[0] == name[0]);
    if name.len() >= 5 {
        assert(name.subrange(0, 5)[0] == name[0]);
        assert(name.subrange(0, 4)[1] == name[1]);
    }
    let name = "domain_apps"@;
    assert(name.subrange(0, 4)[0] == name[0]);
    if name.len() >= 5 {
        assert(name.subrange(0, 5)[0] == name[0]);
        assert(name.subrange(0, 4)[1] == name[1]);
    }
    let name = "domain_api"@;
    assert(name.subrange(0, 4)[0] == name[0]);
    if name.len() >= 5 {
        assert(name.subrange(0, 5)[0] == name[0]);
        assert(name.subrange(0, 4)[1] == name[1]);
    }
    let name = "domain_docs"@;
    assert(name.subrange(0, 4)[0] == name[0]);
    if name.len() >= 5 {
        assert(name.subrange(0, 5)[0] == name[0]);
        assert(name.subrange(0, 4)[1] == name[1]);
    }
    let name = "domain_git"@;
    assert(name.subrange(0, 4)[0] == name[0]);
    if name.len() >= 5 {
        assert(name.subrange(0, 5)[0] == name[0]);
        assert(name.subrange(0, 4)[1] == name[1]);
    }
    let name = "domain_ssh"@;
    assert(name.subrange(0, 4)[0] == name[0]);
    if name.len() >= 5 {
        assert(name.subrange(0, 5)[0] == name[0]);
        assert(name.subrange(0, 4)[1] == name[1]);
    }
    let name = "cf_api_key"@;
    assert(name.subrange(0, 4)[0] == name[0]);
    if name.len() >= 5 {
        assert(name.subrange(0, 5)[0] == name[0]);
        assert(name.subrange(0, 4)[1] == name[1]);
    }
    let name = "cf_email"@;
    assert(name.subrange(0, 4)[0] == name[0]);
    if name.len() >= 5 {
        assert(name.subrange(0, 5)[0] == name[0]);
        assert(name.subrange(0, 4)[1] == name[1]);
    }
    let name = "resend_api_key"@;
    assert(name.subrange(0, 4)[0] == name[0]);
    if name.len() >= 5 {
        assert(name.subrange(0, 5)[0] == name[0]);
        assert(name.subrange(0, 4)[1] == name[1]);
    }
    let name = "ssh_key"@;
    assert(name.subrange(0, 4)[0] == name[0]);
    if name.len() >= 5 {
        assert(name.subrange(0, 5)[0] == name[0]);
        assert(name.subrange(0, 4)[1] == name[1]);
    }
    let name = "notify_email"@;
    assert(name.subrange(0, 4)[0] == name[0]);
    if name.len() >= 5 {
        assert(name.subrange(0, 5)[0] == name[0]);
        assert(name.subrange(0, 4)[1] == name[1]);
    }
    let name = "tengu_release"@;
    assert(name.subrange(0, 4)[0] == name[0]);
    if name.len() >= 5 {
        assert(name.subrange(0, 5)[0] == name[0]);
        assert(name.subrange(0, 4)[1] == name[1]);
    }
}

/// A placeholder is replaced by the text of the configuration that its name says, whole and
/// unescaped. What stands before it is kept, and the rest of the template becomes what it becomes
/// on its own.
pub proof fn law_placeholder_is_replaced(
    config: &ResolvedConfig,
    before: Seq<char>,
    rest: &str,
    rest_res: Result<String, CloudInitError>,
    template: &str,
    res: Result<String, CloudInitError>,
)
    requires
        call_ensures(render_cloud_init, (config, rest), rest_res),
        call_ensures(render_cloud_init, (config, template), res),
        !before.contains('{'),
        placeholders_only(rest@),
        rest_res is Ok,
    ensures
        template@ == before + "{{ "@ + "domain_platform"@ + " }}"@ + rest@ ==> res is Ok && res->Ok_0@
            == before + (config.domain_platform@) + rest_res->Ok_0@,
        template@ == before + "{{ "@ + "domain_apps"@ + " }}"@ + rest@ ==> res is Ok && res->Ok_0@
            == before + (config.domain_apps@) + rest_res->Ok_0@,
        template@ == before + "{{ "@ + "domain_api"@ + " }}"@ + rest@ ==> res is Ok && res->Ok_0@
            == before + ("api."@ + config.domain_platform@) + rest_res->Ok_0@,
        template@ == before + "{{ "@ + "domain_docs"@ + " }}"@ + rest@ ==> res is Ok && res->Ok_0@
            == before + ("docs."@ + config.domain_platform@) + rest_res->Ok_0@,
        template@ == before + "{{ "@ + "domain_git"@ + " }}"@ + rest@ ==> res is Ok && res->Ok_0@
            == before + ("git."@ + config.domain_platform@) + rest_res->Ok_0@,
        template@ == before + "{{ "@ + "domain_ssh"@ + " }}"@ + rest@ ==> res is Ok && res->Ok_0@
            == before + ("ssh."@ + config.domain_platform@) + rest_res->Ok_0@,
        template@ == before + "{{ "@ + "cf_api_key"@ + " }}"@ + rest@ ==> res is Ok && res->Ok_0@
            == before + (config.cf_api_key@) + rest_res->Ok_0@,
        template@ == before + "{{ "@ + "cf_email"@ + " }}"@ + rest@ ==> res is Ok && res->Ok_0@
            == before + (config.cf_email@) + rest_res->Ok_0@,
        template@ == before + "{{ "@ + "resend_api_key"@ + " }}"@ + rest@ ==> res is Ok && res->Ok_0@
            == before + (config.resend_api_key@) + rest_res->Ok_0@,
        template@ == before + "{{ "@ + "ssh_key"@ + " }}"@ + rest@ ==> res is Ok && res->Ok_0@
            == before + (config.ssh_key@) + rest_res->Ok_0@,
        template@ == before + "{{ "@ + "notify_email"@ + " }}"@ + rest@ ==> res is Ok && res->Ok_0@
            == before + (config.notify_email@) + rest_res->Ok_0@,
        template@ == before + "{{ "@ + "tengu_release"@ + " }}"@ + rest@ ==> res is Ok && res->Ok_0@
            == before + (config.release@) + rest_res->Ok_0@,
{
    let entries = as_map(values_of(*config));
    names_are_plain();
    law_values_by_name(*config, seq![]);
    if template@ == with_placeholder(before, "domain_platform"@, rest@) {
        law_placeholder_may_be_added(before, "domain_platform"@, rest@);
        placeholder_is_replaced(before, "domain_platform"@, rest@, entries);
    }
    if template@ == with_placeholder(before, "domain_apps"@, rest@) {
        law_placeholder_may_be_added(before, "domain_apps"@, rest@);
        placeholder_is_replaced(before, "domain_apps"@, rest@, entries);
    }
    if template@ == with_placeholder(before, "domain_api"@, rest@) {
        law_placeholder_may_be_added(before, "domain_api"@, rest@);
        placeholder_is_replaced(before, "domain_api"@, rest@, entries);
    }
    if template@ == with_placeholder(before, "domain_docs"@, rest@) {
        law_placeholder_may_be_added(before, "domain_docs"@, rest@);
        placeholder_is_replaced(before, "domain_docs"@, rest@, entries);
    }
    if template@ == with_placeholder(before, "domain_git"@, rest@) {
        law_placeholder_may_be_added(before, "domain_git"@, rest@);
        placeholder_is_replaced(before, "domain_git"@, rest@, entries);
    }
    if template@ == with_placeholder(before, "domain_ssh"@, rest@) {
        law_placeholder_may_be_added(before, "domain_ssh"@, rest@);
        placeholder_is_replaced(before, "domain_ssh"@, rest@, entries);
    }
    if template@ == with_placeholder(before, "cf_api_key"@, rest@) {
        law_placeholder_may_be_added(before, "cf_api_key"@, rest@);
        placeholder_is_replaced(before, "cf_api_key"@, rest@, entries);
    }
    if template@ == with_placeholder(before, "cf_email"@, rest@) {
        law_placeholder_may_be_added(before, "cf_email"@, rest@);
        placeholder_is_replaced(before, "cf_email"@, rest@, entries);
    }
    if template@ == with_placeholder(before, "resend_api_key"@, rest@) {
        law_placeholder_may_be_added(before, "resend_api_key"@, rest@);
        placeholder_is_replaced(before, "resend_api_key"@, rest@, entries);
    }
    if template@ == with_placeholder(before, "ssh_key"@, rest@) {
        law_placeholder_may_be_added(before, "ssh_key"@, rest@);
        placeholder_is_replaced(before, "ssh_key"@, rest@, entries);
    }
    if template@ == with_placeholder(before, "notify_email"@, rest@) {
        law_placeholder_may_be_added(before, "notify_email"@, rest@);
        placeholder_is_replaced(before, "notify_email"@, rest@, entries);
    }
    if template@ == with_placeholder(before, "tengu_release"@, rest@) {
        law_placeholder_may_be_added(before, "tengu_release"@, rest@);
        placeholder_is_replaced(before, "tengu_release"@, rest@, entries);
    }
}

/// A name that is not a value of the configuration fails to render.
pub proof fn law_unknown_name_fails(
    config: &ResolvedConfig,
    before: Seq<char>,
    name: Seq<char>,
    rest: Seq<char>,
    template: &str,
    res: Result<String, CloudInitError>,
)
    requires
        call_ensures(render_cloud_init, (config, template), res),
        !before.contains('{'),
        placeholders_only(rest),
        plain_name(name),
        name.len() <= 100,
        template@ == before + "{{ "@ + name + " }}"@ + rest,
        name != "domain_platform"@,
        name != "domain_apps"@,
        name != "domain_api"@,
        name != "domain_docs"@,
        name != "domain_git"@,
        name != "domain_ssh"@,
        name != "cf_api_key"@,
        name != "cf_email"@,
        name != "resend_api_key"@,
        name != "ssh_key"@,
        name != "notify_email"@,
        name != "tengu_release"@,
    ensures
        res is Err && res->Err_0 is Render,
{
    law_values_by_name(*config, name);
    law_placeholder_may_be_added(before, name, rest);
    placeholder_is_replaced(before, name, rest, as_map(values_of(*config)));
}

} // verus!
