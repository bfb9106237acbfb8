//! The cloud-init configuration of a new server.

use vstd::prelude::*;

use crate::resolve::ResolvedConfig;
use crate::template::{add_template, insert_text, new_context, new_tera, render};
use crate::text::first_lines;

verus! {

use crate::template::{context_entries, escapes, filled, law_known_names_are_filled, placeholder_name,
    placeholders_only, rendered, supported_template, template_parses};
use crate::text::{at_most, lines, occurs_at, texts};

/// A value for the template: its name, and the value.
#[derive(Debug)]
pub struct Entry {
    pub name: String,
    pub value: String,
}

/// The contents of entries.
pub open spec fn entry_texts(entries: Seq<Entry>) -> Seq<(Seq<char>, Seq<char>)> {
    entries.map_values(|entry: Entry| (entry.name@, entry.value@))
}

/// The values that the cloud-init template can refer to.
pub open spec fn values_of(config: ResolvedConfig) -> Seq<(Seq<char>, Seq<char>)> {
    seq![
        ("domain_platform"@, config.domain_platform@),
        ("domain_apps"@, config.domain_apps@),
        ("domain_api"@, "api."@ + config.domain_platform@),
        ("domain_docs"@, "docs."@ + config.domain_platform@),
        ("domain_git"@, "git."@ + config.domain_platform@),
        ("domain_ssh"@, "ssh."@ + config.domain_platform@),
        ("cf_api_key"@, config.cf_api_key@),
        ("cf_email"@, config.cf_email@),
        ("resend_api_key"@, config.resend_api_key@),
        ("ssh_key"@, config.ssh_key@),
        ("notify_email"@, config.notify_email@),
        ("tengu_release"@, config.release@),
    ]
}

/// A list of values as a map from name to value; of two values with one name the later counts.
pub open spec fn as_map(values: Seq<(Seq<char>, Seq<char>)>) -> Map<Seq<char>, Seq<char>>
    decreases values.len(),
{
    if values.len() == 0 {
        Map::empty()
    } else {
        as_map(values.drop_last()).insert(values.last().0, values.last().1)
    }
}

fn entry(name: &str, value: String) -> (res: Entry)
    ensures
        res.name@ == name@,
        res.value@ == value@,
{
    Entry { name: name.to_owned(), value }
}

/// The values that the cloud-init template can refer to.
pub fn cloud_init_values(config: &ResolvedConfig) -> (values: Vec<Entry>)
    ensures
        entry_texts(values@) == values_of(*config),
{
    let platform = config.domain_platform.as_str();
    let mut values: Vec<Entry> = Vec::new();
    values.push(entry("domain_platform", config.domain_platform.clone()));
    values.push(entry("domain_apps", config.domain_apps.clone()));
    values.push(entry("domain_api", "api.".to_owned().concat(platform)));
    values.push(entry("domain_docs", "docs.".to_owned().concat(platform)));
    values.push(entry("domain_git", "git.".to_owned().concat(platform)));
    values.push(entry("domain_ssh", "ssh.".to_owned().concat(platform)));
    values.push(entry("cf_api_key", config.cf_api_key.clone()));
    values.push(entry("cf_email", config.cf_email.clone()));
    values.push(entry("resend_api_key", config.resend_api_key.clone()));
    values.push(entry("ssh_key", config.ssh_key.clone()));
    values.push(entry("notify_email", config.notify_email.clone()));
    values.push(entry("tengu_release", config.release.clone()));
    proof {
        assert(entry_texts(values@) =~= values_of(*config));
    }
    values
}

/// Why a cloud-init configuration could not be made. Each holds the error of Tera behind it.
#[derive(Debug)]
pub enum CloudInitError {
    /// The template does not parse.
    Template(tera::Error),
    /// The template could not be rendered.
    Render(tera::Error),
}

impl CloudInitError {
    pub open spec fn text(self) -> Seq<char> {
        match self {
            CloudInitError::Template(_) => "Failed to parse 'cloud-init'"@,
            CloudInitError::Render(_) => "Failed to render cloud-init template"@,
        }
    }

    pub fn message(&self) -> (message: &'static str)
        ensures
            message@ == self.text(),
    {
        match self {
            CloudInitError::Template(_) => "Failed to parse 'cloud-init'",
            CloudInitError::Render(_) => "Failed to render cloud-init template",
        }
    }
}

/// What adding the template comes to.
pub fn template_result(added: Result<(), tera::Error>) -> (res: Result<(), CloudInitError>)
    ensures
        match added {
            Ok(_) => res is Ok,
            Err(cause) => res == Err::<(), CloudInitError>(CloudInitError::Template(cause)),
        },
{
    match added {
        Ok(_) => Ok(()),
        Err(cause) => Err(CloudInitError::Template(cause)),
    }
}

/// What rendering the template comes to.
pub fn render_result(rendered: Result<String, tera::Error>) -> (res: Result<String, CloudInitError>)
    ensures
        match rendered {
            Ok(text) => res == Ok::<String, CloudInitError>(text),
            Err(cause) => res == Err::<String, CloudInitError>(CloudInitError::Render(cause)),
        },
{
    match rendered {
        Ok(text) => Ok(text),
        Err(cause) => Err(CloudInitError::Render(cause)),
    }
}

/// Renders the cloud-init template with the values of a configuration.
pub fn render_cloud_init(config: &ResolvedConfig, template: &str) -> (res: Result<
    String,
    CloudInitError,
>)
    requires
        supported_template(template@),
    ensures
        match res {
            Ok(text) => {
                &&& template_parses(template@)
                &&& rendered("cloud-init"@, template@, as_map(values_of(*config))) == Some(text@)
            },
            Err(CloudInitError::Template(_)) => !template_parses(template@),
            Err(CloudInitError::Render(_)) => {
                &&& template_parses(template@)
                &&& rendered("cloud-init"@, template@, as_map(values_of(*config))) is None
            },
        },
        placeholders_only(template@) ==> match res {
            Ok(text) => filled(template@, as_map(values_of(*config))) == Some(text@),
            Err(error) => {
                &&& filled(template@, as_map(values_of(*config))) is None
                &&& error is Render
            },
        },
{
    let mut tera = new_tera();
    match template_result(add_template(&mut tera, "cloud-init", template)) {
        Ok(_) => {},
        Err(error) => return Err(error),
    }
    let values = cloud_init_values(config);
    let ghost all = entry_texts(values@);
    let mut context = new_context();
    let mut i: usize = 0;
    while i < values.len()
        invariant
            i <= values@.len(),
            all == entry_texts(values@),
            context_entries(context) == as_map(all.take(i as int)),
        decreases values@.len() - i,
    {
        insert_text(&mut context, values[i].name.as_str(), values[i].value.as_str());
        proof {
            assert(all.take(i + 1).drop_last() =~= all.take(i as int));
        }
        i += 1;
    }
    proof {
        assert(all.take(i as int) =~= all);
        reveal_strlit("cloud-init");
        reveal_strlit(".html");
        reveal_strlit(".htm");
        reveal_strlit(".xml");
        let name = "cloud-init"@;
        assert(name.subrange(5, 10)[0] != ".html"@[0]);
        assert(name.subrange(6, 10)[0] != ".htm"@[0]);
        assert(!escapes(name));
    }
    render_result(render(&tera, "cloud-init", &context))
}

/// Whether no two values of a list have one name.
pub open spec fn distinct_names(values: Seq<(Seq<char>, Seq<char>)>) -> bool {
    forall|i: int, j: int|
        0 <= i < j < values.len() ==> (#[trigger] values[i]).0 != (#[trigger] values[j]).0
}

proof fn as_map_has_value(values: Seq<(Seq<char>, Seq<char>)>, at: int)
    requires
        distinct_names(values),
        0 <= at < values.len(),
    ensures
        as_map(values).contains_key(values[at].0),
        as_map(values)[values[at].0] == values[at].1,
    decreases values.len(),
{
    if at < values.len() - 1 {
        let shorter = values.drop_last();
        assert(distinct_names(shorter)) by {
            assert forall|i: int, j: int| 0 <= i < j < shorter.len() implies (
            #[trigger] shorter[i]).0 != (#[trigger] shorter[j]).0 by {
                assert(values[i].0 != values[j].0);
            }
        }
        as_map_has_value(shorter, at);
        assert(values[at].0 != values[values.len() - 1].0);
    }
}

/// Every value of the configuration reaches the template under its own name.
pub proof fn law_every_value_has_its_name(config: ResolvedConfig, at: int)
    requires
        0 <= at < values_of(config).len(),
    ensures
        as_map(values_of(config)).contains_key(values_of(config)[at].0),
        as_map(values_of(config))[values_of(config)[at].0] == values_of(config)[at].1,
{
    reveal_strlit("domain_platform");
    reveal_strlit("domain_apps");
    reveal_strlit("domain_api");
    reveal_strlit("domain_docs");
    reveal_strlit("domain_git");
    reveal_strlit("domain_ssh");
    reveal_strlit("cf_api_key");
    reveal_strlit("cf_email");
    reveal_strlit("resend_api_key");
    reveal_strlit("ssh_key");
    reveal_strlit("notify_email");
    reveal_strlit("tengu_release");
    let values = values_of(config);
    assert(values[0].0.len() == 15);
    assert(values[1].0.len() == 11 && values[1].0[7] == 'a');
    assert(values[2].0.len() == 10 && values[2].0[7] == 'a' && values[2].0[0] == 'd');
    assert(values[3].0.len() == 11 && values[3].0[7] == 'd');
    assert(values[4].0.len() == 10 && values[4].0[7] == 'g' && values[4].0[0] == 'd');
    assert(values[5].0.len() == 10 && values[5].0[7] == 's' && values[5].0[0] == 'd');
    assert(values[6].0.len() == 10 && values[6].0[0] == 'c');
    assert(values[7].0.len() == 8);
    assert(values[8].0.len() == 14);
    assert(values[9].0.len() == 7);
    assert(values[10].0.len() == 12);
    assert(values[11].0.len() == 13);
    assert(distinct_names(values_of(config)));
    as_map_has_value(values_of(config), at);
}

/// A template of text and placeholders that names nothing but values of the configuration can
/// always be filled in.
pub proof fn law_known_template_renders(config: ResolvedConfig, template: Seq<char>)
    requires
        placeholders_only(template),
        forall|at: int|
            0 <= at < template.len() && #[trigger] occurs_at("{{"@, template, at) ==> exists|i: int|
                0 <= i < values_of(config).len() && (#[trigger] values_of(config)[i]).0
                    == placeholder_name(template, at + 2),
    ensures
        filled(template, as_map(values_of(config))) is Some,
{
    let entries = as_map(values_of(config));
    assert forall|at: int|
        0 <= at < template.len() && #[trigger] occurs_at("{{"@, template, at) implies entries.contains_key(
        placeholder_name(template, at + 2),
    ) by {
        let i = choose|i: int|
            0 <= i < values_of(config).len() && (#[trigger] values_of(config)[i]).0
                == placeholder_name(template, at + 2);
        law_every_value_has_its_name(config, i);
    }
    law_known_names_are_filled(template, entries, 0);
}

/// How many lines a preview shows.
pub const PREVIEW_LINES: usize = 50;

/// The lines of a preview: the first lines of the content, and a line that says that it is cut.
pub fn preview_lines(content: &str) -> (shown: Vec<String>)
    ensures
        texts(shown@) == at_most(lines(content@), 50).push("... (truncated)"@),
{
    let mut shown = first_lines(content, PREVIEW_LINES);
    let ghost beginning = texts(shown@);
    shown.push("... (truncated)".to_owned());
    proof {
        assert(texts(shown@) =~= beginning.push("... (truncated)"@));
    }
    shown
}

/// A preview shows at most fifty lines of the content, and these are its first ones.
pub proof fn law_preview_is_a_beginning(content: Seq<char>)
    ensures
        at_most(lines(content), 50).len() <= 50,
        at_most(lines(content), 50).is_prefix_of(lines(content)),
{
}

} // verus!
