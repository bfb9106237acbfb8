//! Laws of what is shown, and of what is run on a server.

use vstd::prelude::*;

use crate::cloud_init::preview_lines;
use crate::hetzner::HetznerParams;
use crate::remote::{is_progress_line, log_step, probe_step, ssh_log_args, ssh_probe_args, LogStep,
    ProbeStep};
use crate::resolve::ResolvedConfig;
use crate::tables::{baremetal_success_rows, hetzner_config_rows, is_maskable, masked_key,
    provision_config_rows, success_rows, Row};
use crate::tengu_config::TenguConfig;
use crate::tunnel::cloudflared_login_command;

verus! {

use crate::laws::files::occurs_between;
use crate::tables::{law_mask_shows_only_the_beginning, maskable, row_texts, shown_part};
use crate::text::{lines, texts};
use vstd::utf8::{decode_utf8_encode_utf8, encode_utf8, encode_utf8_valid_utf8, is_char_boundary,
    valid_utf8_split};

/// Whether `masked` is the beginning of a key, of twelve bytes or as many as the key has, with three
/// dots behind it.
pub open spec fn masks(key: Seq<char>, masked: Seq<char>) -> bool {
    exists|shown: Seq<char>|
        {
            &&& masked == #[trigger] (shown + "..."@)
            &&& shown.is_prefix_of(key)
            &&& encode_utf8(key).len() <= 12 ==> shown == key
            &&& encode_utf8(key).len() > 12 ==> encode_utf8(shown).len() == 12
        }
}

proof fn shown_part_masks(key: Seq<char>)
    requires
        maskable(key),
    ensures
        masks(key, shown_part(key) + "..."@),
{
    let shown = shown_part(key);
    law_mask_shows_only_the_beginning(key);
    let bytes = encode_utf8(key);
    if bytes.len() > 12 {
        encode_utf8_valid_utf8(key);
        valid_utf8_split(bytes, 12);
        decode_utf8_encode_utf8(bytes.subrange(0, 12));
    }
    assert(shown + "..."@ == shown + "..."@);
}

/// A masked key shows its first twelve bytes, or all of a shorter one, and dots.
pub proof fn law_masked_key(key: &str, masked: String)
    requires
        call_ensures(masked_key, (key,), masked),
        maskable(key@),
    ensures
        masks(key@, masked@),
{
    shown_part_masks(key@);
}

/// A key can be masked exactly if it has no more than twelve bytes, or a character ends after twelve
/// of them.
pub proof fn law_is_maskable(key: &str, yes: bool)
    requires
        call_ensures(is_maskable, (key,), yes),
    ensures
        yes <==> encode_utf8(key@).len() <= 12 || is_char_boundary(encode_utf8(key@), 12),
{
}

/// Whether a row has the label and the value.
pub open spec fn is_row(row: Row, label: Seq<char>, value: Seq<char>) -> bool {
    row.label@ == label && row.value@ == value
}

/// The table of the direct flow shows the Cloudflare email, the masked Resend key, both domains and
/// the release.
pub proof fn law_provision_rows(config: &ResolvedConfig, rows: Vec<Row>)
    requires
        call_ensures(provision_config_rows, (config,), rows),
        maskable(config.resend_api_key@),
    ensures
        rows@.len() == 4,
        is_row(rows@[0], "Cloudflare"@, config.cf_email@),
        rows@[1].label@ == "Resend"@,
        masks(config.resend_api_key@, rows@[1].value@),
        is_row(
            rows@[2],
            "Domains"@,
            config.domain_platform@ + ", "@ + config.domain_apps@,
        ),
        is_row(rows@[3], "Release"@, config.release@),
{
    shown_part_masks(config.resend_api_key@);
    let all = row_texts(rows@);
    assert(all.len() == rows@.len());
    assert forall|i: int| 0 <= i < all.len() implies all[i] == ((#[trigger] rows@[i]).label@, rows@[i].value@) by {}
}

/// The table of the Hetzner flow shows the parameters of the server, with the description of its
/// type, and then what the table of the direct flow shows.
pub proof fn law_hetzner_rows(
    config: &ResolvedConfig,
    params: &HetznerParams,
    type_info: &str,
    rows: Vec<Row>,
)
    requires
        call_ensures(hetzner_config_rows, (config, params, type_info), rows),
        maskable(config.resend_api_key@),
    ensures
        rows@.len() == 8,
        is_row(rows@[0], "Name"@, params.name@),
        is_row(rows@[1], "Type"@, params.server_type@ + " ("@ + type_info@ + ")"@),
        is_row(rows@[2], "Location"@, params.location@),
        is_row(rows@[3], "Image"@, params.image@),
        is_row(rows@[4], "Cloudflare"@, config.cf_email@),
        rows@[5].label@ == "Resend"@,
        masks(config.resend_api_key@, rows@[5].value@),
        is_row(
            rows@[6],
            "Domains"@,
            config.domain_platform@ + ", "@ + config.domain_apps@,
        ),
        is_row(rows@[7], "Release"@, config.release@),
{
    shown_part_masks(config.resend_api_key@);
    let all = row_texts(rows@);
    assert(all.len() == rows@.len());
    assert forall|i: int| 0 <= i < all.len() implies all[i] == ((#[trigger] rows@[i]).label@, rows@[i].value@) by {}
}

/// A provisioned host is shown with the addresses of its API, its docs and its apps.
pub proof fn law_baremetal_rows(config: &TenguConfig, rows: Vec<Row>)
    requires
        call_ensures(baremetal_success_rows, (config,), rows),
    ensures
        rows@.len() == 3,
        is_row(rows@[0], "API"@, "https://api."@ + config.domain_platform@),
        is_row(rows@[1], "Docs"@, "https://docs."@ + config.domain_platform@),
        is_row(rows@[2], "Apps"@, "https://<app>."@ + config.domain_apps@),
{
    let all = row_texts(rows@);
    assert(all.len() == rows@.len());
    assert forall|i: int| 0 <= i < all.len() implies all[i] == ((#[trigger] rows@[i]).label@, rows@[i].value@) by {}
}

/// A Hetzner server is shown with its SSH command and the same addresses.
pub proof fn law_success_rows(config: &ResolvedConfig, rows: Vec<Row>)
    requires
        call_ensures(success_rows, (config,), rows),
    ensures
        rows@.len() == 4,
        is_row(rows@[0], "SSH"@, "ssh chi@ssh."@ + config.domain_platform@),
        is_row(rows@[1], "API"@, "https://api."@ + config.domain_platform@),
        is_row(rows@[2], "Docs"@, "https://docs."@ + config.domain_platform@),
        is_row(rows@[3], "Apps"@, "https://<app>."@ + config.domain_apps@),
{
    let all = row_texts(rows@);
    assert(all.len() == rows@.len());
    assert forall|i: int| 0 <= i < all.len() implies all[i] == ((#[trigger] rows@[i]).label@, rows@[i].value@) by {}
}

/// A preview shows the first fifty lines, or all of fewer, and says that it is cut.
pub proof fn law_preview(content: &str, shown: Vec<String>)
    requires
        call_ensures(preview_lines, (content,), shown),
    ensures
        lines(content@).len() <= 50 ==> shown@.len() == lines(content@).len() + 1,
        lines(content@).len() > 50 ==> shown@.len() == 51,
        forall|i: int| 0 <= i < shown@.len() - 1 ==> (#[trigger] shown@[i])@ == lines(content@)[i],
        shown@.last()@ == "... (truncated)"@,
{
    let all = texts(shown@);
    assert(all.len() == shown@.len());
    assert forall|i: int| 0 <= i < all.len() implies all[i] == #[trigger] shown@[i]@ by {}
}

/// A line tells of progress exactly if one of the words stands in it, whatever is before and behind
/// the word.
pub proof fn law_progress_line(line: &str, yes: bool)
    requires
        call_ensures(is_progress_line, (line,), yes),
    ensures
        yes <==> {
            ||| exists|before: Seq<char>, after: Seq<char>|
                line@ == #[trigger] (before + "Setting up"@ + after)
            ||| exists|before: Seq<char>, after: Seq<char>|
                line@ == #[trigger] (before + "Unpacking"@ + after)
            ||| exists|before: Seq<char>, after: Seq<char>|
                line@ == #[trigger] (before + "Created symlink"@ + after)
            ||| exists|before: Seq<char>, after: Seq<char>|
                line@ == #[trigger] (before + "enabled"@ + after)
            ||| exists|before: Seq<char>, after: Seq<char>|
                line@ == #[trigger] (before + "Processing"@ + after)
            ||| exists|before: Seq<char>, after: Seq<char>|
                line@ == #[trigger] (before + "tengu"@ + after)
            ||| exists|before: Seq<char>, after: Seq<char>|
                line@ == #[trigger] (before + "Tengu"@ + after)
        },
{
    occurs_between("Setting up"@, line@);
    occurs_between("Unpacking"@, line@);
    occurs_between("Created symlink"@, line@);
    occurs_between("enabled"@, line@);
    occurs_between("Processing"@, line@);
    occurs_between("tengu"@, line@);
    occurs_between("Tengu"@, line@);
}

/// A line that tells of progress is shown as it is, another one is passed over, and reading stops
/// only where the log cannot be read.
pub proof fn law_log_step(line: Option<String>, step: LogStep, text: &str, yes: bool)
    requires
        call_ensures(log_step, (line,), step),
        call_ensures(is_progress_line, (text,), yes),
    ensures
        line is None <==> step is Stop,
        line is Some && line->0@ == text@ && yes ==> step is Show && step->Show_0@ == text@,
        line is Some && line->0@ == text@ && !yes ==> step is Skip,
{
}

/// Waiting ends exactly with a try that succeeds; after any other it goes on in three seconds.
pub proof fn law_probe_step(exit: Option<bool>, step: ProbeStep)
    requires
        call_ensures(probe_step, (exit,), step),
    ensures
        exit == Some(true) <==> step == ProbeStep::Ready,
        exit != Some(true) ==> step == ProbeStep::RetryAfter(3),
{
}

/// A server is tried at its whole address, as the user `chi`, without questions and for five seconds
/// at most.
pub proof fn law_probe_args(ip: &str, args: Vec<String>)
    requires
        call_ensures(ssh_probe_args, (ip,), args),
    ensures
        args@.len() == 12,
        args@[0]@ == "-o"@ && args@[1]@ == "StrictHostKeyChecking=no"@,
        args@[2]@ == "-o"@ && args@[3]@ == "UserKnownHostsFile=/dev/null"@,
        args@[4]@ == "-o"@ && args@[5]@ == "LogLevel=ERROR"@,
        args@[6]@ == "-o"@ && args@[7]@ == "ConnectTimeout=5"@,
        args@[8]@ == "-o"@ && args@[9]@ == "BatchMode=yes"@,
        args@[10]@ == "chi@"@ + ip@,
        args@[11]@ == "true"@,
{
    let all = texts(args@);
    assert(all.len() == args@.len());
    assert forall|i: int| 0 <= i < all.len() implies all[i] == #[trigger] args@[i]@ by {}
}

/// The log of a server is followed at its whole address, as the user `chi`, until cloud-init is done.
pub proof fn law_log_args(ip: &str, args: Vec<String>)
    requires
        call_ensures(ssh_log_args, (ip,), args),
    ensures
        args@.len() == 8,
        args@[0]@ == "-o"@ && args@[1]@ == "StrictHostKeyChecking=no"@,
        args@[2]@ == "-o"@ && args@[3]@ == "UserKnownHostsFile=/dev/null"@,
        args@[4]@ == "-o"@ && args@[5]@ == "LogLevel=ERROR"@,
        args@[6]@ == "chi@"@ + ip@,
        args@[7]@
            == "while [ ! -f /var/log/cloud-init-output.log ]; do sleep 1; done; tail -f /var/log/cloud-init-output.log 2>/dev/null & PID=$!; cloud-init status --wait >/dev/null 2>&1; sleep 2; kill $PID 2>/dev/null"@,
{
    let all = texts(args@);
    assert(all.len() == args@.len());
    assert forall|i: int| 0 <= i < all.len() implies all[i] == #[trigger] args@[i]@ by {}
}

/// The login is `cloudflared tunnel login`.
pub proof fn law_login_command(command: (String, Vec<String>))
    requires
        call_ensures(cloudflared_login_command, (), command),
    ensures
        command.0@ == "cloudflared"@,
        command.1@.len() == 2,
        command.1@[0]@ == "tunnel"@,
        command.1@[1]@ == "login"@,
{
    let all = texts(command.1@);
    assert(all.len() == command.1@.len());
    assert forall|i: int| 0 <= i < all.len() implies all[i] == #[trigger] command.1@[i]@ by {}
}

} // verus!
