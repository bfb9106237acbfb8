//! The rows of the tables that the program prints.

use vstd::prelude::*;

use crate::hetzner::HetznerParams;
use crate::resolve::ResolvedConfig;
use crate::tengu_config::TenguConfig;

verus! {

use vstd::utf8::{decode_utf8, decode_utf8_encode_utf8, decode_utf8_split, encode_utf8,
    encode_utf8_decode_utf8, encode_utf8_valid_utf8, is_ascii_chars, is_ascii_chars_encode_utf8,
    is_char_boundary, is_char_boundary_iff_not_is_continuation_byte, valid_utf8_split};

/// A row of a table: what it is about, and its value.
#[derive(Debug)]
pub struct Row {
    pub label: String,
    pub value: String,
}

/// The contents of rows.
pub open spec fn row_texts(rows: Seq<Row>) -> Seq<(Seq<char>, Seq<char>)> {
    rows.map_values(|row: Row| (row.label@, row.value@))
}

fn row(label: &str, value: String) -> (res: Row)
    ensures
        res.label@ == label@,
        res.value@ == value@,
{
    Row { label: label.to_owned(), value }
}

/// How many bytes of a secret are shown.
pub const SHOWN_BYTES: usize = 12;

/// Whether a key can be cut after the bytes that are shown: a character ends there, or the key
/// has no more than that.
pub open spec fn maskable(key: Seq<char>) -> bool {
    encode_utf8(key).len() <= SHOWN_BYTES || is_char_boundary(encode_utf8(key), SHOWN_BYTES as int)
}

/// The part of a key that is shown.
pub open spec fn shown_part(key: Seq<char>) -> Seq<char> {
    if encode_utf8(key).len() <= SHOWN_BYTES {
        key
    } else {
        decode_utf8(encode_utf8(key).subrange(0, SHOWN_BYTES as int))
    }
}

/// Whether a key can be cut after the bytes that are shown.
pub fn is_maskable(key: &str) -> (yes: bool)
    ensures
        yes == maskable(key@),
{
    key.as_bytes().len() <= SHOWN_BYTES || key.is_char_boundary(SHOWN_BYTES)
}

/// The beginning of a key, followed by dots.
pub fn masked_key(key: &str) -> (masked: String)
    requires
        maskable(key@),
    ensures
        masked@ == shown_part(key@) + "..."@,
{
    if key.as_bytes().len() <= SHOWN_BYTES {
        return key.to_owned().concat("...");
    }
    let (shown, _) = key.split_at(SHOWN_BYTES);
    proof {
        encode_utf8_decode_utf8(shown@);
    }
    shown.to_owned().concat("...")
}

/// What is shown of a key is its beginning, and at most twelve bytes of it.
pub proof fn law_mask_shows_only_the_beginning(key: Seq<char>)
    requires
        maskable(key),
    ensures
        shown_part(key).is_prefix_of(key),
        encode_utf8(shown_part(key)).len() <= 12,
{
    let bytes = encode_utf8(key);
    encode_utf8_valid_utf8(key);
    encode_utf8_decode_utf8(key);
    if bytes.len() > SHOWN_BYTES {
        decode_utf8_split(bytes, SHOWN_BYTES as int);
        valid_utf8_split(bytes, SHOWN_BYTES as int);
        decode_utf8_encode_utf8(bytes.subrange(0, SHOWN_BYTES as int));
    }
}

/// An ASCII key can always be masked, and its first twelve characters are shown.
pub proof fn law_ascii_key_is_maskable(key: Seq<char>)
    requires
        is_ascii_chars(key),
    ensures
        maskable(key),
        shown_part(key) == if key.len() <= 12 {
            key
        } else {
            key.take(12)
        },
{
    let bytes = encode_utf8(key);
    is_ascii_chars_encode_utf8(key);
    encode_utf8_valid_utf8(key);
    if key.len() > 12 {
        let beginning = key.take(12);
        assert(key[12] as u8 == bytes[12]);
        is_char_boundary_iff_not_is_continuation_byte(bytes, 12);
        is_ascii_chars_encode_utf8(beginning);
        assert(encode_utf8(beginning) =~= bytes.subrange(0, 12)) by {
            assert forall|i: int| 0 <= i < 12 implies encode_utf8(beginning)[i] == bytes[i] by {
                assert(beginning[i] == key[i]);
            }
        }
        encode_utf8_decode_utf8(beginning);
    }
}

/// The rows that show the configuration of the direct flow.
pub open spec fn provision_config_table(config: ResolvedConfig) -> Seq<(Seq<char>, Seq<char>)> {
    seq![
        ("Cloudflare"@, config.cf_email@),
        ("Resend"@, shown_part(config.resend_api_key@) + "..."@),
        ("Domains"@, config.domain_platform@ + ", "@ + config.domain_apps@),
        ("Release"@, config.release@),
    ]
}

/// The rows that show the configuration of the direct flow.
pub fn provision_config_rows(config: &ResolvedConfig) -> (rows: Vec<Row>)
    requires
        maskable(config.resend_api_key@),
    ensures
        row_texts(rows@) == provision_config_table(*config),
{
    let mut rows: Vec<Row> = Vec::new();
    rows.push(row("Cloudflare", config.cf_email.clone()));
    rows.push(row("Resend", masked_key(config.resend_api_key.as_str())));
    rows.push(
        row("Domains", config.domain_platform.clone().concat(", ").concat(config.domain_apps.as_str())),
    );
    rows.push(row("Release", config.release.clone()));
    proof {
        assert(row_texts(rows@) =~= provision_config_table(*config));
    }
    rows
}

/// The rows that show the configuration of the Hetzner flow.
pub open spec fn hetzner_config_table(
    config: ResolvedConfig,
    params: HetznerParams,
    type_info: Seq<char>,
) -> Seq<(Seq<char>, Seq<char>)> {
    seq![
        ("Name"@, params.name@),
        ("Type"@, params.server_type@ + " ("@ + type_info + ")"@),
        ("Location"@, params.location@),
        ("Image"@, params.image@),
    ] + provision_config_table(config)
}

/// The rows that show the configuration of the Hetzner flow; `type_info` describes the server
/// type.
pub fn hetzner_config_rows(config: &ResolvedConfig, params: &HetznerParams, type_info: &str) -> (rows:
    Vec<Row>)
    requires
        maskable(config.resend_api_key@),
    ensures
        row_texts(rows@) == hetzner_config_table(*config, *params, type_info@),
{
    let mut rows: Vec<Row> = Vec::new();
    rows.push(row("Name", params.name.clone()));
    rows.push(
        row("Type", params.server_type.clone().concat(" (").concat(type_info).concat(")")),
    );
    rows.push(row("Location", params.location.clone()));
    rows.push(row("Image", params.image.clone()));
    let ghost own = rows@;
    let mut common = provision_config_rows(config);
    let ghost shared = common@;
    rows.append(&mut common);
    proof {
        assert(row_texts(rows@) =~= row_texts(own) + row_texts(shared));
        assert(row_texts(rows@) =~= hetzner_config_table(*config, *params, type_info@));
    }
    rows
}

/// The addresses of the API, the docs and the apps.
pub open spec fn address_table(domain_platform: Seq<char>, domain_apps: Seq<char>) -> Seq<
    (Seq<char>, Seq<char>),
> {
    seq![
        ("API"@, "https://api."@ + domain_platform),
        ("Docs"@, "https://docs."@ + domain_platform),
        ("Apps"@, "https://<app>."@ + domain_apps),
    ]
}

fn address_rows(domain_platform: &str, domain_apps: &str) -> (rows: Vec<Row>)
    ensures
        row_texts(rows@) == address_table(domain_platform@, domain_apps@),
{
    let mut rows: Vec<Row> = Vec::new();
    rows.push(row("API", "https://api.".to_owned().concat(domain_platform)));
    rows.push(row("Docs", "https://docs.".to_owned().concat(domain_platform)));
    rows.push(row("Apps", "https://<app>.".to_owned().concat(domain_apps)));
    proof {
        assert(row_texts(rows@) =~= address_table(domain_platform@, domain_apps@));
    }
    rows
}

/// The rows that are shown when a host was provisioned over SSH.
pub fn baremetal_success_rows(config: &TenguConfig) -> (rows: Vec<Row>)
    ensures
        row_texts(rows@) == address_table(config.domain_platform@, config.domain_apps@),
{
    address_rows(config.domain_platform.as_str(), config.domain_apps.as_str())
}

/// The rows that are shown when a Hetzner server is ready.
pub fn success_rows(config: &ResolvedConfig) -> (rows: Vec<Row>)
    ensures
        row_texts(rows@) == seq![("SSH"@, "ssh chi@ssh."@ + config.domain_platform@)] + address_table(
            config.domain_platform@,
            config.domain_apps@,
        ),
{
    let mut rows: Vec<Row> = Vec::new();
    rows.push(row("SSH", "ssh chi@ssh.".to_owned().concat(config.domain_platform.as_str())));
    let ghost own = rows@;
    let mut addresses = address_rows(config.domain_platform.as_str(), config.domain_apps.as_str());
    let ghost shared = addresses@;
    rows.append(&mut addresses);
    proof {
        assert(row_texts(rows@) =~= row_texts(own) + row_texts(shared));
        assert(row_texts(own) =~= seq![("SSH"@, "ssh chi@ssh."@ + config.domain_platform@)]);
    }
    rows
}

} // verus!
