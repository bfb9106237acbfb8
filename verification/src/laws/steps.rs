//! Laws of the file steps: what the commands do, in terms of the step.

use vstd::prelude::*;

use crate::steps::file::WriteFile;
use crate::steps::{CloudInitFragment, Step};

verus! {

use crate::encoding::{base64_decoded, hex_text, is_hash_text, law_base64_is_quotable,
    law_base64_round_trip, sha256};
use crate::steps::file::payload_text;
use crate::text::texts;
use vstd::utf8::encode_utf8;

/// A new step has the path and the content that it is given, no options, and says what it writes.
pub proof fn law_new_step(path: String, content: String, step: WriteFile)
    requires
        call_ensures(WriteFile::new, (path, content), step),
    ensures
        step.path@ == path@,
        step.content@ == content@,
        step.permissions is None,
        step.owner is None,
        step.description@ == "Write "@ + path@,
{
}

/// Setting the permissions changes nothing else.
pub proof fn law_with_permissions(step: WriteFile, permissions: String, res: WriteFile)
    requires
        call_ensures(WriteFile::with_permissions, (step, permissions), res),
    ensures
        res.permissions is Some && res.permissions->0@ == permissions@,
        res.path == step.path,
        res.content == step.content,
        res.owner == step.owner,
        res.description@ == step.description@,
{
}

/// Setting the owner changes nothing else.
pub proof fn law_with_owner(step: WriteFile, owner: String, res: WriteFile)
    requires
        call_ensures(WriteFile::with_owner, (step, owner), res),
    ensures
        res.owner is Some && res.owner->0@ == owner@,
        res.path == step.path,
        res.content == step.content,
        res.permissions == step.permissions,
        res.description@ == step.description@,
{
}

/// A copy of a step is the same step.
pub proof fn law_step_copy(step: &WriteFile, copy: WriteFile)
    requires
        call_ensures(<WriteFile as Clone>::clone, (step,), copy),
    ensures
        copy == *step,
{
}

/// A step is described by its description.
pub proof fn law_step_description(step: &WriteFile, description: &str)
    requires
        call_ensures(<WriteFile as Step>::description, (step,), description),
    ensures
        description@ == step.description@,
{
}

/// Cloud-init writes one file, with the path, the content and the options of the step.
pub proof fn law_cloud_init_file(step: &WriteFile, fragment: CloudInitFragment)
    requires
        call_ensures(<WriteFile as Step>::to_cloud_init, (step,), fragment),
    ensures
        fragment.write_files@.len() == 1,
        fragment.write_files@[0].path@ == step.path@,
        fragment.write_files@[0].content@ == step.content@,
        fragment.write_files@[0].permissions == step.permissions,
        fragment.write_files@[0].owner == step.owner,
{
}

/// The hash of a step is the SHA-256 digest of the whole content, in 64 hexadecimal digits.
pub proof fn law_content_hash(step: &WriteFile, hash: String)
    requires
        call_ensures(WriteFile::content_hash, (step,), hash),
    ensures
        hash@ == hex_text(sha256(encode_utf8(step.content@))),
        hash@.len() == 64,
{
}

/// Whether a command writes the bytes that `payload` decodes to into the file at `path`, unless the
/// file has the digest `hash`. The payload holds no quote, so it is all that `echo` prints.
pub open spec fn writes(command: Seq<char>, path: Seq<char>, hash: Seq<char>, payload: Seq<char>) -> bool {
    &&& !payload.contains('\'')
    &&& command == "CURRENT=$(sha256sum '"@ + path
        + "' 2>/dev/null | cut -d' ' -f1 || echo 'none')\nif [ \"$CURRENT\" != \""@ + hash
        + "\" ]; then\necho '"@ + payload + "' | base64 -d > '"@ + path + "'\nfi"@
}

/// The second command writes the whole content of the step, for every content: what it prints decodes
/// to the UTF-8 encoding of the content. The digest that it compares with is that of the very bytes
/// that it writes, so a file that was written is not written again.
pub proof fn law_script_writes_content(step: &WriteFile, commands: Vec<String>)
    requires
        call_ensures(<WriteFile as Step>::to_bash, (step,), commands),
    ensures
        commands@.len() >= 2,
        exists|payload: Seq<char>|
            {
                &&& #[trigger] writes(
                    commands@[1]@,
                    step.path@,
                    hex_text(sha256(base64_decoded(payload))),
                    payload,
                )
                &&& base64_decoded(payload) == encode_utf8(step.content@)
                &&& hex_text(sha256(base64_decoded(payload))).len() == 64
            },
{
    let payload = payload_text(step.content@);
    law_base64_round_trip(encode_utf8(step.content@));
    law_base64_is_quotable(encode_utf8(step.content@));
    let all = texts(commands@);
    assert(all.len() == commands@.len());
    assert(all[1] == commands@[1]@);
    assert(writes(commands@[1]@, step.path@, hex_text(sha256(base64_decoded(payload))), payload));
}

/// The first command makes the parent directory. After the second, the mode is set if there is one,
/// then the owner if there is one, and nothing else is done.
pub proof fn law_script_sets_options(step: &WriteFile, commands: Vec<String>)
    requires
        call_ensures(<WriteFile as Step>::to_bash, (step,), commands),
    ensures
        commands@.len() >= 2,
        commands@[0]@ == "mkdir -p \"$(dirname '"@ + step.path@ + "')\""@,
        step.permissions is None && step.owner is None ==> commands@.len() == 2,
        step.permissions is Some && step.owner is None ==> commands@.len() == 3,
        step.permissions is None && step.owner is Some ==> commands@.len() == 3,
        step.permissions is Some && step.owner is Some ==> commands@.len() == 4,
        step.permissions is Some ==> commands@[2]@ == "chmod "@ + step.permissions->0@ + " '"@
            + step.path@ + "'"@,
        step.owner is Some ==> commands@.last()@ == "chown "@ + step.owner->0@ + " '"@ + step.path@
            + "'"@,
{
    let all = texts(commands@);
    assert(all.len() == commands@.len());
    assert forall|i: int| 0 <= i < all.len() implies all[i] == #[trigger] commands@[i]@ by {}
}

/// The commands for a digest write the whole content, and compare with that digest.
pub proof fn law_script_for_digest(step: &WriteFile, expected_hash: &str, commands: Vec<String>)
    requires
        call_ensures(WriteFile::bash_for, (step, expected_hash), commands),
    ensures
        commands@.len() >= 2,
        exists|payload: Seq<char>|
            {
                &&& #[trigger] writes(commands@[1]@, step.path@, expected_hash@, payload)
                &&& base64_decoded(payload) == encode_utf8(step.content@)
            },
        commands@[0]@ == "mkdir -p \"$(dirname '"@ + step.path@ + "')\""@,
        step.permissions is Some ==> commands@.len() > 2 && commands@[2]@ == "chmod "@
            + step.permissions->0@ + " '"@ + step.path@ + "'"@,
        step.owner is Some ==> commands@.last()@ == "chown "@ + step.owner->0@ + " '"@ + step.path@
            + "'"@,
        commands@.len() == 2 + (if step.permissions is Some {
            1int
        } else {
            0
        }) + (if step.owner is Some {
            1int
        } else {
            0
        }),
{
    let payload = payload_text(step.content@);
    law_base64_round_trip(encode_utf8(step.content@));
    law_base64_is_quotable(encode_utf8(step.content@));
    let all = texts(commands@);
    assert(all.len() == commands@.len());
    assert forall|i: int| 0 <= i < all.len() implies all[i] == #[trigger] commands@[i]@ by {}
    assert(writes(commands@[1]@, step.path@, expected_hash@, payload));
}

/// The check succeeds for a file with the digest of the whole content.
pub proof fn law_check_compares_digest(step: &WriteFile, command: Option<String>)
    requires
        call_ensures(<WriteFile as Step>::check_command, (step,), command),
    ensures
        command is Some,
        command->0@ == "[ -f '"@ + step.path@ + "' ] && [ \"$(sha256sum '"@ + step.path@
            + "' | cut -d' ' -f1)\" = \""@ + hex_text(sha256(encode_utf8(step.content@))) + "\" ]"@,
{
}

/// The check for a digest compares with that digest.
pub proof fn law_check_for_digest(step: &WriteFile, expected_hash: &str, command: String)
    requires
        call_ensures(WriteFile::check_for, (step, expected_hash), command),
    ensures
        command@ == "[ -f '"@ + step.path@ + "' ] && [ \"$(sha256sum '"@ + step.path@
            + "' | cut -d' ' -f1)\" = \""@ + expected_hash@ + "\" ]"@,
{
}

/// Script and check of a step agree on the digest: a file that the script wrote passes the check.
pub proof fn law_script_and_check_agree(
    step: &WriteFile,
    commands: Vec<String>,
    command: Option<String>,
)
    requires
        call_ensures(<WriteFile as Step>::to_bash, (step,), commands),
        call_ensures(<WriteFile as Step>::check_command, (step,), command),
    ensures
        command is Some,
        exists|payload: Seq<char>, hash: Seq<char>|
            {
                &&& #[trigger] writes(commands@[1]@, step.path@, hash, payload)
                &&& is_hash_text(hash)
                &&& hash == hex_text(sha256(base64_decoded(payload)))
                &&& command->0@ == "[ -f '"@ + step.path@ + "' ] && [ \"$(sha256sum '"@ + step.path@
                    + "' | cut -d' ' -f1)\" = \""@ + hash + "\" ]"@
            },
{
    let payload = payload_text(step.content@);
    law_base64_round_trip(encode_utf8(step.content@));
    law_base64_is_quotable(encode_utf8(step.content@));
    let all = texts(commands@);
    assert(all.len() == commands@.len());
    assert(all[1] == commands@[1]@);
    let hash = hex_text(sha256(base64_decoded(payload)));
    assert(writes(commands@[1]@, step.path@, hash, payload));
}

} // verus!
