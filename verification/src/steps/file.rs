//! File management steps.

use vstd::prelude::*;

use super::{CloudInitFile, CloudInitFragment, Step};
use crate::encoding::{base64_encode, hex_encode, sha256_digest};
use crate::text::copy_opt;

verus! {

use crate::encoding::{base64_decoded, base64_text, hex_text, is_hash_text, is_hex_char,
    law_base64_round_trip, law_hex_is_injective, law_hex_is_plain, max_bytes, sha256};
use crate::text::{opt_text, texts};
use vstd::utf8::encode_utf8;

/// What a step does, in words. Only the step itself sets the text.
#[derive(Debug)]
pub struct Description {
    text: String,
}

impl View for Description {
    type V = Seq<char>;

    closed spec fn view(&self) -> Seq<char> {
        self.text@
    }
}

/// Writes a file with given content.
#[derive(Debug)]
pub struct WriteFile {
    /// File path.
    pub path: String,
    /// File content.
    pub content: String,
    /// File permissions (e.g. `0644`).
    pub permissions: Option<String>,
    /// File owner (e.g. `root:root`).
    pub owner: Option<String>,
    /// What the step does, in words.
    pub description: Description,
}

/// The SHA-256 digest of the UTF-8 encoding of `content`, in hexadecimal.
pub open spec fn hash_text(content: Seq<char>) -> Seq<char> {
    hex_text(sha256(encode_utf8(content)))
}

/// The UTF-8 encoding of `content`, in base64.
pub open spec fn payload_text(content: Seq<char>) -> Seq<char> {
    base64_text(encode_utf8(content))
}

/// The command that creates the parent directory of `path`.
pub open spec fn mkdir_command(path: Seq<char>) -> Seq<char> {
    "mkdir -p \"$(dirname '"@ + path + "')\""@
}

/// The commands that write `content` to `path` unless the file has the digest `hash` already.
pub open spec fn write_command(path: Seq<char>, content: Seq<char>, hash: Seq<char>) -> Seq<char> {
    "CURRENT=$(sha256sum '"@ + path
        + "' 2>/dev/null | cut -d' ' -f1 || echo 'none')\nif [ \"$CURRENT\" != \""@ + hash
        + "\" ]; then\necho '"@ + payload_text(content) + "' | base64 -d > '"@ + path + "'\nfi"@
}

/// The command that sets the permissions of `path`.
pub open spec fn chmod_command(permissions: Seq<char>, path: Seq<char>) -> Seq<char> {
    "chmod "@ + permissions + " '"@ + path + "'"@
}

/// The command that sets the owner of `path`.
pub open spec fn chown_command(owner: Seq<char>, path: Seq<char>) -> Seq<char> {
    "chown "@ + owner + " '"@ + path + "'"@
}

/// The command that succeeds if `path` is a file with the digest `hash`.
pub open spec fn check_text(path: Seq<char>, hash: Seq<char>) -> Seq<char> {
    "[ -f '"@ + path + "' ] && [ \"$(sha256sum '"@ + path + "' | cut -d' ' -f1)\" = \""@ + hash
        + "\" ]"@
}

impl WriteFile {
    /// The bash commands of the step, in order, given the digest that the file is to have.
    pub open spec fn commands_for(&self, hash: Seq<char>) -> Seq<Seq<char>> {
        let path = self.path@;
        let written = seq![mkdir_command(path), write_command(path, self.content@, hash)];
        let with_mode = match self.permissions {
            Some(permissions) => written.push(chmod_command(permissions@, path)),
            None => written,
        };
        match self.owner {
            Some(owner) => with_mode.push(chown_command(owner@, path)),
            None => with_mode,
        }
    }

    /// The bash commands of the step, in order.
    pub open spec fn commands(&self) -> Seq<Seq<char>> {
        self.commands_for(hash_text(self.content@))
    }

    /// A step that writes `content` to `path`.
    pub fn new(path: impl Into<String>, content: impl Into<String>) -> (step: Self)
        ensures
            call_ensures(Into::<String>::into, (path,), step.path),
            call_ensures(Into::<String>::into, (content,), step.content),
            step.permissions is None,
            step.owner is None,
            step.description@ == "Write "@ + step.path@,
    {
        let path: String = path.into();
        let description = Description { text: "Write ".to_owned().concat(path.as_str()) };
        Self { path, content: content.into(), permissions: None, owner: None, description }
    }

    /// Sets the file permissions.
    pub fn with_permissions(self, perms: impl Into<String>) -> (step: Self)
        ensures
            step.permissions is Some,
            call_ensures(Into::<String>::into, (perms,), step.permissions->0),
            step.path == self.path,
            step.content == self.content,
            step.owner == self.owner,
            step.description == self.description,
    {
        Self { permissions: Some(perms.into()), ..self }
    }

    /// Sets the file owner.
    pub fn with_owner(self, owner: impl Into<String>) -> (step: Self)
        ensures
            step.owner is Some,
            call_ensures(Into::<String>::into, (owner,), step.owner->0),
            step.path == self.path,
            step.content == self.content,
            step.permissions == self.permissions,
            step.description == self.description,
    {
        Self { owner: Some(owner.into()), ..self }
    }

    /// The SHA-256 digest of the content, in hexadecimal.
    pub fn content_hash(&self) -> (hash: String)
        requires
            self.fits(),
        ensures
            hash@ == hash_text(self.content@),
            is_hash_text(hash@),
    {
        let digest = sha256_digest(self.content.as_str().as_bytes());
        proof {
            law_hex_is_plain(digest@);
        }
        hex_encode(digest.as_slice())
    }

    /// The bash commands of the step, in order. The file is written only if its digest is not
    /// `expected_hash`.
    pub fn bash_for(&self, expected_hash: &str) -> (commands: Vec<String>)
        requires
            self.fits(),
        ensures
            texts(commands@) == self.commands_for(expected_hash@),
    {
        let path = self.path.as_str();
        let mut cmds: Vec<String> = Vec::new();

        // Create parent directory
        cmds.push("mkdir -p \"$(dirname '".to_owned().concat(path).concat("')\""));

        // Base64 keeps the content clear of quoting and indentation
        let encoded = base64_encode(self.content.as_str().as_bytes());

        // Compare the hash and write only if it differs
        cmds.push(
            "CURRENT=$(sha256sum '".to_owned().concat(path).concat(
                "' 2>/dev/null | cut -d' ' -f1 || echo 'none')\nif [ \"$CURRENT\" != \"",
            ).concat(expected_hash).concat("\" ]; then\necho '").concat(
                encoded.as_str(),
            ).concat("' | base64 -d > '").concat(path).concat("'\nfi"),
        );

        if let Some(perms) = &self.permissions {
            cmds.push("chmod ".to_owned().concat(perms.as_str()).concat(" '").concat(path).concat("'"));
        }
        if let Some(owner) = &self.owner {
            cmds.push("chown ".to_owned().concat(owner.as_str()).concat(" '").concat(path).concat("'"));
        }
        proof {
            assert(texts(cmds@) =~= self.commands_for(expected_hash@));
        }
        cmds
    }

    /// The command that succeeds if the file is there with the digest `expected_hash`.
    pub fn check_for(&self, expected_hash: &str) -> (command: String)
        ensures
            command@ == check_text(self.path@, expected_hash@),
    {
        let path = self.path.as_str();
        "[ -f '".to_owned().concat(path).concat("' ] && [ \"$(sha256sum '").concat(path).concat(
            "' | cut -d' ' -f1)\" = \"",
        ).concat(expected_hash).concat("\" ]")
    }
}

impl Clone for WriteFile {
    fn clone(&self) -> (copy: Self)
        ensures
            copy == *self,
    {
        Self {
            path: self.path.clone(),
            content: self.content.clone(),
            permissions: copy_opt(&self.permissions),
            owner: copy_opt(&self.owner),
            description: Description { text: self.description.text.clone() },
        }
    }
}

impl Step for WriteFile {
    open spec fn fits(&self) -> bool {
        encode_utf8(self.content@).len() <= max_bytes()
    }

    fn description(&self) -> (description: &str)
        ensures
            description@ == self.description@,
    {
        self.description.text.as_str()
    }

    fn to_cloud_init(&self) -> (fragment: CloudInitFragment)
        ensures
            fragment.write_files@ == seq![
                CloudInitFile {
                    path: self.path,
                    content: self.content,
                    permissions: self.permissions,
                    owner: self.owner,
                },
            ],
    {
        let mut write_files: Vec<CloudInitFile> = Vec::new();
        write_files.push(
            CloudInitFile {
                path: self.path.clone(),
                content: self.content.clone(),
                permissions: copy_opt(&self.permissions),
                owner: copy_opt(&self.owner),
            },
        );
        CloudInitFragment { write_files }
    }

    fn to_bash(&self) -> (commands: Vec<String>)
        ensures
            texts(commands@) == self.commands(),
            is_hash_text(hash_text(self.content@)),
    {
        let expected_hash = self.content_hash();
        self.bash_for(expected_hash.as_str())
    }

    fn check_command(&self) -> (command: Option<String>)
        ensures
            opt_text(command) == Some(check_text(self.path@, hash_text(self.content@))),
            is_hash_text(hash_text(self.content@)),
    {
        let expected_hash = self.content_hash();
        Some(self.check_for(expected_hash.as_str()))
    }
}

/// The text that the script hands to `base64 -d` decodes to the content of the file.
pub proof fn law_script_carries_content(content: Seq<char>)
    ensures
        base64_decoded(payload_text(content)) == encode_utf8(content),
{
    law_base64_round_trip(encode_utf8(content));
}

/// The hash of a step depends on its content alone, and is written in lower-case hexadecimal.
pub proof fn law_hash_depends_on_content(left: WriteFile, right: WriteFile)
    requires
        left.content@ == right.content@,
    ensures
        hash_text(left.content@) == hash_text(right.content@),
        forall|i: int|
            0 <= i < hash_text(left.content@).len() ==> is_hex_char(
                #[trigger] hash_text(left.content@)[i],
            ),
{
    law_hex_is_plain(sha256(encode_utf8(left.content@)));
}

/// A check command tells contents apart by their digests: two contents with the same check have
/// the same digest.
pub proof fn law_check_pins_digest(path: Seq<char>, left: Seq<char>, right: Seq<char>)
    requires
        check_text(path, hash_text(left)) == check_text(path, hash_text(right)),
    ensures
        sha256(encode_utf8(left)) == sha256(encode_utf8(right)),
{
    let before = "[ -f '"@ + path + "' ] && [ \"$(sha256sum '"@ + path
        + "' | cut -d' ' -f1)\" = \""@;
    let after = "\" ]"@;
    let a = check_text(path, hash_text(left));
    let b = check_text(path, hash_text(right));
    assert(a.subrange(before.len() as int, a.len() - after.len()) =~= hash_text(left));
    assert(b.subrange(before.len() as int, b.len() - after.len()) =~= hash_text(right));
    law_hex_is_injective(sha256(encode_utf8(left)), sha256(encode_utf8(right)));
}

/// The directory and the content take one command each, and so does each option that is set.
pub proof fn law_one_command_per_option(step: WriteFile)
    ensures
        step.commands().len() == 2 + (if step.permissions is Some {
            1int
        } else {
            0
        }) + (if step.owner is Some {
            1int
        } else {
            0
        }),
        step.commands()[0] == mkdir_command(step.path@),
        step.commands()[1] == write_command(
            step.path@,
            step.content@,
            hash_text(step.content@),
        ),
{
}

} // verus!
