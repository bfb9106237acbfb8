//! Where the program looks for files.

use vstd::prelude::*;

use crate::text::trim;

verus! {

use crate::text::{opt_text, texts, trim_end, trim_start, trimmed, white_space};

/// `path` with a relative component appended, as paths are joined on Unix.
pub open spec fn joined(path: Seq<char>, component: Seq<char>) -> Seq<char> {
    if path.len() == 0 || path.last() == '/' {
        path + component
    } else {
        path + "/"@ + component
    }
}

/// `path` with a relative component appended, as paths are joined on Unix.
fn join(path: String, component: &str) -> (res: String)
    ensures
        res@ == joined(path@, component@),
{
    let len: usize = path.as_str().unicode_len();
    if len == 0 || path.as_str().get_char(len - 1) == '/' {
        path.concat(component)
    } else {
        path.concat("/").concat(component)
    }
}

/// The path of the configuration file.
pub open spec fn config_path_text(home: Option<Seq<char>>) -> Seq<char> {
    let base = match home {
        Some(dir) => joined(dir, ".config"@),
        None => "."@,
    };
    joined(joined(base, "tengu"@), "init.toml"@)
}

/// The path of the configuration file: always `~/.config/tengu/init.toml`, on every platform, or
/// `tengu/init.toml` in the current directory if there is no home.
pub fn config_path(home: Option<String>) -> (path: String)
    ensures
        path@ == config_path_text(opt_text(home)),
{
    let base = match home {
        Some(dir) => join(dir, ".config"),
        None => ".".to_owned(),
    };
    join(join(base, "tengu"), "init.toml")
}

/// The path of the certificate of `cloudflared`.
pub open spec fn cloudflared_cert_text(home: Option<Seq<char>>) -> Seq<char> {
    let base = match home {
        Some(dir) => dir,
        None => ""@,
    };
    joined(joined(base, ".cloudflared"@), "cert.pem"@)
}

/// The path of the certificate of `cloudflared`: in the home directory, or in the current one if
/// there is no home.
pub fn cloudflared_cert_path(home: Option<String>) -> (path: String)
    ensures
        path@ == cloudflared_cert_text(opt_text(home)),
{
    let base = match home {
        Some(dir) => dir,
        None => "".to_owned(),
    };
    join(join(base, ".cloudflared"), "cert.pem")
}

/// The files that may hold the SSH public key, most wanted first.
pub open spec fn ssh_key_files(home: Option<Seq<char>>) -> Seq<Seq<char>> {
    match home {
        Some(dir) => seq![dir + "/.ssh/id_ed25519.pub"@, dir + "/.ssh/id_rsa.pub"@],
        None => seq![],
    }
}

/// The files that may hold the SSH public key, most wanted first.
pub fn ssh_key_candidates(home: Option<String>) -> (paths: Vec<String>)
    ensures
        texts(paths@) == ssh_key_files(opt_text(home)),
{
    let mut paths: Vec<String> = Vec::new();
    if let Some(dir) = &home {
        paths.push(dir.clone().concat("/.ssh/id_ed25519.pub"));
        paths.push(dir.clone().concat("/.ssh/id_rsa.pub"));
    }
    proof {
        assert(texts(paths@) =~= ssh_key_files(opt_text(home)));
    }
    paths
}

/// The key of the first file that has one. A file that could not be read is `None`.
pub open spec fn first_key(contents: Seq<Option<String>>) -> Option<Seq<char>>
    decreases contents.len(),
{
    if contents.len() == 0 {
        None
    } else if contents[0] is Some && trimmed(contents[0]->0@).len() > 0 {
        Some(trimmed(contents[0]->0@))
    } else {
        first_key(contents.drop_first())
    }
}

/// The key of the first file that was read and is not blank, without the white space around it.
pub fn detect_ssh_key(contents: &Vec<Option<String>>) -> (key: Option<String>)
    ensures
        opt_text(key) == first_key(contents@),
{
    let mut i: usize = 0;
    proof {
        assert(contents@.skip(0) =~= contents@);
    }
    while i < contents.len()
        invariant
            i <= contents@.len(),
            first_key(contents@) == first_key(contents@.skip(i as int)),
        decreases contents@.len() - i,
    {
        if let Some(content) = &contents[i] {
            let key = trim(content.as_str());
            if !key.as_str().is_empty() {
                return Some(key);
            }
        }
        proof {
            assert(contents@.skip(i as int).drop_first() =~= contents@.skip(i + 1));
        }
        i += 1;
    }
    None
}

proof fn trim_start_begins_with_text(text: Seq<char>)
    ensures
        trim_start(text).len() > 0 ==> !white_space(trim_start(text).first()),
    decreases text.len(),
{
    if text.len() > 0 && white_space(text.first()) {
        trim_start_begins_with_text(text.drop_first());
    }
}

proof fn trim_end_ends_with_text(text: Seq<char>)
    ensures
        trim_end(text).len() > 0 ==> !white_space(trim_end(text).last()),
        trim_end(text).len() > 0 ==> trim_end(text).first() == text.first(),
        trim_end(text).len() <= text.len(),
    decreases text.len(),
{
    if text.len() > 0 && white_space(text.last()) {
        trim_end_ends_with_text(text.drop_last());
    }
}

/// A detected key is not empty, and neither begins nor ends with white space.
pub proof fn law_detected_key_is_trimmed(contents: Seq<Option<String>>)
    requires
        first_key(contents) is Some,
    ensures
        first_key(contents)->0.len() > 0,
        !white_space(first_key(contents)->0.first()),
        !white_space(first_key(contents)->0.last()),
    decreases contents.len(),
{
    if contents[0] is Some && trimmed(contents[0]->0@).len() > 0 {
        trim_start_begins_with_text(contents[0]->0@);
        trim_end_ends_with_text(trim_start(contents[0]->0@));
    } else {
        law_detected_key_is_trimmed(contents.drop_first());
    }
}

/// The configuration file is always `.config/tengu/init.toml` in the home directory.
pub proof fn law_config_file_name(home: Seq<char>)
    ensures
        config_path_text(Some(home)) == joined(home, ".config/tengu/init.toml"@),
{
    reveal_strlit(".config/tengu/init.toml");
    reveal_strlit(".config");
    reveal_strlit("tengu");
    reveal_strlit("init.toml");
    reveal_strlit("/");
    let name = ".config/tengu/init.toml"@;
    assert(".config"@ + "/"@ + "tengu"@ + "/"@ + "init.toml"@ =~= name);
    assert(config_path_text(Some(home)) =~= joined(home, name));
}

} // verus!
