use tengu_init::steps::file::WriteFile;
use tengu_init::steps::{CloudInitFragment, Step};

const ABC: &str = "ba7816bf8f01cfea414140de5dae2223b00361a396177a9cb410ff61f20015ad";
const EMPTY: &str = "e3b0c44298fc1c149afbf4c8996fb92427ae41e4649b934ca495991b7852b855";

#[test]
fn new_step_has_no_options() {
    let step = WriteFile::new("/etc/motd", String::from("hello"));
    assert_eq!(step.path, "/etc/motd");
    assert_eq!(step.content, "hello");
    assert_eq!(step.permissions, None);
    assert_eq!(step.owner, None);
    assert_eq!(step.description(), "Write /etc/motd");
}

#[test]
fn builders_set_one_option_each() {
    let step = WriteFile::new("/a", "b").with_permissions("0644").with_owner(String::from("root:root"));
    assert_eq!(step.permissions.as_deref(), Some("0644"));
    assert_eq!(step.owner.as_deref(), Some("root:root"));
    assert_eq!(step.path, "/a");
    assert_eq!(step.content, "b");
    let again = step.clone().with_permissions("0600");
    assert_eq!(again.permissions.as_deref(), Some("0600"));
    assert_eq!(again.owner, step.owner);
    assert_eq!(again.description(), "Write /a");
}

#[test]
fn cloud_init_lists_the_file() {
    let fragment = WriteFile::new("/a", "b\n").with_owner("u:g").to_cloud_init();
    assert_eq!(fragment.write_files.len(), 1);
    let file = &fragment.write_files[0];
    assert_eq!(file.path, "/a");
    assert_eq!(file.content, "b\n");
    assert_eq!(file.permissions, None);
    assert_eq!(file.owner.as_deref(), Some("u:g"));
    assert!(CloudInitFragment::default().write_files.is_empty());
}

#[test]
fn bash_writes_only_what_differs() {
    let commands = WriteFile::new("/etc/x/y", "abc").to_bash();
    assert_eq!(
        commands,
        vec![
            "mkdir -p \"$(dirname '/etc/x/y')\"".to_string(),
            format!(
                "CURRENT=$(sha256sum '/etc/x/y' 2>/dev/null | cut -d' ' -f1 || echo 'none')\nif [ \"$CURRENT\" != \"{}\" ]; then\necho 'YWJj' | base64 -d > '/etc/x/y'\nfi",
                ABC
            ),
        ]
    );
}

#[test]
fn bash_sets_mode_before_owner() {
    let commands = WriteFile::new("/p", "").with_owner("root:root").with_permissions("0755").to_bash();
    assert_eq!(commands.len(), 4);
    assert!(commands[1].contains(EMPTY));
    assert!(commands[1].contains("echo '' | base64 -d > '/p'"));
    assert_eq!(commands[2], "chmod 0755 '/p'");
    assert_eq!(commands[3], "chown root:root '/p'");
}

#[test]
fn check_compares_the_digest() {
    assert_eq!(
        WriteFile::new("/p", "abc").check_command(),
        Some(format!(
            "[ -f '/p' ] && [ \"$(sha256sum '/p' | cut -d' ' -f1)\" = \"{}\" ]",
            ABC
        ))
    );
    assert_ne!(
        WriteFile::new("/p", "abc").check_command(),
        WriteFile::new("/p", "abd").check_command()
    );
}

#[test]
fn payload_is_padded_standard_base64() {
    for (content, payload) in [
        ("a", "YQ=="),
        ("ab", "YWI="),
        ("abcd", "YWJjZA=="),
        ("???>>>", "Pz8/Pj4+"),
        ("it's\n\"quoted\"", "aXQncwoicXVvdGVkIg=="),
        ("\u{fc}", "w7w="),
    ] {
        let commands = WriteFile::new("/p", content).to_bash();
        assert!(commands[1].contains(&format!("echo '{}' | base64 -d", payload)), "{}", content);
    }
}

#[test]
fn check_and_script_use_one_digest() {
    let step = WriteFile::new("/p", "some longer content, more than one block of the digest, so that it wraps around");
    let check = step.check_command().unwrap();
    let digest = check.rsplit('"').nth(1).unwrap();
    assert_eq!(digest.len(), 64);
    assert!(digest.chars().all(|c| c.is_ascii_digit() || ('a'..='f').contains(&c)));
    assert!(step.to_bash()[1].contains(digest));
}

#[test]
fn commands_for_a_known_digest() {
    let step = WriteFile::new("/p", "a").with_permissions("0600");
    assert_eq!(
        step.bash_for("d1"),
        vec![
            "mkdir -p \"$(dirname '/p')\"",
            "CURRENT=$(sha256sum '/p' 2>/dev/null | cut -d' ' -f1 || echo 'none')\nif [ \"$CURRENT\" != \"d1\" ]; then\necho 'YQ==' | base64 -d > '/p'\nfi",
            "chmod 0600 '/p'",
        ]
    );
    assert_eq!(
        step.check_for("d1"),
        "[ -f '/p' ] && [ \"$(sha256sum '/p' | cut -d' ' -f1)\" = \"d1\" ]"
    );
}

#[test]
fn hash_depends_on_the_content_alone() {
    let plain = WriteFile::new("/p", "abc");
    let other = WriteFile::new("/q", "abc").with_permissions("0600").with_owner("u:g");
    assert_eq!(plain.content_hash(), ABC);
    assert_eq!(other.content_hash(), ABC);
    assert_eq!(WriteFile::new("/p", "").content_hash(), EMPTY);
}
