use tengu_init::cloud_init::{
    cloud_init_values, preview_lines, render_cloud_init, render_result, template_result,
    CloudInitError, PREVIEW_LINES,
};
use tengu_init::hetzner::HetznerParams;
use tengu_init::remote::{
    is_progress_line, log_step, probe_step, ssh_log_args, ssh_probe_args, LogStep, ProbeStep,
};
use tengu_init::resolve::ResolvedConfig;
use tengu_init::tables::{
    baremetal_success_rows, hetzner_config_rows, is_maskable, masked_key, provision_config_rows,
    success_rows, Row,
};
use tengu_init::tengu_config::direct_tengu_config;
use tengu_init::template::{is_supported_template, MAX_DEPTH, MAX_TAG};
use tengu_init::text::{contains_text, first_lines, trim};

fn resolved() -> ResolvedConfig {
    ResolvedConfig {
        domain_platform: "p.example".into(),
        domain_apps: "a.example".into(),
        cf_api_key: "cf".into(),
        cf_email: "me@p.example".into(),
        resend_api_key: "re_123456789012345".into(),
        notify_email: "n@p.example".into(),
        ssh_key: "ssh-rsa <A> & B".into(),
        release: "v1".into(),
    }
}

/// Renders a template that is supported and renders.
fn render(config: &ResolvedConfig, template: &str) -> String {
    assert!(is_supported_template(template), "{}", template);
    match render_cloud_init(config, template) {
        Ok(text) => text,
        Err(error) => panic!("{}: {:?}", error.message(), error),
    }
}

fn pairs(rows: Vec<Row>) -> Vec<(String, String)> {
    rows.into_iter().map(|row| (row.label, row.value)).collect()
}

fn owned(list: &[(&str, &str)]) -> Vec<(String, String)> {
    list.iter().map(|(a, b)| (a.to_string(), b.to_string())).collect()
}

#[test]
fn key_is_cut_after_twelve_bytes() {
    assert_eq!(masked_key("re_123456789012345"), "re_123456789...");
    assert_eq!(masked_key("123456789012"), "123456789012...");
    assert_eq!(masked_key("short"), "short...");
    assert_eq!(masked_key(""), "...");
    assert_eq!(masked_key("1234567890\u{fc}x"), "1234567890\u{fc}...");
}

#[test]
fn key_is_not_cut_inside_a_character() {
    assert!(is_maskable("1234567890\u{fc}x"));
    assert!(!is_maskable("12345678901\u{fc}x"));
    assert!(is_maskable("12345678\u{1f600}xyz"));
    assert!(is_maskable("\u{1f600}\u{1f600}"));
    assert!(!is_maskable("1\u{1f600}\u{1f600}\u{1f600}"));
}

#[test]
fn provision_table() {
    assert_eq!(
        pairs(provision_config_rows(&resolved())),
        owned(&[
            ("Cloudflare", "me@p.example"),
            ("Resend", "re_123456789..."),
            ("Domains", "p.example, a.example"),
            ("Release", "v1"),
        ])
    );
}

#[test]
fn hetzner_table() {
    let params = HetznerParams {
        name: "tengu".into(),
        server_type: "cax41".into(),
        location: "hel1".into(),
        image: "ubuntu-24.04".into(),
    };
    assert_eq!(
        pairs(hetzner_config_rows(&resolved(), &params, "16 vCPU")),
        owned(&[
            ("Name", "tengu"),
            ("Type", "cax41 (16 vCPU)"),
            ("Location", "hel1"),
            ("Image", "ubuntu-24.04"),
            ("Cloudflare", "me@p.example"),
            ("Resend", "re_123456789..."),
            ("Domains", "p.example, a.example"),
            ("Release", "v1"),
        ])
    );
}

#[test]
fn success_tables() {
    let addresses = [
        ("API", "https://api.p.example"),
        ("Docs", "https://docs.p.example"),
        ("Apps", "https://<app>.a.example"),
    ];
    assert_eq!(
        pairs(baremetal_success_rows(&direct_tengu_config("h", &resolved()))),
        owned(&addresses)
    );
    let mut all = owned(&[("SSH", "ssh chi@ssh.p.example")]);
    all.extend(owned(&addresses));
    assert_eq!(pairs(success_rows(&resolved())), all);
}

#[test]
fn probe_command_line() {
    assert_eq!(
        ssh_probe_args("1.2.3.4"),
        vec![
            "-o",
            "StrictHostKeyChecking=no",
            "-o",
            "UserKnownHostsFile=/dev/null",
            "-o",
            "LogLevel=ERROR",
            "-o",
            "ConnectTimeout=5",
            "-o",
            "BatchMode=yes",
            "chi@1.2.3.4",
            "true",
        ]
    );
}

#[test]
fn probe_ends_with_success() {
    assert_eq!(probe_step(Some(true)), ProbeStep::Ready);
    assert_eq!(probe_step(Some(false)), ProbeStep::RetryAfter(3));
    assert_eq!(probe_step(None), ProbeStep::RetryAfter(3));
}

#[test]
fn log_command_line() {
    let args = ssh_log_args("1.2.3.4");
    assert_eq!(args.len(), 8);
    assert_eq!(args[5], "LogLevel=ERROR");
    assert_eq!(args[6], "chi@1.2.3.4");
    assert_eq!(
        args[7],
        "while [ ! -f /var/log/cloud-init-output.log ]; do sleep 1; done; \
         tail -f /var/log/cloud-init-output.log 2>/dev/null & PID=$!; \
         cloud-init status --wait >/dev/null 2>&1; \
         sleep 2; kill $PID 2>/dev/null"
    );
}

#[test]
fn progress_lines_are_recognised() {
    for line in [
        "Setting up caddy (2.7)",
        "Unpacking docker",
        "Created symlink /etc/x",
        "unit enabled",
        "Processing triggers",
        "the tengu service",
        "Tengu",
    ] {
        assert!(is_progress_line(line), "{}", line);
    }
    for line in ["", "Reading package lists", "TENGU", "setting up", "Enabled", "teng"] {
        assert!(!is_progress_line(line), "{}", line);
    }
}

#[test]
fn log_lines_are_shown_skipped_or_end_it() {
    assert!(matches!(log_step(Some("tengu up".to_string())), LogStep::Show(line) if line == "tengu up"));
    assert!(matches!(log_step(Some("noise".to_string())), LogStep::Skip));
    assert!(matches!(log_step(None), LogStep::Stop));
}

#[test]
fn template_values_of_a_config() {
    let values: Vec<(String, String)> =
        cloud_init_values(&resolved()).into_iter().map(|e| (e.name, e.value)).collect();
    assert_eq!(
        values,
        owned(&[
            ("domain_platform", "p.example"),
            ("domain_apps", "a.example"),
            ("domain_api", "api.p.example"),
            ("domain_docs", "docs.p.example"),
            ("domain_git", "git.p.example"),
            ("domain_ssh", "ssh.p.example"),
            ("cf_api_key", "cf"),
            ("cf_email", "me@p.example"),
            ("resend_api_key", "re_123456789012345"),
            ("ssh_key", "ssh-rsa <A> & B"),
            ("notify_email", "n@p.example"),
            ("tengu_release", "v1"),
        ])
    );
}

#[test]
fn placeholders_are_filled_in() {
    let template = "a: {{ domain_platform }}\n{{domain_apps}} {{ domain_api }}{{ domain_docs }}|\n\
                    {{ domain_git }} {{ domain_ssh }} {{ cf_api_key }} {{   cf_email}} {{ resend_api_key }}\n\
                    {{ ssh_key }} {{ notify_email }} {{ tengu_release }} { } }} $X\n";
    assert!(is_supported_template(template));
    assert_eq!(
        render(&resolved(), template),
        "a: p.example\na.example api.p.exampledocs.p.example|\n\
            git.p.example ssh.p.example cf me@p.example re_123456789012345\n\
            ssh-rsa <A> & B n@p.example v1 { } }} $X\n"
    );
}

#[test]
fn text_without_tags_is_kept() {
    for template in ["", "  \n plain: text\n\n", "{ {", "}}%}#}", "\u{fc}\r\n"] {
        assert!(is_supported_template(template));
        assert_eq!(render(&resolved(), template), template);
    }
}

#[test]
fn conditionals_are_rendered() {
    let template = "{% if ssh_key %}key{% else %}none{% endif %}{# note #} {%- if missing -%} x {%- endif -%} !";
    assert!(is_supported_template(template));
    assert_eq!(render(&resolved(), template), "key!");
    let keyless = ResolvedConfig { ssh_key: String::new(), ..resolved() };
    assert_eq!(render(&keyless, template), "none!");
}

#[test]
fn unknown_names_fail_to_render() {
    let error = render_cloud_init(&resolved(), "{{ nobody }}").unwrap_err();
    assert_eq!(error.message(), "Failed to render cloud-init template");
    match error {
        CloudInitError::Render(cause) => {
            let cause = std::error::Error::source(&cause).unwrap().to_string();
            assert!(cause.contains("nobody"), "{}", cause);
        }
        CloudInitError::Template(_) => panic!("the template parses"),
    }
}

#[test]
fn broken_templates_fail_to_parse() {
    for template in ["{{ a b }}", "{% if ssh_key %}", "{# open", "{% endif %}", "{{ not }}"] {
        assert!(is_supported_template(template), "{}", template);
        let error = render_cloud_init(&resolved(), template).unwrap_err();
        assert_eq!(error.message(), "Failed to parse 'cloud-init'");
        match error {
            CloudInitError::Template(cause) => {
                assert_eq!(cause.to_string(), "Failed to parse 'cloud-init'");
                assert!(std::error::Error::source(&cause).is_some());
            }
            CloudInitError::Render(_) => panic!("{} parses", template),
        }
    }
}

#[test]
fn other_tags_are_not_supported() {
    for template in [
        "{{ now() }}",
        "{{ get_env(name=\"HOME\") }}",
        "{{ ssh_key | upper }}",
        "{{ a.b }}",
        "{{ a - b }}",
        "{{ open",
        "{{{ x }}",
        "{% for c in ssh_key %}{{ c }}{% endfor %}",
        "{% include \"cloud-init\" %}",
        "{% set x = 1 %}",
        "{% block b %}{% endblock %}",
        "{% raw %}{% endraw %}",
    ] {
        assert!(!is_supported_template(template), "{}", template);
    }
}

#[test]
fn words_that_mean_something_to_the_engine_stay_supported() {
    assert_eq!(render(&resolved(), "{{ true }}"), "true");
    assert_eq!(render(&resolved(), "{{- cf_api_key -}} x"), "cfx");
    assert_eq!(render(&resolved(), "{{ not missing }}"), "true");
}

#[test]
fn preview_is_cut_after_fifty_lines() {
    let content: String = (0..60).map(|i| format!("line {}\n", i)).collect();
    let shown = preview_lines(&content);
    assert_eq!(PREVIEW_LINES, 50);
    assert_eq!(shown.len(), 51);
    assert_eq!(shown[0], "line 0");
    assert_eq!(shown[49], "line 49");
    assert_eq!(shown[50], "... (truncated)");
}

#[test]
fn short_preview_says_truncated_too() {
    assert_eq!(preview_lines("a\nb"), vec!["a", "b", "... (truncated)"]);
    assert_eq!(preview_lines(""), vec!["... (truncated)"]);
}

#[test]
fn lines_end_as_in_std() {
    for text in ["", "\n", "a", "a\n", "a\r\nb\r", "\r\n\r\n", "a\rb\n\nc", "\u{fc}\n\u{1f600}\r\n"] {
        let expected: Vec<&str> = text.lines().collect();
        assert_eq!(first_lines(text, 100), expected, "{:?}", text);
    }
    assert_eq!(first_lines("a\nb\nc", 2), vec!["a", "b"]);
    assert!(first_lines("a\nb", 0).is_empty());
}

#[test]
fn text_search_and_trim_as_in_std() {
    for (text, pattern) in [("abcabd", "abd"), ("aab", "ab"), ("", ""), ("a", ""), ("", "a"), ("xyz", "yx")] {
        assert_eq!(contains_text(text, pattern), text.contains(pattern));
    }
    for text in ["", " ", " a b ", "\t\u{a0}x\n", "x"] {
        assert_eq!(trim(text), text.trim());
    }
}

#[test]
fn results_of_the_engine() {
    assert!(template_result(Ok(())).is_ok());
    match template_result(Err(tera::Error::msg("why"))) {
        Err(CloudInitError::Template(cause)) => assert_eq!(cause.to_string(), "why"),
        other => panic!("{:?}", other),
    }
    match render_result(Ok("x".to_string())) {
        Ok(text) => assert_eq!(text, "x"),
        Err(error) => panic!("{:?}", error),
    }
    match render_result(Err(tera::Error::msg("why"))) {
        Err(CloudInitError::Render(cause)) => assert_eq!(cause.to_string(), "why"),
        other => panic!("{:?}", other),
    }
}

/// Conditionals inside one another, with a long condition each.
fn nested(depth: usize) -> String {
    let condition = format!("if missing {}", "or missing ".repeat(20));
    let opening = format!("{{% {} or ssh_key %}}", condition);
    format!("{}x{}", opening.repeat(depth), "{% endif %}".repeat(depth))
}

#[test]
fn nesting_is_limited() {
    assert_eq!(render(&resolved(), &nested(MAX_DEPTH)), "x");
    assert!(!is_supported_template(&nested(MAX_DEPTH + 1)));
    assert!(!is_supported_template(&nested(2000)));
    let beside = "{% if ssh_key %}y{% endif %}".repeat(500);
    assert_eq!(render(&resolved(), &beside), "y".repeat(500));
}

#[test]
fn comments_do_not_count_as_nesting() {
    let hidden = "{% if ssh_key %}{# {% endif %} #}".repeat(MAX_DEPTH + 1);
    assert!(!is_supported_template(&hidden));
    let commented = "{# {% if ssh_key %} #}z".repeat(MAX_DEPTH + 1);
    assert_eq!(render(&resolved(), &commented), "z".repeat(MAX_DEPTH + 1));
    let dashed = "{%- if ssh_key %}".repeat(MAX_DEPTH + 1);
    assert!(!is_supported_template(&dashed));
}

#[test]
fn tags_are_limited() {
    let longest = format!("{{{{ ssh_key{}}}}}", " ".repeat(MAX_TAG - 8));
    assert_eq!(render(&resolved(), &longest), "ssh-rsa <A> & B");
    let longer = format!("{{{{ ssh_key{}}}}}", " ".repeat(MAX_TAG - 7));
    assert!(!is_supported_template(&longer));
    let condition = format!("{{% if a {}%}}b{{% endif %}}", "or a ".repeat(100));
    assert!(!is_supported_template(&condition));
}
