use ec2_deploy::descriptor::Host;
use ec2_deploy::outcome::CommandOutcome;
use ec2_deploy::outcome::unwrap_command_stderr;
use ec2_deploy::text::base_name;
use ec2_deploy::text::contains_string;
use ec2_deploy::text::path_join;
use ec2_deploy::text::tokenize;
use ec2_deploy::text::u16_to_dec;

#[test]
fn base_name_of_nested_path() {
    assert_eq!(base_name("bin/server"), Some("server".to_string()));
}

#[test]
fn base_name_of_bare_name() {
    assert_eq!(base_name("server"), Some("server".to_string()));
}

#[test]
fn base_name_of_deep_path() {
    assert_eq!(base_name("a/b/c/out.zip"), Some("out.zip".to_string()));
}

#[test]
fn base_name_missing_for_trailing_slash() {
    assert_eq!(base_name("dir/"), None);
}

#[test]
fn base_name_missing_for_empty_path() {
    assert_eq!(base_name(""), None);
}

#[test]
fn tokenize_build_command() {
    let toks = tokenize("cargo build --release");
    assert_eq!(toks, vec![
        "cargo".to_string(),
        "build".to_string(),
        "--release".to_string()
    ]);
}

#[test]
fn tokenize_collapses_repeated_whitespace() {
    let toks = tokenize("  make \t all \n");
    assert_eq!(toks, vec!["make".to_string(), "all".to_string()]);
}

#[test]
fn tokenize_of_blank_is_empty() {
    assert_eq!(tokenize("   "), Vec::<String>::new());
}

#[test]
fn u16_to_dec_formats_edges() {
    assert_eq!(u16_to_dec(0), "0".to_string());
    assert_eq!(u16_to_dec(22), "22".to_string());
    assert_eq!(u16_to_dec(65535), "65535".to_string());
}

#[test]
fn path_join_inserts_one_separator() {
    assert_eq!(
        path_join(&"/opt/svc".to_string(), &"out.zip".to_string()),
        "/opt/svc/out.zip".to_string()
    );
}

#[test]
fn contains_string_finds_exact_match() {
    let v = vec!["bin/server".to_string(), "static".to_string()];
    assert!(contains_string(&v, &"bin/server".to_string()));
    assert!(!contains_string(&v, &"server".to_string()));
}

#[test]
fn to_url_formats_endpoint() {
    let h = Host {
        key_path: "/home/me/.ssh/id".to_string(),
        user: "admin".to_string(),
        host: "example.com".to_string(),
        port: 2222,
    };
    assert_eq!(h.to_url(), "ssh://admin@example.com:2222".to_string());
}

#[test]
fn to_url_with_smallest_port() {
    let h = Host {
        key_path: "k".to_string(),
        user: "u".to_string(),
        host: "h".to_string(),
        port: 0,
    };
    assert_eq!(h.to_url(), "ssh://u@h:0".to_string());
}

#[test]
fn command_with_error_stream_fails_with_it() {
    let out = CommandOutcome {
        stdout: b"partial".to_vec(),
        stderr: b"boom".to_vec(),
    };
    assert_eq!(unwrap_command_stderr(out), Err(b"boom".to_vec()));
}

#[test]
fn command_without_error_stream_yields_stdout() {
    let out = CommandOutcome {
        stdout: b"done".to_vec(),
        stderr: Vec::new(),
    };
    assert_eq!(unwrap_command_stderr(out), Ok(b"done".to_vec()));
}
