use isofetch::args::parse_args;
use isofetch::args::parse_u8;
use isofetch::args::ArgError;

fn words(ws: &[&str]) -> Vec<String> {
    ws.iter().map(|w| w.to_string()).collect()
}

#[test]
fn full_flag_set_is_read() {
    let argv = words(&["-d", "-t", "4", "-f", "cfg.toml", "-D", "/tmp/isos", "--no-windows"]);
    let a = parse_args(&argv, ".").unwrap();
    assert!(a.is_debug);
    assert!(!a.only_download_windows);
    assert!(a.no_windows);
    assert_eq!(a.concurrent_request, 4);
    assert_eq!(a.config_file, "cfg.toml");
    assert_eq!(a.download_dir, "/tmp/isos");
}

#[test]
fn defaults_hold_without_flags() {
    let argv = words(&["-f", "c.toml"]);
    let a = parse_args(&argv, "/home/user").unwrap();
    assert!(!a.is_debug);
    assert!(!a.only_download_windows);
    assert!(!a.no_windows);
    assert_eq!(a.concurrent_request, 1);
    assert_eq!(a.config_file, "c.toml");
    assert_eq!(a.download_dir, "/home/user");
}

#[test]
fn only_windows_flag_is_read() {
    let argv = words(&["--only-windows", "-f", "c.toml"]);
    let a = parse_args(&argv, ".").unwrap();
    assert!(a.only_download_windows);
}

#[test]
fn missing_config_flag_is_fatal() {
    let argv = words(&["-d"]);
    let r = parse_args(&argv, ".");
    assert!(matches!(r, Err(ArgError::MissingConfigFlag)));
}

#[test]
fn unknown_flag_is_fatal() {
    let argv = words(&["-f", "c.toml", "--fast"]);
    match parse_args(&argv, ".") {
        Err(ArgError::UnknownFlag(w)) => assert_eq!(w, "--fast"),
        _ => panic!("an unknown flag must be refused"),
    }
}

#[test]
fn thread_flag_without_count_is_fatal() {
    let argv = words(&["-f", "c.toml", "-t"]);
    assert!(matches!(parse_args(&argv, "."), Err(ArgError::MissingThreadCount)));
}

#[test]
fn unreadable_thread_count_is_fatal() {
    let argv = words(&["-t", "many", "-f", "c.toml"]);
    match parse_args(&argv, ".") {
        Err(ArgError::BadThreadCount(w)) => assert_eq!(w, "many"),
        _ => panic!("an unreadable count must be refused"),
    }
}

#[test]
fn too_large_thread_count_is_fatal() {
    let argv = words(&["-t", "256", "-f", "c.toml"]);
    assert!(matches!(parse_args(&argv, "."), Err(ArgError::BadThreadCount(_))));
}

#[test]
fn config_flag_without_path_is_fatal() {
    let argv = words(&["-f"]);
    assert!(matches!(parse_args(&argv, "."), Err(ArgError::MissingConfigPath)));
}

#[test]
fn directory_flag_without_path_is_fatal() {
    let argv = words(&["-f", "c.toml", "-D"]);
    assert!(matches!(parse_args(&argv, "."), Err(ArgError::MissingDownloadDir)));
}

#[test]
fn later_flag_overwrites_earlier() {
    let argv = words(&["-f", "a.toml", "-f", "b.toml"]);
    let a = parse_args(&argv, ".").unwrap();
    assert_eq!(a.config_file, "b.toml");
}

#[test]
fn counts_parse_exactly() {
    assert_eq!(parse_u8("0"), Some(0));
    assert_eq!(parse_u8("7"), Some(7));
    assert_eq!(parse_u8("007"), Some(7));
    assert_eq!(parse_u8("255"), Some(255));
    assert_eq!(parse_u8("256"), None);
    assert_eq!(parse_u8("999999999999"), None);
    assert_eq!(parse_u8(""), None);
    assert_eq!(parse_u8("12a"), None);
    assert_eq!(parse_u8("-1"), None);
}
