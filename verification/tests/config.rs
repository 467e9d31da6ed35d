use interprocess::config::{
    generate_shared_memory_prefix, parse_args, prefix_from_bytes, ResoBootConfig,
};

fn strings(args: &[&str]) -> Vec<String> {
    args.iter().map(|s| s.to_string()).collect()
}

#[test]
fn shared_memory_prefix_length_and_charset() {
    let s = generate_shared_memory_prefix(16).expect("prefix");
    assert_eq!(s.len(), 16);
    assert!(s.chars().all(|c| c.is_ascii_alphanumeric()));
}

#[test]
fn shared_memory_prefix_two_calls_differ_often() {
    let a = generate_shared_memory_prefix(16).expect("a");
    let b = generate_shared_memory_prefix(16).expect("b");
    assert_ne!(a, b);
}

#[test]
fn shared_memory_prefix_of_length_zero_is_empty() {
    assert_eq!(generate_shared_memory_prefix(0).expect("empty"), "");
}

#[test]
fn prefix_maps_bytes_through_the_alphabet() {
    let bytes = [0u8, 25, 26, 51, 52, 61, 62, 255, 123];
    assert_eq!(prefix_from_bytes(&bytes), "azAZ09ah9");
}

#[test]
fn parse_args_extracts_log_level() {
    let (host, level) = parse_args(&strings(&["-Invisible", "--log-level", "debug", "-Data"]));
    assert_eq!(host, strings(&["-Invisible", "-Data"]));
    assert_eq!(level, Some("debug".to_string()));
}

#[test]
fn parse_args_flag_case_insensitive_and_short() {
    let (host, level) = parse_args(&strings(&["--LOG-Level", "trace", "x"]));
    assert_eq!(host, strings(&["x"]));
    assert_eq!(level, Some("trace".to_string()));
    let (host, level) = parse_args(&strings(&["a", "-L", "warn"]));
    assert_eq!(host, strings(&["a"]));
    assert_eq!(level, Some("warn".to_string()));
}

#[test]
fn parse_args_last_flag_wins() {
    let (host, level) = parse_args(&strings(&["-l", "info", "b", "-l", "error"]));
    assert_eq!(host, strings(&["b"]));
    assert_eq!(level, Some("error".to_string()));
}

#[test]
fn parse_args_trailing_flag_is_forwarded() {
    let (host, level) = parse_args(&strings(&["a", "--log-level"]));
    assert_eq!(host, strings(&["a", "--log-level"]));
    assert_eq!(level, None);
}

#[test]
fn parse_args_without_flags_forwards_everything() {
    let args = strings(&["one", "--other", "two"]);
    let (host, level) = parse_args(&args);
    assert_eq!(host, args);
    assert_eq!(level, None);
    let (host, level) = parse_args(&Vec::new());
    assert!(host.is_empty());
    assert_eq!(level, None);
}

#[test]
fn boot_config_uses_executable_directory() {
    let c = ResoBootConfig::new(
        "abc".to_string(),
        Some("debug".to_string()),
        "/games/resonite".to_string(),
        Some("/opt/renderide/bin/bootstrapper".to_string()),
        true,
        false,
    );
    assert_eq!(c.current_directory, "/games/resonite");
    assert_eq!(c.runtime_config, "/games/resonite/Renderite.Host.runtimeconfig.json");
    assert_eq!(c.renderite_directory, "/opt/renderide/bin");
    assert_eq!(c.renderite_executable, "/opt/renderide/bin/Renderite.Renderer");
    assert_eq!(c.shared_memory_prefix, "abc");
    assert!(c.is_wine);
    assert_eq!(c.renderide_log_level, Some("debug".to_string()));
}

#[test]
fn boot_config_falls_back_to_working_directory() {
    let c = ResoBootConfig::new("p".to_string(), None, "/games/r".to_string(), None, false, true);
    assert_eq!(c.renderite_directory, "/games/r");
    assert_eq!(c.renderite_executable, "/games/r/renderide.exe");
    let c = ResoBootConfig::new(
        "p".to_string(),
        None,
        "/games/r".to_string(),
        Some("/".to_string()),
        false,
        false,
    );
    assert_eq!(c.renderite_directory, "/games/r");
    assert_eq!(c.renderide_log_level, None);
}
