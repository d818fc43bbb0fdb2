use rusty_roguelike::config::{default_config_lines, finish_config, parse_bool, read_config_lines, ConfigError};
use rusty_roguelike::mods::RawMod;

fn message(e: ConfigError) -> String {
    match e {
        ConfigError::InvalidData(m) => m,
    }
}

#[test]
fn flags() {
    assert_eq!(parse_bool("0").ok(), Some(false));
    assert_eq!(parse_bool("1").ok(), Some(true));
    assert_eq!(parse_bool("  1\t").ok(), Some(true));
    assert_eq!(parse_bool("\u{a0}0 ").ok(), Some(false));
    assert_eq!(message(parse_bool("2").err().unwrap()), "Expected 0 or 1, found: 2");
    assert_eq!(message(parse_bool(" 10 ").err().unwrap()), "Expected 0 or 1, found:  10 ");
    assert!(parse_bool("").is_err());
    assert!(parse_bool("true").is_err());
}

#[test]
fn default_file_reads_back_as_defaults() {
    let lines = default_config_lines();
    assert_eq!(lines.len(), 21);
    let scan = read_config_lines(&lines);
    assert!(scan.error.is_none());
    let v = scan.values;
    assert!(!v.load_mods && !v.show_map_creation_visualizer && !v.show_fps);
    assert!(v.use_scanlines_shader && v.use_vsync && v.use_multithreading);
    assert_eq!(v.frame_limit.as_deref(), Some("-1"));
    assert!(v.use_fullscreen && !v.show_border);
}

fn lines(v: &[&str]) -> Vec<String> {
    v.iter().map(|s| s.to_string()).collect()
}

#[test]
fn settings_come_from_their_lines() {
    let mut l = lines(&["//c", "", "1", "// c", "1", "x", "1", "c", "0", "c", "0"]);
    let scan = read_config_lines(&l);
    assert!(scan.error.is_none());
    assert!(scan.values.load_mods && scan.values.show_map_creation_visualizer && scan.values.show_fps);
    assert!(!scan.values.use_scanlines_shader && !scan.values.use_vsync);
    assert!(scan.values.use_multithreading);
    assert!(scan.values.frame_limit.is_none());
    l.extend(lines(&["", "", "0", "", "", " 60 ", "", "0", "", "1", "ignored"]));
    let scan = read_config_lines(&l);
    assert!(scan.error.is_none());
    assert!(!scan.values.use_multithreading);
    assert_eq!(scan.values.frame_limit.as_deref(), Some("60"));
    assert!(!scan.values.use_fullscreen && scan.values.show_border);
}

#[test]
fn reading_stops_at_a_bad_flag() {
    let l = lines(&["c", "c", "1", "c", "yes", "c", "1"]);
    let scan = read_config_lines(&l);
    assert_eq!(message(scan.error.unwrap()), "Expected 0 or 1, found: yes");
    assert!(scan.values.load_mods);
    assert!(!scan.values.show_fps);
}

#[test]
fn a_blank_flag_line_is_bad_but_an_empty_one_is_skipped() {
    let scan = read_config_lines(&lines(&["", "", "   "]));
    assert_eq!(message(scan.error.unwrap()), "Expected 0 or 1, found:    ");
    let scan = read_config_lines(&lines(&["", "", ""]));
    assert!(scan.error.is_none());
}

#[test]
fn frame_limit_errors_win_over_later_lines() {
    let mut l = default_config_lines();
    l[16] = "fast".to_string();
    l[18] = "maybe".to_string();
    let scan = read_config_lines(&l);
    assert_eq!(scan.values.frame_limit.as_deref(), Some("fast"));
    let r = finish_config(scan, Some("invalid float literal".to_string()));
    assert_eq!(message(r.err().unwrap()), "invalid float literal");
    let scan = read_config_lines(&l);
    let r = finish_config(scan, None);
    assert_eq!(message(r.err().unwrap()), "Expected 0 or 1, found: maybe");
    let ok = finish_config(read_config_lines(&default_config_lines()), None);
    assert!(ok.is_ok());
}

#[test]
fn raw_mod_holds_its_fields() {
    let m = RawMod { name: "example".to_string(), data: "{}".to_string(), priority: Some(0) };
    assert_eq!((m.name.as_str(), m.data.as_str(), m.priority), ("example", "{}", Some(0)));
}
