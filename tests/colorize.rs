use rgrcat::colorize::{
    colorize, colour_matches, get_colour_line_by_re, get_output_line_by_config,
    is_skip_input_line, pattern_compiles, LineOutput,
};
use rgrcat::config::{parse_config, ColourConfig, CountMode};
use rgrcat::text::{replace_first, strip_line_terminator};

fn rules_of(text: &str) -> Vec<ColourConfig> {
    let lines: Vec<String> = text.lines().map(|l| l.to_string()).collect();
    parse_config(&lines)
}

fn rule(pattern: &str, colours: &[&str], count: CountMode) -> ColourConfig {
    let mut c = ColourConfig::new();
    c.regexp = pattern.to_string();
    c.colours = colours.iter().map(|s| s.to_string()).collect();
    c.count = count;
    c
}

#[test]
fn end_to_end_error_in_red() {
    let rules = rules_of("regexp=ERROR\ncolours=red\ncount=more");
    assert_eq!(
        colorize("ERROR: disk full", &rules),
        LineOutput::Emit("\x1b[31mERROR\x1b[0m: disk full".to_string())
    );
}

#[test]
fn end_to_end_skip_suppresses_everything() {
    let rules = rules_of("skip=yes");
    assert_eq!(colorize("anything at all", &rules), LineOutput::Suppress);
    assert_eq!(colorize("", &rules), LineOutput::Suppress);
}

#[test]
fn any_truthy_skip_suppresses_whatever_the_other_rules() {
    for value in ["yes", "1", "true"] {
        let text = format!("regexp=a\ncolours=red\n-\nskip={}\n-\nregexp=b", value);
        let rules = rules_of(&text);
        assert!(is_skip_input_line(&rules));
        assert_eq!(colorize("a b", &rules), LineOutput::Suppress);
    }
    let rules = rules_of("skip=no\n-\nskip=YES");
    assert!(!is_skip_input_line(&rules));
    assert_eq!(colorize("x", &rules), LineOutput::Emit("x".to_string()));
}

#[test]
fn unblock_wraps_whole_line_in_reset() {
    let rules = vec![rule("nomatch", &["\x1b[31m"], CountMode::Unblock)];
    assert_eq!(
        get_output_line_by_config("some line", &rules),
        "\x1b[0msome line\x1b[0m"
    );
}

#[test]
fn block_wraps_whole_line_in_first_colour() {
    let rules = vec![rule("nomatch", &["\x1b[32m", "\x1b[1m"], CountMode::Block)];
    assert_eq!(
        get_output_line_by_config("some line", &rules),
        "\x1b[32msome line\x1b[0m"
    );
}

#[test]
fn unchanged_leaves_line_as_is() {
    let rules = vec![rule("line", &["\x1b[31m", "unchanged"], CountMode::More)];
    assert_eq!(get_output_line_by_config("some line", &rules), "some line");
    let rules = rules_of("regexp=line\ncolours=red unchanged");
    assert_eq!(colorize("some line", &rules), LineOutput::Emit("some line".to_string()));
}

#[test]
fn rules_apply_in_order_on_previous_output() {
    let rules = vec![
        rule("disk", &["\x1b[31m"], CountMode::More),
        rule("full", &["\x1b[32m"], CountMode::Once),
        rule("", &["\x1b[1m"], CountMode::Block),
    ];
    assert_eq!(
        get_output_line_by_config("disk full", &rules),
        "\x1b[1m\x1b[31mdisk\x1b[0m \x1b[32mfull\x1b[0m\x1b[0m"
    );
}

#[test]
fn repeated_text_is_coloured_at_first_occurrence() {
    let rules = vec![rule("a", &["\x1b[31m"], CountMode::More)];
    assert_eq!(
        get_output_line_by_config("a a", &rules),
        "\x1b[31m\x1b[31ma\x1b[0m\x1b[0m a"
    );
}

#[test]
fn every_match_is_coloured() {
    assert_eq!(
        get_colour_line_by_re("id=12 size=345", "\x1b[33m", "[0-9]+"),
        "id=\x1b[33m12\x1b[0m size=\x1b[33m345\x1b[0m"
    );
    assert_eq!(get_colour_line_by_re("abc", "\x1b[33m", "x"), "abc");
}

#[test]
fn refused_pattern_leaves_line_unchanged() {
    assert_eq!(get_colour_line_by_re("a(b", "\x1b[33m", "a(b"), "a(b");
    let rules = vec![rule("(", &["\x1b[31m"], CountMode::More)];
    assert_eq!(colorize("(x)", &rules), LineOutput::Emit("(x)".to_string()));
}

#[test]
fn matches_wrap_in_order() {
    let matches = vec!["b".to_string(), "c".to_string()];
    assert_eq!(
        colour_matches("abc", &matches, "<"),
        "a<b\x1b[0m<c\x1b[0m"
    );
    assert_eq!(colour_matches("abc", &Vec::new(), "<"), "abc");
}

#[test]
fn replace_first_replaces_only_the_first() {
    assert_eq!(replace_first("xaxa", "a", "b"), "xbxa");
    assert_eq!(replace_first("xyz", "q", "b"), "xyz");
    assert_eq!(replace_first("héllo", "l", "L"), "héLlo");
}

#[test]
fn line_terminators_are_stripped() {
    assert_eq!(strip_line_terminator("abc\n"), "abc");
    assert_eq!(strip_line_terminator("abc\r\n"), "abc");
    assert_eq!(strip_line_terminator("abc"), "abc");
    assert_eq!(strip_line_terminator("abc \n"), "abc ");
    assert_eq!(strip_line_terminator("abc\r"), "abc\r");
    assert_eq!(strip_line_terminator("abc\r\r\n"), "abc\r");
    assert_eq!(strip_line_terminator("\n"), "");
    assert_eq!(strip_line_terminator(""), "");
}

#[test]
fn pattern_rule_without_pattern_leaves_line() {
    let rules = vec![ColourConfig::new()];
    assert_eq!(colorize("abc", &rules), LineOutput::Emit("abc".to_string()));
    let rules = rules_of("regexp=ERROR\ncolours=red\n-----");
    assert_eq!(rules.len(), 2);
    assert_eq!(
        colorize("ERROR", &rules),
        LineOutput::Emit("\x1b[31mERROR\x1b[0m".to_string())
    );
}

#[test]
fn refused_patterns_are_reported() {
    assert!(pattern_compiles("ERROR"));
    assert!(pattern_compiles("[0-9]+"));
    assert!(pattern_compiles(""));
    assert!(!pattern_compiles("a(b"));
    assert!(!pattern_compiles("("));
}
