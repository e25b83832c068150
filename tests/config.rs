use rgrcat::config::{
    count_mode, is_known_key, is_malformed_config_line, is_config_split_line, parse_config, parse_config_line, ColourConfig, CountMode,
};

fn lines(text: &str) -> Vec<String> {
    text.lines().map(|l| l.to_string()).collect()
}

fn assert_default(c: &ColourConfig) {
    assert_eq!(c.regexp, "");
    assert_eq!(c.colours, vec![String::new()]);
    assert_eq!(c.count, CountMode::More);
    assert_eq!(c.command, "");
    assert_eq!(c.skip, "");
    assert_eq!(c.replace, "");
    assert_eq!(c.concat, "");
}

#[test]
fn split_lines_are_those_not_starting_with_a_letter() {
    assert!(is_config_split_line("-----"));
    assert!(is_config_split_line("====="));
    assert!(is_config_split_line("=x"));
    assert!(is_config_split_line(" regexp=a"));
    assert!(!is_config_split_line(""));
    assert!(!is_config_split_line("# comment"));
    assert!(!is_config_split_line("regexp=a"));
    assert!(!is_config_split_line("Colours=red"));
}

#[test]
fn config_lines_give_key_and_value() {
    assert_eq!(
        parse_config_line("regexp=ERROR"),
        Some(("regexp".to_string(), "ERROR".to_string()))
    );
    assert_eq!(
        parse_config_line("color=red"),
        Some(("colours".to_string(), "red".to_string()))
    );
    assert_eq!(
        parse_config_line("colours=bold red"),
        Some(("colours".to_string(), "bold red".to_string()))
    );
    assert_eq!(
        parse_config_line("regexp=a=b"),
        Some(("regexp".to_string(), "a=b".to_string()))
    );
    assert_eq!(parse_config_line("count="), Some(("count".to_string(), String::new())));
    assert_eq!(parse_config_line("no separator"), None);
    assert_eq!(parse_config_line("# regexp=a"), None);
    assert_eq!(parse_config_line(""), None);
}

#[test]
fn count_values_name_modes() {
    assert_eq!(count_mode("once"), CountMode::Once);
    assert_eq!(count_mode("more"), CountMode::More);
    assert_eq!(count_mode("block"), CountMode::Block);
    assert_eq!(count_mode("unblock"), CountMode::Unblock);
    assert_eq!(count_mode("stop"), CountMode::More);
}

#[test]
fn empty_config_gives_one_default_rule() {
    let rules = parse_config(&Vec::new());
    assert_eq!(rules.len(), 1);
    assert_default(&rules[0]);
}

#[test]
fn comment_only_config_gives_one_default_rule() {
    let rules = parse_config(&lines("# a comment\n\n#another\n"));
    assert_eq!(rules.len(), 1);
    assert_default(&rules[0]);
}

#[test]
fn separators_give_one_rule_more() {
    let text = "regexp=a\ncolours=red\n-\nregexp=b\n=====\n# c\n-\ncount=block\n";
    let rules = parse_config(&lines(text));
    assert_eq!(rules.len(), 4);
    assert_eq!(rules[0].regexp, "a");
    assert_eq!(rules[0].colours, vec!["\x1b[31m"]);
    assert_eq!(rules[1].regexp, "b");
    assert_default(&rules[2]);
    assert_eq!(rules[3].count, CountMode::Block);
    let rules = parse_config(&lines("---\n---\n---"));
    assert_eq!(rules.len(), 4);
}

#[test]
fn all_keys_are_stored_and_unknown_keys_ignored() {
    let text = "regexp=x+\ncolor=bold,green\ncount=once\ncommand=ls\nskip=no\nreplace=r\nconcat=c\nbogus=1\nno separator";
    let rules = parse_config(&lines(text));
    assert_eq!(rules.len(), 1);
    let r = &rules[0];
    assert_eq!(r.regexp, "x+");
    assert_eq!(r.colours, vec!["\x1b[1m", "\x1b[32m"]);
    assert_eq!(r.count, CountMode::Once);
    assert_eq!(r.command, "ls");
    assert_eq!(r.skip, "no");
    assert_eq!(r.replace, "r");
    assert_eq!(r.concat, "c");
}

#[test]
fn later_settings_override_earlier_ones() {
    let mut c = ColourConfig::new();
    c.insert_content(&vec![
        ("regexp".to_string(), "a".to_string()),
        ("regexp".to_string(), "b".to_string()),
        ("other".to_string(), "z".to_string()),
    ]);
    assert_eq!(c.regexp, "b");
    assert_eq!(c.colours, vec![String::new()]);
}

#[test]
fn malformed_lines_and_unknown_keys_are_recognised() {
    assert!(is_malformed_config_line("no separator"));
    assert!(!is_malformed_config_line("regexp=a"));
    assert!(!is_malformed_config_line("----"));
    assert!(!is_malformed_config_line("# no separator"));
    assert!(!is_malformed_config_line(""));
    for key in ["regexp", "colours", "count", "command", "skip", "replace", "concat"] {
        assert!(is_known_key(key));
    }
    assert!(!is_known_key("color"));
    assert!(!is_known_key("bogus"));
}
