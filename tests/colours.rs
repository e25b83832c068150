use rgrcat::colour::{default_colour, get_colour, get_colour_list, get_colour_str};

#[test]
fn test_get_colour_list() {
    assert_eq!(
        get_colour_list(&"default,blink ,yellow".to_string()),
        vec!["\u{1b}[0m", "\u{1b}[5m", "\u{1b}[33m"]
    );
}

#[test]
fn colour_list_drops_empty_names_and_flattens_groups() {
    assert_eq!(
        get_colour_list("red bold,on_blue"),
        vec!["\x1b[31m", "\x1b[1m", "\x1b[44m"]
    );
    assert_eq!(get_colour_list(" , ,,"), Vec::<String>::new());
    assert_eq!(get_colour_list(""), Vec::<String>::new());
    assert_eq!(get_colour_list("green\tunderline"), vec!["\x1b[32m", "\x1b[4m"]);
}

#[test]
fn known_colours_resolve_to_their_sequences() {
    assert_eq!(get_colour("none"), "");
    assert_eq!(get_colour("default"), "\x1b[0m");
    assert_eq!(get_colour("red"), "\x1b[31m");
    assert_eq!(get_colour("on_blue"), "\x1b[44m");
    assert_eq!(get_colour("strikethrough"), "\x1b[9m");
    assert_eq!(get_colour("rapidblink"), "\x1b[6m");
    assert_eq!(get_colour("bright_red"), "\x1b[31;91m");
    assert_eq!(get_colour("on_bright_white"), "\x1b[47;107m");
    assert_eq!(get_colour("beep"), "\x07");
    assert_eq!(get_colour("previous"), "prev");
    assert_eq!(get_colour("unchanged"), "unchanged");
}

#[test]
fn known_styling_names_start_with_escape() {
    let names = [
        "default", "bold", "underline", "blink", "reverse", "concealed", "dark", "italic",
        "rapidblink", "strikethrough", "black", "red", "green", "yellow", "blue", "magenta",
        "cyan", "white", "on_black", "on_white", "bright_black", "bright_white",
        "on_bright_black", "on_bright_cyan",
    ];
    for name in names {
        let code = get_colour(name);
        assert!(code.starts_with('\x1b'), "{}", name);
        assert_eq!(code, get_colour(name));
    }
}

#[test]
fn unknown_colours_resolve_as_default() {
    assert_eq!(get_colour("purple"), get_colour("default"));
    assert_eq!(get_colour(""), get_colour("default"));
    assert_eq!(get_colour("Red"), "\x1b[0m");
}

#[test]
fn colour_str_wraps_in_colour_and_reset() {
    assert_eq!(get_colour_str("abc", "\x1b[31m"), "\x1b[31mabc\x1b[0m");
    assert_eq!(get_colour_str("", ""), "\x1b[0m");
    assert_eq!(default_colour(), "\x1b[0m");
}

#[test]
fn colour_list_splits_on_any_white_space() {
    assert_eq!(get_colour_list("\r"), Vec::<String>::new());
    assert_eq!(get_colour_list("\u{a0}\u{3000}\u{b}\u{c}"), Vec::<String>::new());
    assert_eq!(get_colour_list("red\rbold\ncyan"), vec!["\x1b[31m", "\x1b[1m", "\x1b[36m"]);
    assert_eq!(get_colour_list("red\u{2003}on_blue,\u{85}blink"), vec!["\x1b[31m", "\x1b[44m", "\x1b[5m"]);
}
