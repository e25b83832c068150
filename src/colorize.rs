//! Applies a sequence of rules to one line of input.

use vstd::prelude::*;
use vstd::string::StringExecFns;
use crate::colour::{default_code, default_colour, get_colour_str, string_views, wrap};
use crate::config::{config_views, ColourConfig, ConfigView, CountMode};
use crate::matcher::{find_matches, regex_compiles, regex_match_texts};
use crate::text::{replace_first, replace_first_spec};

verus! {

/// The first colour of a rule; the empty colour when it has none.
pub open spec fn first_colour(c: ConfigView) -> Seq<char> {
    if c.colours.len() > 0 {
        c.colours[0]
    } else {
        Seq::empty()
    }
}

/// The marker code of the `unchanged` colour name.
pub open spec fn unchanged_code() -> Seq<char> {
    "unchanged"@
}

/// The rule asks to leave what it matches as it is.
pub open spec fn has_unchanged(c: ConfigView) -> bool {
    c.colours.contains(unchanged_code())
}

/// `line` with each of `matches` in turn wrapped in `colour`, each time at
/// the first place where its text occurs in the line as it stands then.
pub open spec fn colour_matches_spec(line: Seq<char>, matches: Seq<Seq<char>>, colour: Seq<char>) -> Seq<char>
    decreases matches.len(),
{
    if matches.len() == 0 {
        line
    } else {
        let m = matches.last();
        replace_first_spec(colour_matches_spec(line, matches.drop_last(), colour), m, wrap(m, colour))
    }
}

/// `line` with the matches of `pattern` in it coloured; `line` itself when
/// the engine refuses the pattern.
pub open spec fn colour_pattern(line: Seq<char>, pattern: Seq<char>, colour: Seq<char>) -> Seq<char> {
    if regex_compiles(pattern) {
        colour_matches_spec(line, regex_match_texts(pattern, line), colour)
    } else {
        line
    }
}

/// What one rule makes of a line. A pattern rule without a pattern, or with
/// the `unchanged` marker among its colours, leaves the line as it is.
pub open spec fn apply_rule(line: Seq<char>, c: ConfigView) -> Seq<char> {
    match c.count {
        CountMode::Block => wrap(line, first_colour(c)),
        CountMode::Unblock => wrap(line, default_code()),
        _ => if has_unchanged(c) || c.regexp.len() == 0 {
            line
        } else {
            colour_pattern(line, c.regexp, first_colour(c))
        },
    }
}

/// What a sequence of rules makes of a line: each rule acts on what the ones
/// before it made.
pub open spec fn apply_rules(line: Seq<char>, rules: Seq<ConfigView>) -> Seq<char>
    decreases rules.len(),
{
    if rules.len() == 0 {
        line
    } else {
        apply_rule(apply_rules(line, rules.drop_last()), rules.last())
    }
}

/// A `skip` value that asks to suppress the input.
pub open spec fn is_truthy(s: Seq<char>) -> bool {
    s == "yes"@ || s == "1"@ || s == "true"@
}

/// Some rule asks to suppress every line.
pub open spec fn skips_all(rules: Seq<ConfigView>) -> bool {
    exists|i: int| 0 <= i < rules.len() && is_truthy(#[trigger] rules[i].skip)
}

/// The output for one line: `None` when it is suppressed.
pub open spec fn colorize_spec(line: Seq<char>, rules: Seq<ConfigView>) -> Option<Seq<char>> {
    if skips_all(rules) {
        None
    } else {
        Some(apply_rules(line, rules))
    }
}

/// When any rule has a truthy `skip`, every line is suppressed, whatever the
/// other rules say.
pub proof fn lemma_skip_suppresses_every_line(line: Seq<char>, rules: Seq<ConfigView>, i: int)
    requires
        0 <= i < rules.len(),
        is_truthy(rules[i].skip),
    ensures
        colorize_spec(line, rules) is None,
{
    assert(skips_all(rules));
}

/// An `unblock` rule wraps the whole line it is given in the reset sequence,
/// whatever its pattern.
pub proof fn lemma_unblock_wraps_line(line: Seq<char>, rules: Seq<ConfigView>, c: ConfigView)
    requires
        c.count == CountMode::Unblock,
    ensures
        apply_rules(line, rules.push(c)) == wrap(apply_rules(line, rules), default_code()),
{
    assert(rules.push(c).drop_last() =~= rules);
}

/// A `block` rule wraps the whole line it is given in its first colour,
/// whatever its pattern.
pub proof fn lemma_block_wraps_line(line: Seq<char>, rules: Seq<ConfigView>, c: ConfigView)
    requires
        c.count == CountMode::Block,
        c.colours.len() > 0,
    ensures
        apply_rules(line, rules.push(c)) == wrap(apply_rules(line, rules), c.colours[0]),
{
    assert(rules.push(c).drop_last() =~= rules);
}

/// A pattern rule whose colours hold `unchanged` leaves the line it is given
/// exactly as it is.
pub proof fn lemma_unchanged_keeps_line(line: Seq<char>, rules: Seq<ConfigView>, c: ConfigView)
    requires
        c.count == CountMode::Once || c.count == CountMode::More,
        c.colours.contains(unchanged_code()),
    ensures
        apply_rules(line, rules.push(c)) == apply_rules(line, rules),
{
    assert(rules.push(c).drop_last() =~= rules);
}

/// What becomes of one input line.
#[derive(Debug, PartialEq, Eq)]
pub enum LineOutput {
    /// Write this line.
    Emit(String),
    /// Write nothing.
    Suppress,
}

/// `line` with each of `matches` in turn wrapped in `colour` and the reset
/// sequence, each at the first place where its text occurs in the line as it
/// stands then.
pub fn colour_matches(line: &str, matches: &Vec<String>, colour: &str) -> (r: String)
    ensures
        r@ == colour_matches_spec(line@, string_views(matches@), colour@),
{
    let mut result = String::from_str(line);
    let mut i: usize = 0;
    while i < matches.len()
        invariant
            i <= matches@.len(),
            result@ == colour_matches_spec(line@, string_views(matches@).subrange(0, i as int), colour@),
        decreases matches@.len() - i,
    {
        let m = matches[i].as_str();
        proof {
            let sub = string_views(matches@).subrange(0, i + 1);
            assert(sub.drop_last() =~= string_views(matches@).subrange(0, i as int));
            assert(sub.last() == m@);
        }
        let wrapped = get_colour_str(m, colour);
        result = replace_first(result.as_str(), m, wrapped.as_str());
        i = i + 1;
    }
    assert(string_views(matches@).subrange(0, i as int) =~= string_views(matches@));
    result
}

/// `line` with the matches of `pattern` wrapped in `colour` and the reset
/// sequence; `line` unchanged when the engine refuses the pattern.
pub fn get_colour_line_by_re(line: &str, colour: &str, pattern: &str) -> (r: String)
    ensures
        r@ == colour_pattern(line@, pattern@, colour@),
{
    match find_matches(pattern, line) {
        Some(matches) => colour_matches(line, &matches, colour),
        None => String::from_str(line),
    }
}

/// Whether the engine accepts `pattern`; a rule whose pattern it refuses
/// leaves every line as it is.
pub fn pattern_compiles(pattern: &str) -> (r: bool)
    ensures
        r == regex_compiles(pattern@),
{
    find_matches(pattern, "").is_some()
}

/// Whether the rule's colours hold the `unchanged` marker.
fn contains_unchanged(config: &ColourConfig) -> (r: bool)
    ensures
        r == has_unchanged(config@),
{
    let marker = String::from_str("unchanged");
    let mut i: usize = 0;
    while i < config.colours.len()
        invariant
            i <= config.colours@.len(),
            marker@ == unchanged_code(),
            forall|j: int| 0 <= j < i ==> config.colours@[j]@ != unchanged_code(),
        decreases config.colours@.len() - i,
    {
        if config.colours[i] == marker {
            assert(config@.colours[i as int] == unchanged_code());
            return true;
        }
        i = i + 1;
    }
    assert forall|j: int| 0 <= j < config@.colours.len() implies config@.colours[j] != unchanged_code() by {
        assert(config@.colours[j] == config.colours@[j]@);
    }
    false
}

/// What one rule makes of a line.
fn apply_config(line: &str, config: &ColourConfig) -> (r: String)
    ensures
        r@ == apply_rule(line@, config@),
{
    proof {
        reveal_strlit("");
    }
    let colour: &str = if config.colours.len() > 0 {
        config.colours[0].as_str()
    } else {
        ""
    };
    assert(colour@ == first_colour(config@));
    match config.count {
        CountMode::Block => get_colour_str(line, colour),
        CountMode::Unblock => {
            let d = default_colour();
            get_colour_str(line, d.as_str())
        },
        _ => {
            if contains_unchanged(config) || config.regexp.as_str().unicode_len() == 0 {
                String::from_str(line)
            } else {
                get_colour_line_by_re(line, colour, config.regexp.as_str())
            }
        },
    }
}

/// `line` after each rule in turn has acted on it.
pub fn get_output_line_by_config(line: &str, config_list: &Vec<ColourConfig>) -> (r: String)
    ensures
        r@ == apply_rules(line@, config_views(config_list@)),
{
    let ghost cv = config_views(config_list@);
    let mut result = String::from_str(line);
    let mut i: usize = 0;
    while i < config_list.len()
        invariant
            i <= config_list@.len(),
            cv == config_views(config_list@),
            result@ == apply_rules(line@, cv.subrange(0, i as int)),
        decreases config_list@.len() - i,
    {
        proof {
            let sub = cv.subrange(0, i + 1);
            assert(sub.drop_last() =~= cv.subrange(0, i as int));
            assert(sub.last() == config_list@[i as int]@);
        }
        result = apply_config(result.as_str(), &config_list[i]);
        i = i + 1;
    }
    assert(cv.subrange(0, i as int) =~= cv);
    result
}

/// Whether some rule asks to suppress every line.
pub fn is_skip_input_line(config_list: &Vec<ColourConfig>) -> (r: bool)
    ensures
        r == skips_all(config_views(config_list@)),
{
    let yes = String::from_str("yes");
    let one = String::from_str("1");
    let t = String::from_str("true");
    let mut i: usize = 0;
    while i < config_list.len()
        invariant
            i <= config_list@.len(),
            yes@ == "yes"@,
            one@ == "1"@,
            t@ == "true"@,
            forall|j: int| 0 <= j < i ==> !is_truthy(#[trigger] config_list@[j].skip@),
        decreases config_list@.len() - i,
    {
        let skip = &config_list[i].skip;
        if *skip == yes || *skip == one || *skip == t {
            assert(is_truthy(config_views(config_list@)[i as int].skip));
            return true;
        }
        i = i + 1;
    }
    assert forall|j: int| 0 <= j < config_list@.len() implies !is_truthy(
        #[trigger] config_views(config_list@)[j].skip,
    ) by {
        assert(config_views(config_list@)[j].skip == config_list@[j].skip@);
    }
    false
}

/// The output for one line of input (without its line terminator): nothing
/// when some rule asks to suppress every line, else the line after all the
/// rules in turn have acted on it.
pub fn colorize(line: &str, config_list: &Vec<ColourConfig>) -> (r: LineOutput)
    ensures
        match r {
            LineOutput::Emit(s) => colorize_spec(line@, config_views(config_list@)) == Some(s@),
            LineOutput::Suppress => colorize_spec(line@, config_views(config_list@)) is None,
        },
{
    if is_skip_input_line(config_list) {
        LineOutput::Suppress
    } else {
        LineOutput::Emit(get_output_line_by_config(line, config_list))
    }
}

} // verus!
