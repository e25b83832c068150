//! Rules and the parser that reads them from the lines of a configuration.

use vstd::prelude::*;
use vstd::string::{StrSliceExecFns, StringExecFns};
use crate::colour::{colour_list, get_colour_list, string_views};
use crate::text::{chars_eq, find_first, first_index_from, has_prefix, lemma_first_index_from, to_chars};

verus! {

/// How a rule picks what it colours.
#[derive(Clone, Copy, Debug, PartialEq, Eq, Structural)]
pub enum CountMode {
    /// Colours the matches of the pattern.
    Once,
    /// Colours the matches of the pattern.
    More,
    /// Colours the whole line in the rule's first colour.
    Block,
    /// Wraps the whole line in the reset sequence.
    Unblock,
}

/// One rule: a pattern, the colours it applies and how, and the modifiers of
/// its block.
#[derive(Debug)]
pub struct ColourConfig {
    pub regexp: String,
    pub colours: Vec<String>,
    pub count: CountMode,
    pub command: String,
    pub skip: String,
    pub replace: String,
    pub concat: String,
}

/// A rule as plain values.
pub struct ConfigView {
    pub regexp: Seq<char>,
    pub colours: Seq<Seq<char>>,
    pub count: CountMode,
    pub command: Seq<char>,
    pub skip: Seq<char>,
    pub replace: Seq<char>,
    pub concat: Seq<char>,
}

impl View for ColourConfig {
    type V = ConfigView;

    open spec fn view(&self) -> ConfigView {
        ConfigView {
            regexp: self.regexp@,
            colours: string_views(self.colours@),
            count: self.count,
            command: self.command@,
            skip: self.skip@,
            replace: self.replace@,
            concat: self.concat@,
        }
    }
}

/// A key and its value, as read from one line.
pub type KeyValue = (Seq<char>, Seq<char>);

/// The rule of a block that sets nothing: no pattern, one empty colour,
/// count mode `More`.
pub open spec fn default_config() -> ConfigView {
    ConfigView {
        regexp: Seq::empty(),
        colours: seq![Seq::empty()],
        count: CountMode::More,
        command: Seq::empty(),
        skip: Seq::empty(),
        replace: Seq::empty(),
        concat: Seq::empty(),
    }
}

/// The count mode a `count` value names; `More` for any other value.
pub open spec fn count_mode_of(v: Seq<char>) -> CountMode {
    if v == "once"@ {
        CountMode::Once
    } else if v == "block"@ {
        CountMode::Block
    } else if v == "unblock"@ {
        CountMode::Unblock
    } else {
        CountMode::More
    }
}

/// `c` with the setting of one key applied; an unknown key changes nothing.
pub open spec fn apply_pair(c: ConfigView, kv: KeyValue) -> ConfigView {
    let (k, v) = kv;
    if k == "regexp"@ {
        ConfigView { regexp: v, ..c }
    } else if k == "colours"@ {
        ConfigView { colours: colour_list(v), ..c }
    } else if k == "count"@ {
        ConfigView { count: count_mode_of(v), ..c }
    } else if k == "command"@ {
        ConfigView { command: v, ..c }
    } else if k == "skip"@ {
        ConfigView { skip: v, ..c }
    } else if k == "replace"@ {
        ConfigView { replace: v, ..c }
    } else if k == "concat"@ {
        ConfigView { concat: v, ..c }
    } else {
        c
    }
}

/// `c` with the settings of `pairs` applied in order.
pub open spec fn insert_pairs(c: ConfigView, pairs: Seq<KeyValue>) -> ConfigView
    decreases pairs.len(),
{
    if pairs.len() == 0 {
        c
    } else {
        apply_pair(insert_pairs(c, pairs.drop_last()), pairs.last())
    }
}

/// The views of a sequence of key/value pairs.
pub open spec fn pair_views(v: Seq<(String, String)>) -> Seq<KeyValue> {
    v.map_values(|p: (String, String)| (p.0@, p.1@))
}

/// The views of a sequence of rules.
pub open spec fn config_views(v: Seq<ColourConfig>) -> Seq<ConfigView> {
    v.map_values(|c: ColourConfig| c@)
}

/// A letter of the ASCII alphabet.
pub open spec fn is_ascii_letter(c: char) -> bool {
    ('a' <= c && c <= 'z') || ('A' <= c && c <= 'Z')
}

/// A line that ends one block and starts the next: not empty, not a comment,
/// and not starting with a letter.
pub open spec fn is_split_line(l: Seq<char>) -> bool {
    l.len() > 0 && l[0] != '#' && !is_ascii_letter(l[0])
}

/// A line that holds nothing: empty, or a comment.
pub open spec fn is_blank_line(l: Seq<char>) -> bool {
    l.len() == 0 || l[0] == '#'
}

/// A key as the rules know it: any key starting with `colo` names the colours.
pub open spec fn normalize_key(k: Seq<char>) -> Seq<char> {
    if 4 <= k.len() && k.subrange(0, 4) == "colo"@ {
        "colours"@
    } else {
        k
    }
}

/// The key and value of a `key=value` line; `None` for a blank line, a
/// comment, or a line without `=`.
pub open spec fn parse_line(l: Seq<char>) -> Option<KeyValue> {
    if is_blank_line(l) {
        None
    } else {
        match first_index_from(l, "="@, 0) {
            Some(i) => Some((normalize_key(l.subrange(0, i)), l.subrange(i + 1, l.len() as int))),
            None => None,
        }
    }
}

/// The rules of the blocks closed so far, and the settings read since the
/// last block separator.
pub open spec fn parse_state(lines: Seq<Seq<char>>) -> (Seq<ConfigView>, Seq<KeyValue>)
    decreases lines.len(),
{
    if lines.len() == 0 {
        (Seq::empty(), Seq::empty())
    } else {
        let (done, pending) = parse_state(lines.drop_last());
        let l = lines.last();
        if is_split_line(l) {
            (done.push(insert_pairs(default_config(), pending)), Seq::empty())
        } else {
            match parse_line(l) {
                Some(kv) => (done, pending.push(kv)),
                None => (done, pending),
            }
        }
    }
}

/// The rules of a configuration, one per block, in order.
pub open spec fn parse_spec(lines: Seq<Seq<char>>) -> Seq<ConfigView> {
    let (done, pending) = parse_state(lines);
    done.push(insert_pairs(default_config(), pending))
}

/// The number of block separators among `lines`.
pub open spec fn split_line_count(lines: Seq<Seq<char>>) -> nat
    decreases lines.len(),
{
    if lines.len() == 0 {
        0
    } else if is_split_line(lines.last()) {
        split_line_count(lines.drop_last()) + 1
    } else {
        split_line_count(lines.drop_last())
    }
}

/// The count mode a `count` value names.
pub fn count_mode(value: &str) -> (r: CountMode)
    ensures
        r == count_mode_of(value@),
{
    let v = to_chars(value);
    if chars_eq(&v, "once") {
        CountMode::Once
    } else if chars_eq(&v, "block") {
        CountMode::Block
    } else if chars_eq(&v, "unblock") {
        CountMode::Unblock
    } else {
        CountMode::More
    }
}

/// Whether `line` ends one block and starts the next.
pub fn is_config_split_line(line: &str) -> (r: bool)
    ensures
        r == is_split_line(line@),
{
    if line.unicode_len() == 0 {
        return false;
    }
    let c = line.get_char(0);
    if c == '#' {
        false
    } else {
        !(('a' <= c && c <= 'z') || ('A' <= c && c <= 'Z'))
    }
}

/// The key and value of a `key=value` line, with a key starting with `colo`
/// read as `colours`. Blank lines, comments and lines without `=` give
/// `None`.
pub fn parse_config_line(line: &str) -> (r: Option<(String, String)>)
    ensures
        match r {
            Some(kv) => parse_line(line@) == Some((kv.0@, kv.1@)),
            None => parse_line(line@) is None,
        },
{
    let n = line.unicode_len();
    if n == 0 || line.get_char(0) == '#' {
        return None;
    }
    let cs = to_chars(line);
    let eq = to_chars("=");
    match find_first(&cs, &eq) {
        None => None,
        Some(i) => {
            proof {
                lemma_first_index_from(line@, "="@, 0);
                reveal_strlit("=");
                reveal_strlit("colo");
            }
            let raw_key = line.substring_char(0, i);
            let value = String::from_str(line.substring_char(i + 1, n));
            let kc = to_chars(raw_key);
            let key = if has_prefix(&kc, "colo") {
                String::from_str("colours")
            } else {
                String::from_str(raw_key)
            };
            Some((key, value))
        },
    }
}

proof fn lemma_parse_state_len(lines: Seq<Seq<char>>)
    ensures
        parse_state(lines).0.len() == split_line_count(lines),
    decreases lines.len(),
{
    if lines.len() > 0 {
        lemma_parse_state_len(lines.drop_last());
    }
}

/// A configuration yields one rule more than it has block separators.
pub proof fn lemma_rule_count(lines: Seq<Seq<char>>)
    ensures
        parse_spec(lines).len() == split_line_count(lines) + 1,
{
    lemma_parse_state_len(lines);
}

proof fn lemma_blank_state(lines: Seq<Seq<char>>)
    requires
        forall|i: int| 0 <= i < lines.len() ==> is_blank_line(#[trigger] lines[i]),
    ensures
        parse_state(lines).0.len() == 0,
        parse_state(lines).1.len() == 0,
    decreases lines.len(),
{
    if lines.len() > 0 {
        let rest = lines.drop_last();
        assert forall|i: int| 0 <= i < rest.len() implies is_blank_line(#[trigger] rest[i]) by {
            assert(rest[i] == lines[i]);
        }
        lemma_blank_state(rest);
        assert(is_blank_line(lines[lines.len() - 1]));
    }
}

/// A configuration of blank lines and comments only (or of no lines at all)
/// yields exactly one rule, with every field at its default.
pub proof fn lemma_blank_config(lines: Seq<Seq<char>>)
    requires
        forall|i: int| 0 <= i < lines.len() ==> is_blank_line(#[trigger] lines[i]),
    ensures
        parse_spec(lines) == seq![default_config()],
{
    lemma_blank_state(lines);
    let (done, pending) = parse_state(lines);
    assert(pending =~= Seq::<KeyValue>::empty());
    assert(insert_pairs(default_config(), pending) == default_config());
    assert(parse_spec(lines) =~= seq![default_config()]);
}

/// A key that sets a field of a rule.
pub open spec fn is_known_key_spec(k: Seq<char>) -> bool {
    k == "regexp"@ || k == "colours"@ || k == "count"@ || k == "command"@ || k == "skip"@
        || k == "replace"@ || k == "concat"@
}

/// A line that is neither blank, a comment, a block separator nor a
/// `key=value` line: the parser drops it.
pub open spec fn is_malformed_line(l: Seq<char>) -> bool {
    !is_blank_line(l) && !is_split_line(l) && first_index_from(l, "="@, 0) is None
}

/// Whether `key` (as `parse_config_line` gives it) sets a field of a rule.
pub fn is_known_key(key: &str) -> (r: bool)
    ensures
        r == is_known_key_spec(key@),
{
    let k = to_chars(key);
    chars_eq(&k, "regexp") || chars_eq(&k, "colours") || chars_eq(&k, "count") || chars_eq(
        &k,
        "command",
    ) || chars_eq(&k, "skip") || chars_eq(&k, "replace") || chars_eq(&k, "concat")
}

/// Whether the parser drops `line` as malformed: it is not blank, not a
/// comment, not a block separator, and holds no `=`.
pub fn is_malformed_config_line(line: &str) -> (r: bool)
    ensures
        r == is_malformed_line(line@),
{
    let n = line.unicode_len();
    if n == 0 || line.get_char(0) == '#' || is_config_split_line(line) {
        return false;
    }
    let cs = to_chars(line);
    let eq = to_chars("=");
    find_first(&cs, &eq).is_none()
}

impl ColourConfig {
    /// The rule of a block that sets nothing.
    pub fn new() -> (r: ColourConfig)
        ensures
            r@ == default_config(),
    {
        let r = ColourConfig {
            regexp: String::new(),
            colours: vec![String::new()],
            count: CountMode::More,
            command: String::new(),
            skip: String::new(),
            replace: String::new(),
            concat: String::new(),
        };
        assert(r@.colours =~= default_config().colours);
        r
    }

    /// Applies the settings of `content` in order: `regexp`, `colours`,
    /// `count`, `command`, `skip`, `replace` and `concat` each set their
    /// field, and any other key is ignored.
    pub fn insert_content(&mut self, content: &Vec<(String, String)>)
        ensures
            final(self)@ == insert_pairs(old(self)@, pair_views(content@)),
    {
        let mut i: usize = 0;
        while i < content.len()
            invariant
                i <= content@.len(),
                self@ == insert_pairs(old(self)@, pair_views(content@.subrange(0, i as int))),
            decreases content@.len() - i,
        {
            let item = &content[i];
            proof {
                let sub = pair_views(content@.subrange(0, i + 1));
                assert(sub.drop_last() =~= pair_views(content@.subrange(0, i as int)));
                assert(sub.last() == (item.0@, item.1@));
            }
            let k = to_chars(item.0.as_str());
            if chars_eq(&k, "regexp") {
                self.regexp = item.1.clone();
            } else if chars_eq(&k, "colours") {
                self.colours = get_colour_list(item.1.as_str());
            } else if chars_eq(&k, "count") {
                self.count = count_mode(item.1.as_str());
            } else if chars_eq(&k, "command") {
                self.command = item.1.clone();
            } else if chars_eq(&k, "skip") {
                self.skip = item.1.clone();
            } else if chars_eq(&k, "replace") {
                self.replace = item.1.clone();
            } else if chars_eq(&k, "concat") {
                self.concat = item.1.clone();
            }
            i = i + 1;
        }
        assert(content@.subrange(0, i as int) =~= content@);
    }
}

/// The rules of a configuration given as its lines: one rule per block, in
/// order, and one more for the lines after the last separator.
pub fn parse_config(lines: &Vec<String>) -> (r: Vec<ColourConfig>)
    ensures
        config_views(r@) == parse_spec(string_views(lines@)),
{
    let ghost lv = string_views(lines@);
    let mut key_val_list: Vec<(String, String)> = Vec::new();
    let mut config_list: Vec<ColourConfig> = Vec::new();
    let mut i: usize = 0;
    while i < lines.len()
        invariant
            i <= lines@.len(),
            lv == string_views(lines@),
            parse_state(lv.subrange(0, i as int)) == (
                config_views(config_list@),
                pair_views(key_val_list@),
            ),
        decreases lines@.len() - i,
    {
        let line = &lines[i];
        let ghost prev_configs = config_list@;
        let ghost prev_pairs = key_val_list@;
        proof {
            let sub = lv.subrange(0, i + 1);
            assert(sub.drop_last() =~= lv.subrange(0, i as int));
            assert(sub.last() == line@);
        }
        if is_config_split_line(line.as_str()) {
            let mut config = ColourConfig::new();
            config.insert_content(&key_val_list);
            config_list.push(config);
            key_val_list = Vec::new();
            proof {
                assert(config_views(config_list@) =~= config_views(prev_configs).push(config@));
                assert(pair_views(key_val_list@) =~= Seq::empty());
            }
        } else {
            match parse_config_line(line.as_str()) {
                None => {},
                Some(kv) => {
                    key_val_list.push(kv);
                    proof {
                        assert(pair_views(key_val_list@) =~= pair_views(prev_pairs).push(
                            (kv.0@, kv.1@),
                        ));
                    }
                },
            }
        }
        i = i + 1;
    }
    assert(lv.subrange(0, i as int) =~= lv);
    let ghost prev_configs = config_list@;
    let mut config = ColourConfig::new();
    config.insert_content(&key_val_list);
    config_list.push(config);
    assert(config_views(config_list@) =~= config_views(prev_configs).push(config@));
    config_list
}

} // verus!
