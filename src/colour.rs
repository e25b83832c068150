//! Colour names and the escape sequences they stand for, and lists of
//! colour names as written in a configuration.

use vstd::prelude::*;
use vstd::string::StringExecFns;
use crate::text::{chars_eq, to_chars};

verus! {

/// The control sequence introducer that starts every escape sequence.
pub open spec fn csi() -> Seq<char> {
    "\x1b["@
}

/// A select-graphic-rendition sequence with parameters `code`.
pub open spec fn sgr_spec(code: Seq<char>) -> Seq<char> {
    csi() + code + "m"@
}

/// The sequence that resets all attributes.
pub open spec fn default_code() -> Seq<char> {
    sgr_spec("0"@)
}

/// The code of each colour name that the table knows; `None` for any other
/// name.
pub open spec fn colour_code(name: Seq<char>) -> Option<Seq<char>> {
    if name == "none"@ {
        Some(Seq::empty())
    } else if name == "default"@ {
        Some(sgr_spec("0"@))
    } else if name == "bold"@ {
        Some(sgr_spec("1"@))
    } else if name == "underline"@ {
        Some(sgr_spec("4"@))
    } else if name == "blink"@ {
        Some(sgr_spec("5"@))
    } else if name == "reverse"@ {
        Some(sgr_spec("7"@))
    } else if name == "concealed"@ {
        Some(sgr_spec("8"@))
    } else if name == "black"@ {
        Some(sgr_spec("30"@))
    } else if name == "red"@ {
        Some(sgr_spec("31"@))
    } else if name == "green"@ {
        Some(sgr_spec("32"@))
    } else if name == "yellow"@ {
        Some(sgr_spec("33"@))
    } else if name == "blue"@ {
        Some(sgr_spec("34"@))
    } else if name == "magenta"@ {
        Some(sgr_spec("35"@))
    } else if name == "cyan"@ {
        Some(sgr_spec("36"@))
    } else if name == "white"@ {
        Some(sgr_spec("37"@))
    } else if name == "on_black"@ {
        Some(sgr_spec("40"@))
    } else if name == "on_red"@ {
        Some(sgr_spec("41"@))
    } else if name == "on_green"@ {
        Some(sgr_spec("42"@))
    } else if name == "on_yellow"@ {
        Some(sgr_spec("43"@))
    } else if name == "on_blue"@ {
        Some(sgr_spec("44"@))
    } else if name == "on_magenta"@ {
        Some(sgr_spec("45"@))
    } else if name == "on_cyan"@ {
        Some(sgr_spec("46"@))
    } else if name == "on_white"@ {
        Some(sgr_spec("47"@))
    } else if name == "beep"@ {
        Some("\x07"@)
    } else if name == "previous"@ {
        Some("prev"@)
    } else if name == "unchanged"@ {
        Some("unchanged"@)
    } else if name == "dark"@ {
        Some(sgr_spec("2"@))
    } else if name == "italic"@ {
        Some(sgr_spec("3"@))
    } else if name == "rapidblink"@ {
        Some(sgr_spec("6"@))
    } else if name == "strikethrough"@ {
        Some(sgr_spec("9"@))
    } else if name == "bright_black"@ {
        Some(sgr_spec("30;90"@))
    } else if name == "bright_red"@ {
        Some(sgr_spec("31;91"@))
    } else if name == "bright_green"@ {
        Some(sgr_spec("32;92"@))
    } else if name == "bright_yellow"@ {
        Some(sgr_spec("33;93"@))
    } else if name == "bright_blue"@ {
        Some(sgr_spec("34;94"@))
    } else if name == "bright_magenta"@ {
        Some(sgr_spec("35;95"@))
    } else if name == "bright_cyan"@ {
        Some(sgr_spec("36;96"@))
    } else if name == "bright_white"@ {
        Some(sgr_spec("37;97"@))
    } else if name == "on_bright_black"@ {
        Some(sgr_spec("40;100"@))
    } else if name == "on_bright_red"@ {
        Some(sgr_spec("41;101"@))
    } else if name == "on_bright_green"@ {
        Some(sgr_spec("42;102"@))
    } else if name == "on_bright_yellow"@ {
        Some(sgr_spec("43;103"@))
    } else if name == "on_bright_blue"@ {
        Some(sgr_spec("44;104"@))
    } else if name == "on_bright_magenta"@ {
        Some(sgr_spec("45;105"@))
    } else if name == "on_bright_cyan"@ {
        Some(sgr_spec("46;106"@))
    } else if name == "on_bright_white"@ {
        Some(sgr_spec("47;107"@))
    } else {
        None
    }
}

/// The code a colour name resolves to: its entry in the table, or the reset
/// sequence for a name the table does not know.
pub open spec fn resolve(name: Seq<char>) -> Seq<char> {
    match colour_code(name) {
        Some(c) => c,
        None => default_code(),
    }
}

/// `text` in the colour `colour`, followed by the reset sequence.
pub open spec fn wrap(text: Seq<char>, colour: Seq<char>) -> Seq<char> {
    colour + text + default_code()
}

/// A white-space character: the characters with the Unicode `White_Space`
/// property, as `char::is_whitespace` takes them.
pub open spec fn is_white_space(c: char) -> bool {
    ('\u{9}' <= c && c <= '\u{d}') || c == ' ' || c == '\u{85}' || c == '\u{a0}'
        || c == '\u{1680}' || ('\u{2000}' <= c && c <= '\u{200a}') || c == '\u{2028}'
        || c == '\u{2029}' || c == '\u{202f}' || c == '\u{205f}' || c == '\u{3000}'
}

/// A character that separates colour names in a list: a comma, or white
/// space.
pub open spec fn is_colour_separator(c: char) -> bool {
    c == ',' || is_white_space(c)
}

/// Whether `c` separates colour names in a list.
fn colour_separator(c: char) -> (r: bool)
    ensures
        r == is_colour_separator(c),
{
    c == ',' || ('\u{9}' <= c && c <= '\u{d}') || c == ' ' || c == '\u{85}' || c == '\u{a0}'
        || c == '\u{1680}' || ('\u{2000}' <= c && c <= '\u{200a}') || c == '\u{2028}'
        || c == '\u{2029}' || c == '\u{202f}' || c == '\u{205f}' || c == '\u{3000}'
}

/// The names completed so far in `s`, and the name still being read.
pub open spec fn colour_tokens_state(s: Seq<char>) -> (Seq<Seq<char>>, Seq<char>)
    decreases s.len(),
{
    if s.len() == 0 {
        (Seq::empty(), Seq::empty())
    } else {
        let (done, cur) = colour_tokens_state(s.drop_last());
        let c = s.last();
        if is_colour_separator(c) {
            if cur.len() > 0 {
                (done.push(cur), Seq::empty())
            } else {
                (done, Seq::empty())
            }
        } else {
            (done, cur.push(c))
        }
    }
}

/// The non-empty names of a colour list, in order: the maximal runs of
/// characters that hold no comma and no white space.
pub open spec fn colour_tokens(s: Seq<char>) -> Seq<Seq<char>> {
    let (done, cur) = colour_tokens_state(s);
    if cur.len() > 0 {
        done.push(cur)
    } else {
        done
    }
}

/// The codes of the names of a colour list, in order.
pub open spec fn colour_list(s: Seq<char>) -> Seq<Seq<char>> {
    colour_tokens(s).map_values(|t: Seq<char>| resolve(t))
}

/// The views of a sequence of strings.
pub open spec fn string_views(v: Seq<String>) -> Seq<Seq<char>> {
    v.map_values(|x: String| x@)
}

/// Every name that the table knows, but for `none`, `beep` and the two
/// markers `previous` and `unchanged`, stands for a non-empty sequence that
/// starts with the escape character.
pub proof fn lemma_known_colours_are_escapes(name: Seq<char>)
    requires
        colour_code(name) is Some,
        name != "none"@,
        name != "beep"@,
        name != "previous"@,
        name != "unchanged"@,
    ensures
        resolve(name).len() > 0,
        resolve(name)[0] == '\x1b',
{
    reveal_strlit("\x1b[");
    assert(csi()[0] == '\x1b');
}

/// A name that the table does not know resolves as `default` does.
pub proof fn lemma_unknown_colour_is_default(name: Seq<char>)
    requires
        colour_code(name) is None,
    ensures
        resolve(name) == resolve("default"@),
{
    reveal_strlit("none");
    reveal_strlit("default");
    assert("none"@.len() != "default"@.len());
}

/// A select-graphic-rendition sequence with parameters `code`.
fn sgr(code: &str) -> (r: String)
    ensures
        r@ == sgr_spec(code@),
{
    let mut r = String::from_str("\x1b[");
    r.append(code);
    r.append("m");
    r
}

/// The reset sequence.
pub fn default_colour() -> (r: String)
    ensures
        r@ == default_code(),
{
    sgr("0")
}

/// Resolves a colour name given as characters.
fn resolve_chars(name: &Vec<char>) -> (r: String)
    ensures
        r@ == resolve(name@),
{
    if chars_eq(name, "none") {
        String::new()
    } else if chars_eq(name, "default") {
        sgr("0")
    } else if chars_eq(name, "bold") {
        sgr("1")
    } else if chars_eq(name, "underline") {
        sgr("4")
    } else if chars_eq(name, "blink") {
        sgr("5")
    } else if chars_eq(name, "reverse") {
        sgr("7")
    } else if chars_eq(name, "concealed") {
        sgr("8")
    } else if chars_eq(name, "black") {
        sgr("30")
    } else if chars_eq(name, "red") {
        sgr("31")
    } else if chars_eq(name, "green") {
        sgr("32")
    } else if chars_eq(name, "yellow") {
        sgr("33")
    } else if chars_eq(name, "blue") {
        sgr("34")
    } else if chars_eq(name, "magenta") {
        sgr("35")
    } else if chars_eq(name, "cyan") {
        sgr("36")
    } else if chars_eq(name, "white") {
        sgr("37")
    } else if chars_eq(name, "on_black") {
        sgr("40")
    } else if chars_eq(name, "on_red") {
        sgr("41")
    } else if chars_eq(name, "on_green") {
        sgr("42")
    } else if chars_eq(name, "on_yellow") {
        sgr("43")
    } else if chars_eq(name, "on_blue") {
        sgr("44")
    } else if chars_eq(name, "on_magenta") {
        sgr("45")
    } else if chars_eq(name, "on_cyan") {
        sgr("46")
    } else if chars_eq(name, "on_white") {
        sgr("47")
    } else if chars_eq(name, "beep") {
        String::from_str("\x07")
    } else if chars_eq(name, "previous") {
        String::from_str("prev")
    } else if chars_eq(name, "unchanged") {
        String::from_str("unchanged")
    } else if chars_eq(name, "dark") {
        sgr("2")
    } else if chars_eq(name, "italic") {
        sgr("3")
    } else if chars_eq(name, "rapidblink") {
        sgr("6")
    } else if chars_eq(name, "strikethrough") {
        sgr("9")
    } else if chars_eq(name, "bright_black") {
        sgr("30;90")
    } else if chars_eq(name, "bright_red") {
        sgr("31;91")
    } else if chars_eq(name, "bright_green") {
        sgr("32;92")
    } else if chars_eq(name, "bright_yellow") {
        sgr("33;93")
    } else if chars_eq(name, "bright_blue") {
        sgr("34;94")
    } else if chars_eq(name, "bright_magenta") {
        sgr("35;95")
    } else if chars_eq(name, "bright_cyan") {
        sgr("36;96")
    } else if chars_eq(name, "bright_white") {
        sgr("37;97")
    } else if chars_eq(name, "on_bright_black") {
        sgr("40;100")
    } else if chars_eq(name, "on_bright_red") {
        sgr("41;101")
    } else if chars_eq(name, "on_bright_green") {
        sgr("42;102")
    } else if chars_eq(name, "on_bright_yellow") {
        sgr("43;103")
    } else if chars_eq(name, "on_bright_blue") {
        sgr("44;104")
    } else if chars_eq(name, "on_bright_magenta") {
        sgr("45;105")
    } else if chars_eq(name, "on_bright_cyan") {
        sgr("46;106")
    } else if chars_eq(name, "on_bright_white") {
        sgr("47;107")
    } else {
        sgr("0")
    }
}

/// The escape sequence for a colour name; the reset sequence for a name that
/// is not known.
pub fn get_colour(colour_name: &str) -> (r: String)
    ensures
        r@ == resolve(colour_name@),
{
    resolve_chars(&to_chars(colour_name))
}

/// `content` preceded by `colour` and followed by the reset sequence.
pub fn get_colour_str(content: &str, colour: &str) -> (r: String)
    ensures
        r@ == wrap(content@, colour@),
{
    let mut r = String::from_str(colour);
    r.append(content);
    let d = default_colour();
    r.append(d.as_str());
    r
}

/// The codes of the colour names in `raw_colour`, in order. Names are
/// separated by commas and white space; empty names are dropped.
pub fn get_colour_list(raw_colour: &str) -> (r: Vec<String>)
    ensures
        string_views(r@) == colour_list(raw_colour@),
{
    let cs = to_chars(raw_colour);
    let mut out: Vec<String> = Vec::new();
    let mut cur: Vec<char> = Vec::new();
    let mut i: usize = 0;
    while i < cs.len()
        invariant
            i <= cs@.len(),
            cs@ == raw_colour@,
            colour_tokens_state(cs@.subrange(0, i as int)).1 == cur@,
            string_views(out@) == colour_tokens_state(cs@.subrange(0, i as int)).0.map_values(
                |t: Seq<char>| resolve(t),
            ),
        decreases cs@.len() - i,
    {
        let c = cs[i];
        let ghost prev = colour_tokens_state(cs@.subrange(0, i as int));
        let ghost prev_out = out@;
        proof {
            assert(cs@.subrange(0, i + 1).drop_last() =~= cs@.subrange(0, i as int));
            assert(cs@.subrange(0, i + 1).last() == c);
        }
        if colour_separator(c) {
            if cur.len() > 0 {
                let code = resolve_chars(&cur);
                out.push(code);
            }
            cur = Vec::new();
        } else {
            cur.push(c);
        }
        proof {
            let st = colour_tokens_state(cs@.subrange(0, i + 1));
            if is_colour_separator(c) && prev.1.len() > 0 {
                assert(st.0 == prev.0.push(prev.1));
                assert(out@ == prev_out.push(out@.last()));
                assert(string_views(out@) =~= string_views(prev_out).push(resolve(prev.1)));
            } else {
                assert(st.0 == prev.0);
            }
            assert(string_views(out@) =~= st.0.map_values(|t: Seq<char>| resolve(t)));
        }
        i = i + 1;
    }
    assert(cs@.subrange(0, i as int) =~= cs@);
    let ghost fin = colour_tokens_state(raw_colour@);
    let ghost prev_out = out@;
    if cur.len() > 0 {
        let code = resolve_chars(&cur);
        out.push(code);
        assert(string_views(out@) =~= string_views(prev_out).push(resolve(fin.1)));
        assert(colour_tokens(raw_colour@) == fin.0.push(fin.1));
    }
    assert(string_views(out@) =~= colour_list(raw_colour@));
    out
}

} // verus!
