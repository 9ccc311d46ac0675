//! Tests on live machines: what is run on them, and what its output means.

use vstd::prelude::*;
use vstd::string::StringExecFns;
use crate::split;
use crate::text;

pub mod hetzner;
pub mod install;
pub mod run_laws;

verus! {

/// A line with a tag.
pub open spec fn tagged_text(tag: Seq<char>, msg: Seq<char>) -> Seq<char> {
    "["@
        + tag
        + "] "@
        + msg
}

/// A line with a tag.
fn tagged(tag: &str, msg: &str) -> (r: String)
    ensures
        r@ == tagged_text(tag@, msg@),
{
    let mut out: String = "[".to_owned();
    out.append(tag);
    out.append("] ");
    out.append(msg);
    out
}

/// A line of the log: with the tag of the test where it has one.
pub open spec fn logged(tag: Seq<char>, msg: Seq<char>) -> Seq<char> {
    if tag.len() == 0 {
        msg
    } else {
        tagged_text(tag, msg)
    }
}

/// A line of the log.
pub fn log_line(tag: &str, msg: &str) -> (r: String)
    ensures
        r@ == logged(tag@, msg@),
{
    if tag.is_empty() {
        msg.to_owned()
    } else {
        tagged(tag, msg)
    }
}

/// The setting in a line: nothing in a blank line, a comment or a line without a value. The
/// value may stand in quotes.
pub open spec fn setting_of(line: Seq<char>) -> Option<(Seq<char>, Seq<char>)> {
    let t = split::trimmed(line);
    if t.len() == 0 || t[0] == '#' {
        None
    } else {
        match text::split_once_spec(t, '=') {
            None => None,
            Some((k, v)) => Some(
                (
                    split::trimmed(k),
                    split::stripped(split::stripped(split::trimmed(v), '"'), '\''),
                ),
            ),
        }
    }
}

fn read_setting(line: &str) -> (r: Option<(String, String)>)
    ensures
        text::pair_view(r) == setting_of(line@),
{
    let t: String = split::trim(line);
    let v: Vec<char> = text::to_chars(t.as_str());
    if v.len() == 0 || v[0] == '#' {
        return None;
    }
    match text::split_once(t.as_str(), '=') {
        None => None,
        Some((k, v)) => {
            let plain: String = split::strip_char(split::trim(v.as_str()).as_str(), '"');
            Some((split::trim(k.as_str()), split::strip_char(plain.as_str(), '\'')))
        },
    }
}

/// The settings in the lines, in order.
pub open spec fn settings_of(lines: Seq<Seq<char>>) -> Seq<(Seq<char>, Seq<char>)>
    decreases lines.len(),
{
    if lines.len() == 0 {
        Seq::empty()
    } else {
        match setting_of(lines.last()) {
            Some(kv) => settings_of(lines.drop_last()).push(kv),
            None => settings_of(lines.drop_last()),
        }
    }
}

/// Settings by their characters.
pub open spec fn setting_views(s: Seq<(String, String)>) -> Seq<(Seq<char>, Seq<char>)> {
    Seq::new(s.len(), |i: int| (s[i].0@, s[i].1@))
}

/// The settings in a file.
pub fn load_dotenv(content: &str) -> (r: Vec<(String, String)>)
    ensures
        setting_views(r@) == settings_of(split::lines_of(content@)),
{
    let lines: Vec<String> = split::lines(content);
    let ghost ls = split::lines_of(content@);
    let mut out: Vec<(String, String)> = Vec::new();
    let mut i: usize = 0;
    proof {
        assert(ls.take(0) =~= Seq::empty());
        assert(setting_views(out@) =~= Seq::empty());
    }
    while i < lines.len()
        invariant
            i <= lines@.len(),
            ls == text::views(lines@),
            ls == split::lines_of(content@),
            setting_views(out@) == settings_of(ls.take(i as int)),
        decreases lines@.len() - i,
    {
        let ghost before = out@;
        proof {
            assert(ls.take(i + 1).drop_last() =~= ls.take(i as int));
            assert(ls.take(i + 1).last() == lines@[i as int]@);
        }
        if let Some(kv) = read_setting(lines[i].as_str()) {
            let ghost view = (kv.0@, kv.1@);
            out.push(kv);
            proof {
                assert(setting_views(out@) =~= setting_views(before).push(view));
            }
        }
        i = i + 1;
    }
    proof {
        assert(ls.take(i as int) =~= ls);
    }
    out
}

} // verus!
