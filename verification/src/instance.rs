//! What a running game is doing, read from the lines of its log.
use crate::text::{chars_of, contains_seq, find_from, first_occurrence_from, occurs_at, substring};
use vstd::prelude::*;

verus! {

/// The activity a log line reveals.
#[derive(Debug, Clone)]
pub enum GameStatus {
    /// Playing a local world.
    Singleplayer,
    /// Connected to the server at `ip`.
    Multiplayer { ip: String },
    /// Back in the main menu.
    Menu,
}

/// `c` has the Unicode White_Space property.
pub open spec fn is_white_space(c: char) -> bool {
    let n = c as u32;
    ||| 0x09 <= n <= 0x0D
    ||| n == 0x20
    ||| n == 0x85
    ||| n == 0xA0
    ||| n == 0x1680
    ||| 0x2000 <= n <= 0x200A
    ||| n == 0x2028
    ||| n == 0x2029
    ||| n == 0x202F
    ||| n == 0x205F
    ||| n == 0x3000
}

/// `s` without its leading white space.
pub open spec fn trim_start_ws(s: Seq<char>) -> Seq<char>
    decreases s.len(),
{
    if s.len() > 0 && is_white_space(s[0]) {
        trim_start_ws(s.drop_first())
    } else {
        s
    }
}

/// `s` without its trailing white space.
pub open spec fn trim_end_ws(s: Seq<char>) -> Seq<char>
    decreases s.len(),
{
    if s.len() > 0 && is_white_space(s.last()) {
        trim_end_ws(s.drop_last())
    } else {
        s
    }
}

/// `s` without leading and trailing white space.
pub open spec fn trim_ws(s: Seq<char>) -> Seq<char> {
    trim_end_ws(trim_start_ws(s))
}

/// Does `c` have the Unicode White_Space property?
pub fn is_white_space_char(c: char) -> (r: bool)
    ensures
        r == is_white_space(c),
{
    let n = c as u32;
    (0x09 <= n && n <= 0x0D) || n == 0x20 || n == 0x85 || n == 0xA0 || n == 0x1680 || (0x2000 <= n
        && n <= 0x200A) || n == 0x2028 || n == 0x2029 || n == 0x202F || n == 0x205F || n == 0x3000
}

/// `s` without leading and trailing white space.
pub fn trim(s: &str) -> (r: String)
    ensures
        r@ == trim_ws(s@),
{
    let cs = chars_of(s);
    let mut start: usize = 0;
    assert(cs@.skip(0) =~= cs@);
    while start < cs.len() && is_white_space_char(cs[start])
        invariant
            start <= cs@.len(),
            cs@ == s@,
            trim_start_ws(cs@.skip(start as int)) == trim_start_ws(s@),
        decreases cs.len() - start,
    {
        assert(cs@.skip(start as int).drop_first() =~= cs@.skip(start + 1));
        start = start + 1;
    }
    let ghost t = cs@.skip(start as int);
    assert(trim_start_ws(t) == t);
    let mut end: usize = cs.len();
    assert(cs@.subrange(start as int, end as int) =~= t);
    while end > start && is_white_space_char(cs[end - 1])
        invariant
            start <= end <= cs@.len(),
            cs@ == s@,
            t == cs@.skip(start as int),
            trim_end_ws(cs@.subrange(start as int, end as int)) == trim_end_ws(t),
        decreases end,
    {
        assert(cs@.subrange(start as int, end as int).drop_last() =~= cs@.subrange(
            start as int,
            end - 1,
        ));
        end = end - 1;
    }
    let r = substring(s, start, end);
    assert(trim_end_ws(r@) == r@);
    r
}

/// The text after which a log line names the server being joined.
pub open spec fn connecting_marker() -> Seq<char> {
    "Connecting to "@
}

/// Where, in the text that follows "Connecting to ", the server's name ends:
/// at the first comma, or at the next "Connecting to ", or at the end.
pub open spec fn server_name_end(rest: Seq<char>) -> int {
    let comma = match first_occurrence_from(rest, seq![','], 0) {
        Some(j) => j,
        None => rest.len() as int,
    };
    let again = match first_occurrence_from(rest, connecting_marker(), 0) {
        Some(j) => j,
        None => rest.len() as int,
    };
    if comma <= again {
        comma
    } else {
        again
    }
}

/// The server a "Connecting to" line names: the text after the first
/// "Connecting to " up to the next comma, trimmed; "Unknown" when the line
/// has no "Connecting to " (with the space).
pub open spec fn server_named(line: Seq<char>) -> Seq<char> {
    match first_occurrence_from(line, connecting_marker(), 0) {
        Some(i) => {
            let rest = line.skip(i + connecting_marker().len());
            trim_ws(rest.take(server_name_end(rest)))
        },
        None => "Unknown"@,
    }
}

/// What a log line tells, tried in this order: a world being stopped or
/// saved means single player; "Connecting to" means joining the server it
/// names; "Returning to meta-menu" means the main menu; anything else tells nothing.
pub open spec fn log_line_status(line: Seq<char>, r: Option<GameStatus>) -> bool {
    if contains_seq(line, "Stopping @"@) || contains_seq(line, "Saving chunks for level"@) {
        r matches Some(GameStatus::Singleplayer)
    } else if contains_seq(line, "Connecting to"@) {
        r matches Some(GameStatus::Multiplayer { ip }) && ip@ == server_named(line)
    } else if contains_seq(line, "Returning to meta-menu"@) {
        r matches Some(GameStatus::Menu)
    } else {
        r is None
    }
}

/// Does `pat` occur in `hay`?
fn has(hay: &Vec<char>, pat: &str) -> (r: bool)
    ensures
        r == contains_seq(hay@, pat@),
{
    let p = chars_of(pat);
    match find_from(hay, &p, 0) {
        Some(_) => true,
        None => {
            assert forall|j: int| !#[trigger] occurs_at(hay@, pat@, j) by {
                if 0 <= j {
                    assert(!occurs_at(hay@, p@, j));
                }
            }
            false
        },
    }
}

/// The server that a line containing "Connecting to" names.
fn server_of(line: &str, cs: &Vec<char>) -> (r: String)
    requires
        cs@ == line@,
    ensures
        r@ == server_named(line@),
{
    let marker_text = "Connecting to ";
    let marker = chars_of(marker_text);
    match find_from(cs, &marker, 0) {
        None => {
            let unknown = "Unknown";
            unknown.to_owned()
        },
        Some(i) => {
            assert(occurs_at(cs@, marker@, i as int));
            assert(cs@.len() == cs.len());
            let start = i + marker.len();
            let rest_text = substring(line, start, cs.len());
            let rest = chars_of(rest_text.as_str());
            let comma_text = ",";
            proof {
                reveal_strlit(",");
            }
            let comma = chars_of(comma_text);
            assert(comma@ =~= seq![',']);
            let comma_at = match find_from(&rest, &comma, 0) {
                Some(j) => j,
                None => rest.len(),
            };
            let again_at = match find_from(&rest, &marker, 0) {
                Some(j) => j,
                None => rest.len(),
            };
            let end = if comma_at <= again_at {
                comma_at
            } else {
                again_at
            };
            assert(rest@ =~= line@.skip(start as int));
            let raw = substring(rest_text.as_str(), 0, end);
            assert(raw@ =~= rest@.take(end as int));
            trim(raw.as_str())
        },
    }
}

/// What a line of the game's log tells about its activity, if anything.
pub fn parse_log_line(line: &str) -> (r: Option<GameStatus>)
    ensures
        log_line_status(line@, r),
{
    let cs = chars_of(line);
    if has(&cs, "Stopping @") || has(&cs, "Saving chunks for level") {
        Some(GameStatus::Singleplayer)
    } else if has(&cs, "Connecting to") {
        Some(GameStatus::Multiplayer { ip: server_of(line, &cs) })
    } else if has(&cs, "Returning to meta-menu") {
        Some(GameStatus::Menu)
    } else {
        None
    }
}

} // verus!
