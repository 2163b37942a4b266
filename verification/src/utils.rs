//! General-purpose helpers of the tool layer: coordinate parsing,
//! duration formatting, filename sanitizing, string truncation, device
//! id generation and app-path validation, each with an exact contract.

use vstd::prelude::*;
use vstd::string::StrSliceExecFns;
use vstd::string::StringExecFns;
use crate::errors::KMobileError;
use crate::strutil::{
    dec_digits, parse_i32, push_char, spec_parse_i32, spec_trim, str_eq, trim_str,
    u64_to_string,
};

verus! {

/// What the environment offers: platform and the tools found on it.
#[derive(Debug)]
pub struct SystemInfo {
    pub os: String,
    pub version: String,
    pub arch: String,
    pub available_tools: Vec<(String, ToolInfo)>,
}

/// One platform tool as detected: where it lives and which version it
/// reported.
#[derive(Debug)]
pub struct ToolInfo {
    pub path: String,
    pub version: String,
    pub available: bool,
}

/// How many times a character occurs.
pub open spec fn count_char(s: Seq<char>, c: char) -> nat
    decreases s.len(),
{
    if s.len() == 0 {
        0
    } else {
        count_char(s.drop_last(), c) + if s.last() == c {
            1nat
        } else {
            0nat
        }
    }
}

/// The position of the single occurrence, meaningful when the count is
/// one.
pub open spec fn char_idx(s: Seq<char>, c: char) -> int {
    choose|k: int| 0 <= k < s.len() && s[k] == c
}

proof fn lemma_count_pos(s: Seq<char>, c: char, i: int)
    requires
        0 <= i < s.len(),
        s[i] == c,
    ensures
        count_char(s, c) >= 1,
    decreases s.len(),
{
    if i == s.len() - 1 {
    } else {
        lemma_count_pos(s.drop_last(), c, i);
    }
}

proof fn lemma_count_unique(s: Seq<char>, c: char, i: int, j: int)
    requires
        count_char(s, c) == 1,
        0 <= i < s.len(),
        0 <= j < s.len(),
        s[i] == c,
        s[j] == c,
    ensures
        i == j,
    decreases s.len(),
{
    if i != j {
        let a = if i < j { i } else { j };
        let b = if i < j { j } else { i };
        if b == s.len() - 1 {
            lemma_count_pos(s.drop_last(), c, a);
        } else if s.last() == c {
            lemma_count_pos(s.drop_last(), c, a);
        } else {
            lemma_count_unique(s.drop_last(), c, i, j);
        }
    }
}

/// What parsing "x,y" yields: with exactly one comma and two integers
/// beside it, the pair; otherwise which part was at fault.
pub open spec fn spec_parse_coordinates(s: Seq<char>) -> Result<(int, int), Seq<char>> {
    if count_char(s, ',') != 1 {
        Err("Invalid coordinate format. Expected 'x,y'"@)
    } else {
        let k = char_idx(s, ',');
        let x = spec_parse_i32(spec_trim(s.subrange(0, k)));
        let y = spec_parse_i32(spec_trim(s.subrange(k + 1, s.len() as int)));
        if x is None {
            Err("Invalid x coordinate"@)
        } else if y is None {
            Err("Invalid y coordinate"@)
        } else {
            Ok((x->Some_0, y->Some_0))
        }
    }
}

/// Parses a screen coordinate pair "x,y", trimming whitespace around
/// each part; rejects anything without exactly one comma or whose parts
/// are not 32-bit integers, naming the part at fault.
pub fn parse_coordinates(coordinate_str: &str) -> (r: Result<(i32, i32), KMobileError>)
    ensures
        match r {
            Ok((x, y)) => spec_parse_coordinates(coordinate_str@) == Ok::<(int, int), Seq<char>>(
                (x as int, y as int),
            ),
            Err(e) => e matches KMobileError::InvalidInput(m) && spec_parse_coordinates(
                coordinate_str@,
            ) matches Err(em) && m@ == em,
        },
{
    let len = coordinate_str.unicode_len();
    let mut commas: usize = 0;
    let mut first: usize = 0;
    let mut i: usize = 0;
    while i < len
        invariant
            0 <= i <= len,
            len == coordinate_str@.len(),
            commas <= i,
            commas as nat == count_char(coordinate_str@.take(i as int), ','),
            commas > 0 ==> first < i && coordinate_str@[first as int] == ',',
        decreases len - i,
    {
        proof {
            assert(coordinate_str@.take(i + 1).drop_last() =~= coordinate_str@.take(i as int));
        }
        if coordinate_str.get_char(i) == ',' {
            if commas == 0 {
                first = i;
            }
            commas += 1;
        }
        i += 1;
    }
    proof {
        assert(coordinate_str@.take(len as int) =~= coordinate_str@);
    }
    if commas != 1 {
        return Err(
            KMobileError::InvalidInput(
                String::from_str("Invalid coordinate format. Expected 'x,y'"),
            ),
        );
    }
    proof {
        lemma_count_unique(
            coordinate_str@,
            ',',
            first as int,
            char_idx(coordinate_str@, ','),
        );
    }
    let x_part = coordinate_str.substring_char(0, first);
    let x_trimmed = trim_str(x_part);
    let x = match parse_i32(x_trimmed.as_str()) {
        None => {
            return Err(KMobileError::InvalidInput(String::from_str("Invalid x coordinate")));
        },
        Some(v) => v,
    };
    let y_part = coordinate_str.substring_char(first + 1, len);
    let y_trimmed = trim_str(y_part);
    let y = match parse_i32(y_trimmed.as_str()) {
        None => {
            return Err(KMobileError::InvalidInput(String::from_str("Invalid y coordinate")));
        },
        Some(v) => v,
    };
    Ok((x, y))
}

/// What formatting a duration yields: seconds alone under a minute,
/// minutes and seconds under an hour, and hours, minutes and seconds
/// from there on.
pub open spec fn spec_format_duration(total: nat) -> Seq<char> {
    let h = total / 3600;
    let m = (total % 3600) / 60;
    let s = total % 60;
    if h > 0 {
        dec_digits(h) + "h "@ + dec_digits(m) + "m "@ + dec_digits(s) + "s"@
    } else if m > 0 {
        dec_digits(m) + "m "@ + dec_digits(s) + "s"@
    } else {
        dec_digits(s) + "s"@
    }
}

/// Formats a whole number of seconds the way a person reads it.
pub fn format_duration(total_seconds: u64) -> (r: String)
    ensures
        r@ == spec_format_duration(total_seconds as nat),
{
    let hours = total_seconds / 3600;
    let minutes = (total_seconds % 3600) / 60;
    let seconds = total_seconds % 60;
    if hours > 0 {
        let mut s = u64_to_string(hours);
        s.append("h ");
        let m = u64_to_string(minutes);
        s.append(m.as_str());
        s.append("m ");
        let sec = u64_to_string(seconds);
        s.append(sec.as_str());
        s.append("s");
        assert(s@ =~= spec_format_duration(total_seconds as nat));
        s
    } else if minutes > 0 {
        let mut s = u64_to_string(minutes);
        s.append("m ");
        let sec = u64_to_string(seconds);
        s.append(sec.as_str());
        s.append("s");
        assert(s@ =~= spec_format_duration(total_seconds as nat));
        s
    } else {
        let mut s = u64_to_string(seconds);
        s.append("s");
        assert(s@ =~= spec_format_duration(total_seconds as nat));
        s
    }
}

/// What sanitizing replaces: path separators and the characters shells
/// and filesystems reserve.
pub open spec fn sanitize_char(c: char) -> char {
    if c == '/' || c == '\\' || c == ':' || c == '*' || c == '?' || c == '"' || c == '<' || c
        == '>' || c == '|' {
        '_'
    } else {
        c
    }
}

/// The filename with every reserved character replaced by an
/// underscore.
pub open spec fn spec_sanitize_filename(s: Seq<char>) -> Seq<char> {
    s.map_values(|c: char| sanitize_char(c))
}

pub fn sanitize_filename(filename: &str) -> (r: String)
    ensures
        r@ == spec_sanitize_filename(filename@),
{
    let len = filename.unicode_len();
    let mut out = String::new();
    let mut i: usize = 0;
    while i < len
        invariant
            0 <= i <= len,
            len == filename@.len(),
            out@ =~= spec_sanitize_filename(filename@.take(i as int)),
        decreases len - i,
    {
        let c = filename.get_char(i);
        let mapped = match c {
            '/' | '\\' | ':' | '*' | '?' | '"' | '<' | '>' | '|' => '_',
            _ => c,
        };
        push_char(&mut out, mapped);
        proof {
            assert(filename@.take(i + 1) =~= filename@.take(i as int).push(filename@[i as int]));
            assert(out@ =~= spec_sanitize_filename(filename@.take(i + 1)));
        }
        i += 1;
    }
    proof {
        assert(filename@.take(len as int) =~= filename@);
    }
    out
}

/// What truncation keeps: the whole string when it fits, else its head
/// with a three-dot ellipsis in the last three places.
pub open spec fn spec_truncate(s: Seq<char>, max: nat) -> Seq<char> {
    if s.len() <= max {
        s
    } else {
        s.take(if max >= 3 {
            max - 3
        } else {
            0int
        }) + "..."@
    }
}

pub fn truncate_string(s: &str, max_length: usize) -> (r: String)
    ensures
        r@ == spec_truncate(s@, max_length as nat),
{
    let len = s.unicode_len();
    if len <= max_length {
        String::from_str(s)
    } else {
        let keep: usize = if max_length >= 3 {
            max_length - 3
        } else {
            0
        };
        let head = s.substring_char(0, keep);
        let mut out = String::from_str(head);
        out.append("...");
        assert(out@ =~= spec_truncate(s@, max_length as nat));
        out
    }
}

/// Relies on chrono::Utc::now: the clock's current reading. Its
/// timestamp is never negative, because now aborts outright when the
/// system clock reads before the Unix epoch and otherwise builds the
/// time from a nonnegative duration since it; beyond that, nothing can
/// be promised of a clock.
#[verifier::external_body]
fn unix_timestamp() -> (r: i64)
    ensures
        r >= 0,
{
    chrono::Utc::now().timestamp()
}

/// A fresh endpoint id from the current time: the fixed prefix and the
/// timestamp's decimal digits.
pub fn generate_device_id() -> (r: String)
    ensures
        exists|ts: nat| r@ == "kmobile-"@ + #[trigger] dec_digits(ts),
{
    let t = unix_timestamp();
    let ts: u64 = t as u64;
    let mut s = String::from_str("kmobile-");
    let digits = u64_to_string(ts);
    s.append(digits.as_str());
    proof {
        assert(s@ == "kmobile-"@ + dec_digits(ts as nat));
    }
    s
}

/// The version-query arguments of each known tool.
pub fn version_args_for(tool_name: &str) -> (r: Vec<String>)
    ensures
        tool_name@ == "adb"@ ==> r@.len() == 1 && r@[0]@ == "version"@,
        tool_name@ == "simctl"@ ==> r@.len() == 1 && r@[0]@ == "help"@,
        tool_name@ == "xcodebuild"@ ==> r@.len() == 1 && r@[0]@ == "-version"@,
        tool_name@ == "instruments"@ ==> r@.len() == 1 && r@[0]@ == "-version"@,
        (tool_name@ != "adb"@ && tool_name@ != "simctl"@ && tool_name@ != "xcodebuild"@
            && tool_name@ != "instruments"@) ==> r@.len() == 1 && r@[0]@ == "--version"@,
{
    proof {
        reveal_strlit("adb");
        reveal_strlit("simctl");
        reveal_strlit("xcodebuild");
        reveal_strlit("instruments");
        assert("adb"@.len() == 3);
        assert("simctl"@.len() == 6);
        assert("xcodebuild"@.len() == 10);
        assert("instruments"@.len() == 11);
    }
    let mut args: Vec<String> = Vec::new();
    if str_eq(tool_name, "adb") {
        args.push(String::from_str("version"));
    } else if str_eq(tool_name, "simctl") {
        args.push(String::from_str("help"));
    } else if str_eq(tool_name, "xcodebuild") {
        args.push(String::from_str("-version"));
    } else if str_eq(tool_name, "instruments") {
        args.push(String::from_str("-version"));
    } else {
        args.push(String::from_str("--version"));
    }
    args
}

/// What the version query's first output line yields: the Xcode tool
/// reports its version after the product name, which is cut away and
/// the rest trimmed; every other tool's version is the line's last
/// whitespace-separated token. No output, or a tokenless line, reads as
/// unknown.
pub open spec fn spec_extract_version(tool: Seq<char>, out: Seq<char>) -> Seq<char> {
    let lines = crate::strutil::spec_lines(out);
    if lines.len() == 0 {
        "unknown"@
    } else {
        let line = lines[0];
        if tool == "xcodebuild"@ {
            spec_trim(crate::strutil::spec_remove_all(line, "Xcode "@))
        } else {
            let toks = crate::strutil::spec_ws_tokens(line);
            if toks.len() == 0 {
                "unknown"@
            } else {
                toks.last()
            }
        }
    }
}

/// Extracts a tool's version from its version-query output.
pub fn extract_tool_version(tool_name: &str, output: &str) -> (r: String)
    ensures
        r@ == spec_extract_version(tool_name@, output@),
{
    let ls = crate::strutil::lines_of(output);
    if ls.len() == 0 {
        return String::from_str("unknown");
    }
    let line = &ls[0];
    proof {
        assert(ls.deep_view()[0] == ls@[0]@);
    }
    if str_eq(tool_name, "xcodebuild") {
        proof {
            reveal_strlit("Xcode ");
            assert("Xcode "@.len() == 6);
        }
        let stripped = crate::strutil::remove_all(line.as_str(), "Xcode ");
        trim_str(stripped.as_str())
    } else {
        let toks = crate::strutil::ws_tokens(line.as_str());
        let n = toks.len();
        if n == 0 {
            String::from_str("unknown")
        } else {
            proof {
                assert(toks.deep_view()[n - 1] == toks@[n - 1]@);
            }
            toks[n - 1].clone()
        }
    }
}

/// The documented fallback locations searched for each tool when the
/// path lookup finds nothing.
pub fn common_tool_paths(tool_name: &str) -> (r: Vec<String>)
    ensures
        tool_name@ == "adb"@ ==> r@.len() == 3 && r@[0]@ == "/usr/local/bin/adb"@ && r@[1]@
            == "/opt/android-sdk/platform-tools/adb"@ && r@[2]@
            == "$ANDROID_HOME/platform-tools/adb"@,
        tool_name@ == "simctl"@ ==> r@.len() == 2 && r@[0]@ == "/usr/bin/simctl"@ && r@[1]@
            == "/Applications/Xcode.app/Contents/Developer/usr/bin/simctl"@,
        tool_name@ == "xcodebuild"@ ==> r@.len() == 2 && r@[0]@ == "/usr/bin/xcodebuild"@
            && r@[1]@ == "/Applications/Xcode.app/Contents/Developer/usr/bin/xcodebuild"@,
        (tool_name@ != "adb"@ && tool_name@ != "simctl"@ && tool_name@ != "xcodebuild"@)
            ==> r@.len() == 0,
{
    proof {
        reveal_strlit("adb");
        reveal_strlit("simctl");
        reveal_strlit("xcodebuild");
        assert("adb"@.len() == 3);
        assert("simctl"@.len() == 6);
        assert("xcodebuild"@.len() == 10);
    }
    let mut out: Vec<String> = Vec::new();
    if str_eq(tool_name, "adb") {
        out.push(String::from_str("/usr/local/bin/adb"));
        out.push(String::from_str("/opt/android-sdk/platform-tools/adb"));
        out.push(String::from_str("$ANDROID_HOME/platform-tools/adb"));
    } else if str_eq(tool_name, "simctl") {
        out.push(String::from_str("/usr/bin/simctl"));
        out.push(String::from_str("/Applications/Xcode.app/Contents/Developer/usr/bin/simctl"));
    } else if str_eq(tool_name, "xcodebuild") {
        out.push(String::from_str("/usr/bin/xcodebuild"));
        out.push(
            String::from_str("/Applications/Xcode.app/Contents/Developer/usr/bin/xcodebuild"),
        );
    }
    out
}

/// The position of the first true flag, or minus one.
pub open spec fn first_true(s: Seq<bool>) -> int
    decreases s.len(),
{
    if s.len() == 0 {
        -1
    } else if s[0] {
        0
    } else {
        let r = first_true(s.drop_first());
        if r < 0 {
            -1
        } else {
            r + 1
        }
    }
}

proof fn lemma_first_true(s: Seq<bool>)
    ensures
        -1 <= first_true(s) < s.len(),
        first_true(s) >= 0 ==> s[first_true(s)],
        forall|j: int| 0 <= j < first_true(s) ==> !s[j],
        first_true(s) == -1 ==> forall|j: int| 0 <= j < s.len() ==> !s[j],
    decreases s.len(),
{
    if s.len() > 0 && !s[0] {
        let t = s.drop_first();
        lemma_first_true(t);
        if first_true(s) >= 0 {
            assert(s[first_true(s)] == t[first_true(s) - 1]);
        }
        assert forall|j: int| 0 <= j < first_true(s) implies !s[j] by {
            if j > 0 {
                assert(t[j - 1] == s[j]);
            }
        }
        if first_true(s) == -1 {
            assert forall|j: int| 0 <= j < s.len() implies !s[j] by {
                if j > 0 {
                    assert(t[j - 1] == s[j]);
                }
            }
        }
    }
}

/// The documented selection of a tool's path: the lookup result when
/// the path lookup found one; otherwise the first documented fallback
/// the runner found present on disk; otherwise the command error
/// naming the tool. The runner supplies the lookup result and, beside
/// each fallback path, whether it exists.
pub fn resolve_tool_path(
    tool_name: &str,
    which_result: Option<String>,
    fallbacks: &Vec<String>,
    fallback_exists: &Vec<bool>,
) -> (r: Result<String, KMobileError>)
    requires
        fallbacks@.len() == fallback_exists@.len(),
    ensures
        which_result matches Some(p) ==> (r matches Ok(q) && q@ == p@),
        (which_result is None && first_true(fallback_exists@) >= 0) ==> (r matches Ok(q) && q@
            == fallbacks@[first_true(fallback_exists@)]@),
        (which_result is None && first_true(fallback_exists@) == -1) ==> (r matches Err(
            KMobileError::CommandError(m),
        ) && m@ == "Tool "@ + tool_name@ + " not found"@),
{
    match which_result {
        Some(p) => Ok(p),
        None => {
            let n = fallback_exists.len();
            let mut i: usize = 0;
            while i < n
                invariant
                    0 <= i <= n,
                    n == fallback_exists@.len(),
                    fallbacks@.len() == fallback_exists@.len(),
                    which_result is None,
                    forall|j: int| 0 <= j < i ==> !fallback_exists@[j],
                decreases n - i,
            {
                if fallback_exists[i] {
                    proof {
                        lemma_first_true(fallback_exists@);
                        if first_true(fallback_exists@) < i as int {
                            assert(!fallback_exists@[first_true(fallback_exists@)]);
                        } else if first_true(fallback_exists@) > i as int {
                            assert(!fallback_exists@[i as int]);
                        }
                    }
                    return Ok(fallbacks[i].clone());
                }
                i += 1;
            }
            proof {
                lemma_first_true(fallback_exists@);
                if first_true(fallback_exists@) >= 0 {
                    assert(!fallback_exists@[first_true(fallback_exists@)]);
                }
            }
            let mut msg = String::from_str("Tool ");
            msg.append(tool_name);
            msg.append(" not found");
            proof {
                assert(msg@ =~= "Tool "@ + tool_name@ + " not found"@);
            }
            Err(KMobileError::CommandError(msg))
        },
    }
}

/// One tool's availability record, assembled by the documented rule:
/// the path selected by `resolve_tool_path`, the version read from the
/// version query's output — unknown when the query failed or produced
/// nothing, never an error — and the tool marked available.
pub fn tool_availability(
    tool_name: &str,
    which_result: Option<String>,
    fallbacks: &Vec<String>,
    fallback_exists: &Vec<bool>,
    version_output: Option<&str>,
) -> (r: Result<ToolInfo, KMobileError>)
    requires
        fallbacks@.len() == fallback_exists@.len(),
    ensures
        (which_result is None && first_true(fallback_exists@) == -1) ==> (r matches Err(
            KMobileError::CommandError(m),
        ) && m@ == "Tool "@ + tool_name@ + " not found"@),
        !(which_result is None && first_true(fallback_exists@) == -1) ==> (r matches Ok(info)
            && info.available && (which_result matches Some(p) ==> info.path@ == p@) && (
        which_result is None ==> info.path@ == fallbacks@[first_true(fallback_exists@)]@) && (
        version_output matches Some(out) ==> info.version@ == spec_extract_version(
            tool_name@,
            out@,
        )) && (version_output is None ==> info.version@ == "unknown"@)),
{
    let path = match resolve_tool_path(tool_name, which_result, fallbacks, fallback_exists) {
        Err(e) => {
            return Err(e);
        },
        Ok(p) => p,
    };
    let version = match version_output {
        Some(out) => extract_tool_version(tool_name, out),
        None => String::from_str("unknown"),
    };
    Ok(ToolInfo { path, version, available: true })
}

/// The delay before each retry attempt: the initial delay, doubled
/// after every failure, clamped to the integer range.
pub open spec fn spec_backoff_delay(initial_ms: nat, attempt: nat) -> nat
    decreases attempt,
{
    if attempt == 0 {
        initial_ms
    } else {
        let prev = spec_backoff_delay(initial_ms, (attempt - 1) as nat);
        if prev * 2 > u64::MAX {
            u64::MAX as nat
        } else {
            prev * 2
        }
    }
}

/// The whole retry schedule: one delay per attempt, each double the
/// one before. The retry loop itself — running the operation, sleeping,
/// giving up — is the runner's work.
pub fn backoff_delays(initial_ms: u64, attempts: usize) -> (r: Vec<u64>)
    ensures
        r@.len() == attempts,
        forall|i: int|
            0 <= i < attempts ==> #[trigger] r@[i] == spec_backoff_delay(
                initial_ms as nat,
                i as nat,
            ),
{
    let mut out: Vec<u64> = Vec::new();
    let mut cur = initial_ms;
    let mut i: usize = 0;
    while i < attempts
        invariant
            0 <= i <= attempts,
            out@.len() == i,
            cur == spec_backoff_delay(initial_ms as nat, i as nat),
            forall|j: int|
                0 <= j < i ==> #[trigger] out@[j] == spec_backoff_delay(
                    initial_ms as nat,
                    j as nat,
                ),
        decreases attempts - i,
    {
        out.push(cur);
        cur = if cur > u64::MAX / 2 {
            u64::MAX
        } else {
            cur * 2
        };
        i += 1;
    }
    out
}

/// The position of the last occurrence, or minus one.
pub open spec fn last_idx(s: Seq<char>, c: char) -> int
    decreases s.len(),
{
    if s.len() == 0 {
        -1
    } else if s.last() == c {
        s.len() - 1
    } else {
        last_idx(s.drop_last(), c)
    }
}

proof fn lemma_last_idx(s: Seq<char>, c: char)
    ensures
        -1 <= last_idx(s, c) < s.len(),
        last_idx(s, c) >= 0 ==> s[last_idx(s, c)] == c,
        forall|j: int| last_idx(s, c) < j < s.len() ==> s[j] != c,
    decreases s.len(),
{
    if s.len() > 0 && s.last() != c {
        lemma_last_idx(s.drop_last(), c);
        assert forall|j: int| last_idx(s, c) < j < s.len() implies s[j] != c by {
            if j < s.len() - 1 {
                assert(s.drop_last()[j] == s[j]);
            }
        }
    }
}

fn find_last(s: &str, c: char) -> (r: Option<usize>)
    ensures
        match r {
            Some(i) => i < s@.len() && last_idx(s@, c) == i as int,
            None => last_idx(s@, c) == -1,
        },
{
    let len = s.unicode_len();
    let mut i: usize = len;
    while i > 0
        invariant
            0 <= i <= len,
            len == s@.len(),
            forall|j: int| i <= j < len ==> s@[j] != c,
        decreases i,
    {
        i -= 1;
        if s.get_char(i) == c {
            proof {
                lemma_last_idx(s@, c);
                if last_idx(s@, c) != i as int {
                    if last_idx(s@, c) < i as int {
                        assert(s@[i as int] != c);
                    }
                }
            }
            return Some(i);
        }
    }
    proof {
        lemma_last_idx(s@, c);
        if last_idx(s@, c) >= 0 {
            assert(s@[last_idx(s@, c)] != c);
        }
    }
    None
}

/// The ASCII lowering of one character.
pub open spec fn lower_char(c: char) -> char {
    if 65 <= c as u32 <= 90 {
        (((c as u32) + 32) as u8) as char
    } else {
        c
    }
}

/// The ASCII-lowered sequence.
pub open spec fn spec_ascii_lower(s: Seq<char>) -> Seq<char> {
    s.map_values(|c: char| lower_char(c))
}

fn ascii_lower(s: &str) -> (r: String)
    ensures
        r@ == spec_ascii_lower(s@),
{
    let len = s.unicode_len();
    let mut out = String::new();
    let mut i: usize = 0;
    while i < len
        invariant
            0 <= i <= len,
            len == s@.len(),
            out@ =~= spec_ascii_lower(s@.take(i as int)),
        decreases len - i,
    {
        let c = s.get_char(i);
        let code = c as u32;
        let mapped: char = if 65 <= code && code <= 90 {
            ((code + 32) as u8) as char
        } else {
            c
        };
        push_char(&mut out, mapped);
        proof {
            assert(s@.take(i + 1) =~= s@.take(i as int).push(s@[i as int]));
            assert(out@ =~= spec_ascii_lower(s@.take(i + 1)));
        }
        i += 1;
    }
    proof {
        assert(s@.take(len as int) =~= s@);
    }
    out
}

/// The file name: what follows the last path separator.
pub open spec fn spec_file_name(s: Seq<char>) -> Seq<char> {
    s.subrange(last_idx(s, '/') + 1, s.len() as int)
}

/// The extension: what follows the file name's last dot, defined only
/// when something precedes that dot.
pub open spec fn spec_extension(s: Seq<char>) -> Option<Seq<char>> {
    let name = spec_file_name(s);
    let dot = last_idx(name, '.');
    if dot >= 1 {
        Some(name.subrange(dot + 1, name.len() as int))
    } else {
        None
    }
}

/// Whether the lowered extension names an installable app bundle.
pub open spec fn spec_app_extension_ok(ext: Seq<char>) -> bool {
    spec_ascii_lower(ext) == "apk"@ || spec_ascii_lower(ext) == "aab"@ || spec_ascii_lower(ext)
        == "app"@ || spec_ascii_lower(ext) == "ipa"@
}

/// Checks the shape of an app path: its file name must carry one of the
/// installable extensions, compared without regard to ASCII case.
/// Whether the file exists is the caller's concern before installing.
pub fn validate_app_path(app_path: &str) -> (r: Result<(), KMobileError>)
    ensures
        spec_extension(app_path@) is None ==> (r matches Err(KMobileError::InvalidInput(m))
            && m@ == "App file has no extension"@),
        spec_extension(app_path@) matches Some(ext) ==> {
            &&& spec_app_extension_ok(ext) ==> r is Ok
            &&& !spec_app_extension_ok(ext) ==> (r matches Err(KMobileError::InvalidInput(m))
                && m@ == "Invalid app file extension: "@ + ext)
        },
{
    let len = app_path.unicode_len();
    let name_start: usize = match find_last(app_path, '/') {
        Some(i) => i + 1,
        None => 0,
    };
    let name = app_path.substring_char(name_start, len);
    proof {
        assert(name@ =~= spec_file_name(app_path@));
    }
    let name_len = name.unicode_len();
    let dot = match find_last(name, '.') {
        Some(i) if i >= 1 => i,
        _ => {
            return Err(
                KMobileError::InvalidInput(String::from_str("App file has no extension")),
            );
        },
    };
    let ext = name.substring_char(dot + 1, name_len);
    let lowered = ascii_lower(ext);
    if str_eq(lowered.as_str(), "apk") || str_eq(lowered.as_str(), "aab") || str_eq(
        lowered.as_str(),
        "app",
    ) || str_eq(lowered.as_str(), "ipa") {
        Ok(())
    } else {
        let mut msg = String::from_str("Invalid app file extension: ");
        msg.append(ext);
        Err(KMobileError::InvalidInput(msg))
    }
}

} // verus!
