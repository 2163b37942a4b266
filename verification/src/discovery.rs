//! Endpoint discovery: the parsers that turn backend enumeration output
//! into normalized records. Parsing tolerates drift: unknown fields are
//! ignored, missing fields get documented defaults, and a line that
//! cannot be minimally identified is dropped rather than failing the
//! whole discovery run.

use vstd::prelude::*;
use vstd::string::StrSliceExecFns;
use vstd::string::StringExecFns;
use crate::strutil::{
    lines_of, spec_lines, spec_trim, spec_ws_tokens, str_contains, str_eq, spec_contains,
    first_idx, find_first, first_sub, lemma_first_idx, push_char, trim_str, ws_tokens,
};

verus! {

/// Sub-commands of the device command group.
#[derive(Debug)]
pub enum DeviceCommands {
    List,
    Connect { id: String },
    Install { id: String, app: String },
    Deploy { id: String, project: Option<String> },
    Test { id: String, suite: Option<String> },
}

/// What the Android debug tool reports of one device.
#[derive(Debug, Clone, Copy, PartialEq, Eq, Structural)]
pub enum DeviceStatus {
    Connected,
    Disconnected,
    Unauthorized,
    Offline,
}

/// One discovered device as the device manager lists it.
#[derive(Debug)]
pub struct Device {
    pub id: String,
    pub name: String,
    pub platform: String,
    pub version: String,
    pub status: DeviceStatus,
    pub capabilities: Vec<(String, bool)>,
}

/// Sub-commands of the simulator command group.
#[derive(Debug)]
pub enum SimulatorCommands {
    List,
    Start { id: String },
    Stop { id: String },
    Reset { id: String },
    Install { id: String, app: String },
}

/// The lifecycle state a simulator reports.
#[derive(Debug, Clone, Copy, PartialEq, Eq, Structural)]
pub enum SimulatorStatus {
    Booted,
    Shutdown,
    Booting,
    ShuttingDown,
}

/// One available simulator or emulator.
#[derive(Debug)]
pub struct Simulator {
    pub id: String,
    pub name: String,
    pub platform: String,
    pub version: String,
    pub status: SimulatorStatus,
    pub device_type: String,
}

/// The status the Android device listing's second column denotes.
pub open spec fn spec_adb_status(tok: Seq<char>) -> DeviceStatus {
    if tok == "device"@ {
        DeviceStatus::Connected
    } else if tok == "unauthorized"@ {
        DeviceStatus::Unauthorized
    } else if tok == "offline"@ {
        DeviceStatus::Offline
    } else {
        DeviceStatus::Disconnected
    }
}

pub fn adb_status_of(tok: &str) -> (r: DeviceStatus)
    ensures
        r == spec_adb_status(tok@),
{
    if str_eq(tok, "device") {
        DeviceStatus::Connected
    } else if str_eq(tok, "unauthorized") {
        DeviceStatus::Unauthorized
    } else if str_eq(tok, "offline") {
        DeviceStatus::Offline
    } else {
        DeviceStatus::Disconnected
    }
}

/// What one line of the Android device listing contributes: its first
/// token as the id and its second as the status, or nothing for a blank
/// or single-token line.
pub open spec fn spec_adb_line(l: Seq<char>) -> Seq<(Seq<char>, DeviceStatus)> {
    if spec_trim(l).len() == 0 {
        Seq::empty()
    } else {
        let toks = spec_ws_tokens(l);
        if toks.len() >= 2 {
            seq![(toks[0], spec_adb_status(toks[1]))]
        } else {
            Seq::empty()
        }
    }
}

/// What a whole listing contributes, in order.
pub open spec fn spec_adb_lines(lines: Seq<Seq<char>>) -> Seq<(Seq<char>, DeviceStatus)>
    decreases lines.len(),
{
    if lines.len() == 0 {
        Seq::empty()
    } else {
        spec_adb_lines(lines.drop_last()) + spec_adb_line(lines.last())
    }
}

/// The id-and-status pairs of a parse result.
pub open spec fn pairs_view(v: Seq<(String, DeviceStatus)>) -> Seq<(Seq<char>, DeviceStatus)> {
    Seq::new(v.len(), |i: int| (v[i].0@, v[i].1))
}

/// Parses the Android device listing: the header line is skipped, blank
/// and single-token lines are dropped, and each remaining line yields
/// the device id and its reported status, in order.
pub fn parse_adb_devices(output: &str) -> (r: Vec<(String, DeviceStatus)>)
    ensures
        spec_lines(output@).len() == 0 ==> r@.len() == 0,
        spec_lines(output@).len() > 0 ==> pairs_view(r@) =~= spec_adb_lines(
            spec_lines(output@).drop_first(),
        ),
{
    let ls = lines_of(output);
    let n = ls.len();
    let mut out: Vec<(String, DeviceStatus)> = Vec::new();
    if n == 0 {
        return out;
    }
    let ghost body = ls.deep_view().drop_first();
    let mut i: usize = 1;
    while i < n
        invariant
            1 <= i <= n,
            n == ls@.len(),
            n >= 1,
            body == ls.deep_view().drop_first(),
            pairs_view(out@) =~= spec_adb_lines(body.take(i - 1)),
        decreases n - i,
    {
        proof {
            assert(body.take(i as int).drop_last() =~= body.take(i - 1));
            assert(body.take(i as int).last() == ls.deep_view()[i as int]);
            assert(ls.deep_view()[i as int] == ls@[i as int]@);
        }
        let line = &ls[i];
        let trimmed = trim_str(line.as_str());
        if trimmed.as_str().unicode_len() > 0 {
            let toks = ws_tokens(line.as_str());
            if toks.len() >= 2 {
                let id = toks[0].clone();
                let status = adb_status_of(toks[1].as_str());
                proof {
                    assert(toks.deep_view()[0] == toks@[0]@);
                    assert(toks.deep_view()[1] == toks@[1]@);
                }
                let ghost o0 = pairs_view(out@);
                out.push((id, status));
                proof {
                    assert forall|j: int|
                        0 <= j < pairs_view(out@).len() implies pairs_view(out@)[j] == (o0
                        + spec_adb_line(ls@[i as int]@))[j] by {
                        if j < o0.len() {
                            assert(pairs_view(out@)[j] == o0[j]);
                        }
                    }
                    assert(pairs_view(out@) =~= o0 + spec_adb_line(ls@[i as int]@));
                    assert(pairs_view(out@) =~= spec_adb_lines(body.take(i as int)));
                }
            } else {
                proof {
                    assert(pairs_view(out@) =~= spec_adb_lines(body.take(i as int)));
                }
            }
        } else {
            proof {
                assert(pairs_view(out@) =~= spec_adb_lines(body.take(i as int)));
            }
        }
        i += 1;
    }
    proof {
        assert(body.take(n - 1) =~= body);
    }
    out
}

/// What one line of the legacy iOS device listing contributes: a line
/// holding a parenthesized version and a bracketed identifier, and not
/// naming a simulator, yields the name before the parenthesis, the
/// version inside it, and the identifier; anything malformed is dropped.
pub open spec fn spec_ios_line(l: Seq<char>) -> Seq<(Seq<char>, Seq<char>, Seq<char>)> {
    if spec_contains(l, "("@) && spec_contains(l, ")"@) && !spec_contains(l, "Simulator"@) {
        let start = first_idx(l, '(');
        let end = first_idx(l, ')');
        let ustart = first_idx(l, '[');
        let uend = first_idx(l, ']');
        if 0 <= start < end < l.len() && 0 <= ustart < uend < l.len() {
            seq![
                (
                    spec_trim(l.subrange(0, start)),
                    spec_trim(l.subrange(start + 1, end)),
                    spec_trim(l.subrange(ustart + 1, uend)),
                ),
            ]
        } else {
            Seq::empty()
        }
    } else {
        Seq::empty()
    }
}

/// What a whole listing contributes, in order.
pub open spec fn spec_ios_lines(lines: Seq<Seq<char>>) -> Seq<(Seq<char>, Seq<char>, Seq<char>)>
    decreases lines.len(),
{
    if lines.len() == 0 {
        Seq::empty()
    } else {
        spec_ios_lines(lines.drop_last()) + spec_ios_line(lines.last())
    }
}

/// The name, version and identifier triples of a parse result.
pub open spec fn triples_view(v: Seq<(String, String, String)>) -> Seq<
    (Seq<char>, Seq<char>, Seq<char>),
> {
    Seq::new(v.len(), |i: int| (v[i].0@, v[i].1@, v[i].2@))
}

fn parse_ios_line(line: &str) -> (r: Option<(String, String, String)>)
    ensures
        match r {
            Some(t) => spec_ios_line(line@) =~= seq![(t.0@, t.1@, t.2@)],
            None => spec_ios_line(line@) =~= Seq::<(Seq<char>, Seq<char>, Seq<char>)>::empty(),
        },
{
    let len = line.unicode_len();
    if !(str_contains(line, "(") && str_contains(line, ")") && !str_contains(line, "Simulator")) {
        return None;
    }
    proof {
        lemma_first_idx(line@, '(');
        lemma_first_idx(line@, ')');
        lemma_first_idx(line@, '[');
        lemma_first_idx(line@, ']');
    }
    let start = match find_first(line, '(') {
        Some(i) => i,
        None => {
            return None;
        },
    };
    let end = match find_first(line, ')') {
        Some(i) => i,
        None => {
            return None;
        },
    };
    let ustart = match find_first(line, '[') {
        Some(i) => i,
        None => {
            return None;
        },
    };
    let uend = match find_first(line, ']') {
        Some(i) => i,
        None => {
            return None;
        },
    };
    if !(start < end && ustart < uend) {
        return None;
    }
    let name = trim_str(line.substring_char(0, start));
    let version = trim_str(line.substring_char(start + 1, end));
    let udid = trim_str(line.substring_char(ustart + 1, uend));
    Some((name, version, udid))
}

/// Parses the legacy iOS device listing into name, version and
/// identifier triples, dropping malformed lines and simulator entries.
pub fn parse_ios_devices(output: &str) -> (r: Vec<(String, String, String)>)
    ensures
        triples_view(r@) =~= spec_ios_lines(spec_lines(output@)),
{
    let ls = lines_of(output);
    let n = ls.len();
    let mut out: Vec<(String, String, String)> = Vec::new();
    let mut i: usize = 0;
    while i < n
        invariant
            0 <= i <= n,
            n == ls@.len(),
            ls.deep_view() =~= spec_lines(output@),
            triples_view(out@) =~= spec_ios_lines(ls.deep_view().take(i as int)),
        decreases n - i,
    {
        proof {
            assert(ls.deep_view().take(i + 1).drop_last() =~= ls.deep_view().take(i as int));
            assert(ls.deep_view().take(i + 1).last() == ls.deep_view()[i as int]);
            assert(ls.deep_view()[i as int] == ls@[i as int]@);
        }
        let line = &ls[i];
        match parse_ios_line(line.as_str()) {
            Some(t) => {
                let ghost o0 = triples_view(out@);
                out.push(t);
                proof {
                    assert forall|j: int|
                        0 <= j < triples_view(out@).len() implies triples_view(out@)[j] == (o0
                        + spec_ios_line(ls@[i as int]@))[j] by {
                        if j < o0.len() {
                            assert(triples_view(out@)[j] == o0[j]);
                        }
                    }
                    assert(triples_view(out@) =~= o0 + spec_ios_line(ls@[i as int]@));
                    assert(triples_view(out@) =~= spec_ios_lines(ls.deep_view().take(i + 1)));
                }
            },
            None => {
                proof {
                    assert(triples_view(out@) =~= spec_ios_lines(ls.deep_view().take(i + 1)));
                }
            },
        }
        i += 1;
    }
    proof {
        assert(ls.deep_view().take(n as int) =~= ls.deep_view());
    }
    out
}

/// What one line of the emulator listing contributes: its trimmed text
/// as a virtual-device name, or nothing when blank.
pub open spec fn spec_avd_line(l: Seq<char>) -> Seq<Seq<char>> {
    if spec_trim(l).len() == 0 {
        Seq::empty()
    } else {
        seq![spec_trim(l)]
    }
}

/// What a whole listing contributes, in order.
pub open spec fn spec_avd_lines(lines: Seq<Seq<char>>) -> Seq<Seq<char>>
    decreases lines.len(),
{
    if lines.len() == 0 {
        Seq::empty()
    } else {
        spec_avd_lines(lines.drop_last()) + spec_avd_line(lines.last())
    }
}

/// Parses the emulator listing: every nonblank line, trimmed, is one
/// available virtual device name.
pub fn parse_avd_list(output: &str) -> (r: Vec<String>)
    ensures
        r.deep_view() =~= spec_avd_lines(spec_lines(output@)),
{
    let ls = lines_of(output);
    let n = ls.len();
    let mut out: Vec<String> = Vec::new();
    let mut i: usize = 0;
    while i < n
        invariant
            0 <= i <= n,
            n == ls@.len(),
            ls.deep_view() =~= spec_lines(output@),
            out.deep_view() =~= spec_avd_lines(ls.deep_view().take(i as int)),
        decreases n - i,
    {
        proof {
            assert(ls.deep_view().take(i + 1).drop_last() =~= ls.deep_view().take(i as int));
            assert(ls.deep_view().take(i + 1).last() == ls.deep_view()[i as int]);
            assert(ls.deep_view()[i as int] == ls@[i as int]@);
        }
        let line = &ls[i];
        let trimmed = trim_str(line.as_str());
        if trimmed.as_str().unicode_len() > 0 {
            let ghost o0 = out.deep_view();
            out.push(trimmed);
            proof {
                assert forall|j: int|
                    0 <= j < out.deep_view().len() implies out.deep_view()[j] == (o0
                    + spec_avd_line(ls@[i as int]@))[j] by {
                    if j < o0.len() {
                        assert(out.deep_view()[j] == o0[j]);
                    }
                }
                assert(out.deep_view() =~= o0 + spec_avd_line(ls@[i as int]@));
                assert(out.deep_view() =~= spec_avd_lines(ls.deep_view().take(i + 1)));
            }
        } else {
            proof {
                assert(out.deep_view() =~= spec_avd_lines(ls.deep_view().take(i + 1)));
            }
        }
        i += 1;
    }
    proof {
        assert(ls.deep_view().take(n as int) =~= ls.deep_view());
    }
    out
}

/// The status a simulator listing's state field denotes.
pub open spec fn spec_simulator_status(state: Seq<char>) -> SimulatorStatus {
    if state == "Booted"@ {
        SimulatorStatus::Booted
    } else if state == "Booting"@ {
        SimulatorStatus::Booting
    } else if state == "Shutting Down"@ {
        SimulatorStatus::ShuttingDown
    } else {
        SimulatorStatus::Shutdown
    }
}

pub fn simulator_status_of(state: &str) -> (r: SimulatorStatus)
    ensures
        r == spec_simulator_status(state@),
{
    if str_eq(state, "Booted") {
        SimulatorStatus::Booted
    } else if str_eq(state, "Booting") {
        SimulatorStatus::Booting
    } else if str_eq(state, "Shutting Down") {
        SimulatorStatus::ShuttingDown
    } else {
        SimulatorStatus::Shutdown
    }
}

/// Whether the text begins with the prefix.
pub open spec fn spec_starts_with(s: Seq<char>, p: Seq<char>) -> bool {
    s.len() >= p.len() && s.subrange(0, p.len() as int) == p
}

fn starts_with(s: &str, p: &str) -> (r: bool)
    ensures
        r == spec_starts_with(s@, p@),
{
    let slen = s.unicode_len();
    let plen = p.unicode_len();
    if plen > slen {
        return false;
    }
    let head = s.substring_char(0, plen);
    str_eq(head, p)
}

/// The human version a simulator runtime identifier denotes: the
/// runtime prefix removed and dashes read as dots.
pub open spec fn spec_runtime_version(runtime: Seq<char>) -> Seq<char> {
    let prefix = "com.apple.CoreSimulator.SimRuntime."@;
    let stem = if spec_starts_with(runtime, prefix) {
        runtime.subrange(prefix.len() as int, runtime.len() as int)
    } else {
        runtime
    };
    stem.map_values(|c: char| if c == '-' { '.' } else { c })
}

pub fn runtime_version(runtime: &str) -> (r: String)
    ensures
        r@ == spec_runtime_version(runtime@),
{
    let prefix = "com.apple.CoreSimulator.SimRuntime.";
    let len = runtime.unicode_len();
    let stem: &str = if starts_with(runtime, prefix) {
        runtime.substring_char(prefix.unicode_len(), len)
    } else {
        runtime
    };
    let stem_len = stem.unicode_len();
    let mut out = String::new();
    let mut i: usize = 0;
    while i < stem_len
        invariant
            0 <= i <= stem_len,
            stem_len == stem@.len(),
            out@ =~= stem@.take(i as int).map_values(
                |c: char| if c == '-' {
                    '.'
                } else {
                    c
                },
            ),
        decreases stem_len - i,
    {
        let c = stem.get_char(i);
        let mapped: char = if c == '-' {
            '.'
        } else {
            c
        };
        push_char(&mut out, mapped);
        proof {
            assert(stem@.take(i + 1) =~= stem@.take(i as int).push(stem@[i as int]));
            assert(out@ =~= stem@.take(i + 1).map_values(
                |c: char| if c == '-' {
                    '.'
                } else {
                    c
                },
            ));
        }
        i += 1;
    }
    proof {
        assert(stem@.take(stem_len as int) =~= stem@);
        assert(stem@ =~= (if spec_starts_with(runtime@, prefix@) {
            runtime@.subrange(prefix@.len() as int, runtime@.len() as int)
        } else {
            runtime@
        }));
    }
    out
}

/// The sequence without its leading run of one character.
pub open spec fn drop_leading(s: Seq<char>, c: char) -> Seq<char>
    decreases s.len(),
{
    if s.len() > 0 && s[0] == c {
        drop_leading(s.drop_first(), c)
    } else {
        s
    }
}

/// The sequence without its trailing run of one character.
pub open spec fn drop_trailing(s: Seq<char>, c: char) -> Seq<char>
    decreases s.len(),
{
    if s.len() > 0 && s.last() == c {
        drop_trailing(s.drop_last(), c)
    } else {
        s
    }
}

proof fn lemma_drop_leading_range(s: Seq<char>, c: char, i: int)
    requires
        0 <= i <= s.len(),
        forall|j: int| 0 <= j < i ==> s[j] == c,
        i == s.len() || s[i] != c,
    ensures
        drop_leading(s, c) =~= s.subrange(i, s.len() as int),
    decreases i,
{
    if i == 0 {
        assert(s =~= s.subrange(0, s.len() as int));
    } else {
        let t = s.drop_first();
        assert(forall|j: int| 0 <= j < i - 1 ==> t[j] == c);
        lemma_drop_leading_range(t, c, i - 1);
        assert(t.subrange(i - 1, t.len() as int) =~= s.subrange(i, s.len() as int));
    }
}

proof fn lemma_drop_trailing_range(s: Seq<char>, c: char, i: int)
    requires
        0 <= i <= s.len(),
        forall|j: int| i <= j < s.len() ==> s[j] == c,
        i == 0 || s[i - 1] != c,
    ensures
        drop_trailing(s, c) =~= s.subrange(0, i),
    decreases s.len() - i,
{
    if i == s.len() {
        if s.len() > 0 {
            assert(s[i - 1] != c);
        }
        assert(s =~= s.subrange(0, s.len() as int));
    } else {
        let t = s.drop_last();
        lemma_drop_trailing_range(t, c, i);
        assert(t.subrange(0, i) =~= s.subrange(0, i));
    }
}

fn strip_leading(s: &str, c: char) -> (r: String)
    ensures
        r@ == drop_leading(s@, c),
{
    let len = s.unicode_len();
    let mut i: usize = 0;
    while i < len && s.get_char(i) == c
        invariant
            0 <= i <= len,
            len == s@.len(),
            forall|j: int| 0 <= j < i ==> s@[j] == c,
        decreases len - i,
    {
        i += 1;
    }
    proof {
        lemma_drop_leading_range(s@, c, i as int);
    }
    String::from_str(s.substring_char(i, len))
}

fn strip_trailing(s: &str, c: char) -> (r: String)
    ensures
        r@ == drop_trailing(s@, c),
{
    let len = s.unicode_len();
    let mut i: usize = len;
    while i > 0 && s.get_char(i - 1) == c
        invariant
            0 <= i <= len,
            len == s@.len(),
            forall|j: int| i <= j < len ==> s@[j] == c,
        decreases i,
    {
        i -= 1;
    }
    proof {
        lemma_drop_trailing_range(s@, c, i as int);
    }
    String::from_str(s.substring_char(0, i))
}

/// What one line of the property dump contributes: a line of the form
/// "[key]: [value]" yields the key with its leading brackets dropped
/// and the value with its trailing brackets dropped, split at the first
/// separator; anything else is ignored.
pub open spec fn spec_getprop_line(l: Seq<char>) -> Seq<(Seq<char>, Seq<char>)> {
    if l.len() > 0 && l[0] == '[' && first_sub(l, "]: ["@) >= 0 && first_sub(l, "]: ["@) + 4
        <= l.len() {
        let k = first_sub(l, "]: ["@);
        seq![
            (
                drop_leading(l.subrange(0, k), '['),
                drop_trailing(l.subrange(k + 4, l.len() as int), ']'),
            ),
        ]
    } else {
        Seq::empty()
    }
}

/// What a whole property dump contributes, in order.
pub open spec fn spec_getprop_lines(lines: Seq<Seq<char>>) -> Seq<(Seq<char>, Seq<char>)>
    decreases lines.len(),
{
    if lines.len() == 0 {
        Seq::empty()
    } else {
        spec_getprop_lines(lines.drop_last()) + spec_getprop_line(lines.last())
    }
}

/// The key-and-value pairs of a parse result.
pub open spec fn kv_view(v: Seq<(String, String)>) -> Seq<(Seq<char>, Seq<char>)> {
    Seq::new(v.len(), |i: int| (v[i].0@, v[i].1@))
}

fn parse_getprop_line(line: &str) -> (r: Option<(String, String)>)
    ensures
        match r {
            Some(kv) => spec_getprop_line(line@) =~= seq![(kv.0@, kv.1@)],
            None => spec_getprop_line(line@) =~= Seq::<(Seq<char>, Seq<char>)>::empty(),
        },
{
    let len = line.unicode_len();
    if len == 0 || line.get_char(0) != '[' {
        return None;
    }
    proof {
        reveal_strlit("]: [");
        assert("]: ["@.len() == 4);
        crate::strutil::lemma_first_sub(line@, "]: ["@);
    }
    let k = match crate::strutil::find_sub(line, "]: [") {
        None => {
            return None;
        },
        Some(k) => k,
    };
    let key = strip_leading(line.substring_char(0, k), '[');
    let value = strip_trailing(line.substring_char(k + 4, len), ']');
    Some((key, value))
}

/// Parses the Android property dump into key-and-value pairs, in order,
/// ignoring anything that is not a bracketed property line.
pub fn parse_getprop(output: &str) -> (r: Vec<(String, String)>)
    ensures
        kv_view(r@) =~= spec_getprop_lines(spec_lines(output@)),
{
    let ls = lines_of(output);
    let n = ls.len();
    let mut out: Vec<(String, String)> = Vec::new();
    let mut i: usize = 0;
    while i < n
        invariant
            0 <= i <= n,
            n == ls@.len(),
            ls.deep_view() =~= spec_lines(output@),
            kv_view(out@) =~= spec_getprop_lines(ls.deep_view().take(i as int)),
        decreases n - i,
    {
        proof {
            assert(ls.deep_view().take(i + 1).drop_last() =~= ls.deep_view().take(i as int));
            assert(ls.deep_view().take(i + 1).last() == ls.deep_view()[i as int]);
            assert(ls.deep_view()[i as int] == ls@[i as int]@);
        }
        let line = &ls[i];
        match parse_getprop_line(line.as_str()) {
            Some(kv) => {
                let ghost o0 = kv_view(out@);
                out.push(kv);
                proof {
                    assert forall|j: int|
                        0 <= j < kv_view(out@).len() implies kv_view(out@)[j] == (o0
                        + spec_getprop_line(ls@[i as int]@))[j] by {
                        if j < o0.len() {
                            assert(kv_view(out@)[j] == o0[j]);
                        }
                    }
                    assert(kv_view(out@) =~= o0 + spec_getprop_line(ls@[i as int]@));
                    assert(kv_view(out@) =~= spec_getprop_lines(ls.deep_view().take(i + 1)));
                }
            },
            None => {
                proof {
                    assert(kv_view(out@) =~= spec_getprop_lines(ls.deep_view().take(i + 1)));
                }
            },
        }
        i += 1;
    }
    proof {
        assert(ls.deep_view().take(n as int) =~= ls.deep_view());
    }
    out
}

/// Whether the device listing shows this virtual device online: some
/// line names it and reports the ready state.
pub open spec fn spec_emulator_booted(lines: Seq<Seq<char>>, avd: Seq<char>) -> bool {
    exists|i: int|
        0 <= i < lines.len() && spec_contains(#[trigger] lines[i], avd) && spec_contains(
            lines[i],
            "device"@,
        )
}

/// The status of one Android virtual device, read from the device
/// listing: Booted when some line names it as a ready device, Shutdown
/// otherwise.
pub fn get_android_emulator_status(output: &str, avd_name: &str) -> (r: SimulatorStatus)
    ensures
        spec_emulator_booted(spec_lines(output@), avd_name@) ==> r == SimulatorStatus::Booted,
        !spec_emulator_booted(spec_lines(output@), avd_name@) ==> r == SimulatorStatus::Shutdown,
{
    let ls = lines_of(output);
    let n = ls.len();
    let mut i: usize = 0;
    while i < n
        invariant
            0 <= i <= n,
            n == ls@.len(),
            ls.deep_view() =~= spec_lines(output@),
            forall|j: int|
                0 <= j < i ==> !(spec_contains(#[trigger] ls.deep_view()[j], avd_name@)
                    && spec_contains(ls.deep_view()[j], "device"@)),
        decreases n - i,
    {
        proof {
            assert(ls.deep_view()[i as int] == ls@[i as int]@);
        }
        let line = &ls[i];
        if str_contains(line.as_str(), avd_name) && str_contains(line.as_str(), "device") {
            return SimulatorStatus::Booted;
        }
        i += 1;
    }
    SimulatorStatus::Shutdown
}

/// Builds the record of one iOS simulator from the fields the simulator
/// listing reports.
pub fn make_ios_simulator(udid: String, name: String, state: &str, runtime: &str) -> (r: Simulator)
    ensures
        r.id@ == udid@,
        r.name@ == name@,
        r.platform@ == "ios"@,
        r.version@ == spec_runtime_version(runtime@),
        r.status == spec_simulator_status(state@),
        r.device_type@ == "simulator"@,
{
    Simulator {
        id: udid,
        name,
        platform: String::from_str("ios"),
        version: runtime_version(runtime),
        status: simulator_status_of(state),
        device_type: String::from_str("simulator"),
    }
}

/// Builds the record of one Android virtual device: the name serves as
/// both id and display name, and the system image version is unknown
/// until the emulator reports it.
pub fn make_android_emulator(avd_name: String, status: SimulatorStatus) -> (r: Simulator)
    ensures
        r.id@ == avd_name@,
        r.name@ == avd_name@,
        r.platform@ == "android"@,
        r.version@ == "unknown"@,
        r.status == status,
        r.device_type@ == "emulator"@,
{
    Simulator {
        id: avd_name.clone(),
        name: avd_name,
        platform: String::from_str("android"),
        version: String::from_str("unknown"),
        status,
        device_type: String::from_str("emulator"),
    }
}

/// Normalized discovery records from the Android listing: every listed
/// id becomes one record, classified by its name and reached over the
/// debug bridge.
pub fn android_discovery_records(pairs: &Vec<(String, DeviceStatus)>) -> (r: Vec<
    crate::registry::DiscoveredEndpoint,
>)
    ensures
        r@.len() == pairs@.len(),
        forall|i: int|
            0 <= i < r@.len() ==> (#[trigger] r@[i]).id@ == pairs@[i].0@ && Some(r@[i].device_type)
                == crate::adapter::spec_detect_device_type(pairs@[i].0@, true, false)
                && r@[i].connection_type == crate::endpoint::ConnectionType::Usb,
{
    let n = pairs.len();
    let mut out: Vec<crate::registry::DiscoveredEndpoint> = Vec::new();
    let mut i: usize = 0;
    while i < n
        invariant
            0 <= i <= n,
            n == pairs@.len(),
            out@.len() == i,
            forall|j: int|
                0 <= j < i ==> (#[trigger] out@[j]).id@ == pairs@[j].0@ && Some(
                    out@[j].device_type,
                ) == crate::adapter::spec_detect_device_type(pairs@[j].0@, true, false)
                    && out@[j].connection_type == crate::endpoint::ConnectionType::Usb,
        decreases n - i,
    {
        let id = pairs[i].0.clone();
        let device_type = match crate::adapter::detect_device_type(id.as_str(), true, false) {
            Some(t) => t,
            None => crate::endpoint::DeviceType::AndroidPhysical,
        };
        out.push(
            crate::registry::DiscoveredEndpoint {
                id,
                device_type,
                connection_type: crate::endpoint::ConnectionType::Usb,
            },
        );
        i += 1;
    }
    out
}

/// Normalized discovery records from the iOS listing's name, version
/// and identifier triples: the identifier becomes the record's id,
/// classified by its shape and reached through the simulator tools.
pub fn ios_discovery_records(triples: &Vec<(String, String, String)>) -> (r: Vec<
    crate::registry::DiscoveredEndpoint,
>)
    ensures
        r@.len() == triples@.len(),
        forall|i: int|
            0 <= i < r@.len() ==> (#[trigger] r@[i]).id@ == triples@[i].2@ && Some(
                r@[i].device_type,
            ) == crate::adapter::spec_detect_device_type(triples@[i].2@, false, true)
                && r@[i].connection_type == crate::endpoint::ConnectionType::Simulator,
{
    let n = triples.len();
    let mut out: Vec<crate::registry::DiscoveredEndpoint> = Vec::new();
    let mut i: usize = 0;
    while i < n
        invariant
            0 <= i <= n,
            n == triples@.len(),
            out@.len() == i,
            forall|j: int|
                0 <= j < i ==> (#[trigger] out@[j]).id@ == triples@[j].2@ && Some(
                    out@[j].device_type,
                ) == crate::adapter::spec_detect_device_type(triples@[j].2@, false, true)
                    && out@[j].connection_type == crate::endpoint::ConnectionType::Simulator,
        decreases n - i,
    {
        let udid = triples[i].2.clone();
        let device_type = match crate::adapter::detect_device_type(udid.as_str(), false, true) {
            Some(t) => t,
            None => crate::endpoint::DeviceType::IosPhysical,
        };
        out.push(
            crate::registry::DiscoveredEndpoint {
                id: udid,
                device_type,
                connection_type: crate::endpoint::ConnectionType::Simulator,
            },
        );
        i += 1;
    }
    out
}

/// The simulator records of one listing, each field carried over
/// exactly, the runtime identifier read as a human version.
pub fn ios_simulators_from_listing(entries: &Vec<(String, String, String, String)>) -> (r: Vec<
    Simulator,
>)
    ensures
        r@.len() == entries@.len(),
        forall|i: int|
            0 <= i < r@.len() ==> (#[trigger] r@[i]).id@ == entries@[i].0@ && r@[i].name@
                == entries@[i].1@ && r@[i].platform@ == "ios"@ && r@[i].status
                == spec_simulator_status(entries@[i].2@) && r@[i].version@ == spec_runtime_version(
                entries@[i].3@,
            ) && r@[i].device_type@ == "simulator"@,
{
    let n = entries.len();
    let mut out: Vec<Simulator> = Vec::new();
    let mut i: usize = 0;
    while i < n
        invariant
            0 <= i <= n,
            n == entries@.len(),
            out@.len() == i,
            forall|j: int|
                0 <= j < i ==> (#[trigger] out@[j]).id@ == entries@[j].0@ && out@[j].name@
                    == entries@[j].1@ && out@[j].platform@ == "ios"@ && out@[j].status
                    == spec_simulator_status(entries@[j].2@) && out@[j].version@
                    == spec_runtime_version(entries@[j].3@) && out@[j].device_type@
                    == "simulator"@,
        decreases n - i,
    {
        let udid = entries[i].0.clone();
        let name = entries[i].1.clone();
        let sim = make_ios_simulator(udid, name, entries[i].2.as_str(), entries[i].3.as_str());
        out.push(sim);
        i += 1;
    }
    out
}

/// Looks a key up in a property list: the value beside its first
/// occurrence, if any.
pub fn get_prop<'a>(props: &'a Vec<(String, String)>, key: &str) -> (r: Option<&'a String>)
    ensures
        match r {
            Some(v) => exists|i: int|
                0 <= i < props@.len() && #[trigger] props@[i].0@ == key@ && props@[i].1 == *v,
            None => forall|i: int| 0 <= i < props@.len() ==> (#[trigger] props@[i].0)@ != key@,
        },
{
    let n = props.len();
    let mut i: usize = 0;
    while i < n
        invariant
            0 <= i <= n,
            n == props@.len(),
            forall|j: int| 0 <= j < i ==> (#[trigger] props@[j].0)@ != key@,
        decreases n - i,
    {
        if str_eq(props[i].0.as_str(), key) {
            return Some(&props[i].1);
        }
        i += 1;
    }
    None
}

/// Builds the record of one Android device from its listing status and
/// its reported properties: the model property names it and the release
/// property gives its version, with the id and "unknown" as the
/// documented defaults for anything missing.
pub fn android_device_from_props(
    id: String,
    status: DeviceStatus,
    props: &Vec<(String, String)>,
) -> (r: Device)
    ensures
        r.id@ == id@,
        r.platform@ == "android"@,
        r.status == status,
        r.capabilities@.len() == 0,
        (exists|i: int| 0 <= i < props@.len() && (#[trigger] props@[i].0)@ == "ro.product.model"@)
            ==> exists|i: int|
            0 <= i < props@.len() && (#[trigger] props@[i].0)@ == "ro.product.model"@ && r.name@
                == props@[i].1@,
        (forall|i: int|
            0 <= i < props@.len() ==> (#[trigger] props@[i].0)@ != "ro.product.model"@) ==> r.name@
            == id@,
        (exists|i: int|
            0 <= i < props@.len() && (#[trigger] props@[i].0)@ == "ro.build.version.release"@)
            ==> exists|i: int|
            0 <= i < props@.len() && (#[trigger] props@[i].0)@ == "ro.build.version.release"@
                && r.version@ == props@[i].1@,
        (forall|i: int|
            0 <= i < props@.len() ==> (#[trigger] props@[i].0)@ != "ro.build.version.release"@)
            ==> r.version@ == "unknown"@,
{
    let name = match get_prop(props, "ro.product.model") {
        Some(v) => v.clone(),
        None => id.clone(),
    };
    let version = match get_prop(props, "ro.build.version.release") {
        Some(v) => v.clone(),
        None => String::from_str("unknown"),
    };
    Device {
        id,
        name,
        platform: String::from_str("android"),
        version,
        status,
        capabilities: Vec::new(),
    }
}

} // verus!
