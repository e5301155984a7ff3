//! Finding the screen resolution.
//!
//! Detection asks, in order, `xrandr --current`, `wlr-randr`,
//! `swaymsg -t get_outputs` and the DRM entries under `/sys/class/drm`, and
//! takes the first resolution one of them reports; when none does it falls
//! back to 1920x1080. This module reads the resolution out of each tool's
//! output and decides, from what the probes so far found, what to do next.

use vstd::prelude::*;
use crate::text::{
    chars_of, contains, copy_chars, contains_char, contains_chars, find, find_chars, is_digit, lines,
    opt_view, owned,
    split_at_char, split_lines, split_on, split_whitespace, string_of, trim,
    trim_chars, views, words,
};

verus! {

// ---------------------------------------------------------------------------
// Lines of tool output
// ---------------------------------------------------------------------------

/// The first `f(items[k])` that is present, for `k` from `from` on.
pub open spec fn first_some(
    items: Seq<Seq<char>>,
    from: int,
    f: spec_fn(Seq<char>) -> Option<Seq<char>>,
) -> Option<Seq<char>>
    decreases items.len() - from,
{
    if from < 0 || from >= items.len() {
        None
    } else if f(items[from]) is Some {
        f(items[from])
    } else {
        first_some(items, from + 1, f)
    }
}

/// A character of a `WIDTHxHEIGHT` token.
pub open spec fn is_mode_char(c: char) -> bool {
    is_digit(c) || c == 'x'
}

/// Every character is a digit or `x`.
pub open spec fn all_mode_chars(s: Seq<char>) -> bool {
    forall|i: int| 0 <= i < s.len() ==> is_mode_char(s[i])
}

/// How often `c` occurs in `s`.
pub open spec fn count_char(s: Seq<char>, c: char) -> nat
    decreases s.len(),
{
    if s.len() == 0 {
        0
    } else {
        count_char(s.drop_last(), c) + if s.last() == c {
            1nat
        } else {
            0nat
        }
    }
}

/// The first word at or after `from` that holds an `x` and only digits and
/// `x`.
pub open spec fn first_xrandr_mode(parts: Seq<Seq<char>>, from: int) -> Option<Seq<char>>
    decreases parts.len() - from,
{
    if from < 0 || from >= parts.len() {
        None
    } else if parts[from].contains('x') && all_mode_chars(parts[from]) {
        Some(parts[from])
    } else {
        first_xrandr_mode(parts, from + 1)
    }
}

/// The resolution on one line of `xrandr` output: among the words after the
/// first, the first one made of digits and `x` that holds an `x`, when the
/// line has at least three words.
pub open spec fn xrandr_line_mode(line: Seq<char>) -> Option<Seq<char>> {
    let parts = words(line);
    if parts.len() >= 3 {
        first_xrandr_mode(parts, 1)
    } else {
        None
    }
}


/// What one line of `xrandr` output yields: its resolution when it says
/// `connected` (but not `disconnected`).
pub open spec fn xrandr_line_reading() -> spec_fn(Seq<char>) -> Option<Seq<char>> {
    |line: Seq<char>|
        if contains(line, "connected"@) && !contains(line, "disconnected"@) {
            xrandr_line_mode(line)
        } else {
            None
        }
}

/// The first word at or after `from` that, trimmed, holds exactly one `x`
/// and only digits and `x`; that word trimmed.
pub open spec fn first_wlr_mode(parts: Seq<Seq<char>>, from: int) -> Option<Seq<char>>
    decreases parts.len() - from,
{
    if from < 0 || from >= parts.len() {
        None
    } else if count_char(trim(parts[from]), 'x') == 1 && all_mode_chars(trim(parts[from])) {
        Some(trim(parts[from]))
    } else {
        first_wlr_mode(parts, from + 1)
    }
}

/// The resolution on one line of `wlr-randr` output.
pub open spec fn wlr_line_mode(line: Seq<char>) -> Option<Seq<char>> {
    let t = trim(line);
    if contains(t, "x"@) {
        first_wlr_mode(words(t), 0)
    } else {
        None
    }
}

/// Whether a `wlr-randr` line names an output connector.
pub open spec fn names_connector(line: Seq<char>) -> bool {
    contains(line, "HDMI"@) || contains(line, "DP"@) || contains(line, "eDP"@) || contains(
        line,
        "DisplayPort"@,
    )
}


/// What one line of `wlr-randr` output yields: its resolution when it names
/// a connector.
pub open spec fn wlr_line_reading() -> spec_fn(Seq<char>) -> Option<Seq<char>> {
    |line: Seq<char>|
        if names_connector(line) {
            wlr_line_mode(line)
        } else {
            None
        }
}

/// The resolution in one line of `swaymsg -t get_outputs` output: the text
/// between `"mode":"` and the next `"`, split at `x`; the first two pieces
/// joined by `x`, when there are at least two.
pub open spec fn sway_line_mode(line: Seq<char>) -> Option<Seq<char>> {
    match find(line, "\"mode\":\""@) {
        Some(i) => {
            let mode = line.skip(i + "\"mode\":\""@.len());
            match find(mode, "\""@) {
                Some(j) => {
                    let parts = split_on(mode.take(j), 'x');
                    if parts.len() >= 2 {
                        Some(parts[0] + "x"@ + parts[1])
                    } else {
                        None
                    }
                },
                None => None,
            }
        },
        None => None,
    }
}


/// What one line of `swaymsg` output yields: its resolution when it
/// describes the active output.
pub open spec fn sway_line_reading() -> spec_fn(Seq<char>) -> Option<Seq<char>> {
    |line: Seq<char>|
        if contains(line, "\"active\":true"@) {
            sway_line_mode(line)
        } else {
            None
        }
}

// ---------------------------------------------------------------------------
// Parsing, executable
// ---------------------------------------------------------------------------

fn is_mode_token(s: &[char]) -> (b: bool)
    ensures
        b == all_mode_chars(s@),
{
    for i in 0..s.len()
        invariant
            forall|k: int| 0 <= k < i ==> is_mode_char(s@[k]),
    {
        if !(('0' <= s[i] && s[i] <= '9') || s[i] == 'x') {
            return false;
        }
    }
    true
}

fn count_x(s: &[char]) -> (n: usize)
    ensures
        n == count_char(s@, 'x'),
{
    let mut n: usize = 0;
    for i in 0..s.len()
        invariant
            n == count_char(s@.take(i as int), 'x'),
            n <= i,
    {
        assert(s@.take(i + 1).drop_last() == s@.take(i as int));
        if s[i] == 'x' {
            n = n + 1;
        }
    }
    assert(s@.take(s.len() as int) == s@);
    n
}

/// The resolution on one line of `xrandr` output.
pub fn parse_xrandr_line(line: &[char]) -> (r: Option<Vec<char>>)
    ensures
        r matches Some(v) ==> xrandr_line_mode(line@) == Some(v@),
        r is None ==> xrandr_line_mode(line@) is None,
{
    let parts = split_whitespace(line);
    let ghost ps = views(parts@);
    if parts.len() < 3 {
        return None;
    }
    let mut k: usize = 1;
    while k < parts.len()
        invariant
            1 <= k <= parts.len(),
            ps == views(parts@),
            ps == words(line@),
            ps.len() >= 3,
            first_xrandr_mode(ps, 1) == first_xrandr_mode(ps, k as int),
        decreases parts.len() - k,
    {
        let part = &parts[k];
        assert(part@ == ps[k as int]);
        if contains_char(part.as_slice(), 'x') && is_mode_token(part.as_slice()) {
            return Some(copy_chars(part.as_slice()));
        }
        k = k + 1;
    }
    None
}

/// The resolution on one line of `wlr-randr` output.
pub fn parse_wlr_randr_line(line: &[char]) -> (r: Option<Vec<char>>)
    ensures
        r matches Some(v) ==> wlr_line_mode(line@) == Some(v@),
        r is None ==> wlr_line_mode(line@) is None,
{
    let t = trim_chars(line);
    let x = chars_of("x");
    if !contains_chars(t.as_slice(), x.as_slice()) {
        return None;
    }
    let parts = split_whitespace(t.as_slice());
    let ghost ps = views(parts@);
    let mut k: usize = 0;
    while k < parts.len()
        invariant
            k <= parts.len(),
            ps == views(parts@),
            ps == words(trim(line@)),
            contains(trim(line@), "x"@),
            first_wlr_mode(ps, 0) == first_wlr_mode(ps, k as int),
        decreases parts.len() - k,
    {
        let part = trim_chars(parts[k].as_slice());
        assert(part@ == trim(ps[k as int]));
        if count_x(part.as_slice()) == 1 && is_mode_token(part.as_slice()) {
            assert(first_wlr_mode(ps, k as int) == Some(part@));
            return Some(part);
        }
        k = k + 1;
    }
    None
}

/// The resolution in one line of `swaymsg -t get_outputs` output.
pub fn extract_sway_resolution(line: &[char]) -> (r: Option<Vec<char>>)
    ensures
        r matches Some(v) ==> sway_line_mode(line@) == Some(v@),
        r is None ==> sway_line_mode(line@) is None,
{
    let key = chars_of("\"mode\":\"");
    let quote = chars_of("\"");
    match find_chars(line, key.as_slice()) {
        Some(i) => {
            let mut mode: Vec<char> = Vec::new();
            let mut k = i + key.len();
            while k < line.len()
                invariant
                    i + key.len() <= k <= line.len(),
                    mode@ == line@.subrange(i + key.len(), k as int),
                decreases line.len() - k,
            {
                mode.push(line[k]);
                assert(line@.subrange(i + key.len(), k + 1) == line@.subrange(
                    i + key.len(),
                    k as int,
                ).push(line@[k as int]));
                k = k + 1;
            }
            assert(mode@ == line@.skip(i + key@.len()));
            match find_chars(mode.as_slice(), quote.as_slice()) {
                Some(j) => {
                    let mut head: Vec<char> = Vec::new();
                    let mut m: usize = 0;
                    while m < j
                        invariant
                            m <= j <= mode.len(),
                            head@ == mode@.take(m as int),
                        decreases j - m,
                    {
                        head.push(mode[m]);
                        assert(mode@.take(m + 1) == mode@.take(m as int).push(mode@[m as int]));
                        m = m + 1;
                    }
                    let parts = split_at_char(head.as_slice(), 'x');
                    let ghost ps = views(parts@);
                    if parts.len() >= 2 {
                        let mut out = copy_chars(parts[0].as_slice());
                        out.push('x');
                        let mut n: usize = 0;
                        let ghost start = out@;
                        while n < parts[1].len()
                            invariant
                                parts.len() >= 2,
                                n <= parts[1].len(),
                                out@ == start + parts[1]@.take(n as int),
                            decreases parts[1].len() - n,
                        {
                            out.push(parts[1][n]);
                            assert(parts[1]@.take(n + 1) == parts[1]@.take(n as int).push(
                                parts[1]@[n as int],
                            ));
                            n = n + 1;
                        }
                        proof {
                            reveal_strlit("x");
                        }
                        assert(parts[1]@.take(parts[1].len() as int) == parts[1]@);
                        assert(ps[0] == parts[0]@ && ps[1] == parts[1]@);
                        assert(out@ == ps[0] + "x"@ + ps[1]);
                        Some(out)
                    } else {
                        None
                    }
                },
                None => None,
            }
        },
        None => None,
    }
}


/// Whether a line says `connected` but not `disconnected`.
fn is_connected_line(line: &[char]) -> (b: bool)
    ensures
        b == (contains(line@, "connected"@) && !contains(line@, "disconnected"@)),
{
    let connected = chars_of("connected");
    let disconnected = chars_of("disconnected");
    contains_chars(line, connected.as_slice()) && !contains_chars(line, disconnected.as_slice())
}

/// Whether a `wlr-randr` line names an output connector.
fn is_connector_line(line: &[char]) -> (b: bool)
    ensures
        b == names_connector(line@),
{
    let hdmi = chars_of("HDMI");
    let dp = chars_of("DP");
    let edp = chars_of("eDP");
    let display_port = chars_of("DisplayPort");
    contains_chars(line, hdmi.as_slice()) || contains_chars(line, dp.as_slice()) || contains_chars(
        line,
        edp.as_slice(),
    ) || contains_chars(line, display_port.as_slice())
}

/// Whether a `swaymsg` line describes the active output.
fn is_active_line(line: &[char]) -> (b: bool)
    ensures
        b == contains(line@, "\"active\":true"@),
{
    let active = chars_of("\"active\":true");
    contains_chars(line, active.as_slice())
}

/// The command-line tools whose output holds a resolution.
#[derive(Debug, Clone, Copy, PartialEq, Eq, Structural)]
pub enum ResolutionTool {
    Xrandr,
    WlrRandr,
    Swaymsg,
}

/// What one line of a tool's output yields.
pub open spec fn line_reading(tool: ResolutionTool) -> spec_fn(Seq<char>) -> Option<Seq<char>> {
    match tool {
        ResolutionTool::Xrandr => xrandr_line_reading(),
        ResolutionTool::WlrRandr => wlr_line_reading(),
        ResolutionTool::Swaymsg => sway_line_reading(),
    }
}

/// The resolution a tool's output reports: what the first line that yields
/// one yields.
pub open spec fn tool_resolution(tool: ResolutionTool, output: Seq<char>) -> Option<Seq<char>> {
    first_some(lines(output), 0, line_reading(tool))
}

fn read_line(tool: ResolutionTool, line: &[char]) -> (r: Option<Vec<char>>)
    ensures
        r matches Some(v) ==> (line_reading(tool))(line@) == Some(v@),
        r is None ==> (line_reading(tool))(line@) is None,
{
    match tool {
        ResolutionTool::Xrandr => if is_connected_line(line) {
            parse_xrandr_line(line)
        } else {
            None
        },
        ResolutionTool::WlrRandr => if is_connector_line(line) {
            parse_wlr_randr_line(line)
        } else {
            None
        },
        ResolutionTool::Swaymsg => if is_active_line(line) {
            extract_sway_resolution(line)
        } else {
            None
        },
    }
}

/// Reads the resolution out of a tool's output.
pub fn resolution_from_output(tool: ResolutionTool, output: &str) -> (r: Option<String>)
    ensures
        r matches Some(s) ==> tool_resolution(tool, output@) == Some(s@),
        r is None ==> tool_resolution(tool, output@) is None,
{
    let chars = chars_of(output);
    let ls = split_lines(chars.as_slice());
    let ghost lv = views(ls@);
    let mut k: usize = 0;
    while k < ls.len()
        invariant
            k <= ls.len(),
            lv == views(ls@),
            lv == lines(output@),
            tool_resolution(tool, output@) == first_some(lv, k as int, line_reading(tool)),
        decreases ls.len() - k,
    {
        assert(ls@[k as int]@ == lv[k as int]);
        match read_line(tool, ls[k].as_slice()) {
            Some(v) => {
                return Some(string_of(v.as_slice()));
            },
            None => {},
        }
        k = k + 1;
    }
    None
}

/// The program and arguments that run a tool.
pub fn tool_command(tool: ResolutionTool) -> (r: (String, Vec<String>))
    ensures
        tool == ResolutionTool::Xrandr ==> r.0@ == "xrandr"@ && crate::text::string_views(r.1@)
            == seq!["--current"@],
        tool == ResolutionTool::WlrRandr ==> r.0@ == "wlr-randr"@ && r.1@.len() == 0,
        tool == ResolutionTool::Swaymsg ==> r.0@ == "swaymsg"@ && crate::text::string_views(r.1@)
            == seq!["-t"@, "get_outputs"@],
{
    let mut args: Vec<String> = Vec::new();
    match tool {
        ResolutionTool::Xrandr => {
            args.push(owned("--current"));
            assert(crate::text::string_views(args@) =~= seq!["--current"@]);
            (owned("xrandr"), args)
        },
        ResolutionTool::WlrRandr => (owned("wlr-randr"), args),
        ResolutionTool::Swaymsg => {
            args.push(owned("-t"));
            args.push(owned("get_outputs"));
            assert(crate::text::string_views(args@) =~= seq!["-t"@, "get_outputs"@]);
            (owned("swaymsg"), args)
        },
    }
}

// ---------------------------------------------------------------------------
// The monitor's name
// ---------------------------------------------------------------------------

/// The monitor one line of `xrandr` output names: its first word, when the
/// line says `connected` (but not `disconnected`).
pub open spec fn xrandr_line_monitor() -> spec_fn(Seq<char>) -> Option<Seq<char>> {
    |line: Seq<char>|
        if contains(line, "connected"@) && !contains(line, "disconnected"@) && words(line).len()
            > 0 {
            Some(words(line)[0])
        } else {
            None
        }
}

/// The first connected monitor that `xrandr` output names.
pub open spec fn xrandr_monitor(output: Seq<char>) -> Option<Seq<char>> {
    first_some(lines(output), 0, xrandr_line_monitor())
}

fn monitor_from_output(output: &str) -> (r: Option<String>)
    ensures
        r matches Some(m) ==> xrandr_monitor(output@) == Some(m@),
        r is None ==> xrandr_monitor(output@) is None,
{
    let chars = chars_of(output);
    let ls = split_lines(chars.as_slice());
    let ghost lv = views(ls@);
    let mut k: usize = 0;
    while k < ls.len()
        invariant
            k <= ls.len(),
            lv == views(ls@),
            lv == lines(output@),
            xrandr_monitor(output@) == first_some(lv, k as int, xrandr_line_monitor()),
        decreases ls.len() - k,
    {
        assert(ls@[k as int]@ == lv[k as int]);
        let line = ls[k].as_slice();
        if is_connected_line(line) {
            let ws = split_whitespace(line);
            if ws.len() > 0 {
                assert(ws@[0]@ == words(line@)[0]);
                assert((xrandr_line_monitor())(lv[k as int]) == Some(ws@[0]@));
                return Some(string_of(ws[0].as_slice()));
            }
        }
        k = k + 1;
    }
    None
}

/// The name of the monitor, read from the output of `xrandr --current` when
/// it could be run: the first connected output it lists, else empty.
pub fn monitor_name(xrandr_output: Option<&str>) -> (r: String)
    ensures
        r@ == match xrandr_output {
            Some(o) => match xrandr_monitor(o@) {
                Some(m) => m,
                None => ""@,
            },
            None => ""@,
        },
{
    match xrandr_output {
        Some(o) => match monitor_from_output(o) {
            Some(m) => m,
            None => owned(""),
        },
        None => owned(""),
    }
}

// ---------------------------------------------------------------------------
// DRM entries
// ---------------------------------------------------------------------------

/// Whether a `/sys/class/drm` entry is a card connector.
pub open spec fn is_card(path: Seq<char>) -> bool {
    contains(path, "card"@)
}

/// Whether a connector's `status` file says it is connected.
pub open spec fn status_connected(status: Seq<char>) -> bool {
    trim(status) == "connected"@
}

/// The resolution in a connector's `modes` file: its first line, when that
/// line holds an `x`.
pub open spec fn first_mode(modes: Seq<char>) -> Option<Seq<char>> {
    let ls = lines(modes);
    if ls.len() > 0 && ls[0].contains('x') {
        Some(ls[0])
    } else {
        None
    }
}

/// Whether a DRM entry's path names a card connector.
pub fn is_card_path(path: &str) -> (b: bool)
    ensures
        b == is_card(path@),
{
    let p = chars_of(path);
    let card = chars_of("card");
    contains_chars(p.as_slice(), card.as_slice())
}

/// Whether a connector's status text says it is connected.
pub fn is_connected_status(status: &str) -> (b: bool)
    ensures
        b == status_connected(status@),
{
    let s = chars_of(status);
    let t = trim_chars(s.as_slice());
    let connected = chars_of("connected");
    crate::text::chars_eq(t.as_slice(), connected.as_slice())
}

/// The resolution a connector's modes text gives.
pub fn first_mode_resolution(modes: &str) -> (r: Option<String>)
    ensures
        r matches Some(s) ==> first_mode(modes@) == Some(s@),
        r is None ==> first_mode(modes@) is None,
{
    let m = chars_of(modes);
    let ls = split_lines(m.as_slice());
    proof {
        assert(views(ls@) == lines(modes@));
    }
    if ls.len() > 0 {
        assert(ls@[0]@ == lines(modes@)[0]);
        if contains_char(ls[0].as_slice(), 'x') {
            return Some(string_of(ls[0].as_slice()));
        }
    }
    None
}

/// What was read of one entry under `/sys/class/drm`: its path, and the text
/// of its `status` and `modes` files where they could be read.
pub struct DrmEntry {
    pub path: String,
    pub status: Option<String>,
    pub modes: Option<String>,
}

/// The view of a [`DrmEntry`].
pub struct DrmEntryView {
    pub path: Seq<char>,
    pub status: Option<Seq<char>>,
    pub modes: Option<Seq<char>>,
}

impl View for DrmEntry {
    type V = DrmEntryView;

    open spec fn view(&self) -> DrmEntryView {
        DrmEntryView {
            path: self.path@,
            status: opt_view(self.status),
            modes: opt_view(self.modes),
        }
    }
}

/// The resolution one DRM entry gives: the first mode of a connected card
/// connector.
pub open spec fn drm_entry_mode(e: DrmEntryView) -> Option<Seq<char>> {
    if is_card(e.path) && (e.status matches Some(st) && status_connected(st)) {
        match e.modes {
            Some(m) => first_mode(m),
            None => None,
        }
    } else {
        None
    }
}

/// The resolution the first entry from `from` on that gives one gives.
pub open spec fn first_drm_mode(entries: Seq<DrmEntryView>, from: int) -> Option<Seq<char>>
    decreases entries.len() - from,
{
    if from < 0 || from >= entries.len() {
        None
    } else if drm_entry_mode(entries[from]) is Some {
        drm_entry_mode(entries[from])
    } else {
        first_drm_mode(entries, from + 1)
    }
}

/// The views of a list of DRM entries.
pub open spec fn drm_views(entries: Seq<DrmEntry>) -> Seq<DrmEntryView> {
    entries.map_values(|e: DrmEntry| e@)
}

/// The resolution one DRM entry gives.
pub fn drm_entry_resolution(entry: &DrmEntry) -> (r: Option<String>)
    ensures
        r matches Some(s) ==> drm_entry_mode(entry@) == Some(s@),
        r is None ==> drm_entry_mode(entry@) is None,
{
    if !is_card_path(entry.path.as_str()) {
        return None;
    }
    match &entry.status {
        Some(st) => {
            if !is_connected_status(st.as_str()) {
                return None;
            }
        },
        None => {
            return None;
        },
    }
    match &entry.modes {
        Some(m) => first_mode_resolution(m.as_str()),
        None => None,
    }
}

/// The resolution of the DRM entries, in the order they were listed: that of
/// the first connected card connector with a mode.
pub fn drm_resolution(entries: &Vec<DrmEntry>) -> (r: Option<String>)
    ensures
        r matches Some(s) ==> first_drm_mode(drm_views(entries@), 0) == Some(s@),
        r is None ==> first_drm_mode(drm_views(entries@), 0) is None,
{
    let ghost ev = drm_views(entries@);
    let mut k: usize = 0;
    while k < entries.len()
        invariant
            k <= entries.len(),
            ev == drm_views(entries@),
            first_drm_mode(ev, 0) == first_drm_mode(ev, k as int),
        decreases entries.len() - k,
    {
        assert(ev[k as int] == entries@[k as int]@);
        match drm_entry_resolution(&entries[k]) {
            Some(s) => {
                return Some(s);
            },
            None => {},
        }
        k = k + 1;
    }
    None
}

// ---------------------------------------------------------------------------
// Deciding
// ---------------------------------------------------------------------------

/// The ways of finding the resolution, in the order they are tried.
#[derive(Debug, Clone, Copy, PartialEq, Eq, Structural)]
pub enum ResolutionProbe {
    /// Run a tool and read its output.
    Tool(ResolutionTool),
    /// Read the DRM connectors under `/sys/class/drm`.
    Drm,
}

/// How many ways of finding the resolution there are.
pub const RESOLUTION_PROBES: usize = 4;

/// The way tried at position `i`.
pub open spec fn probe_at(i: int) -> ResolutionProbe {
    if i == 0 {
        ResolutionProbe::Tool(ResolutionTool::Xrandr)
    } else if i == 1 {
        ResolutionProbe::Tool(ResolutionTool::WlrRandr)
    } else if i == 2 {
        ResolutionProbe::Tool(ResolutionTool::Swaymsg)
    } else {
        ResolutionProbe::Drm
    }
}

/// The resolution used when no probe finds one.
pub open spec fn fallback_resolution() -> Seq<char> {
    "1920x1080"@
}

/// What resolution detection does next.
pub enum ResolutionStep {
    /// Try this probe and report what it found.
    Probe(ResolutionProbe),
    /// The resolution is known.
    Resolved(String),
}

/// The first position below `end` whose probe found a resolution.
pub open spec fn first_found(found: Seq<Option<String>>, end: int) -> Option<int>
    decreases end,
{
    if end <= 0 {
        None
    } else {
        match first_found(found, end - 1) {
            Some(j) => Some(j),
            None => if found[end - 1] is Some {
                Some(end - 1)
            } else {
                None
            },
        }
    }
}

proof fn lemma_first_found_stable(found: Seq<Option<String>>, a: int, b: int)
    requires
        a <= b,
        first_found(found, a) is Some,
    ensures
        first_found(found, b) == first_found(found, a),
    decreases b - a,
{
    if a < b {
        lemma_first_found_stable(found, a, b - 1);
    }
}

/// Decides the next step of resolution detection from what the probes run so
/// far (probe `i` at position `i`) found: the first resolution found; else
/// the next probe; else 1920x1080 once every probe came back empty.
pub fn get_resolution(found: &[Option<String>]) -> (r: ResolutionStep)
    ensures
        ({
            let end = if found.len() < RESOLUTION_PROBES {
                found.len() as int
            } else {
                RESOLUTION_PROBES as int
            };
            match first_found(found@, end) {
                Some(j) => r matches ResolutionStep::Resolved(s) && s@ == found@[j]->0@,
                None => if found.len() < RESOLUTION_PROBES {
                    r matches ResolutionStep::Probe(p) && p == probe_at(found.len() as int)
                } else {
                    r matches ResolutionStep::Resolved(s) && s@ == fallback_resolution()
                },
            }
        }),
{
    let end: usize = if found.len() < RESOLUTION_PROBES {
        found.len()
    } else {
        RESOLUTION_PROBES
    };
    let mut i: usize = 0;
    while i < end
        invariant
            i <= end <= found.len(),
            end == (if found.len() < RESOLUTION_PROBES {
                found.len()
            } else {
                RESOLUTION_PROBES
            }),
            first_found(found@, i as int) is None,
        decreases end - i,
    {
        match &found[i] {
            Some(s) => {
                assert(first_found(found@, i + 1) == Some(i as int));
                proof {
                    lemma_first_found_stable(found@, i + 1, end as int);
                }
                return ResolutionStep::Resolved(s.clone());
            },
            None => {},
        }
        i = i + 1;
    }
    let n = found.len();
    if n < RESOLUTION_PROBES {
        let probe = if n == 0 {
            ResolutionProbe::Tool(ResolutionTool::Xrandr)
        } else if n == 1 {
            ResolutionProbe::Tool(ResolutionTool::WlrRandr)
        } else if n == 2 {
            ResolutionProbe::Tool(ResolutionTool::Swaymsg)
        } else {
            ResolutionProbe::Drm
        };
        ResolutionStep::Probe(probe)
    } else {
        ResolutionStep::Resolved(owned("1920x1080"))
    }
}


proof fn lemma_first_xrandr_mode_shape(parts: Seq<Seq<char>>, from: int)
    ensures
        first_xrandr_mode(parts, from) matches Some(m) ==> m.contains('x') && all_mode_chars(m),
    decreases parts.len() - from,
{
    if 0 <= from < parts.len() && !(parts[from].contains('x') && all_mode_chars(parts[from])) {
        lemma_first_xrandr_mode_shape(parts, from + 1);
    }
}

proof fn lemma_first_wlr_mode_shape(parts: Seq<Seq<char>>, from: int)
    ensures
        first_wlr_mode(parts, from) matches Some(m) ==> count_char(m, 'x') == 1 && all_mode_chars(
            m,
        ),
    decreases parts.len() - from,
{
    if 0 <= from < parts.len() && !(count_char(trim(parts[from]), 'x') == 1 && all_mode_chars(
        trim(parts[from]),
    )) {
        lemma_first_wlr_mode_shape(parts, from + 1);
    }
}

/// A resolution read from a line of `xrandr` output is made of digits and
/// `x` and holds an `x`; one read from `wlr-randr` output holds exactly one.
pub proof fn line_modes_are_resolution_tokens(line: Seq<char>)
    ensures
        xrandr_line_mode(line) matches Some(m) ==> m.contains('x') && all_mode_chars(m),
        wlr_line_mode(line) matches Some(m) ==> count_char(m, 'x') == 1 && all_mode_chars(m),
{
    lemma_first_xrandr_mode_shape(words(line), 1);
    lemma_first_wlr_mode_shape(words(trim(line)), 0);
}


proof fn lemma_count_char_contains(s: Seq<char>, c: char)
    requires
        count_char(s, c) > 0,
    ensures
        s.contains(c),
    decreases s.len(),
{
    if s.last() == c {
        assert(s[s.len() - 1] == c);
    } else {
        lemma_count_char_contains(s.drop_last(), c);
        let i = choose|i: int| 0 <= i < s.drop_last().len() && s.drop_last()[i] == c;
        assert(s[i] == c);
    }
}

proof fn lemma_first_some_has_x(
    items: Seq<Seq<char>>,
    from: int,
    f: spec_fn(Seq<char>) -> Option<Seq<char>>,
)
    requires
        forall|l: Seq<char>| (#[trigger] f(l)) matches Some(m) ==> m.contains('x'),
    ensures
        first_some(items, from, f) matches Some(m) ==> m.contains('x'),
    decreases items.len() - from,
{
    if 0 <= from < items.len() && f(items[from]) is None {
        lemma_first_some_has_x(items, from + 1, f);
    }
}

/// Every resolution that detection can report holds an `x`: the one a tool's
/// output reports, the one a DRM connector's modes give, and the fallback.
pub proof fn detected_resolution_has_x(tool: ResolutionTool, output: Seq<char>, modes: Seq<char>)
    ensures
        tool_resolution(tool, output) matches Some(r) ==> r.contains('x'),
        first_mode(modes) matches Some(r) ==> r.contains('x'),
        fallback_resolution().contains('x'),
{
    reveal_strlit("x");
    reveal_strlit("1920x1080");
    assert("1920x1080"@[4] == 'x');
    assert forall|l: Seq<char>| (#[trigger] (line_reading(tool))(l)) is Some implies (line_reading(
        tool,
    ))(l)->0.contains('x') by {
        line_modes_are_resolution_tokens(l);
        match wlr_line_mode(l) {
            Some(m) => lemma_count_char_contains(m, 'x'),
            None => {},
        }
        match sway_line_mode(l) {
            Some(m) => {
                let i = find(l, "\"mode\":\""@)->0;
                let mode = l.skip(i + "\"mode\":\""@.len());
                let j = find(mode, "\""@)->0;
                let parts = split_on(mode.take(j), 'x');
                assert(m == parts[0] + "x"@ + parts[1]);
                assert(m[parts[0].len() as int] == 'x');
            },
            None => {},
        }
    }
    lemma_first_some_has_x(lines(output), 0, line_reading(tool));
}


/// Resolution detection tries each way of finding the resolution exactly
/// once, in the order xrandr, wlr-randr, swaymsg, DRM: no two positions hold
/// the same probe, and the positions are in that order.
pub proof fn probes_in_order()
    ensures
        forall|i: int, j: int|
            0 <= i < j < RESOLUTION_PROBES ==> #[trigger] probe_at(i) != #[trigger] probe_at(j),
        probe_at(0) == ResolutionProbe::Tool(ResolutionTool::Xrandr),
        probe_at(1) == ResolutionProbe::Tool(ResolutionTool::WlrRandr),
        probe_at(2) == ResolutionProbe::Tool(ResolutionTool::Swaymsg),
        probe_at(3) == ResolutionProbe::Drm,
{
}

} // verus!
