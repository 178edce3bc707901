use vstd::prelude::*;
use crate::mode::Mode;
use crate::text::{contains, contains_in, to_chars, trim, trim_bounds};

verus! {

/// One profile as the status tool lists it: its identifier (a path starting
/// with `/`, or a structured name starting with `{`) and its mode.
#[derive(Clone, Debug)]
pub struct Profile {
    pub identifier: String,
    pub mode: Mode,
}

impl View for Profile {
    type V = (Seq<char>, Mode);

    open spec fn view(&self) -> (Seq<char>, Mode) {
        (self.identifier@, self.mode)
    }
}

/// The mathematical value of a list of profiles.
pub open spec fn profiles_view(v: Seq<Profile>) -> Seq<(Seq<char>, Mode)> {
    v.map_values(|p: Profile| p@)
}

/// The mode that a section header line announces, if `line` is one.
pub open spec fn header_mode(line: Seq<char>) -> Option<Mode> {
    if contains(line, "profiles are in enforce mode."@) {
        Some(Mode::Enforce)
    } else if contains(line, "profiles are in complain mode."@) {
        Some(Mode::Complain)
    } else if contains(line, "profiles are in kill mode."@) {
        Some(Mode::Kill)
    } else if contains(line, "profiles are in audit mode."@) {
        Some(Mode::Audit)
    } else {
        None
    }
}

/// A line that names a profile: once trimmed, it starts with `/` or `{`.
pub open spec fn is_identifier_line(line: Seq<char>) -> bool {
    trim(line).len() > 0 && (trim(line)[0] == '/' || trim(line)[0] == '{')
}

/// The mode in effect after `line`, when `mode` was in effect before it.
pub open spec fn mode_after(line: Seq<char>, mode: Option<Mode>) -> Option<Mode> {
    match header_mode(line) {
        Some(m) => Some(m),
        None => mode,
    }
}

/// What `line` contributes to the result while `mode` is in effect.
pub open spec fn entry_of(line: Seq<char>, mode: Option<Mode>) -> Seq<(Seq<char>, Mode)> {
    if header_mode(line) is None && is_identifier_line(line) && mode is Some {
        seq![(trim(line), mode->0)]
    } else {
        seq![]
    }
}

/// The pieces of `s` between line feeds, from the piece that starts at
/// `start`, where `s[start..i]` holds no line feed.
pub open spec fn lines_from(s: Seq<char>, start: int, i: int) -> Seq<Seq<char>>
    decreases s.len() - i,
{
    if i >= s.len() {
        seq![s.subrange(start, s.len() as int)]
    } else if s[i] == '\n' {
        seq![s.subrange(start, i)] + lines_from(s, i + 1, i + 1)
    } else {
        lines_from(s, start, i + 1)
    }
}

/// The lines of `s`: its pieces between line feeds.
pub open spec fn lines(s: Seq<char>) -> Seq<Seq<char>> {
    lines_from(s, 0, 0)
}

/// The profiles that `ls` lists, in order, when `mode` is in effect before
/// its first line.
pub open spec fn parse_lines(ls: Seq<Seq<char>>, mode: Option<Mode>) -> Seq<(Seq<char>, Mode)>
    decreases ls.len(),
{
    if ls.len() == 0 {
        seq![]
    } else {
        entry_of(ls[0], mode) + parse_lines(ls.drop_first(), mode_after(ls[0], mode))
    }
}

/// The profiles that a status report lists, in order.
pub open spec fn parse(s: Seq<char>) -> Seq<(Seq<char>, Mode)> {
    parse_lines(lines(s), None)
}

/// The section header texts, one per mode that the report lists.
struct Markers {
    enforce: Vec<char>,
    complain: Vec<char>,
    kill: Vec<char>,
    audit: Vec<char>,
}

impl Markers {
    spec fn wf(&self) -> bool {
        &&& self.enforce@ == "profiles are in enforce mode."@
        &&& self.complain@ == "profiles are in complain mode."@
        &&& self.kill@ == "profiles are in kill mode."@
        &&& self.audit@ == "profiles are in audit mode."@
    }

    fn new() -> (r: Markers)
        ensures
            r.wf(),
    {
        Markers {
            enforce: to_chars("profiles are in enforce mode."),
            complain: to_chars("profiles are in complain mode."),
            kill: to_chars("profiles are in kill mode."),
            audit: to_chars("profiles are in audit mode."),
        }
    }

    /// The mode that the line `s[lo..hi]` announces, if it is a header.
    fn header(&self, s: &Vec<char>, lo: usize, hi: usize) -> (r: Option<Mode>)
        requires
            self.wf(),
            lo <= hi <= s.len(),
        ensures
            r == header_mode(s@.subrange(lo as int, hi as int)),
    {
        if contains_in(s, lo, hi, &self.enforce) {
            Some(Mode::Enforce)
        } else if contains_in(s, lo, hi, &self.complain) {
            Some(Mode::Complain)
        } else if contains_in(s, lo, hi, &self.kill) {
            Some(Mode::Kill)
        } else if contains_in(s, lo, hi, &self.audit) {
            Some(Mode::Audit)
        } else {
            None
        }
    }
}

/// Handles the line `s[lo..hi]`: appends the profile that it names, if any,
/// and returns the mode in effect after it.
fn take_line(
    text: &str,
    s: &Vec<char>,
    lo: usize,
    hi: usize,
    mode: Option<Mode>,
    markers: &Markers,
    out: &mut Vec<Profile>,
) -> (r: Option<Mode>)
    requires
        markers.wf(),
        lo <= hi <= s.len(),
        s@ == text@,
    ensures
        r == mode_after(s@.subrange(lo as int, hi as int), mode),
        profiles_view(final(out)@) == profiles_view(old(out)@) + entry_of(
            s@.subrange(lo as int, hi as int),
            mode,
        ),
{
    let ghost line = s@.subrange(lo as int, hi as int);
    let header = markers.header(s, lo, hi);
    if header.is_some() {
        assert(entry_of(line, mode) == Seq::<(Seq<char>, Mode)>::empty());
        assert(profiles_view(out@) =~= profiles_view(out@) + entry_of(line, mode));
        return header;
    }
    let (a, b) = trim_bounds(s, lo, hi);
    let ghost before = out@;
    if a < b && (s[a] == '/' || s[a] == '{') {
        if let Some(m) = mode {
            let ident = String::from_str(text.substring_char(a, b));
            out.push(Profile { identifier: ident, mode: m });
            assert(profiles_view(out@) =~= profiles_view(before) + entry_of(line, mode));
            return mode;
        }
    }
    assert(profiles_view(out@) =~= profiles_view(out@) + entry_of(line, mode));
    mode
}

/// Reads the status tool's report: for each line that names a profile, in
/// order, the profile with the mode of the nearest header line above it.
/// Lines before any header, and lines that are neither headers nor
/// identifiers, contribute nothing.
pub fn parse_status(text: &str) -> (r: Vec<Profile>)
    ensures
        profiles_view(r@) == parse(text@),
{
    let s = to_chars(text);
    let markers = Markers::new();
    let n = s.len();
    let mut out: Vec<Profile> = Vec::new();
    let mut mode: Option<Mode> = None;
    let mut start: usize = 0;
    let mut i: usize = 0;
    while i < n
        invariant
            markers.wf(),
            s@ == text@,
            n == s.len(),
            start <= i <= n,
            parse(s@) == profiles_view(out@) + parse_lines(lines_from(s@, start as int, i as int), mode),
        decreases n - i,
    {
        if s[i] == '\n' {
            let ghost line = s@.subrange(start as int, i as int);
            let ghost rest = lines_from(s@, i + 1, i + 1);
            let ghost prev = profiles_view(out@);
            assert((seq![line] + rest).drop_first() =~= rest);
            let m2 = take_line(text, &s, start, i, mode, &markers, &mut out);
            assert(parse(s@) =~= profiles_view(out@) + parse_lines(rest, m2));
            mode = m2;
            start = i + 1;
        }
        i = i + 1;
    }
    let ghost line = s@.subrange(start as int, n as int);
    assert(seq![line].drop_first() =~= Seq::<Seq<char>>::empty());
    assert(lines_from(s@, start as int, n as int) == seq![line]);
    assert(parse_lines(Seq::<Seq<char>>::empty(), mode_after(line, mode)) =~= Seq::<
        (Seq<char>, Mode),
    >::empty());
    assert(parse_lines(seq![line], mode) =~= entry_of(line, mode));
    let _ = take_line(text, &s, start, n, mode, &markers, &mut out);
    assert(parse(s@) =~= profiles_view(out@));
    out
}

} // verus!
