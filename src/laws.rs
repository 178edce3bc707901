use vstd::prelude::*;
use crate::control::{directive_after, next_stage, registry_after, ActionError, Command, Directive, Exit, Stage};
use crate::mode::Mode;
use crate::registry::{next_index, previous_index, RegistryModel};
use crate::status::{entry_of, header_mode, lines, mode_after, parse, parse_lines};
use crate::text::{contains, trim};

verus! {

/// Parsing depends on the text alone: the same text always gives the same
/// profiles in the same order.
pub proof fn parse_is_deterministic(a: Seq<char>, b: Seq<char>)
    requires
        a == b,
    ensures
        parse(a) == parse(b),
{
}

/// The header text that announces mode `m`, where the status tool has one.
pub open spec fn marker(m: Mode) -> Option<Seq<char>> {
    match m {
        Mode::Enforce => Some("profiles are in enforce mode."@),
        Mode::Complain => Some("profiles are in complain mode."@),
        Mode::Kill => Some("profiles are in kill mode."@),
        Mode::Audit => Some("profiles are in audit mode."@),
        Mode::Disable => None,
    }
}

/// A header is found anywhere in its line: text before or after the
/// marker (a count, say) does not change the mode it announces, as long as
/// the line holds no other mode's marker.
pub proof fn header_found_inside_line(m: Mode, before: Seq<char>, after: Seq<char>)
    requires
        marker(m) is Some,
        forall|m2: Mode|
            m2 != m && #[trigger] marker(m2) is Some ==> !contains(before + marker(m)->0 + after, marker(m2)->0),
    ensures
        header_mode(before + marker(m)->0 + after) == Some(m),
{
    let pat = marker(m)->0;
    let line = before + pat + after;
    let k = before.len() as int;
    assert(line.subrange(k, k + pat.len()) =~= pat);
    assert(contains(line, pat));
    assert(marker(Mode::Enforce) is Some);
    assert(marker(Mode::Complain) is Some);
    assert(marker(Mode::Kill) is Some);
    assert(marker(Mode::Audit) is Some);
}

/// Every identifier that parsing yields is a trimmed line that starts with
/// `/` or `{`: other lines never give a profile.
pub proof fn parsed_identifiers_are_paths_or_names(s: Seq<char>)
    ensures
        forall|k: int|
            0 <= k < parse(s).len() ==> {
                let id = #[trigger] parse(s)[k].0;
                &&& id.len() > 0
                &&& id[0] == '/' || id[0] == '{'
                &&& exists|j: int| 0 <= j < lines(s).len() && id == trim(#[trigger] lines(s)[j])
            },
{
    lemma_entries_from_identifier_lines(lines(s), None);
}

proof fn lemma_entries_from_identifier_lines(ls: Seq<Seq<char>>, m: Option<Mode>)
    ensures
        forall|k: int|
            0 <= k < parse_lines(ls, m).len() ==> {
                let id = #[trigger] parse_lines(ls, m)[k].0;
                &&& id.len() > 0
                &&& id[0] == '/' || id[0] == '{'
                &&& exists|j: int| 0 <= j < ls.len() && id == trim(#[trigger] ls[j])
            },
    decreases ls.len(),
{
    if ls.len() > 0 {
        let tail = ls.drop_first();
        let m1 = mode_after(ls[0], m);
        lemma_entries_from_identifier_lines(tail, m1);
        let e = entry_of(ls[0], m);
        let rest = parse_lines(tail, m1);
        assert(parse_lines(ls, m) == e + rest);
        assert forall|k: int| 0 <= k < parse_lines(ls, m).len() implies {
            let id = #[trigger] parse_lines(ls, m)[k].0;
            &&& id.len() > 0
            &&& id[0] == '/' || id[0] == '{'
            &&& exists|j: int| 0 <= j < ls.len() && id == trim(#[trigger] ls[j])
        } by {
            if k < e.len() {
                assert(ls[0] == ls[0]);
            } else {
                let id = rest[k - e.len()].0;
                let j = choose|j: int| 0 <= j < tail.len() && id == trim(#[trigger] tail[j]);
                assert(ls[j + 1] == tail[j]);
            }
        }
    }
}

/// The mode announced by the nearest header among the first `j` lines of
/// `ls`, or `m0` where none of them is a header.
pub open spec fn mode_in_effect_from(ls: Seq<Seq<char>>, j: int, m0: Option<Mode>) -> Option<Mode>
    decreases j,
{
    if j <= 0 {
        m0
    } else if header_mode(ls[j - 1]) is Some {
        header_mode(ls[j - 1])
    } else {
        mode_in_effect_from(ls, j - 1, m0)
    }
}


/// `e` is the profile named on some line `j` of `ls`, with the mode in
/// effect there when `m0` is in effect before the first line.
pub open spec fn named_under_header(ls: Seq<Seq<char>>, e: (Seq<char>, Mode), m0: Option<Mode>) -> bool {
    exists|j: int|
        0 <= j < ls.len() && e == (trim(#[trigger] ls[j]), mode_in_effect_from(ls, j, m0)->0)
            && mode_in_effect_from(ls, j, m0) is Some
}

/// Every profile that parsing yields comes from one line of the text, and
/// carries the mode of the nearest header line above that line; a line with
/// no header above it gives no profile.
pub proof fn parsed_modes_follow_nearest_header(s: Seq<char>)
    ensures
        forall|k: int| 0 <= k < parse(s).len() ==> named_under_header(lines(s), #[trigger] parse(s)[k], None),
{
    lemma_modes_follow_headers(lines(s), None);
}

proof fn lemma_mode_in_effect_shift(ls: Seq<Seq<char>>, j: int, m0: Option<Mode>)
    requires
        ls.len() > 0,
        0 <= j < ls.len(),
    ensures
        mode_in_effect_from(ls.drop_first(), j, mode_after(ls[0], m0)) == mode_in_effect_from(ls, j + 1, m0),
    decreases j,
{
    let tail = ls.drop_first();
    let m1 = mode_after(ls[0], m0);
    if j > 0 {
        lemma_mode_in_effect_shift(ls, j - 1, m0);
        assert(tail[j - 1] == ls[j]);
        assert(mode_in_effect_from(tail, j, m1) == if header_mode(ls[j]) is Some {
            header_mode(ls[j])
        } else {
            mode_in_effect_from(tail, j - 1, m1)
        });
    } else {
        assert(mode_in_effect_from(ls, 0, m0) == m0);
        assert(mode_in_effect_from(tail, 0, m1) == m1);
    }
}

proof fn lemma_modes_follow_headers(ls: Seq<Seq<char>>, m0: Option<Mode>)
    ensures
        forall|k: int|
            0 <= k < parse_lines(ls, m0).len() ==> named_under_header(ls, #[trigger] parse_lines(ls, m0)[k], m0),
    decreases ls.len(),
{
    if ls.len() > 0 {
        let tail = ls.drop_first();
        let m1 = mode_after(ls[0], m0);
        lemma_modes_follow_headers(tail, m1);
        let e = entry_of(ls[0], m0);
        let rest = parse_lines(tail, m1);
        assert(parse_lines(ls, m0) == e + rest);
        assert forall|k: int| 0 <= k < parse_lines(ls, m0).len() implies named_under_header(
            ls,
            #[trigger] parse_lines(ls, m0)[k],
            m0,
        ) by {
            if k < e.len() {
                assert(mode_in_effect_from(ls, 0, m0) == m0);
                assert(parse_lines(ls, m0)[k] == (trim(ls[0]), mode_in_effect_from(ls, 0, m0)->0));
            } else {
                assert(parse_lines(ls, m0)[k] == rest[k - e.len()]);
                assert(named_under_header(tail, rest[k - e.len()], m1));
                let j = choose|j: int|
                    0 <= j < tail.len() && rest[k - e.len()] == (
                        trim(#[trigger] tail[j]),
                        mode_in_effect_from(tail, j, m1)->0,
                    ) && mode_in_effect_from(tail, j, m1) is Some;
                lemma_mode_in_effect_shift(ls, j, m0);
                assert(tail[j] == ls[j + 1]);
            }
        }
    }
}

/// Moving the selection wraps round: down from the last row reaches the
/// first, up from the first reaches the last, and with no rows both leave
/// nothing selected.
pub proof fn selection_wraps_round(n: nat, sel: Option<nat>)
    ensures
        n > 0 ==> next_index(Some((n - 1) as nat), n) == Some(0nat),
        n > 0 ==> previous_index(Some(0nat), n) == Some((n - 1) as nat),
        next_index(sel, 0) is None,
        previous_index(sel, 0) is None,
{
}

/// A command that fails, or cannot be started, ends the action with that
/// error and leaves the registry as it was: nothing is re-read.
pub proof fn failed_command_keeps_registry(stage: Stage, r: RegistryModel, exit: Exit, out: Seq<char>)
    requires
        exit != Exit::Succeeded,
    ensures
        registry_after(stage, r, exit, out) == r,
        next_stage(stage, exit) == Stage::Idle,
        directive_after(stage, exit) == Directive::Done(
            Err(if exit == Exit::NotStarted { ActionError::NotStarted } else { ActionError::Failed }),
        ),
{
}

/// A successful mode change is followed by exactly one status query, whose
/// report then replaces the registry's list as a whole, and the action ends.
pub proof fn successful_change_reconciles_once(r: RegistryModel, ignored: Seq<char>, report: Seq<char>)
    ensures
        next_stage(Stage::Changing, Exit::Succeeded) == Stage::Querying,
        directive_after(Stage::Changing, Exit::Succeeded) == Directive::Run(Command::QueryStatus),
        registry_after(Stage::Changing, r, Exit::Succeeded, ignored) == r,
        next_stage(Stage::Querying, Exit::Succeeded) == Stage::Idle,
        directive_after(Stage::Querying, Exit::Succeeded) == Directive::Done(Ok(())),
        registry_after(Stage::Querying, r, Exit::Succeeded, report).profiles == parse(report),
{
}

} // verus!
