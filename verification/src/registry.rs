//! The box registry reader: parses the external tool's list output into
//! records, and gates the query behind the presence check.

use crate::invocation::{tool_name, tool_program, Invocation};
use crate::record::{BoxRecord, BoxRecordView};
use crate::text::{lemma_split_on_nonempty, split_on, split_str, trim_str, trimmed};
use vstd::prelude::*;

verus! {

/// The record a single list line describes: at least three `|`-separated
/// fields — name, image identifier, status, each trimmed of surrounding
/// spaces — and a non-empty name. Fields past the third are ignored.
pub open spec fn line_record(line: Seq<char>) -> Option<BoxRecordView> {
    let fields = split_on(line, '|');
    if fields.len() >= 3 && trimmed(fields[0]).len() > 0 {
        Some(
            BoxRecordView {
                name: trimmed(fields[0]),
                distro_id: trimmed(fields[1]),
                status: trimmed(fields[2]),
            },
        )
    } else {
        None
    }
}

/// Whether a list line yields a record.
pub open spec fn line_well_formed(line: Seq<char>) -> bool {
    line_record(line) is Some
}

/// The records of a sequence of lines, in input order; a malformed line
/// contributes nothing.
pub open spec fn records_of_lines(ls: Seq<Seq<char>>) -> Seq<BoxRecordView>
    decreases ls.len(),
{
    if ls.len() == 0 {
        Seq::empty()
    } else {
        let prev = records_of_lines(ls.drop_last());
        match line_record(ls.last()) {
            Some(r) => prev.push(r),
            None => prev,
        }
    }
}

/// What a whole captured list output parses to: the first line is the
/// header and is skipped; every remaining line contributes its record, in
/// input order, malformed lines skipped.
pub open spec fn list_output_records(out: Seq<char>) -> Seq<BoxRecordView> {
    records_of_lines(split_on(out, '\n').drop_first())
}

/// Parse one line of list output.
pub fn parse_line(line: &str) -> (r: Option<BoxRecord>)
    ensures
        match r {
            Some(rec) => line_record(line@) == Some(rec@),
            None => line_record(line@) is None,
        },
{
    let fields = split_str(line, '|');
    if fields.len() >= 3 {
        let name = trim_str(fields[0]);
        if name.unicode_len() > 0 {
            let rec = BoxRecord {
                name: name.to_owned(),
                distro_id: trim_str(fields[1]).to_owned(),
                status: trim_str(fields[2]).to_owned(),
            };
            Some(rec)
        } else {
            None
        }
    } else {
        None
    }
}

/// Parse the captured output of the list query: skip the header line, then
/// one record per well-formed line, in input order; malformed lines are
/// skipped rather than failing the whole batch.
pub fn parse_list_output(out: &str) -> (r: Vec<BoxRecord>)
    ensures
        r.deep_view() == list_output_records(out@),
{
    let lines = split_str(out, '\n');
    let mut records: Vec<BoxRecord> = Vec::new();
    let mut i: usize = 1;
    proof {
        lemma_split_on_nonempty(out@, '\n');
        assert(lines.deep_view().drop_first().take(0) =~= Seq::<Seq<char>>::empty());
        assert(records.deep_view() =~~= records_of_lines(
            lines.deep_view().drop_first().take(0),
        ));
    }
    while i < lines.len()
        invariant
            1 <= i <= lines.len(),
            lines.deep_view() == split_on(out@, '\n'),
            lines@.len() == lines.deep_view().len(),
            records.deep_view() == records_of_lines(lines.deep_view().drop_first().take(i - 1)),
        decreases lines.len() - i,
    {
        let ghost tail = lines.deep_view().drop_first();
        proof {
            assert(tail.take(i as int).drop_last() =~= tail.take(i - 1));
            assert(tail.take(i as int).last() == lines.deep_view()[i as int]);
            assert(lines.deep_view()[i as int] == lines@[i as int].deep_view());
        }
        let ghost prev = records.deep_view();
        match parse_line(lines[i]) {
            Some(rec) => {
                records.push(rec);
                proof {
                    assert(records.deep_view() =~~= prev.push(rec@));
                }
            },
            None => {},
        }
        proof {
            assert(records.deep_view() =~~= records_of_lines(tail.take(i as int)));
        }
        i = i + 1;
    }
    proof {
        let tail = lines.deep_view().drop_first();
        assert(tail.take(i - 1) =~= tail);
    }
    records
}

/// All lines well formed: one record per line, in input order.
///
/// For output whose every line past the header is well formed, the parse
/// yields exactly one record per content line, and in input order.
pub proof fn lemma_all_lines_parsed(ls: Seq<Seq<char>>)
    requires
        forall|i: int| 0 <= i < ls.len() ==> line_well_formed(#[trigger] ls[i]),
    ensures
        records_of_lines(ls).len() == ls.len(),
        forall|i: int|
            0 <= i < ls.len() ==> Some(#[trigger] records_of_lines(ls)[i]) == line_record(ls[i]),
    decreases ls.len(),
{
    if ls.len() > 0 {
        assert(forall|i: int|
            0 <= i < ls.drop_last().len() ==> #[trigger] ls.drop_last()[i] == ls[i]);
        lemma_all_lines_parsed(ls.drop_last());
    }
}

/// A header and N well-formed content lines give exactly N records, in
/// input order.
pub proof fn lemma_well_formed_output(out: Seq<char>)
    requires
        forall|i: int|
            1 <= i < split_on(out, '\n').len() ==> line_well_formed(
                #[trigger] split_on(out, '\n')[i],
            ),
    ensures
        list_output_records(out).len() == split_on(out, '\n').len() - 1,
        forall|i: int|
            1 <= i < split_on(out, '\n').len() ==> Some(
                list_output_records(out)[i - 1],
            ) == line_record(#[trigger] split_on(out, '\n')[i]),
{
    lemma_split_on_nonempty(out, '\n');
    let ls = split_on(out, '\n').drop_first();
    assert(forall|i: int| 0 <= i < ls.len() ==> #[trigger] ls[i] == split_on(out, '\n')[i + 1]);
    lemma_all_lines_parsed(ls);
}

/// The well-formed lines among `ls`, in order.
pub open spec fn well_formed_lines(ls: Seq<Seq<char>>) -> Seq<Seq<char>>
    decreases ls.len(),
{
    if ls.len() == 0 {
        Seq::empty()
    } else {
        let prev = well_formed_lines(ls.drop_last());
        if line_well_formed(ls.last()) {
            prev.push(ls.last())
        } else {
            prev
        }
    }
}

/// A malformed line is dropped and nothing else changes: the parse returns
/// exactly the records of the well-formed lines, in order.
pub proof fn lemma_only_malformed_lines_dropped(ls: Seq<Seq<char>>)
    ensures
        records_of_lines(ls) == records_of_lines(well_formed_lines(ls)),
    decreases ls.len(),
{
    if ls.len() > 0 {
        lemma_only_malformed_lines_dropped(ls.drop_last());
        if line_well_formed(ls.last()) {
            let prev = well_formed_lines(ls.drop_last());
            assert(prev.push(ls.last()).drop_last() =~= prev);
            assert(prev.push(ls.last()).last() == ls.last());
        }
    }
}

/// Every record the parser yields is well formed: its name is non-empty.
pub proof fn lemma_records_well_formed(ls: Seq<Seq<char>>)
    ensures
        forall|i: int|
            0 <= i < records_of_lines(ls).len() ==> (#[trigger] records_of_lines(ls)[i]).wf(),
    decreases ls.len(),
{
    if ls.len() > 0 {
        lemma_records_well_formed(ls.drop_last());
        let prev = records_of_lines(ls.drop_last());
        match line_record(ls.last()) {
            Some(r) => {
                assert(r.wf());
                assert(forall|i: int|
                    0 <= i < prev.len() ==> #[trigger] prev.push(r)[i] == prev[i]);
            },
            None => {},
        }
    }
}

/// Every record a parsed output holds is well formed: its name is
/// non-empty, so it can key every later action.
pub proof fn lemma_output_records_well_formed(out: Seq<char>)
    ensures
        forall|i: int|
            0 <= i < list_output_records(out).len() ==> (#[trigger] list_output_records(
                out,
            )[i]).wf(),
{
    lemma_records_well_formed(split_on(out, '\n').drop_first());
}

/// The argument list of the list query: machine-friendly output, no
/// interactive prompts.
pub open spec fn list_args() -> Seq<Seq<char>> {
    seq!["list"@, "--no-color"@]
}

/// The invocation that queries the registry.
pub fn list_invocation() -> (r: Invocation)
    ensures
        r@.program == tool_name(),
        r@.args == list_args(),
{
    let mut args: Vec<String> = Vec::new();
    args.push("list".to_owned());
    args.push("--no-color".to_owned());
    let r = Invocation { program: tool_program(), args };
    proof {
        assert(r@.args =~~= list_args());
    }
    r
}

/// Why the box list could not be produced at all.
#[derive(Debug, Clone, Copy, PartialEq, Eq, Structural)]
pub enum ListError {
    /// The external tool's binary could not be located or invoked; the
    /// caller must present the unavailable state rather than crash.
    ToolUnavailable,
}

/// The registry read, from what the front-end observed of the list query:
/// `None` when the tool could not be located or invoked, the captured
/// output otherwise. A malformed line is recovered from locally, by
/// skipping it, and never fails the whole batch.
pub fn list_boxes(captured: Option<&str>) -> (r: Result<Vec<BoxRecord>, ListError>)
    ensures
        match r {
            Ok(records) => captured matches Some(out) && records.deep_view()
                == list_output_records(out@),
            Err(e) => captured is None && e == ListError::ToolUnavailable,
        },
{
    match captured {
        Some(out) => Ok(parse_list_output(out)),
        None => Err(ListError::ToolUnavailable),
    }
}

/// What the front-end does at startup, decided by the presence check alone.
pub enum StartupPlan {
    /// The tool is absent: show the static "not found" labels and offer no
    /// actions; no other external interface is touched.
    ShowNotInstalled,
    /// The tool is present: run this invocation and parse its captured
    /// output into the box list.
    QueryRegistry(Invocation),
}

/// The presence gate: the registry query is issued if and only if the tool
/// was found on the search path; when it is absent the plan is the static
/// unavailable state, so the list query is never invoked.
pub fn startup_plan(tool_available: bool) -> (r: StartupPlan)
    ensures
        tool_available ==> (r matches StartupPlan::QueryRegistry(inv) && inv@.program
            == tool_name() && inv@.args == list_args()),
        !tool_available ==> r is ShowNotInstalled,
{
    if tool_available {
        StartupPlan::QueryRegistry(list_invocation())
    } else {
        StartupPlan::ShowNotInstalled
    }
}

/// Headline label of the unavailable state.
pub fn not_installed_title() -> (r: String)
    ensures
        r@ == "Distrobox not found!"@,
{
    "Distrobox not found!".to_owned()
}

/// Explanatory label of the unavailable state.
pub fn not_installed_detail() -> (r: String)
    ensures
        r@ == "Distrobox could not be found, please ensure it is installed!"@,
{
    "Distrobox could not be found, please ensure it is installed!".to_owned()
}

} // verus!
