//! The two reports of a run: free text for a terminal, and a JSON document
//! for other tooling.
//!
//! What a report holds is stated over the results as plain values; see
//! [`pretty_view`] and [`report_document`].

use crate::json::{
    bool_value, json_model, new_object, null_value, object_contains_key, object_insert,
    object_members, object_value, pretty_printed, string_value, Json, Members,
};
use crate::tester::{
    OutputFormat, ReportMetaData, ReportMetaDataView, TestConclusion, TestErrorView, TestRun,
    TestRunView,
};
use crate::text::str_eq;
use vstd::prelude::*;

verus! {

/// A report, ready to be written out.
#[derive(Clone, Debug, PartialEq, Eq)]
pub struct Report {
    /// What goes to standard output, in order. Each entry is followed by a
    /// line break when it is written; an entry may hold line breaks itself.
    pub lines: Vec<String>,
    /// What goes to the log, in order: the diagnostics that the report itself
    /// does not show.
    pub details: Vec<String>,
}

/// The text of a report.
pub struct ReportView {
    pub lines: Seq<Seq<char>>,
    pub details: Seq<Seq<char>>,
}

impl View for Report {
    type V = ReportView;

    open spec fn view(&self) -> ReportView {
        ReportView { lines: self.lines.deep_view(), details: self.details.deep_view() }
    }
}

/// Why a sequence of results cannot be collated.
#[derive(Clone, Debug, PartialEq, Eq)]
pub enum CollateError {
    /// Two results carry this name. Names identify the cases of a run, so a
    /// report cannot tell such results apart.
    DuplicateName(String),
}

/// The names of the results, in order.
pub open spec fn run_names(runs: Seq<TestRunView>) -> Seq<Seq<char>> {
    Seq::new(runs.len(), |i: int| runs[i].0)
}

/// No name occurs twice.
pub open spec fn names_distinct(names: Seq<Seq<char>>) -> bool {
    forall|i: int, j: int| 0 <= i < j < names.len() ==> names[i] != names[j]
}

/// The name at `j` is the first to repeat an earlier one: it occurs before
/// `j`, and no name before `j` occurs twice.
pub open spec fn first_repeat(names: Seq<Seq<char>>, j: int) -> bool {
    &&& 0 <= j < names.len()
    &&& names_distinct(names.take(j))
    &&& exists|i: int| 0 <= i < j && names[i] == names[j]
}

/// The error names the first name that repeats an earlier one.
pub open spec fn reports_first_repeat(names: Seq<Seq<char>>, error: CollateError) -> bool {
    match error {
        CollateError::DuplicateName(name) => exists|j: int|
            first_repeat(names, j) && names[j] == name@,
    }
}

/// Every result is a `Pass`.
pub open spec fn all_passed(runs: Seq<TestRunView>) -> bool {
    forall|i: int| 0 <= i < runs.len() ==> (#[trigger] runs[i]).1.0 == TestConclusion::Pass
}

/// The `error` member of a result in the structured report: the verbose
/// rendering of the diagnostic, or `null` where there is none.
pub open spec fn error_document(error: Option<TestErrorView>) -> Json {
    match error {
        Some(e) => Json::Str(e.detail),
        None => Json::Null,
    }
}

/// What the structured report holds for one result.
pub open spec fn entry_document(run: TestRunView) -> Json {
    Json::Object(
        Members::empty().insert("pass"@, Json::Bool(run.1.0 == TestConclusion::Pass)).insert(
            "error"@,
            error_document(run.1.1),
        ),
    )
}

/// The place of a result with the given name.
pub open spec fn index_of_name(runs: Seq<TestRunView>, name: Seq<char>) -> int {
    choose|i: int| 0 <= i < runs.len() && runs[i].0 == name
}

/// The `tests` member of the structured report: each name that occurs, with
/// what the report holds for the result of that name.
pub open spec fn tests_document(runs: Seq<TestRunView>) -> Members {
    Map::new(
        |name: Seq<char>| exists|i: int| 0 <= i < runs.len() && runs[i].0 == name,
        |name: Seq<char>| entry_document(runs[index_of_name(runs, name)]),
    )
}

/// The `metadata` member of the structured report.
pub open spec fn metadata_document(meta: ReportMetaDataView) -> Json {
    Json::Object(
        Members::empty().insert("os_release"@, Json::Str(meta.os_release)).insert(
            "chip_name"@,
            Json::Str(meta.chip_name),
        ).insert("system_info"@, Json::Str(meta.system_info)).insert(
            "bios_info"@,
            Json::Str(meta.bios_info),
        ),
    )
}

/// The structured report: whether every result is a `Pass`, the metadata, and
/// the results by name.
pub open spec fn report_document(runs: Seq<TestRunView>, meta: ReportMetaDataView) -> Json {
    Json::Object(
        Members::empty().insert("pass"@, Json::Bool(all_passed(runs))).insert(
            "metadata"@,
            metadata_document(meta),
        ).insert("tests"@, Json::Object(tests_document(runs))),
    )
}

/// The lines that open the free-text report: a banner, then the metadata.
pub open spec fn pretty_header(meta: ReportMetaDataView) -> Seq<Seq<char>> {
    seq![
        ""@,
        "  ============================="@,
        "  =====  AVL qual RESULTS  ===="@,
        "  ============================="@,
        ""@,
        "  %---------------------------%"@,
        "   os release: "@ + meta.os_release,
        "   chip name: "@ + meta.chip_name,
        "   system info: \n"@ + meta.system_info,
        "   bios info: \n"@ + meta.bios_info,
        "  %---------------------------%"@,
        ""@,
    ]
}

/// The line of the free-text report for one result: its name and its
/// conclusion.
pub open spec fn result_line(run: TestRunView) -> Seq<char> {
    "  <+> "@ + run.0 + " test: "@ + run.1.0.label()
}

/// The lines of the free-text report: the header, one line for each result
/// in order, and an empty line.
pub open spec fn pretty_lines(runs: Seq<TestRunView>, meta: ReportMetaDataView) -> Seq<Seq<char>> {
    pretty_header(meta) + Seq::new(runs.len(), |i: int| result_line(runs[i])) + seq![""@]
}

/// What the free-text report sends to the log for one result: the
/// human-readable diagnostic of a result that is no `Pass`, if it has one.
pub open spec fn failure_detail(run: TestRunView) -> Option<Seq<char>> {
    match run.1.1 {
        Some(e) if run.1.0 != TestConclusion::Pass => Some(
            " - "@ + run.0 + " failure details:\n"@ + e.message,
        ),
        _ => None,
    }
}

/// What the free-text report sends to the log: the details of the results
/// that have one, in the order of the results.
pub open spec fn failure_details(runs: Seq<TestRunView>) -> Seq<Seq<char>>
    decreases runs.len(),
{
    if runs.len() == 0 {
        Seq::empty()
    } else {
        failure_details(runs.drop_last()) + match failure_detail(runs.last()) {
            Some(line) => seq![line],
            None => Seq::empty(),
        }
    }
}

/// The free-text report.
pub open spec fn pretty_view(runs: Seq<TestRunView>, meta: ReportMetaDataView) -> ReportView {
    ReportView { lines: pretty_lines(runs, meta), details: failure_details(runs) }
}

/// The report in the given format. The structured report is a single entry
/// that holds the whole document, pretty-printed, and sends nothing to the
/// log.
pub open spec fn report_view(
    runs: Seq<TestRunView>,
    meta: ReportMetaDataView,
    format: OutputFormat,
) -> ReportView {
    match format {
        OutputFormat::Pretty => pretty_view(runs, meta),
        OutputFormat::Json => ReportView {
            lines: seq![pretty_printed(report_document(runs, meta))],
            details: Seq::empty(),
        },
    }
}

/// Results of which two share a name have names that are not distinct.
pub proof fn lemma_shared_name_is_not_distinct(runs: Seq<TestRunView>, i: int, j: int)
    requires
        0 <= i < j < runs.len(),
        runs[i].0 == runs[j].0,
    ensures
        !names_distinct(run_names(runs)),
{
    assert(run_names(runs)[i] == run_names(runs)[j]);
}

/// The structured report is an object of three members: `pass`, which is
/// true exactly where every result is a `Pass`; `metadata`; and `tests`.
pub proof fn lemma_report_document_members(runs: Seq<TestRunView>, meta: ReportMetaDataView)
    ensures
        report_document(runs, meta) matches Json::Object(members) && {
            &&& members.dom() =~= set!["pass"@, "metadata"@, "tests"@]
            &&& members["pass"@] == Json::Bool(
                forall|i: int| 0 <= i < runs.len() ==> runs[i].1.0 == TestConclusion::Pass,
            )
            &&& members["metadata"@] == metadata_document(meta)
            &&& members["tests"@] == Json::Object(tests_document(runs))
        },
{
    reveal_strlit("pass");
    reveal_strlit("metadata");
    reveal_strlit("tests");
    assert("pass"@.len() == 4 && "metadata"@.len() == 8 && "tests"@.len() == 5);
}

/// The `metadata` member of the structured report is an object that holds
/// the four fields of the metadata as they are.
pub proof fn lemma_metadata_document_members(meta: ReportMetaDataView)
    ensures
        metadata_document(meta) matches Json::Object(members) && {
            &&& members.dom() =~= set!["os_release"@, "chip_name"@, "system_info"@, "bios_info"@]
            &&& members["os_release"@] == Json::Str(meta.os_release)
            &&& members["chip_name"@] == Json::Str(meta.chip_name)
            &&& members["system_info"@] == Json::Str(meta.system_info)
            &&& members["bios_info"@] == Json::Str(meta.bios_info)
        },
{
    reveal_strlit("os_release");
    reveal_strlit("chip_name");
    reveal_strlit("system_info");
    reveal_strlit("bios_info");
    assert("os_release"@.len() == 10 && "system_info"@.len() == 11);
    assert("chip_name"@.len() == 9 && "chip_name"@[0] == 'c');
    assert("bios_info"@.len() == 9 && "bios_info"@[0] == 'b');
}

/// What the structured report holds for a result is an object of two
/// members: `pass`, which is true exactly where the result is a `Pass`, and
/// `error`.
pub proof fn lemma_entry_document_members(run: TestRunView)
    ensures
        entry_document(run) matches Json::Object(members) && {
            &&& members.dom() =~= set!["pass"@, "error"@]
            &&& members["pass"@] == Json::Bool(run.1.0 == TestConclusion::Pass)
            &&& members["error"@] == error_document(run.1.1)
        },
{
    reveal_strlit("pass");
    reveal_strlit("error");
    assert("pass"@.len() == 4 && "error"@.len() == 5);
}

/// Where no name occurs twice, the `tests` member of the structured report
/// holds the names of the results and nothing else, and under each name what
/// the report holds for the result of that name.
pub proof fn lemma_tests_document_entries(runs: Seq<TestRunView>)
    requires
        names_distinct(run_names(runs)),
    ensures
        forall|name: Seq<char>|
            tests_document(runs).dom().contains(name) <==> run_names(runs).contains(name),
        forall|i: int|
            0 <= i < runs.len() ==> tests_document(runs)[(#[trigger] runs[i]).0] == entry_document(
                runs[i],
            ),
{
    let names = run_names(runs);
    assert forall|name: Seq<char>| tests_document(runs).dom().contains(name) implies names.contains(
        name,
    ) by {
        let i = index_of_name(runs, name);
        assert(names[i] == name);
    }
    assert forall|name: Seq<char>| names.contains(name) implies tests_document(
        runs,
    ).dom().contains(name) by {
        let i = choose|i: int| 0 <= i < names.len() && names[i] == name;
        assert(runs[i].0 == name);
    }
    assert forall|i: int| 0 <= i < runs.len() implies tests_document(runs)[(#[trigger] runs[i]).0]
        == entry_document(runs[i]) by {
        let j = index_of_name(runs, runs[i].0);
        assert(names[i] == names[j]);
        assert(i == j);
    }
}

/// Every result up to and with the one at `k` is a `Pass` where every result
/// before it is and that one is too.
proof fn lemma_all_passed_push(runs: Seq<TestRunView>, k: int)
    requires
        0 <= k < runs.len(),
    ensures
        all_passed(runs.take(k + 1)) == (all_passed(runs.take(k)) && runs[k].1.0
            == TestConclusion::Pass),
{
    let before = runs.take(k);
    let after = runs.take(k + 1);
    if all_passed(after) {
        assert forall|i: int| 0 <= i < before.len() implies (#[trigger] before[i]).1.0
            == TestConclusion::Pass by {
            assert(after[i] == before[i]);
        }
        assert(after[k] == runs[k]);
    }
    if all_passed(before) && runs[k].1.0 == TestConclusion::Pass {
        assert forall|i: int| 0 <= i < after.len() implies (#[trigger] after[i]).1.0
            == TestConclusion::Pass by {
            if i < k {
                assert(after[i] == before[i]);
            }
        }
    }
}

/// Adding a result under a new name adds its entry to the `tests` member and
/// leaves the others as they are.
proof fn lemma_tests_document_push(runs: Seq<TestRunView>, k: int)
    requires
        0 <= k < runs.len(),
        names_distinct(run_names(runs).take(k + 1)),
    ensures
        tests_document(runs.take(k + 1)) == tests_document(runs.take(k)).insert(
            runs[k].0,
            entry_document(runs[k]),
        ),
{
    let before = runs.take(k);
    let after = runs.take(k + 1);
    let names = run_names(runs).take(k + 1);
    let grown = tests_document(before).insert(runs[k].0, entry_document(runs[k]));
    assert forall|name: Seq<char>| tests_document(after).dom().contains(name) implies grown.dom().contains(
        name,
    ) by {
        let i = index_of_name(after, name);
        assert(after[i].0 == name);
        if i < k {
            assert(before[i].0 == name);
        }
    }
    assert forall|name: Seq<char>| grown.dom().contains(name) implies tests_document(
        after,
    ).dom().contains(name) by {
        if name == runs[k].0 {
            assert(after[k].0 == name);
        } else {
            let i = index_of_name(before, name);
            assert(before[i].0 == name);
            assert(after[i].0 == name);
        }
    }
    assert forall|name: Seq<char>| tests_document(after).dom().contains(name) implies tests_document(
        after,
    )[name] == grown[name] by {
        let i = index_of_name(after, name);
        assert(after[i].0 == name);
        assert(names[i] == name);
        if name == runs[k].0 {
            assert(names[k] == name);
            assert(i == k);
        } else {
            assert(i < k);
            let j = index_of_name(before, name);
            assert(before[i].0 == name);
            assert(before[j].0 == name);
            assert(names[j] == name);
            assert(i == j);
        }
    }
    assert(tests_document(after) =~= grown);
}

/// A name that differs from every name before it leaves the names distinct.
proof fn lemma_names_distinct_push(names: Seq<Seq<char>>, k: int)
    requires
        0 <= k < names.len(),
        names_distinct(names.take(k)),
        forall|i: int| 0 <= i < k ==> names[i] != names[k],
    ensures
        names_distinct(names.take(k + 1)),
{
    let before = names.take(k);
    let after = names.take(k + 1);
    assert forall|i: int, j: int| 0 <= i < j < after.len() implies after[i] != after[j] by {
        if j < k {
            assert(before[i] != before[j]);
        }
    }
}

/// Looks for the first result whose name repeats that of an earlier one.
pub fn find_repeat(truns: &[TestRun<'_>]) -> (found: Option<usize>)
    ensures
        match found {
            Some(j) => first_repeat(run_names(truns.deep_view()), j as int),
            None => names_distinct(run_names(truns.deep_view())),
        },
{
    let ghost names = run_names(truns.deep_view());
    let mut j: usize = 0;
    while j < truns.len()
        invariant
            j <= truns@.len(),
            names == run_names(truns.deep_view()),
            names_distinct(names.take(j as int)),
        decreases truns@.len() - j,
    {
        let mut i: usize = 0;
        while i < j
            invariant
                i <= j < truns@.len(),
                names == run_names(truns.deep_view()),
                names_distinct(names.take(j as int)),
                forall|h: int| 0 <= h < i ==> names[h] != names[j as int],
            decreases j - i,
        {
            if str_eq(truns[i].0, truns[j].0) {
                assert(names[i as int] == names[j as int]);
                return Some(j);
            }
            i += 1;
        }
        proof {
            lemma_names_distinct_push(names, j as int);
        }
        j += 1;
    }
    proof {
        assert(names.take(j as int) =~= names);
    }
    None
}

/// The value that the structured report holds for one result.
fn entry_value(run: &TestRun<'_>) -> (value: serde_json::Value)
    ensures
        json_model(value) == entry_document(run.deep_view()),
{
    let passed = run.1.0 == TestConclusion::Pass;
    let error = match &run.1.1 {
        Some(e) => string_value(e.detail.clone()),
        None => null_value(),
    };
    let mut entry = new_object();
    object_insert(&mut entry, "pass".to_owned(), bool_value(passed));
    object_insert(&mut entry, "error".to_owned(), error);
    object_value(entry)
}

/// The value that the structured report holds for the metadata.
fn metadata_value(meta: &ReportMetaData) -> (value: serde_json::Value)
    ensures
        json_model(value) == metadata_document(meta@),
{
    let mut metadata = new_object();
    object_insert(&mut metadata, "os_release".to_owned(), string_value(meta.os_release.clone()));
    object_insert(&mut metadata, "chip_name".to_owned(), string_value(meta.chip_name.clone()));
    object_insert(&mut metadata, "system_info".to_owned(), string_value(meta.system_info.clone()));
    object_insert(&mut metadata, "bios_info".to_owned(), string_value(meta.bios_info.clone()));
    object_value(metadata)
}

/// Builds the structured report of a run.
///
/// Fails where two results share a name, with the first name that repeats
/// an earlier one.
pub fn json_report(truns: &[TestRun<'_>], meta: &ReportMetaData) -> (r: Result<
    serde_json::Value,
    CollateError,
>)
    ensures
        r is Ok <==> names_distinct(run_names(truns.deep_view())),
        match r {
            Ok(doc) => json_model(doc) == report_document(truns.deep_view(), meta@),
            Err(error) => reports_first_repeat(run_names(truns.deep_view()), error),
        },
{
    let ghost runs = truns.deep_view();
    let ghost names = run_names(runs);
    let mut all_pass = true;
    let mut tests = new_object();
    let mut k: usize = 0;
    while k < truns.len()
        invariant
            k <= truns@.len(),
            runs == truns.deep_view(),
            names == run_names(runs),
            names_distinct(names.take(k as int)),
            all_pass == all_passed(runs.take(k as int)),
            object_members(tests) == tests_document(runs.take(k as int)),
        decreases truns@.len() - k,
    {
        let run = &truns[k];
        assert(run.deep_view() == runs[k as int]);
        let passed = run.1.0 == TestConclusion::Pass;
        all_pass = all_pass && passed;
        if object_contains_key(&tests, run.0) {
            proof {
                let i = index_of_name(runs.take(k as int), run.0@);
                assert(runs.take(k as int)[i].0 == run.0@);
                assert(names[i] == names[k as int]);
                assert(first_repeat(names, k as int));
            }
            return Err(CollateError::DuplicateName(run.0.to_owned()));
        }
        proof {
            assert forall|i: int| 0 <= i < k implies names[i] != names[k as int] by {
                assert(runs.take(k as int)[i].0 == names[i]);
            }
            lemma_names_distinct_push(names, k as int);
            lemma_tests_document_push(runs, k as int);
            lemma_all_passed_push(runs, k as int);
        }
        object_insert(&mut tests, run.0.to_owned(), entry_value(run));
        k += 1;
    }
    proof {
        assert(runs.take(k as int) =~= runs);
        assert(names.take(k as int) =~= names);
    }
    let mut doc = new_object();
    object_insert(&mut doc, "pass".to_owned(), bool_value(all_pass));
    object_insert(&mut doc, "metadata".to_owned(), metadata_value(meta));
    object_insert(&mut doc, "tests".to_owned(), object_value(tests));
    Ok(object_value(doc))
}

/// The opening lines of the free-text report.
fn header_lines(meta: &ReportMetaData) -> (lines: Vec<String>)
    ensures
        lines.deep_view() == pretty_header(meta@),
{
    let mut os_release = "   os release: ".to_owned();
    os_release.append(meta.os_release.as_str());
    let mut chip_name = "   chip name: ".to_owned();
    chip_name.append(meta.chip_name.as_str());
    let mut system_info = "   system info: \n".to_owned();
    system_info.append(meta.system_info.as_str());
    let mut bios_info = "   bios info: \n".to_owned();
    bios_info.append(meta.bios_info.as_str());

    let mut lines: Vec<String> = Vec::new();
    lines.push("".to_owned());
    lines.push("  =============================".to_owned());
    lines.push("  =====  AVL qual RESULTS  ====".to_owned());
    lines.push("  =============================".to_owned());
    lines.push("".to_owned());
    lines.push("  %---------------------------%".to_owned());
    lines.push(os_release);
    lines.push(chip_name);
    lines.push(system_info);
    lines.push(bios_info);
    lines.push("  %---------------------------%".to_owned());
    lines.push("".to_owned());
    assert(lines.deep_view() =~= pretty_header(meta@));
    lines
}

/// The line of the free-text report for one result.
fn result_line_text(run: &TestRun<'_>) -> (line: String)
    ensures
        line@ == result_line(run.deep_view()),
{
    let mut line = "  <+> ".to_owned();
    line.append(run.0);
    line.append(" test: ");
    line.append(run.1.0.name());
    line
}

/// What the free-text report sends to the log for one result, if anything.
fn failure_detail_text(run: &TestRun<'_>) -> (detail: Option<String>)
    ensures
        detail.deep_view() == failure_detail(run.deep_view()),
{
    if run.1.0 != TestConclusion::Pass {
        match &run.1.1 {
            None => None,
            Some(e) => {
                let mut line = " - ".to_owned();
                line.append(run.0);
                line.append(" failure details:\n");
                line.append(e.message.as_str());
                Some(line)
            },
        }
    } else {
        None
    }
}

/// Builds the free-text report of a run.
///
/// Fails where two results share a name, with the first name that repeats
/// an earlier one.
pub fn pretty_report(truns: &[TestRun<'_>], meta: &ReportMetaData) -> (r: Result<
    Report,
    CollateError,
>)
    ensures
        r is Ok <==> names_distinct(run_names(truns.deep_view())),
        match r {
            Ok(report) => report@ == pretty_view(truns.deep_view(), meta@),
            Err(error) => reports_first_repeat(run_names(truns.deep_view()), error),
        },
{
    if let Some(j) = find_repeat(truns) {
        return Err(CollateError::DuplicateName(truns[j].0.to_owned()));
    }
    let ghost runs = truns.deep_view();
    let mut lines = header_lines(meta);
    let mut details: Vec<String> = Vec::new();
    let mut k: usize = 0;
    while k < truns.len()
        invariant
            k <= truns@.len(),
            runs == truns.deep_view(),
            lines.deep_view() == pretty_header(meta@) + Seq::new(
                k as nat,
                |i: int| result_line(runs[i]),
            ),
            details.deep_view() == failure_details(runs.take(k as int)),
        decreases truns@.len() - k,
    {
        let run = &truns[k];
        let ghost lines_before = lines.deep_view();
        let ghost details_before = details.deep_view();
        assert(run.deep_view() == runs[k as int]);
        lines.push(result_line_text(run));
        if let Some(detail) = failure_detail_text(run) {
            details.push(detail);
            assert(details.deep_view() =~= details_before + seq![
                failure_detail(runs[k as int])->0,
            ]);
        }
        proof {
            assert(lines.deep_view() =~= lines_before + seq![result_line(runs[k as int])]);
            assert(runs.take(k + 1).drop_last() =~= runs.take(k as int));
            assert(runs.take(k + 1).last() == runs[k as int]);
        }
        k += 1;
    }
    let ghost lines_before = lines.deep_view();
    lines.push("".to_owned());
    let report = Report { lines, details };
    proof {
        assert(runs.take(k as int) =~= runs);
        assert(report@.lines =~= pretty_lines(runs, meta@));
    }
    Ok(report)
}

} // verus!
