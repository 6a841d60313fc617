//! Running test cases, reconciling their outcomes with what was expected of
//! them, and collating the results.

use crate::cmd::FlashromCmd;
use crate::json::to_pretty_string;
use crate::report::{
    json_report, names_distinct, pretty_report, report_view, reports_first_repeat, run_names,
    CollateError, Report,
};
use crate::text::{
    eq_ignore_ascii_case, eq_ignoring_ascii_case, lemma_eq_ignoring_ascii_case_is_equivalence,
};
use crate::types::FlashChip;
use std::str::FromStr;
use vstd::prelude::*;

verus! {

/// What a failed test body reports: the two renderings of its error. The
/// engine reads nothing else of an error.
#[derive(Clone, Debug, PartialEq, Eq)]
pub struct TestError {
    /// The human-readable rendering.
    pub message: String,
    /// The verbose rendering, for machine-readable reports.
    pub detail: String,
}

/// The two renderings of a diagnostic, as text.
pub struct TestErrorView {
    pub message: Seq<char>,
    pub detail: Seq<char>,
}

impl View for TestError {
    type V = TestErrorView;

    open spec fn view(&self) -> TestErrorView {
        TestErrorView { message: self.message@, detail: self.detail@ }
    }
}

impl DeepView for TestError {
    type V = TestErrorView;

    open spec fn deep_view(&self) -> TestErrorView {
        self@
    }
}

impl TestError {
    /// A diagnostic with the given renderings.
    pub fn new(message: &str, detail: &str) -> (error: TestError)
        ensures
            error@ == (TestErrorView { message: message@, detail: detail@ }),
    {
        TestError { message: message.to_owned(), detail: detail.to_owned() }
    }
}

impl<'a> From<&'a str> for TestError {
    /// A diagnostic whose two renderings are the given text.
    fn from(text: &'a str) -> (error: TestError)
        ensures
            error@ == (TestErrorView { message: text@, detail: text@ }),
    {
        TestError::new(text, text)
    }
}

impl<'a> vstd::std_specs::convert::FromSpecImpl<&'a str> for TestError {
    /// Two strings of the same text need not be the same value, so the
    /// conversion is specified by its view, on `from` itself.
    open spec fn obeys_from_spec() -> bool {
        false
    }

    open spec fn from_spec(text: &'a str) -> TestError {
        arbitrary()
    }
}

/// The raw outcome of a test body.
pub type TestResult = Result<(), TestError>;

/// The context of a run, shared by every test body and hook. It is only ever
/// read.
pub struct TestParams<'a> {
    /// The handle to the device under test.
    pub cmd: &'a FlashromCmd,
    /// The chip that the run addresses.
    pub fc: FlashChip,
    /// Free text for the log, to go with the start of each case.
    pub log_text: Option<&'a str>,
}

/// The verdict on one test case.
#[derive(Copy, Clone, PartialEq, Eq, Debug, Structural)]
pub enum TestConclusion {
    /// The case did what its author expected of it.
    Pass,
    /// The case is known to fail at present.
    Fail,
    /// The case was expected to fail and succeeded: the expectation is stale.
    UnexpectedPass,
    /// The case was expected to succeed and failed: a regression.
    UnexpectedFail,
}

impl DeepView for TestConclusion {
    type V = TestConclusion;

    open spec fn deep_view(&self) -> TestConclusion {
        *self
    }
}

impl TestConclusion {
    /// The name of the conclusion, as reports show it.
    pub open spec fn label(self) -> Seq<char> {
        match self {
            TestConclusion::Pass => "Pass"@,
            TestConclusion::Fail => "Fail"@,
            TestConclusion::UnexpectedPass => "UnexpectedPass"@,
            TestConclusion::UnexpectedFail => "UnexpectedFail"@,
        }
    }

    /// The name of the conclusion, as reports show it.
    pub fn name(self) -> (name: &'static str)
        ensures
            name@ == self.label(),
    {
        match self {
            TestConclusion::Pass => "Pass",
            TestConclusion::Fail => "Fail",
            TestConclusion::UnexpectedPass => "UnexpectedPass",
            TestConclusion::UnexpectedFail => "UnexpectedFail",
        }
    }
}

/// One named check of a suite.
///
/// `F` is the type of the test body; `Pre` and `Post` are those of the hooks
/// that run before and after it. The hooks return nothing: they cannot fail
/// the case or stop the run.
pub struct TestCase<'a, F, Pre, Post> {
    /// Identifies the case in reports; unique within a run.
    pub name: &'a str,
    /// The test body.
    pub test_fn: F,
    /// The context handed to the body and the hooks.
    pub params: &'a TestParams<'a>,
    /// What the author expects: `Pass` for a body that should succeed, `Fail`
    /// for one that is known to fail at present.
    pub conclusion: TestConclusion,
    /// Runs before the body, if present.
    pub pre_fn: Option<Pre>,
    /// Runs after the body, if present, whatever the body returned.
    pub post_fn: Option<Post>,
}

/// What is known of the setup that a run was made on. It is shown in reports
/// and has no bearing on any conclusion.
#[derive(Clone, Debug)]
pub struct ReportMetaData {
    pub chip_name: String,
    pub os_release: String,
    pub system_info: String,
    pub bios_info: String,
}

/// The fields of the metadata, as text.
pub struct ReportMetaDataView {
    pub chip_name: Seq<char>,
    pub os_release: Seq<char>,
    pub system_info: Seq<char>,
    pub bios_info: Seq<char>,
}

impl View for ReportMetaData {
    type V = ReportMetaDataView;

    open spec fn view(&self) -> ReportMetaDataView {
        ReportMetaDataView {
            chip_name: self.chip_name@,
            os_release: self.os_release@,
            system_info: self.system_info@,
            bios_info: self.bios_info@,
        }
    }
}

/// The verdict for a raw outcome under an expectation, with the diagnostic
/// that is kept.
///
/// A success against an expected failure is an `UnexpectedPass`, a failure
/// against an expected success an `UnexpectedFail` that keeps its diagnostic.
/// Everything else is a `Pass` without a diagnostic: an anticipated failure
/// has nothing to report.
pub open spec fn decode_spec(res: TestResult, con: TestConclusion) -> (
    TestConclusion,
    Option<TestError>,
) {
    match (res, con) {
        (Ok(_), TestConclusion::Fail) => (TestConclusion::UnexpectedPass, None),
        (Err(e), TestConclusion::Pass) => (TestConclusion::UnexpectedFail, Some(e)),
        _ => (TestConclusion::Pass, None),
    }
}

/// Reconciles the raw outcome of a test body with the conclusion expected of
/// the case.
pub fn decode_test_result(res: TestResult, con: TestConclusion) -> (out: (
    TestConclusion,
    Option<TestError>,
))
    ensures
        out == decode_spec(res, con),
        res is Ok && con == TestConclusion::Pass ==> out == (TestConclusion::Pass, None::<TestError>),
        res is Ok && con == TestConclusion::Fail ==> out == (
            TestConclusion::UnexpectedPass,
            None::<TestError>,
        ),
        res is Err && con == TestConclusion::Pass ==> out == (
            TestConclusion::UnexpectedFail,
            Some(res->Err_0),
        ),
        res is Err && con == TestConclusion::Fail ==> out == (TestConclusion::Pass, None::<TestError>),
{
    match (res, con) {
        (Ok(_), TestConclusion::Fail) => (TestConclusion::UnexpectedPass, None),
        (Err(e), TestConclusion::Pass) => (TestConclusion::UnexpectedFail, Some(e)),
        _ => (TestConclusion::Pass, None),
    }
}

impl<'a, F, Pre, Post> TestCase<'a, F, Pre, Post> where
    F: Fn(&TestParams<'a>) -> TestResult,
    Pre: Fn(&TestParams<'a>) -> (),
    Post: Fn(&TestParams<'a>) -> (),
 {
    /// The body and the hooks that are present accept the shared parameters.
    pub open spec fn runnable(&self) -> bool {
        &&& call_requires(self.test_fn, (self.params,))
        &&& self.pre_fn matches Some(pre) ==> call_requires(pre, (self.params,))
        &&& self.post_fn matches Some(post) ==> call_requires(post, (self.params,))
    }

    /// `out` is what a complete run of the case may give: each hook that is
    /// present has been called and has returned, and `out` is the verdict on
    /// an outcome that the body has returned.
    pub open spec fn ran_to(&self, out: (TestConclusion, Option<TestError>)) -> bool {
        &&& self.pre_fn matches Some(pre) ==> call_ensures(pre, (self.params,), ())
        &&& exists|res: TestResult| #[trigger]
            call_ensures(self.test_fn, (self.params,), res) && out == decode_spec(
                res,
                self.conclusion,
            )
        &&& self.post_fn matches Some(post) ==> call_ensures(post, (self.params,), ())
    }
}

/// Runs one case: the pre-hook if there is one, the body, the post-hook if
/// there is one, and then the verdict on what the body returned.
///
/// A failing body does not stop anything: its failure only shows in the
/// verdict, and the post-hook runs all the same.
pub fn run_test<'a, F, Pre, Post>(t: &TestCase<'a, F, Pre, Post>) -> (out: (
    TestConclusion,
    Option<TestError>,
)) where
    F: Fn(&TestParams<'a>) -> TestResult,
    Pre: Fn(&TestParams<'a>) -> (),
    Post: Fn(&TestParams<'a>) -> (),

    requires
        t.runnable(),
    ensures
        t.ran_to(out),
{
    let params = t.params;

    if let Some(pre) = &t.pre_fn {
        pre(params);
    }

    let res = (t.test_fn)(params);

    if let Some(post) = &t.post_fn {
        post(params);
    }

    decode_test_result(res, t.conclusion)
}

/// The result of one case in a run: the name of the case, the verdict on it,
/// and the diagnostic kept with the verdict.
pub type TestRun<'a> = (&'a str, (TestConclusion, Option<TestError>));

/// The result of one case, as plain values.
pub type TestRunView = (Seq<char>, (TestConclusion, Option<TestErrorView>));

/// Runs the cases one after another, in the order given, and returns one
/// named result for each, in that order. Every case is run, whatever the
/// cases before it came to.
pub fn run_all_tests<'a, F, Pre, Post>(ts: &[&TestCase<'a, F, Pre, Post>]) -> (results: Vec<
    TestRun<'a>,
>) where
    F: Fn(&TestParams<'a>) -> TestResult,
    Pre: Fn(&TestParams<'a>) -> (),
    Post: Fn(&TestParams<'a>) -> (),

    requires
        forall|i: int| 0 <= i < ts@.len() ==> (#[trigger] ts@[i]).runnable(),
    ensures
        results@.len() == ts@.len(),
        forall|i: int|
            0 <= i < ts@.len() ==> {
                &&& (#[trigger] results@[i]).0@ == ts@[i].name@
                &&& ts@[i].ran_to(results@[i].1)
            },
{
    let mut results: Vec<TestRun<'a>> = Vec::new();
    let mut k: usize = 0;
    while k < ts.len()
        invariant
            k <= ts@.len(),
            results@.len() == k,
            forall|i: int| 0 <= i < ts@.len() ==> (#[trigger] ts@[i]).runnable(),
            forall|i: int|
                0 <= i < k ==> {
                    &&& (#[trigger] results@[i]).0@ == ts@[i].name@
                    &&& ts@[i].ran_to(results@[i].1)
                },
        decreases ts@.len() - k,
    {
        let t = ts[k];
        let result = run_test(t);
        results.push((t.name, result));
        k += 1;
    }
    results
}

/// The form of a report.
#[derive(Debug, PartialEq, Eq, Clone, Copy, Structural)]
pub enum OutputFormat {
    /// Free text for a terminal.
    Pretty,
    /// One JSON document for other tooling.
    Json,
}

impl OutputFormat {
    /// The name of the format.
    pub open spec fn label(self) -> Seq<char> {
        match self {
            OutputFormat::Pretty => "Pretty"@,
            OutputFormat::Json => "Json"@,
        }
    }

    /// The format that a token selects: `pretty` and `json` select the
    /// formats of those names, whatever the case of their letters, and no
    /// other token selects a format.
    pub open spec fn parse_spec(token: Seq<char>) -> Result<OutputFormat, ()> {
        if eq_ignoring_ascii_case(token, "pretty"@) {
            Ok(OutputFormat::Pretty)
        } else if eq_ignoring_ascii_case(token, "json"@) {
            Ok(OutputFormat::Json)
        } else {
            Err(())
        }
    }

    /// The name of the format.
    pub fn name(self) -> (name: &'static str)
        ensures
            name@ == self.label(),
    {
        match self {
            OutputFormat::Pretty => "Pretty",
            OutputFormat::Json => "Json",
        }
    }
}

impl FromStr for OutputFormat {
    type Err = ();

    /// Reads the token that selects a format.
    fn from_str(s: &str) -> (r: Result<Self, ()>)
        ensures
            r == OutputFormat::parse_spec(s@),
    {
        if eq_ignore_ascii_case(s, "pretty") {
            Ok(OutputFormat::Pretty)
        } else if eq_ignore_ascii_case(s, "json") {
            Ok(OutputFormat::Json)
        } else {
            Err(())
        }
    }
}

/// The name of each format is a token that selects that format.
pub proof fn lemma_format_name_round_trip(format: OutputFormat)
    ensures
        OutputFormat::parse_spec(format.label()) == Ok::<OutputFormat, ()>(format),
{
    reveal_strlit("Pretty");
    reveal_strlit("pretty");
    reveal_strlit("Json");
    reveal_strlit("json");
}

/// Tokens that differ only in the case of their ASCII letters select the same
/// format, or both select none.
pub proof fn lemma_parse_ignores_case(a: Seq<char>, b: Seq<char>)
    requires
        eq_ignoring_ascii_case(a, b),
    ensures
        OutputFormat::parse_spec(a) == OutputFormat::parse_spec(b),
{
    lemma_eq_ignoring_ascii_case_is_equivalence(a, b, "pretty"@);
    lemma_eq_ignoring_ascii_case_is_equivalence(b, a, "pretty"@);
    lemma_eq_ignoring_ascii_case_is_equivalence(a, b, "json"@);
    lemma_eq_ignoring_ascii_case_is_equivalence(b, a, "json"@);
}

/// Collates the results of a run, with what is known of the setup, into a
/// report in the given format.
///
/// The names of the results must differ from one another. Where two results
/// share a name no report is made, in either format: the error carries the
/// first name that repeats an earlier one.
pub fn collate_all_test_runs(
    truns: &[TestRun<'_>],
    meta_data: ReportMetaData,
    format: OutputFormat,
) -> (r: Result<Report, CollateError>)
    ensures
        r is Ok <==> names_distinct(run_names(truns.deep_view())),
        match r {
            Ok(report) => report@ == report_view(truns.deep_view(), meta_data@, format),
            Err(error) => reports_first_repeat(run_names(truns.deep_view()), error),
        },
{
    match format {
        OutputFormat::Pretty => pretty_report(truns, &meta_data),
        OutputFormat::Json => match json_report(truns, &meta_data) {
            Ok(doc) => {
                let mut lines: Vec<String> = Vec::new();
                lines.push(to_pretty_string(&doc));
                let details: Vec<String> = Vec::new();
                let report = Report { lines, details };
                proof {
                    let expected = report_view(truns.deep_view(), meta_data@, format);
                    assert(report@.lines =~= expected.lines);
                    assert(report@.details =~= expected.details);
                }
                Ok(report)
            },
            Err(error) => Err(error),
        },
    }
}

} // verus!
