use flashrom_tester::cmd::FlashromCmd;
use flashrom_tester::report::{find_repeat, json_report, pretty_report, CollateError, Report};
use flashrom_tester::tester::TestConclusion::{Fail, Pass, UnexpectedFail, UnexpectedPass};
use flashrom_tester::tester::{
    collate_all_test_runs, run_all_tests, OutputFormat, ReportMetaData, TestCase, TestError,
    TestParams, TestResult, TestRun,
};
use flashrom_tester::types::FlashChip;
use serde_json::Value;

type TestFunction = fn(&TestParams) -> TestResult;
type HookFunction = fn(&TestParams);

fn meta() -> ReportMetaData {
    ReportMetaData {
        chip_name: "W25Q64".to_string(),
        os_release: "R100-15000.0.0".to_string(),
        system_info: "board: kukui\nmodel: krane".to_string(),
        bios_info: "Google_Krane.12573.0.0".to_string(),
    }
}

fn text(value: &str) -> Value {
    Value::String(value.to_string())
}

fn object(members: Vec<(&str, Value)>) -> Value {
    let mut map = serde_json::Map::new();
    for (key, value) in members {
        map.insert(key.to_string(), value);
    }
    Value::Object(map)
}

fn entry(pass: bool, error: Value) -> Value {
    object(vec![("pass", Value::Bool(pass)), ("error", error)])
}

fn meta_value() -> Value {
    object(vec![
        ("os_release", text("R100-15000.0.0")),
        ("chip_name", text("W25Q64")),
        ("system_info", text("board: kukui\nmodel: krane")),
        ("bios_info", text("Google_Krane.12573.0.0")),
    ])
}

fn header() -> Vec<String> {
    vec![
        "".to_string(),
        "  =============================".to_string(),
        "  =====  AVL qual RESULTS  ====".to_string(),
        "  =============================".to_string(),
        "".to_string(),
        "  %---------------------------%".to_string(),
        "   os release: R100-15000.0.0".to_string(),
        "   chip name: W25Q64".to_string(),
        "   system info: \nboard: kukui\nmodel: krane".to_string(),
        "   bios info: \nGoogle_Krane.12573.0.0".to_string(),
        "  %---------------------------%".to_string(),
        "".to_string(),
    ]
}

fn mixed_runs() -> Vec<TestRun<'static>> {
    vec![
        ("Get_device_name", (Pass, None)),
        ("Lock", (Fail, Some(TestError::new("still locked", "LockError(3)")))),
        (
            "Erase_and_Write",
            (
                UnexpectedFail,
                Some(TestError::new("bad checksum", "ChecksumError {\n    at: 4096,\n}")),
            ),
        ),
    ]
}

#[test]
fn structured_report_of_mixed_results() {
    let doc = json_report(&mixed_runs(), &meta()).expect("names differ");
    let expected = object(vec![
        ("pass", Value::Bool(false)),
        ("metadata", meta_value()),
        (
            "tests",
            object(vec![
                ("Get_device_name", entry(true, Value::Null)),
                ("Lock", entry(false, text("LockError(3)"))),
                (
                    "Erase_and_Write",
                    entry(false, text("ChecksumError {\n    at: 4096,\n}")),
                ),
            ]),
        ),
    ]);
    assert_eq!(doc, expected);
    assert_eq!(doc["pass"], Value::Bool(false));
    assert_eq!(doc["tests"].as_object().expect("an object").len(), 3);
    assert!(!doc["tests"]["Erase_and_Write"]["error"].is_null());
    assert!(doc["tests"]["Get_device_name"]["error"].is_null());
    assert_eq!(doc.as_object().expect("an object").len(), 3);
    assert_eq!(doc["metadata"].as_object().expect("an object").len(), 4);
}

#[test]
fn structured_report_passes_only_if_every_result_is_a_pass() {
    let all: Vec<TestRun> = vec![("a", (Pass, None)), ("b", (Pass, None)), ("c", (Pass, None))];
    assert_eq!(json_report(&all, &meta()).unwrap()["pass"], Value::Bool(true));

    for other in [Fail, UnexpectedPass, UnexpectedFail] {
        for place in 0..3 {
            let mut runs = all.clone();
            runs[place].1 .0 = other;
            let doc = json_report(&runs, &meta()).unwrap();
            assert_eq!(doc["pass"], Value::Bool(false));
            for (at, name) in ["a", "b", "c"].iter().enumerate() {
                assert_eq!(doc["tests"][*name]["pass"], Value::Bool(at != place));
            }
        }
    }
}

#[test]
fn structured_report_of_no_results() {
    let doc = json_report(&[], &meta()).unwrap();
    assert_eq!(
        doc,
        object(vec![
            ("pass", Value::Bool(true)),
            ("metadata", meta_value()),
            ("tests", object(vec![])),
        ])
    );
}

#[test]
fn structured_report_keeps_the_diagnostic_whatever_the_conclusion() {
    let runs: Vec<TestRun> = vec![("odd", (Pass, Some(TestError::new("short", "long"))))];
    let doc = json_report(&runs, &meta()).unwrap();
    assert_eq!(doc["tests"]["odd"], entry(true, text("long")));
}

#[test]
fn collate_json_renders_the_document() {
    let runs: Vec<TestRun> = vec![
        ("A", (Pass, None)),
        ("C", (UnexpectedFail, Some(TestError::from("bad checksum")))),
    ];
    let report = collate_all_test_runs(&runs, meta(), OutputFormat::Json).unwrap();
    assert_eq!(report.details, Vec::<String>::new());
    assert_eq!(report.lines.len(), 1);
    let expected = "{
  \"metadata\": {
    \"bios_info\": \"Google_Krane.12573.0.0\",
    \"chip_name\": \"W25Q64\",
    \"os_release\": \"R100-15000.0.0\",
    \"system_info\": \"board: kukui\\nmodel: krane\"
  },
  \"pass\": false,
  \"tests\": {
    \"A\": {
      \"error\": null,
      \"pass\": true
    },
    \"C\": {
      \"error\": \"bad checksum\",
      \"pass\": false
    }
  }
}";
    assert_eq!(report.lines[0], expected);
    let doc = json_report(&runs, &meta()).unwrap();
    assert_eq!(report.lines[0], format!("{:#}", doc));
    assert_eq!(serde_json::from_str::<Value>(&report.lines[0]).unwrap(), doc);
}

#[test]
fn collate_json_of_no_results() {
    let report = collate_all_test_runs(&[], meta(), OutputFormat::Json).unwrap();
    let doc: Value = serde_json::from_str(&report.lines[0]).unwrap();
    assert_eq!(doc["pass"], Value::Bool(true));
    assert_eq!(doc["tests"], object(vec![]));
    assert_eq!(doc["metadata"], meta_value());
}

#[test]
fn collate_pretty_of_mixed_results() {
    let report = collate_all_test_runs(&mixed_runs(), meta(), OutputFormat::Pretty).unwrap();
    let mut lines = header();
    lines.push("  <+> Get_device_name test: Pass".to_string());
    lines.push("  <+> Lock test: Fail".to_string());
    lines.push("  <+> Erase_and_Write test: UnexpectedFail".to_string());
    lines.push("".to_string());
    assert_eq!(report.lines, lines);
    assert_eq!(
        report.details,
        vec![
            " - Lock failure details:\nstill locked".to_string(),
            " - Erase_and_Write failure details:\nbad checksum".to_string(),
        ]
    );
    assert_eq!(
        pretty_report(&mixed_runs(), &meta()),
        Ok(Report {
            lines,
            details: report.details.clone()
        })
    );
}

#[test]
fn collate_pretty_of_no_results() {
    let report = collate_all_test_runs(&[], meta(), OutputFormat::Pretty).unwrap();
    let mut lines = header();
    lines.push("".to_string());
    assert_eq!(report.lines, lines);
    assert_eq!(report.details, Vec::<String>::new());
}

#[test]
fn collate_pretty_sends_no_detail_for_a_pass_or_a_missing_diagnostic() {
    let runs: Vec<TestRun> = vec![
        ("quiet", (Pass, Some(TestError::from("not shown")))),
        ("stale", (UnexpectedPass, None)),
        ("known", (Fail, None)),
        ("broken", (UnexpectedFail, None)),
    ];
    let report = collate_all_test_runs(&runs, meta(), OutputFormat::Pretty).unwrap();
    assert_eq!(report.details, Vec::<String>::new());
    assert_eq!(
        report.lines[12..],
        [
            "  <+> quiet test: Pass".to_string(),
            "  <+> stale test: UnexpectedPass".to_string(),
            "  <+> known test: Fail".to_string(),
            "  <+> broken test: UnexpectedFail".to_string(),
            "".to_string(),
        ]
    );
}

#[test]
fn collate_rejects_a_shared_name_in_either_format() {
    let runs: Vec<TestRun> = vec![
        ("Lock", (Pass, None)),
        ("Erase", (Pass, None)),
        ("Lock", (UnexpectedFail, Some(TestError::from("again")))),
    ];
    for format in [OutputFormat::Pretty, OutputFormat::Json] {
        assert_eq!(
            collate_all_test_runs(&runs, meta(), format),
            Err(CollateError::DuplicateName("Lock".to_string()))
        );
    }
    assert_eq!(
        json_report(&runs, &meta()),
        Err(CollateError::DuplicateName("Lock".to_string()))
    );
    assert_eq!(
        pretty_report(&runs, &meta()),
        Err(CollateError::DuplicateName("Lock".to_string()))
    );
}

#[test]
fn collate_reports_the_first_name_that_repeats() {
    let runs: Vec<TestRun> = vec![
        ("a", (Pass, None)),
        ("b", (Pass, None)),
        ("c", (Pass, None)),
        ("c", (Pass, None)),
        ("a", (Pass, None)),
        ("b", (Pass, None)),
    ];
    assert_eq!(find_repeat(&runs), Some(3));
    for format in [OutputFormat::Pretty, OutputFormat::Json] {
        assert_eq!(
            collate_all_test_runs(&runs, meta(), format),
            Err(CollateError::DuplicateName("c".to_string()))
        );
    }
    let twice: Vec<TestRun> = vec![("", (Pass, None)), ("", (Pass, None))];
    assert_eq!(find_repeat(&twice), Some(1));
    for format in [OutputFormat::Pretty, OutputFormat::Json] {
        assert_eq!(
            collate_all_test_runs(&twice, meta(), format),
            Err(CollateError::DuplicateName("".to_string()))
        );
    }
}

#[test]
fn find_repeat_tells_names_apart() {
    assert_eq!(find_repeat(&[]), None);
    let one: Vec<TestRun> = vec![("a", (Pass, None))];
    assert_eq!(find_repeat(&one), None);
    let near: Vec<TestRun> = vec![
        ("Lock", (Pass, None)),
        ("lock", (Pass, None)),
        ("Lock ", (Pass, None)),
        ("Loc", (Pass, None)),
    ];
    assert_eq!(find_repeat(&near), None);
    assert!(collate_all_test_runs(&near, meta(), OutputFormat::Json).is_ok());
    assert!(collate_all_test_runs(&near, meta(), OutputFormat::Pretty).is_ok());
}

#[test]
fn anticipated_failure_is_reported_as_a_pass() {
    let cmd = FlashromCmd {
        path: "".to_string(),
        fc: FlashChip::EC,
    };
    let params = TestParams {
        cmd: &cmd,
        fc: FlashChip::HOST,
        log_text: None,
    };
    let a: TestCase<TestFunction, HookFunction, HookFunction> = TestCase {
        name: "A",
        test_fn: |_| Ok(()),
        params: &params,
        conclusion: Pass,
        pre_fn: None,
        post_fn: None,
    };
    let b: TestCase<TestFunction, HookFunction, HookFunction> = TestCase {
        name: "B",
        test_fn: |_| Err("timeout".into()),
        params: &params,
        conclusion: Fail,
        pre_fn: None,
        post_fn: None,
    };
    let results = run_all_tests(&[&a, &b]);
    assert_eq!(results, vec![("A", (Pass, None)), ("B", (Pass, None))]);

    let doc = json_report(&results, &meta()).unwrap();
    assert_eq!(doc["pass"], Value::Bool(true));
    assert_eq!(
        doc["tests"],
        object(vec![
            ("A", entry(true, Value::Null)),
            ("B", entry(true, Value::Null)),
        ])
    );

    let report = collate_all_test_runs(&results, meta(), OutputFormat::Json).unwrap();
    assert_eq!(serde_json::from_str::<Value>(&report.lines[0]).unwrap(), doc);
}

#[test]
fn regression_is_reported_with_its_diagnostic() {
    let cmd = FlashromCmd {
        path: "".to_string(),
        fc: FlashChip::EC,
    };
    let params = TestParams {
        cmd: &cmd,
        fc: FlashChip::HOST,
        log_text: None,
    };
    let c: TestCase<TestFunction, HookFunction, HookFunction> = TestCase {
        name: "C",
        test_fn: |_| Err("bad checksum".into()),
        params: &params,
        conclusion: Pass,
        pre_fn: None,
        post_fn: None,
    };
    let results = run_all_tests(&[&c]);
    assert_eq!(
        results,
        vec![("C", (UnexpectedFail, Some(TestError::from("bad checksum"))))]
    );

    let doc = json_report(&results, &meta()).unwrap();
    assert_eq!(doc["pass"], Value::Bool(false));
    assert_eq!(doc["tests"]["C"], entry(false, text("bad checksum")));

    let pretty = collate_all_test_runs(&results, meta(), OutputFormat::Pretty).unwrap();
    assert_eq!(pretty.lines[12], "  <+> C test: UnexpectedFail");
    assert_eq!(pretty.details, vec![" - C failure details:\nbad checksum".to_string()]);
}
