use shellstmt::error::MyError;
use shellstmt::method::Method;
use shellstmt::persist::{check_for_file, entry_line, get_file_path, variable_name};
use shellstmt::run::{run, Action, AppendRequest, Cli, FileRequest, Job, VarRequest};

fn cli(here: bool, export: bool, alias: bool, save: bool, name: &str, item: &[&str]) -> Cli {
    Cli {
        here,
        export,
        alias,
        save,
        name: name.to_string(),
        item: item.iter().map(|s| s.to_string()).collect(),
    }
}

/// Runs to the end in a world where the variable has `value` and a probe
/// answers `is_file`; gives the result and what was asked on the way.
fn drive(
    args: Cli,
    value: Option<&str>,
    is_file: bool,
) -> (Result<String, MyError>, Vec<String>) {
    let mut asked = Vec::new();
    let mut action = run(args);
    loop {
        action = match action {
            Action::ReadVar(request) => {
                asked.push(format!("var {}", request.variable));
                request.answer(value.map(|v| v.to_string()))
            }
            Action::ProbeFile(request) => {
                asked.push(format!("probe {}", request.path));
                request.answer(is_file)
            }
            Action::Append(request) => {
                asked.push(format!("append {} {:?}", request.path, request.line));
                request.done()
            }
            Action::Finish(result) => return (result, asked),
        };
    }
}

#[test]
fn export_here_prints_the_statement() {
    let (result, asked) = drive(cli(true, true, false, false, "FOO", &["bar", "baz"]), None, false);
    assert_eq!(result, Ok("export FOO='bar baz'".to_string()));
    assert!(asked.is_empty());
}

#[test]
fn alias_here_prints_the_statement() {
    let (result, asked) = drive(cli(true, false, true, false, "ll", &["ls", "-la"]), None, false);
    assert_eq!(result, Ok("alias ll='ls -la'".to_string()));
    assert!(asked.is_empty());
}

#[test]
fn empty_items_here_prints_empty_value() {
    let (result, _) = drive(cli(true, true, false, false, "X", &[]), None, false);
    assert_eq!(result, Ok("export X=''".to_string()));
}

#[test]
fn default_method_is_export() {
    let (result, _) = drive(cli(true, false, false, false, "X", &["1"]), None, false);
    assert_eq!(result, Ok("export X='1'".to_string()));
}

#[test]
fn without_here_the_output_is_success() {
    for (export, alias) in [(false, false), (true, false), (false, true)] {
        for item in [&[][..], &["a"][..], &["a", "b"][..]] {
            let (result, asked) = drive(cli(false, export, alias, false, "N", item), None, false);
            assert_eq!(result, Ok("success".to_string()));
            assert!(asked.is_empty());
        }
    }
}

#[test]
fn both_flags_fail_whatever_the_rest() {
    for here in [false, true] {
        for save in [false, true] {
            let (result, asked) =
                drive(cli(here, true, true, save, "N", &["a"]), Some("/some/file"), true);
            assert_eq!(result, Err(MyError::DualMethod));
            assert!(asked.is_empty());
        }
    }
}

#[test]
fn unsaved_run_finishes_at_once() {
    for here in [false, true] {
        for (export, alias) in [(false, false), (true, false), (false, true), (true, true)] {
            let first = run(cli(here, export, alias, false, "N", &["a", "b"]));
            assert!(matches!(first, Action::Finish(_)));
        }
    }
}

#[test]
fn saving_asks_for_the_variable_of_the_method() {
    match run(cli(false, false, true, true, "ll", &["ls"])) {
        Action::ReadVar(request) => {
            assert_eq!(request.variable, "ALIAS_FILE");
            assert_eq!(request.job, Job { command: "alias ll='ls'".to_string(), here: false });
        }
        other => panic!("unexpected action {:?}", other),
    }
    match run(cli(true, true, false, true, "E", &["v"])) {
        Action::ReadVar(request) => {
            assert_eq!(request.variable, "EXPORT_FILE");
            assert_eq!(request.job, Job { command: "export E='v'".to_string(), here: true });
        }
        other => panic!("unexpected action {:?}", other),
    }
    match run(cli(true, false, false, true, "E", &[])) {
        Action::ReadVar(request) => assert_eq!(request.variable, "EXPORT_FILE"),
        other => panic!("unexpected action {:?}", other),
    }
}

#[test]
fn unset_variable_fails_before_any_file_access() {
    for is_file in [false, true] {
        let (result, asked) = drive(cli(true, true, false, true, "FOO", &["bar"]), None, is_file);
        assert_eq!(result, Err(MyError::EnvNotFound));
        assert_eq!(asked, vec!["var EXPORT_FILE".to_string()]);
    }
}

#[test]
fn missing_file_fails_with_the_path() {
    let (result, asked) =
        drive(cli(true, false, true, true, "ll", &["ls", "-la"]), Some("/no/such/file"), false);
    assert_eq!(result, Err(MyError::FileNotFound("/no/such/file".to_string())));
    assert_eq!(asked, vec!["var ALIAS_FILE".to_string(), "probe /no/such/file".to_string()]);
}

#[test]
fn saved_run_appends_one_line_and_prints() {
    let (result, asked) =
        drive(cli(true, true, false, true, "FOO", &["bar", "baz"]), Some("/home/u/.exports"), true);
    assert_eq!(result, Ok("export FOO='bar baz'".to_string()));
    assert_eq!(
        asked,
        vec![
            "var EXPORT_FILE".to_string(),
            "probe /home/u/.exports".to_string(),
            "append /home/u/.exports \"export FOO='bar baz'\\n\"".to_string(),
        ]
    );
}

#[test]
fn saved_run_without_here_prints_success() {
    let (result, asked) =
        drive(cli(false, false, true, true, "ll", &["ls"]), Some("/home/u/.aliases"), true);
    assert_eq!(result, Ok("success".to_string()));
    assert_eq!(asked.len(), 3);
    assert_eq!(asked[2], "append /home/u/.aliases \"alias ll='ls'\\n\"");
}

#[test]
fn requests_answer_on_their_own() {
    let job = || Job { command: "export A='b'".to_string(), here: true };
    let var = VarRequest { variable: "EXPORT_FILE".to_string(), job: job() };
    assert_eq!(
        var.answer(Some("p".to_string())),
        Action::ProbeFile(FileRequest { path: "p".to_string(), job: job() })
    );
    let var = VarRequest { variable: "EXPORT_FILE".to_string(), job: job() };
    assert_eq!(var.answer(None), Action::Finish(Err(MyError::EnvNotFound)));
    let probe = FileRequest { path: "p".to_string(), job: job() };
    assert_eq!(
        probe.answer(true),
        Action::Append(AppendRequest {
            path: "p".to_string(),
            line: "export A='b'\n".to_string(),
            job: job(),
        })
    );
    let probe = FileRequest { path: "p".to_string(), job: job() };
    assert_eq!(probe.answer(false), Action::Finish(Err(MyError::FileNotFound("p".to_string()))));
    let append = AppendRequest { path: "p".to_string(), line: "x\n".to_string(), job: job() };
    assert_eq!(append.done(), Action::Finish(Ok("export A='b'".to_string())));
    assert_eq!(job().finish(), "export A='b'");
    assert_eq!(Job { command: "export A='b'".to_string(), here: false }.finish(), "success");
}

#[test]
fn variable_names() {
    assert_eq!(variable_name(&Method::Alias), "ALIAS_FILE");
    assert_eq!(variable_name(&Method::Export), "EXPORT_FILE");
}

#[test]
fn file_path_from_the_variable() {
    assert_eq!(get_file_path(Some("/a/b".to_string())), Ok("/a/b".to_string()));
    assert_eq!(get_file_path(Some(String::new())), Ok(String::new()));
    assert_eq!(get_file_path(None), Err(MyError::EnvNotFound));
}

#[test]
fn file_check() {
    let path = "/a/b".to_string();
    assert_eq!(check_for_file(&path, true), Ok(()));
    assert_eq!(check_for_file(&path, false), Err(MyError::FileNotFound("/a/b".to_string())));
}

#[test]
fn entry_line_ends_with_line_feed() {
    assert_eq!(entry_line(&"alias a='b'".to_string()), "alias a='b'\n");
    assert_eq!(entry_line(&String::new()), "\n");
}
