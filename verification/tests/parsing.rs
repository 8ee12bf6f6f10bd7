use badtouch::creds::Credential;
use badtouch::creds::FormatError;
use badtouch::creds::parse_credential;
use badtouch::creds::parse_credentials;
use badtouch::report::format_report_line;
use badtouch::scheduler::Attempt;
use badtouch::scheduler::Script;

#[test]
fn credential_pair_splits_at_first_colon() {
    let line = String::from("alice:s3cr3t");
    let cred = parse_credential(&line).expect("line has a colon");
    assert_eq!(cred.user, "alice");
    assert_eq!(cred.password, "s3cr3t");
}

#[test]
fn credential_line_without_colon_is_a_format_error() {
    let line = String::from("no-colon-here");
    let err = parse_credential(&line).expect_err("line has no colon");
    assert_eq!(err.line, "no-colon-here");
}

#[test]
fn credential_password_may_hold_further_colons() {
    let line = String::from("svc:pa:ss:wd");
    let cred = parse_credential(&line).expect("line has a colon");
    assert_eq!(cred.user, "svc");
    assert_eq!(cred.password, "pa:ss:wd");
}

#[test]
fn credential_parts_may_be_empty() {
    let only_sep = String::from(":");
    let cred = parse_credential(&only_sep).expect("line has a colon");
    assert_eq!(cred.user, "");
    assert_eq!(cred.password, "");

    let no_password = String::from("root:");
    let cred = parse_credential(&no_password).expect("line has a colon");
    assert_eq!(cred.user, "root");
    assert_eq!(cred.password, "");
}

#[test]
fn empty_credential_line_is_a_format_error() {
    let line = String::new();
    let err = parse_credential(&line).expect_err("empty line has no colon");
    assert_eq!(err.line, "");
}

#[test]
fn credential_list_parses_in_order() {
    let lines = vec![String::from("a:1"), String::from("b:2")];
    let creds: Vec<Credential> = parse_credentials(&lines).expect("all lines have colons");
    assert_eq!(creds.len(), 2);
    assert_eq!(creds[0].user, "a");
    assert_eq!(creds[0].password, "1");
    assert_eq!(creds[1].user, "b");
    assert_eq!(creds[1].password, "2");
}

#[test]
fn credential_list_reports_the_first_bad_line() {
    let lines = vec![String::from("good:line"), String::from("bad"), String::from("worse")];
    let err: FormatError = parse_credentials(&lines).expect_err("a line has no colon");
    assert_eq!(err.line, "bad");
}

#[test]
fn report_line_is_colon_separated() {
    let attempt = Attempt {
        user: String::from("alice"),
        password: String::from("hunter2"),
        script: Script { id: 0, descr: String::from("http-basic") },
        ttl: 5,
    };
    let line = format_report_line(&attempt);
    assert_eq!(line, "http-basic:alice:hunter2");
}
