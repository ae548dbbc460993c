use statline::capture_outcome;
use statline::cmdline_outcome;
use statline::cmdline_path;
use statline::decimal_string;
use statline::default_proc_root;
use statline::parse_cmdline;
use statline::validate_invocation;
use statline::ProcessError;

#[test]
fn decimal_rendering() {
    assert_eq!(decimal_string(0), "0");
    assert_eq!(decimal_string(7), "7");
    assert_eq!(decimal_string(1234), "1234");
    assert_eq!(decimal_string(9876543210), "9876543210");
}

#[test]
fn cmdline_path_composes_root_pid_and_record() {
    assert_eq!(cmdline_path("/proc", 1234), "/proc/1234/cmdline");
    assert_eq!(cmdline_path(&default_proc_root(), 1), "/proc/1/cmdline");
    assert_eq!(cmdline_path("/tmp/fakeproc", 42), "/tmp/fakeproc/42/cmdline");
}

#[test]
fn cmdline_record_yields_its_first_field() {
    assert_eq!(
        parse_cmdline("/bin/true\0arg1\0"),
        Ok(String::from("/bin/true"))
    );
}

#[test]
fn cmdline_record_without_nul_is_taken_whole() {
    assert_eq!(parse_cmdline("/bin/echo"), Ok(String::from("/bin/echo")));
}

#[test]
fn empty_cmdline_record_is_a_parse_failure() {
    assert_eq!(parse_cmdline(""), Err(ProcessError::ParseError));
}

#[test]
fn read_cmdline_record_is_parsed() {
    assert_eq!(
        cmdline_outcome(Ok(String::from("/bin/true\0arg1\0"))),
        Ok(String::from("/bin/true"))
    );
}

#[test]
fn unreadable_cmdline_record_is_an_io_failure() {
    let r = cmdline_outcome(Err(String::from("no such process directory")));
    assert_eq!(
        r,
        Err(ProcessError::IoError(String::from(
            "no such process directory"
        )))
    );
}

#[test]
fn empty_invocation_is_rejected() {
    assert_eq!(
        validate_invocation(&Vec::new()),
        Err(ProcessError::InvocationError)
    );
}

#[test]
fn nonempty_invocation_is_accepted() {
    let args = vec![String::from("/bin/echo"), String::from("hi")];
    assert_eq!(validate_invocation(&args), Ok(()));
}

#[test]
fn nonzero_exit_names_the_program() {
    let r = capture_outcome("/bin/false", false, Some(String::new()));
    assert_eq!(r, Err(ProcessError::ExecutionError(String::from("/bin/false"))));
}

#[test]
fn undecodable_output_is_an_encoding_failure() {
    assert_eq!(
        capture_outcome("/bin/echo", true, None),
        Err(ProcessError::EncodingError)
    );
}

#[test]
fn captured_output_is_returned_as_it_came() {
    assert_eq!(
        capture_outcome("/bin/echo", true, Some(String::from("hi\n"))),
        Ok(String::from("hi\n"))
    );
}
