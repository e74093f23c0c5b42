use yabridgectl::host_output::{diagnose, Diagnosis};

fn failure(line: &str) -> Diagnosis {
    Diagnosis::Failure { last_error: Some(String::from(line)) }
}

#[test]
fn usage_string_is_success() {
    assert_eq!(diagnose("Usage: yabridge-host.exe <plugin_type> <plugin_location>"), Diagnosis::Success);
}

#[test]
fn only_the_prefix_is_matched() {
    assert_eq!(diagnose("Usage: yabridge-"), Diagnosis::Success);
    assert_eq!(diagnose("Usage: yabridge-group.exe whatever\n"), Diagnosis::Success);
}

#[test]
fn fixme_then_usage_is_success() {
    assert_eq!(
        diagnose("002b:fixme:winediag:start_process Wine Staging is a testing version\nUsage: yabridge-host.exe <x>\n"),
        Diagnosis::Success
    );
}

#[test]
fn error_then_usage_is_success() {
    assert_eq!(
        diagnose("0009:err:module:something odd\r\nUsage: yabridge-host.exe\r\nmore\r\n"),
        Diagnosis::Success
    );
}

#[test]
fn usage_must_start_the_line() {
    assert_eq!(diagnose(" Usage: yabridge-host.exe"), failure(" Usage: yabridge-host.exe"));
    assert_eq!(diagnose("Usage: yabridge"), failure("Usage: yabridge"));
}

#[test]
fn last_line_is_the_error() {
    assert_eq!(
        diagnose("first problem\nsecond problem\n002b:err:module:__wine_process_init failed\n"),
        failure("002b:err:module:__wine_process_init failed")
    );
}

#[test]
fn fixme_lines_are_no_errors() {
    assert_eq!(
        diagnose("002b:err:module:__wine_process_init failed\n002b:fixme:ntdll:whatever stub\n0024:fixme:a:b\n"),
        failure("002b:err:module:__wine_process_init failed")
    );
}

#[test]
fn only_fixme_lines_leave_no_error() {
    assert_eq!(
        diagnose("002b:fixme:ntdll:whatever stub\n0024:fixme:a:b"),
        Diagnosis::Failure { last_error: None }
    );
}

#[test]
fn no_output_leaves_no_error() {
    assert_eq!(diagnose(""), Diagnosis::Failure { last_error: None });
}

#[test]
fn fixme_counts_at_its_offset_only() {
    assert_eq!(diagnose("fixme:0000:x"), failure("fixme:0000:x"));
    assert_eq!(diagnose("0000:fixm"), failure("0000:fixm"));
    assert_eq!(diagnose("0000:Fixme:x"), failure("0000:Fixme:x"));
    assert_eq!(diagnose("00000:fixme:x"), failure("00000:fixme:x"));
    assert_eq!(diagnose("real\n0000:fixme"), failure("real"));
    assert_eq!(diagnose("real\nwxyz:fixmeandmore"), failure("real"));
}

#[test]
fn fixme_offset_counts_bytes() {
    assert_eq!("é123fixme".len(), 10);
    assert_eq!(diagnose("é123fixme"), Diagnosis::Failure { last_error: None });
    assert_eq!(diagnose("real\né123fixme:x\n"), failure("real"));
    assert_eq!(diagnose("éééé:fixme:x"), failure("éééé:fixme:x"));
    assert_eq!(diagnose("real\n€12fixme"), failure("real"));
    assert_eq!(diagnose("real\n€123:fixme"), failure("€123:fixme"));
    assert_eq!(diagnose("0000:fixmé"), failure("0000:fixmé"));
    assert_eq!(diagnose("real\n0000:fixmeé"), failure("real"));
}

#[test]
fn fixme_test_is_that_of_a_byte_range() {
    let lines = [
        "002b:fixme:x",
        "é123fixme",
        "éééé:fixme:x",
        "12345678é",
        "1234é6789012",
        "😀fixme",
        "😀1fixme",
        "ab😀fixme",
        "",
        "short",
        "0123456789",
    ];
    for output in lines {
        let expected = output
            .lines()
            .filter(|line| line.get(5..10) != Some("fixme"))
            .last()
            .map(String::from);
        assert_eq!(diagnose(output), Diagnosis::Failure { last_error: expected }, "{:?}", output);
    }
    let output = lines.join("\n");
    assert_eq!(diagnose(&output), failure("0123456789"));
    let output = lines[..4].join("\r\n");
    assert_eq!(diagnose(&output), failure("12345678é"));
}

#[test]
fn empty_lines_are_errors_too() {
    assert_eq!(diagnose("problem\n\n"), failure(""));
    assert_eq!(diagnose("\n"), failure(""));
}

#[test]
fn carriage_return_before_line_feed_is_dropped() {
    assert_eq!(diagnose("problem\r\n"), failure("problem"));
    assert_eq!(diagnose("one\r\ntwo\r\r\n"), failure("two\r"));
}

#[test]
fn carriage_return_at_the_very_end_stays() {
    assert_eq!(diagnose("one\ntwo\r"), failure("two\r"));
}

#[test]
fn diagnosis_reads_lines_as_std_does() {
    for output in ["a\nb", "a\r\nb\r\n", "a\n\nb\r", "\r\n", "\r", "x\r\r\n\ny", "é\nü\r\n"] {
        let expected = output.lines().last().map(String::from);
        assert_eq!(diagnose(output), Diagnosis::Failure { last_error: expected }, "{:?}", output);
    }
}

#[test]
fn text_beyond_ascii() {
    assert_eq!(diagnose("héllo wörld\nUsage: yabridge-host.exe"), Diagnosis::Success);
    assert_eq!(diagnose("0000:fixme:é\nошибка\n"), failure("ошибка"));
}
