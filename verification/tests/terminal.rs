use yabridgectl::path_setup::PathWarning;
use yabridgectl::terminal::{has_best_breaks, wrap, wrap_to_width, MAX_TERMINAL_WIDTH};
use yabridgectl::wine_setup::WineWarning;

/// Switches colors on, whatever the environment says.
fn colorful() {
    colored::control::set_override(true);
}

/// The longest text, in bytes, that is wrapped with the best line breaks at
/// the given width.
fn longest_with_best_breaks(width: usize) -> usize {
    2147483647 / (width * width + 4000)
}

fn words(count: usize) -> String {
    vec!["word"; count].join(" ")
}

#[test]
fn text_is_wrapped_with_an_indent() {
    assert_eq!(
        wrap_to_width("Memory safety without garbage collection.", 15),
        "Memory safety\n    without\n    garbage\n    collection."
    );
}

#[test]
fn short_text_stays_on_one_line() {
    assert_eq!(wrap_to_width("short enough", 80), "short enough");
    assert_eq!(wrap_to_width("", 80), "");
}

#[test]
fn words_are_not_split_at_hyphens() {
    assert_eq!(
        wrap_to_width("copy-based installation method", 12),
        "copy-based\n    installa\n    tion\n    method"
    );
}

#[test]
fn paragraphs_are_kept_apart() {
    assert_eq!(
        wrap_to_width("one two three\n\nhttps://example.org/a/long/address", 10),
        "one two\n    three\n\n    https:\n    //exam\n    ple.or\n    g/a/lo\n    ng/add\n    ress"
    );
}

#[test]
fn best_breaks_even_out_the_lines() {
    assert_eq!(
        wrap_to_width("To be, or not to be: that is the question", 14),
        "To be, or\n    not to\n    be: that\n    is the\n    question"
    );
}

#[test]
fn best_breaks_have_their_limits() {
    assert!(has_best_breaks(0, 0));
    assert!(has_best_breaks(0, usize::MAX));
    assert!(has_best_breaks(536870, 0));
    assert!(!has_best_breaks(536871, 0));
    assert!(has_best_breaks(523776, 10));
    assert!(!has_best_breaks(523777, 10));
    assert!(has_best_breaks(2138, 1000));
    assert!(!has_best_breaks(2139, 1000));
    assert!(has_best_breaks(1, 46340));
    assert!(!has_best_breaks(2, 46340));
    assert!(!has_best_breaks(1, 46341));
    assert!(!has_best_breaks(1, usize::MAX));
    assert!(!has_best_breaks(usize::MAX, 0));
    assert!(!has_best_breaks(usize::MAX, usize::MAX));
}

#[test]
fn longest_text_with_best_breaks_is_wrapped() {
    for width in [200, 1000, 5000, 46340] {
        let length = longest_with_best_breaks(width);
        assert!(has_best_breaks(length, width));
        assert!(!has_best_breaks(length + 1, width));
        let text = "a ".repeat(length / 2);
        let shown = wrap_to_width(&text, width);
        assert_eq!(shown.matches('a').count(), length / 2, "{}", width);
        assert!(shown.lines().all(|line| line.len() <= width), "{}", width);
        assert!(shown.lines().skip(1).all(|line| line.starts_with("    a")), "{}", width);
    }
}

#[test]
fn narrow_terminals_will_do() {
    let text = "a ".repeat(1000);
    let letters = "a".repeat(2000);
    for width in [0, 1, 2, 3, 4, 5, 6, 10, 80] {
        let shown = wrap_to_width(&text, width);
        assert_eq!(shown.matches('a').count(), 1000, "{}", width);
        let shown = wrap_to_width(&letters, width);
        assert_eq!(shown.matches('a').count(), 2000, "{}", width);
    }
}

#[test]
fn longer_text_is_wrapped_line_by_line() {
    let text = "word ".repeat(500);
    assert!(!has_best_breaks(text.len(), 1000));
    let expected =
        format!("{}\n    {}\n    {}", words(200), words(199), words(101));
    assert_eq!(wrap_to_width(&text, 1000), expected);
}

#[test]
fn longer_text_keeps_its_paragraphs_and_its_indent() {
    let paragraph = words(300);
    let text = format!("{}\n\nhttps://example.org\nlast line", paragraph);
    assert!(!has_best_breaks(text.len(), 1200));
    let expected = format!(
        "{}\n    {}\n\n    https://example.org\n    last line",
        words(240),
        words(60)
    );
    assert_eq!(wrap_to_width(&text, 1200), expected);
}

#[test]
fn widest_terminals_will_do() {
    let text = "Rerun this command\nto verify";
    for width in [46341, MAX_TERMINAL_WIDTH, usize::MAX] {
        assert!(!has_best_breaks(text.len(), width));
        assert_eq!(wrap_to_width(text, width), "Rerun this command\n    to verify", "{}", width);
    }
}

#[test]
fn wrap_goes_by_the_terminal() {
    let text = "Rerun this command to verify that the variable has been set correctly";
    let shown = wrap(text);
    let width = textwrap::termwidth();
    assert!(width <= MAX_TERMINAL_WIDTH);
    assert_eq!(shown, wrap_to_width(text, width));
}

#[test]
fn shell_is_set_off_in_bright_white() {
    colorful();
    let shown = PathWarning::ShellNotRunnable {
        shell: String::from("fish"),
        error: String::from("gone"),
    }
    .render();
    assert!(shown.contains("\u{1b}[97mfish\u{1b}[0m"));
    assert!(shown.starts_with("Warning: could not run "));
}

#[test]
fn path_variable_is_set_off_in_bright_white() {
    colorful();
    let shown = PathWarning::NotInSearchPath {
        directory: String::from("/opt/yabridge"),
        shell: String::from("zsh"),
    }
    .render();
    assert!(shown.contains("\u{1b}[97mPATH\u{1b}[0m"));
    assert!(shown.contains("\u{1b}[97mzsh\u{1b}[0m"));
    assert!(shown.contains("'/opt/yabridge'"));
}

#[test]
fn wine_error_and_version_are_set_off_in_bright_white() {
    colorful();
    let shown = WineWarning { last_error: None, wine_version: String::from("wine-6.4") }.render();
    assert!(shown.contains("\u{1b}[97m<no_output>\u{1b}[0m"));
    assert!(shown.contains("'\u{1b}[97m6.4\u{1b}[0m'"));
}

#[test]
fn long_warning_is_wrapped_and_indented() {
    colored::control::set_override(false);
    let error = words(600);
    let shown = WineWarning { last_error: Some(error), wine_version: String::from("6.4") }.render();
    assert!(shown.len() > 3000);
    assert!(shown.starts_with("Warning: Could not run 'yabridge-host.exe'."));
    let later: Vec<&str> = shown.lines().skip(1).filter(|line| !line.is_empty()).collect();
    assert!(later.len() >= 4);
    assert!(later.iter().all(|line| line.starts_with("    ")));
    assert!(shown.ends_with("\n    https://github.com/robbert-vdh/yabridge#troubleshooting-common-issues"));
}
