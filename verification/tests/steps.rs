use helping_hand::recovery::{attempt, Failure, Step};
use helping_hand::report::report;

fn parse_num(s: &str) -> Result<u8, std::num::ParseIntError> {
    s.parse()
}

fn failure(input: &str, error: &str) -> Failure {
    Failure {
        input: input.to_string(),
        error: error.to_string(),
    }
}

#[test]
fn report_is_the_exact_text() {
    assert_eq!(
        report("\"three\"", "ParseIntError { kind: InvalidDigit }"),
        "Error with input \"three\": ParseIntError { kind: InvalidDigit }\nFix: "
    );
}

#[test]
fn report_of_empty_texts() {
    assert_eq!(report("", ""), "Error with input : \nFix: ");
}

#[test]
fn report_adds_25_characters() {
    let input = "ünï";
    let error = "a\nb";
    let text = report(input, error);
    assert_eq!(
        text.chars().count(),
        input.chars().count() + error.chars().count() + 25
    );
    assert!(text.starts_with("Error with input "));
    assert!(text.ends_with("Fix: "));
    assert_eq!(text, "Error with input ünï: a\nb\nFix: ");
}

#[test]
fn failure_reports_its_own_texts() {
    let failed = failure("[1, 2", "unbalanced");
    assert_eq!(failed.report(), "Error with input [1, 2: unbalanced\nFix: ");
    assert_eq!(failed.report(), report(&failed.input, &failed.error));
}

#[test]
fn attempt_passes_a_value_through() {
    assert_eq!(attempt(&parse_num, "1"), Step::Done(1));
    assert_eq!(attempt(&parse_num, "255"), Step::Done(255));
}

#[test]
fn attempt_renders_input_and_error() {
    let step = attempt(&parse_num, "three");
    assert_eq!(
        step,
        Step::Recovering(failure(
            "\"three\"",
            "ParseIntError { kind: InvalidDigit }"
        ))
    );
    let step = attempt(&parse_num, "256");
    assert_eq!(
        step,
        Step::Recovering(failure("\"256\"", "ParseIntError { kind: PosOverflow }"))
    );
}

#[test]
fn attempt_takes_any_input_and_error() {
    let halve = |n: u32| -> Result<u32, String> {
        if n % 2 == 0 {
            Ok(n / 2)
        } else {
            Err(format!("{n} is odd"))
        }
    };
    assert_eq!(attempt(&halve, 8), Step::Done(4));
    assert_eq!(
        attempt(&halve, 7),
        Step::Recovering(failure("7", "\"7 is odd\""))
    );
}

#[test]
fn resume_with_a_value_is_done() {
    let step = failure("a", "b").resume::<u8>("3".to_string(), Ok(3));
    assert_eq!(step, Step::Done(3));
}

#[test]
fn resume_with_an_error_shows_the_correction() {
    let step = failure("a", "b").resume::<u8>("x".to_string(), Err("not a number".to_string()));
    assert_eq!(step, Step::Recovering(failure("x", "not a number")));
    match step {
        Step::Recovering(next) => {
            assert_eq!(next.report(), "Error with input x: not a number\nFix: ")
        }
        Step::Done(_) => panic!("an error does not end the recovery"),
    }
}

#[test]
fn correct_with_a_value_is_done() {
    let text = "34".to_string();
    let parsed = serde_json::from_str::<u8>(&text);
    assert_eq!(failure("a", "b").correct(text, parsed), Step::Done(34));
}

#[test]
fn correct_with_an_error_shows_its_rendering() {
    let text = "300".to_string();
    let parsed = serde_json::from_str::<u8>(&text);
    let step = failure("a", "b").correct(text, parsed);
    assert_eq!(
        step,
        Step::Recovering(failure(
            "300",
            "Error(\"invalid value: integer `300`, expected u8\", line: 1, column: 3)"
        ))
    );
}

#[test]
fn correct_with_trailing_text_fails() {
    let text = "3 4".to_string();
    let parsed = serde_json::from_str::<u8>(&text);
    let expected = format!("{:?}", serde_json::from_str::<u8>(&text).unwrap_err());
    let step = failure("a", "b").correct(text, parsed);
    assert_eq!(step, Step::Recovering(failure("3 4", &expected)));
    assert_eq!(expected, "Error(\"trailing characters\", line: 1, column: 3)");
}

#[test]
fn two_failures_in_a_row_each_show_their_own() {
    let first = match attempt(&parse_num, "three") {
        Step::Recovering(failed) => failed,
        Step::Done(_) => panic!("three is no number"),
    };
    let first_report = first.report();
    let second = match first.resume::<u8>("drei".to_string(), Err("no digit".to_string())) {
        Step::Recovering(failed) => failed,
        Step::Done(_) => panic!("an error does not end the recovery"),
    };
    let second_report = second.report();
    let last = second.resume::<u8>("3".to_string(), Ok(3));
    assert_eq!(last, Step::Done(3));
    assert_eq!(
        first_report + &second_report,
        "Error with input \"three\": ParseIntError { kind: InvalidDigit }\nFix: Error with input drei: no digit\nFix: "
    );
}
