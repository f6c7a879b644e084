use zero_shot::cli::{parse_args, usage_message, Invocation, USAGE_EXIT_STATUS};

#[test]
fn usage_names_the_program() {
    assert_eq!(
        usage_message("target/debug/zero-shot"),
        "Usage: target/debug/zero-shot \"Input sentence\""
    );
    assert!(usage_message("classify").contains("classify"));
}

#[test]
fn no_argument_asks_for_usage() {
    let invocation = parse_args("classify", &Vec::new());
    assert_eq!(
        invocation,
        Invocation::Usage("Usage: classify \"Input sentence\"".to_string())
    );
}

#[test]
fn two_arguments_ask_for_usage() {
    let args = vec!["The Earth".to_string(), "orbits the Sun.".to_string()];
    assert_eq!(
        parse_args("classify", &args),
        Invocation::Usage("Usage: classify \"Input sentence\"".to_string())
    );
}

#[test]
fn many_arguments_ask_for_usage() {
    let args: Vec<String> = (0..7).map(|i| format!("word{}", i)).collect();
    assert!(matches!(parse_args("./a.out", &args), Invocation::Usage(m) if m.contains("./a.out")));
}

#[test]
fn one_argument_is_the_sentence() {
    let args = vec!["The election results were contested in court.".to_string()];
    assert_eq!(
        parse_args("classify", &args),
        Invocation::Classify("The election results were contested in court.".to_string())
    );
}

#[test]
fn empty_sentence_is_a_sentence() {
    let args = vec![String::new()];
    assert_eq!(parse_args("classify", &args), Invocation::Classify(String::new()));
}

#[test]
fn showing_the_usage_is_a_success() {
    assert_eq!(USAGE_EXIT_STATUS, 0);
}

#[test]
fn program_name_stands_behind_the_first_word() {
    let message = usage_message("bin/zero shot");
    assert_eq!(&message[7..7 + "bin/zero shot".len()], "bin/zero shot");
    assert_eq!(usage_message(""), "Usage:  \"Input sentence\"");
}
