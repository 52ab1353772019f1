use bluestone::slash_commands::language::{self, Language};
use bluestone::slash_commands::who::{self, get_user_info};
use bluestone::slash_commands::run;

fn words(words: &[&str]) -> Vec<String> {
    words.iter().map(|word| word.to_string()).collect()
}

#[test]
fn who_needs_a_verb() {
    assert_eq!(who::run(&words(&[]), 0), "no verb");
    assert_eq!(who::run(&words(&["who"]), 1), "no verb");
}

#[test]
fn who_is_takes_one_target() {
    assert_eq!(who::run(&words(&["is"]), 0), "target not specified");
    assert_eq!(who::run(&words(&["is", "steve"]), 0), "[user info for steve]");
    assert_eq!(
        who::run(&words(&["is", "steve", "alex"]), 0),
        "too many targets; use verb are instead"
    );
    assert_eq!(
        who::run(&words(&["is", "a", "b", "c"]), 0),
        "too many targets; use verb are instead"
    );
    assert_eq!(who::run(&words(&["who", "is", "steve"]), 1), "[user info for steve]");
}

#[test]
fn who_are_takes_any_number_of_targets() {
    assert_eq!(who::run(&words(&["are"]), 0), "");
    assert_eq!(who::run(&words(&["are", "steve"]), 0), "[user info for steve]\n\n");
    assert_eq!(
        who::run(&words(&["are", "steve", "alex"]), 0),
        "[user info for steve]\n\n[user info for alex]\n\n"
    );
}

#[test]
fn who_knows_two_verbs() {
    assert_eq!(who::run(&words(&["am", "i"]), 0), "unrecognised verb");
    assert_eq!(who::run(&words(&["Is", "steve"]), 0), "unrecognised verb");
    assert_eq!(who::run(&words(&[""]), 0), "unrecognised verb");
}

#[test]
fn user_info_names_the_user() {
    assert_eq!(get_user_info("steve"), "[user info for steve]");
    assert_eq!(get_user_info(""), "[user info for ]");
}

#[test]
fn languages_are_known_by_name_and_extension() {
    for name in ["rust", "rs", "Rust", "RS"] {
        assert_eq!(
            Language::new(name).describe(),
            "Rust: the best programming language of all time!"
        );
    }
    for name in ["c++", "cpp", "C++", "Cpp"] {
        assert_eq!(Language::new(name).describe(), "C++! Segmentation faults");
    }
    for name in ["python", "py", "PYTHON", "Py"] {
        assert_eq!(Language::new(name).describe(), "Py~~thon~~slug");
    }
}

#[test]
fn an_unknown_language_is_named_in_lower_case() {
    assert_eq!(Language::new("Haskell").describe(), "Unknown language haskell");
    assert_eq!(Language::new("").describe(), "Unknown language ");
    assert_eq!(Language::new("rustc").describe(), "Unknown language rustc");
}

#[test]
fn each_language_gets_a_line() {
    assert_eq!(
        language::run(&words(&["Rust", "cobol", "py"]), 0),
        "Rust: the best programming language of all time!\nUnknown language cobol\nPy~~thon~~slug\n"
    );
    assert_eq!(language::run(&words(&["language", "cpp"]), 1), "C++! Segmentation faults\n");
}

#[test]
fn no_language_is_said_so() {
    assert_eq!(language::run(&words(&[]), 0), "No language(s) specified");
    assert_eq!(language::run(&words(&["language"]), 1), "No language(s) specified");
}

#[test]
fn ping_is_the_one_slash_command() {
    assert_eq!(run("ping"), Some("POng".to_string()));
    assert_eq!(run("Ping"), None);
    assert_eq!(run("pong"), None);
    assert_eq!(run(""), None);
}
