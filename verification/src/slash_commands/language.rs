//! What the bot has to say about programming languages.

use crate::text::{concat, lowercase_of, same_text, to_lowercase};
use vstd::prelude::*;
use vstd::string::StringExecFns;

verus! {

/// A programming language, by its name in lower case.
pub struct Language {
    language: String,
}

impl View for Language {
    type V = Seq<char>;

    closed spec fn view(&self) -> Seq<char> {
        self.language@
    }
}

/// What the bot has to say about the language of this lower-case name.
pub open spec fn description(language: Seq<char>) -> Seq<char> {
    if language == "rust"@ || language == "rs"@ {
        "Rust: the best programming language of all time!"@
    } else if language == "c++"@ || language == "cpp"@ {
        "C++! Segmentation faults"@
    } else if language == "python"@ || language == "py"@ {
        "Py~~thon~~slug"@
    } else {
        "Unknown language "@ + language
    }
}

/// One line for each of the names, in their order.
pub open spec fn language_info(names: Seq<Seq<char>>) -> Seq<char>
    decreases names.len(),
{
    if names.len() == 0 {
        Seq::empty()
    } else {
        language_info(names.drop_last()) + description(lowercase_of(names.last())) + "\n"@
    }
}

/// The reply to a request about the languages of these names.
pub open spec fn language_reply(names: Seq<Seq<char>>) -> Seq<char> {
    if names.len() == 0 {
        "No language(s) specified"@
    } else {
        language_info(names)
    }
}

impl Language {
    /// The language that `name` stands for, whatever its letter case.
    pub fn new(name: &str) -> (language: Language)
        ensures
            language@ == lowercase_of(name@),
    {
        Language { language: to_lowercase(name) }
    }

    /// What the bot has to say about the language.
    pub fn describe(&self) -> (text: String)
        ensures
            text@ == description(self@),
    {
        let name = self.language.as_str();
        if same_text(name, "rust") || same_text(name, "rs") {
            String::from_str("Rust: the best programming language of all time!")
        } else if same_text(name, "c++") || same_text(name, "cpp") {
            String::from_str("C++! Segmentation faults")
        } else if same_text(name, "python") || same_text(name, "py") {
            String::from_str("Py~~thon~~slug")
        } else {
            concat("Unknown language ", name)
        }
    }
}

/// The reply to a request about languages. The names are the words of
/// `command` from position `from` on.
pub fn run(command: &Vec<String>, from: usize) -> (reply: String)
    requires
        from <= command.len(),
    ensures
        reply@ == language_reply(command.deep_view().skip(from as int)),
{
    let ghost names = command.deep_view().skip(from as int);
    let mut language_info = String::new();
    let mut i: usize = from;
    while i < command.len()
        invariant
            from <= i <= command.len(),
            names == command.deep_view().skip(from as int),
            language_info@ == self::language_info(names.take(i - from)),
            i > from ==> language_info@.len() > 0,
        decreases command.len() - i,
    {
        proof {
            let seen = names.take(i - from);
            let next = names.take(i - from + 1);
            assert(next.drop_last() == seen);
            assert(next.last() == command[i as int]@);
            reveal_strlit("\n");
        }
        let language = Language::new(command[i].as_str());
        language_info.append(language.describe().as_str());
        language_info.append("\n");
        i += 1;
    }
    proof {
        assert(names.take(command.len() - from) == names);
    }
    if language_info.as_str().is_empty() {
        return String::from_str("No language(s) specified");
    }
    language_info
}

} // verus!
