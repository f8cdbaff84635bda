//! The run configuration and the decisions taken between the prompts of
//! one generation cycle.  The front end parses arguments, asks the
//! questions and touches the filesystem; every branch it takes is decided
//! here.

use vstd::prelude::*;
use vstd::string::StringExecFns;
use crate::i18n::Language;

verus! {

/// The command-line configuration for one run.
pub struct Cli {
    /// Target project directory for code generation.
    pub target: String,
    /// Framework the emitted code is written for.
    pub framework: String,
    /// Language code for all messages.
    pub language: String,
    /// Name of the controller root below the target.
    pub controller_dir: String,
    /// Name of the service root below the target.
    pub service_dir: String,
}

/// Reads the language argument: the two exact codes are accepted, any
/// other value means the user must be asked to pick interactively.
pub fn parse_language(code: &str) -> (r: Option<Language>)
    ensures
        code@ == "en"@ ==> r == Some(Language::En),
        code@ == "zh"@ ==> r == Some(Language::Zh),
        code@ != "en"@ && code@ != "zh"@ ==> r is None,
{
    proof {
        reveal_strlit("en");
        reveal_strlit("zh");
        assert("en"@[0] == 'e');
        assert("zh"@[0] == 'z');
        assert("en"@ != "zh"@);
    }
    let c = code.to_owned();
    if c == "en".to_owned() {
        Some(Language::En)
    } else if c == "zh".to_owned() {
        Some(Language::Zh)
    } else {
        None
    }
}

/// Turns the interactive language pick (first option English, second
/// Chinese) into a language; anything unexpected falls back to English.
pub fn language_from_selection(selection: usize) -> (r: Language)
    ensures
        r == (if selection == 1 {
            Language::Zh
        } else {
            Language::En
        }),
{
    if selection == 1 {
        Language::Zh
    } else {
        Language::En
    }
}

/// What to do about missing base directories, as the user answered the
/// first prompt: create them, ask once more after a cancel, or end the
/// run.
#[derive(Debug, Clone, Copy, PartialEq, Eq, Structural)]
pub enum MissingDirsAction {
    Create,
    ConfirmCancel,
    End,
}

/// The first prompt offers "create" first and "cancel" second; creating
/// is the default, cancelling leads to one confirming prompt.
pub fn action_for_missing(selection: usize) -> (r: MissingDirsAction)
    ensures
        selection == 0 ==> r == MissingDirsAction::Create,
        selection == 1 ==> r == MissingDirsAction::ConfirmCancel,
        selection > 1 ==> r == MissingDirsAction::End,
{
    if selection == 0 {
        MissingDirsAction::Create
    } else if selection == 1 {
        MissingDirsAction::ConfirmCancel
    } else {
        MissingDirsAction::End
    }
}

/// The confirming prompt offers creating after all first; anything else
/// ends the run.
pub fn action_after_confirm(selection: usize) -> (r: MissingDirsAction)
    ensures
        selection == 0 ==> r == MissingDirsAction::Create,
        selection > 0 ==> r == MissingDirsAction::End,
{
    if selection == 0 {
        MissingDirsAction::Create
    } else {
        MissingDirsAction::End
    }
}

/// The trimmed form of a text, as `str::trim` computes it.
pub uninterp spec fn trim_of(s: Seq<char>) -> Seq<char>;

/// Relies on `str::trim`: whitespace removal depends on the characters
/// alone.
#[verifier::external_body]
fn trim(s: &str) -> (r: &str)
    ensures
        r@ == trim_of(s@),
{
    s.trim()
}

/// A file name as entered at the prompt, with surrounding whitespace
/// removed.
pub fn clean_file_name(entered: &str) -> (r: String)
    ensures
        r@ == trim_of(entered@),
{
    trim(entered).to_owned()
}

/// The method name to use: what was entered, trimmed — or the file name
/// itself when nothing (or only whitespace) was entered.
pub fn choose_method_name(entered: &str, file_name: &str) -> (r: String)
    ensures
        trim_of(entered@).len() == 0 ==> r@ == file_name@,
        trim_of(entered@).len() > 0 ==> r@ == trim_of(entered@),
{
    let t = trim(entered);
    if t.is_empty() {
        file_name.to_owned()
    } else {
        t.to_owned()
    }
}

/// The service file name after the suffix prompt: the `_service` suffix
/// appended when the user chose to add it, the name unchanged otherwise.
pub fn apply_service_suffix(name: &str, add_suffix: bool) -> (r: String)
    ensures
        add_suffix ==> r@ == name@ + "_service"@,
        !add_suffix ==> r@ == name@,
{
    if add_suffix {
        let mut r = name.to_owned();
        r.append("_service");
        r
    } else {
        name.to_owned()
    }
}

/// One path below another: the base, a separator, the child.
pub fn join_path(base: &str, child: &str) -> (r: String)
    ensures
        r@ == base@ + "/"@ + child@,
{
    let mut r = base.to_owned();
    r.append("/");
    r.append(child);
    r
}

} // verus!
