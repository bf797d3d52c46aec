//! The commands of the manager, and the small decisions they rest on.
//!
//! `install` begins an installation; `default`, `remove` and `update` begin
//! a [`Session`]. What a command was given is read here: the name of the
//! tool, and the line that the user typed when asked.

use crate::compat::{go_compatible_of, is_go_compatible};
use crate::config::{opt_text, Config};
use crate::error::InstallError;
use crate::install::Install;
use crate::resolve::Tool;
use crate::session::{first_stage, Command, Session};
use crate::text::{
    contains_text, joined, str_eq, str_lowercase, texts, to_lowercase, trim, trimmed,
};
use crate::version::{
    is_older, lemma_numbers_before_asymmetric, lemma_numbers_not_before_transitive, older,
    version_numbers,
};
use vstd::prelude::*;

verus! {

/// Why a command could not be carried out.
#[derive(Debug, Clone)]
pub enum CommandError {
    /// The command was not understood, or a file could not be written; the
    /// text is shown as it is.
    Message(String),
    /// A version could not be resolved, fetched or removed.
    Install(InstallError),
}

impl CommandError {
    /// The line that is shown to the user for the failure.
    pub open spec fn message_of(self) -> Seq<char> {
        match self {
            CommandError::Message(text) => text@,
            CommandError::Install(e) => e.message_of(),
        }
    }

    /// Renders the failure for the user.
    pub fn message(&self) -> (r: String)
        ensures
            r@ == self.message_of(),
    {
        match self {
            CommandError::Message(text) => text.clone(),
            CommandError::Install(e) => e.message(),
        }
    }
}

/// The tool that a name stands for.
pub open spec fn tool_of(name: Seq<char>) -> Option<Tool> {
    if name == "go"@ {
        Some(Tool::Go)
    } else if name == "sop"@ {
        Some(Tool::Sop)
    } else {
        None
    }
}

/// What is said of a name that is no tool.
pub open spec fn unknown_tool_of(name: Seq<char>) -> Seq<char> {
    "Unknown tool '"@ + name + "'. Use 'go' or 'sop'."@
}

/// Reads the name of a tool: `go` or `sop`.
pub fn tool_from_name(name: &str) -> (r: Option<Tool>)
    ensures
        r == tool_of(name@),
{
    if str_eq(name, "go") {
        Some(Tool::Go)
    } else if str_eq(name, "sop") {
        Some(Tool::Sop)
    } else {
        None
    }
}

/// Says that a name is no tool.
pub fn unknown_tool(name: &str) -> (text: String)
    ensures
        text@ == unknown_tool_of(name@),
{
    let mut text = joined("Unknown tool '", name);
    text.append("'. Use 'go' or 'sop'.");
    text
}

/// Reads the name of a tool, or says that it is none.
pub fn parse_tool(name: &str) -> (r: Result<Tool, CommandError>)
    ensures
        match r {
            Ok(tool) => tool_of(name@) == Some(tool),
            Err(e) => {
                &&& tool_of(name@) is None
                &&& e matches CommandError::Message(text)
                &&& text@ == unknown_tool_of(name@)
            },
        },
{
    match tool_from_name(name) {
        Some(tool) => Ok(tool),
        None => Err(CommandError::Message(unknown_tool(name))),
    }
}

/// Whether a trimmed, lower-case answer says yes: the empty answer, `y` and `yes` do.
pub open spec fn accepts_of(answer: Seq<char>) -> bool {
    answer.len() == 0 || answer == "y"@ || answer == "yes"@
}

/// Tells whether a trimmed, lower-case answer says yes.
pub fn accepts(answer: &str) -> (r: bool)
    ensures
        r == accepts_of(answer@),
{
    answer.unicode_len() == 0 || str_eq(answer, "y") || str_eq(answer, "yes")
}

/// Whether the line that the user typed says yes, once white space at its
/// ends is dropped and its letters are made lower case.
pub open spec fn is_affirmative_of(line: Seq<char>) -> bool {
    accepts_of(str_lowercase(trimmed(line)))
}

/// Tells whether the line that the user typed says yes.
pub fn is_affirmative(line: &str) -> (r: bool)
    ensures
        r == is_affirmative_of(line@),
{
    let trimmed = trim(line);
    let lowered = to_lowercase(trimmed.as_str());
    accepts(lowered.as_str())
}

/// Whether the `go` version runs the `sop` version.
pub open spec fn compatible(go: Seq<char>, sop: Seq<char>) -> bool {
    go_compatible_of(go, sop) == Ok::<bool, Seq<char>>(true)
}

/// Whether position `i` holds the newest of the `go` versions that run the
/// `sop` version: it runs it, none that runs it is newer, and every one
/// after it that runs it is older.
pub open spec fn is_newest_compatible(go_versions: Seq<Seq<char>>, sop: Seq<char>, i: int) -> bool {
    &&& 0 <= i < go_versions.len()
    &&& compatible(go_versions[i], sop)
    &&& forall|j: int|
        0 <= j < go_versions.len() && compatible(#[trigger] go_versions[j], sop) ==> !older(
            go_versions[i],
            go_versions[j],
        )
    &&& forall|j: int|
        i < j < go_versions.len() && compatible(#[trigger] go_versions[j], sop) ==> older(
            go_versions[j],
            go_versions[i],
        )
}

/// Finds the newest of the `go` versions that run the `sop` version, by
/// the numbers of the versions.
pub fn newest_compatible(go_versions: &Vec<String>, sop: &str) -> (r: Option<usize>)
    ensures
        match r {
            Some(i) => is_newest_compatible(texts(go_versions@), sop@, i as int),
            None => forall|j: int|
                0 <= j < go_versions.len() ==> !compatible(#[trigger] texts(go_versions@)[j], sop@),
        },
{
    let ghost all = texts(go_versions@);
    let mut best: Option<usize> = None;
    let mut i: usize = 0;
    while i < go_versions.len()
        invariant
            i <= go_versions.len(),
            all == texts(go_versions@),
            match best {
                None => forall|j: int| 0 <= j < i ==> !compatible(#[trigger] all[j], sop@),
                Some(b) => {
                    &&& b < i
                    &&& compatible(all[b as int], sop@)
                    &&& forall|j: int|
                        0 <= j < i && compatible(#[trigger] all[j], sop@) ==> !older(
                            all[b as int],
                            all[j],
                        )
                    &&& forall|j: int|
                        b < j < i && compatible(#[trigger] all[j], sop@) ==> older(
                            all[j],
                            all[b as int],
                        )
                },
            },
        decreases go_versions.len() - i,
    {
        assert(all[i as int] == go_versions@[i as int]@);
        let fits = match is_go_compatible(go_versions[i].as_str(), sop) {
            Ok(true) => true,
            _ => false,
        };
        if fits {
            match best {
                None => {
                    proof {
                        lemma_numbers_before_asymmetric(
                            version_numbers(all[i as int]),
                            version_numbers(all[i as int]),
                        );
                    }
                    best = Some(i);
                },
                Some(b) => {
                    assert(all[b as int] == go_versions@[b as int]@);
                    if is_older(go_versions[i].as_str(), go_versions[b].as_str()) {
                        proof {
                            lemma_numbers_before_asymmetric(
                                version_numbers(all[i as int]),
                                version_numbers(all[b as int]),
                            );
                        }
                    } else {
                        proof {
                            let x = version_numbers(all[i as int]);
                            let y = version_numbers(all[b as int]);
                            lemma_numbers_before_asymmetric(x, x);
                            assert forall|j: int|
                                0 <= j < i + 1 && compatible(#[trigger] all[j], sop@) implies !older(
                                all[i as int],
                                all[j],
                            ) by {
                                if j < i {
                                    lemma_numbers_not_before_transitive(
                                        x,
                                        y,
                                        version_numbers(all[j]),
                                    );
                                }
                            }
                        }
                        best = Some(i);
                    }
                },
            }
        }
        i = i + 1;
    }
    best
}

/// Whether an update moves the default on to `latest`: the default is not
/// `latest` yet, and either none is set or the one that is set was
/// installed before the update.
pub open spec fn should_advance_of(
    default_sop: Option<Seq<char>>,
    installed: Seq<Seq<char>>,
    latest: Seq<char>,
) -> bool {
    &&& default_sop != Some(latest)
    &&& match default_sop {
        None => true,
        Some(d) => installed.contains(d),
    }
}

/// Tells whether an update moves the default on to `latest`.
pub fn should_advance(default_sop: &Option<String>, installed: &Vec<String>, latest: &str) -> (r:
    bool)
    ensures
        r == should_advance_of(opt_text(*default_sop), texts(installed@), latest@),
{
    match default_sop {
        None => true,
        Some(d) => !str_eq(d.as_str(), latest) && contains_text(installed, d.as_str()),
    }
}

/// What is said to a user who tries to set the default of `go`.
pub open spec fn go_is_managed() -> Seq<char> {
    "go versions are managed automatically by sop. Use `sopmod install go <version>` to install."@
}

/// Begins `install <tool> <version>` for the build target that `target_os`
/// and `target_arch` name. A name that is no tool is refused.
pub fn cmd_install(tool: &str, version: &str, target_os: &str, target_arch: &str) -> (r: Result<
    Install,
    CommandError,
>)
    ensures
        match r {
            Ok(install) => {
                &&& tool_of(tool@) matches Some(t)
                &&& Install::started(install, t, version@, target_os@, target_arch@)
                &&& install.wf()
            },
            Err(e) => {
                &&& tool_of(tool@) is None
                &&& e matches CommandError::Message(text)
                &&& text@ == unknown_tool_of(tool@)
            },
        },
{
    match parse_tool(tool) {
        Ok(t) => Ok(Install::start(t, version, target_os, target_arch)),
        Err(e) => Err(e),
    }
}

/// Begins `default <tool> <version>`. Only `sop` has a default that the
/// user sets: `go` and names that are no tool are refused.
pub fn cmd_default(tool: &str, version: &str, config: Config, windows: bool) -> (next: Session)
    ensures
        next.runs(Command::Default, version@, windows, config@),
        next.wf(),
        match tool_of(tool@) {
            Some(Tool::Sop) => first_stage(Command::Default, Tool::Sop, version@, next.stage),
            Some(Tool::Go) => next.refused(go_is_managed()),
            None => next.refused(unknown_tool_of(tool@)),
        },
{
    match tool_from_name(tool) {
        Some(Tool::Sop) => Session::begin(Command::Default, Tool::Sop, version, config, windows),
        Some(Tool::Go) => Session::refuse(
            Command::Default,
            version,
            config,
            windows,
            "go versions are managed automatically by sop. Use `sopmod install go <version>` to install.".to_owned(),
        ),
        None => Session::refuse(Command::Default, version, config, windows, unknown_tool(tool)),
    }
}

/// Begins `remove <tool> <version>`. A name that is no tool is refused.
pub fn cmd_remove(tool: &str, version: &str, config: Config, windows: bool) -> (next: Session)
    ensures
        next.runs(Command::Remove, version@, windows, config@),
        next.wf(),
        match tool_of(tool@) {
            Some(t) => first_stage(Command::Remove, t, version@, next.stage),
            None => next.refused(unknown_tool_of(tool@)),
        },
{
    match tool_from_name(tool) {
        Some(t) => Session::begin(Command::Remove, t, version, config, windows),
        None => Session::refuse(Command::Remove, version, config, windows, unknown_tool(tool)),
    }
}

/// Begins `update [tool]`: the latest release of the tool, or of `go` and
/// then of `sop` where no tool is named. A name that is no tool is refused.
pub fn cmd_update(tool: Option<&str>, config: Config, windows: bool) -> (next: Session)
    ensures
        next.runs(Command::Update { then_sop: tool is None }, "latest"@, windows, config@),
        next.wf(),
        match tool {
            None => first_stage(next.command, Tool::Go, "latest"@, next.stage),
            Some(name) => match tool_of(name@) {
                Some(t) => first_stage(next.command, t, "latest"@, next.stage),
                None => next.refused(unknown_tool_of(name@)),
            },
        },
{
    match tool {
        None => Session::begin(Command::Update { then_sop: true }, Tool::Go, "latest", config, windows),
        Some(name) => {
            let command = Command::Update { then_sop: false };
            match tool_from_name(name) {
                Some(t) => Session::begin(command, t, "latest", config, windows),
                None => Session::refuse(command, "latest", config, windows, unknown_tool(name)),
            }
        },
    }
}

} // verus!
