//! The commands that only look: `list` and `which`.
//!
//! Both are decided from what the caller has observed: the installed
//! versions, the configuration, and whether the default program is there.

use crate::commands::{tool_from_name, tool_of, unknown_tool, unknown_tool_of, CommandError};
use crate::config::{opt_text, Config};
use crate::paths::{go_binary, go_binary_parts, sop_binary, sop_binary_parts};
use crate::resolve::Tool;
use crate::text::{joined, contains, occurs_in, str_eq, texts};
use vstd::prelude::*;

verus! {

/// One line of the list of installed versions.
#[derive(Debug, Clone)]
pub enum ListItem {
    /// The line above the versions of a tool.
    Heading(String),
    /// The line that says that nothing is installed.
    Nothing(String),
    /// The advice to install the latest release of a tool.
    Hint { tool: Tool },
    /// An installed version, and whether it is the default.
    Version { version: String, is_default: bool },
}

/// The mathematical value of a [`ListItem`].
pub enum ListItemValue {
    Heading(Seq<char>),
    Nothing(Seq<char>),
    Hint { tool: Tool },
    Version { version: Seq<char>, is_default: bool },
}

impl View for ListItem {
    type V = ListItemValue;

    open spec fn view(&self) -> ListItemValue {
        match *self {
            ListItem::Heading(text) => ListItemValue::Heading(text@),
            ListItem::Nothing(text) => ListItemValue::Nothing(text@),
            ListItem::Hint { tool } => ListItemValue::Hint { tool },
            ListItem::Version { version, is_default } => ListItemValue::Version {
                version: version@,
                is_default,
            },
        }
    }
}

/// The values of a list of lines.
pub open spec fn items(list: Seq<ListItem>) -> Seq<ListItemValue> {
    list.map_values(|item: ListItem| item@)
}

/// One line for each version, in order; the version that is the default is
/// marked.
pub open spec fn version_items(versions: Seq<Seq<char>>, default: Option<Seq<char>>) -> Seq<
    ListItemValue,
> {
    Seq::new(
        versions.len(),
        |i: int|
            ListItemValue::Version { version: versions[i], is_default: default == Some(versions[i]) },
    )
}

/// The list of one tool: a line that says that nothing is installed, or a
/// heading and the versions.
pub open spec fn tool_list(
    nothing: Seq<char>,
    heading: Seq<char>,
    versions: Seq<Seq<char>>,
    default: Option<Seq<char>>,
) -> Seq<ListItemValue> {
    if versions.len() == 0 {
        seq![ListItemValue::Nothing(nothing)]
    } else {
        seq![ListItemValue::Heading(heading)] + version_items(versions, default)
    }
}

/// The part of the list of both tools that one tool adds: nothing, or a
/// heading and the versions.
pub open spec fn tool_section(
    heading: Seq<char>,
    versions: Seq<Seq<char>>,
    default: Option<Seq<char>>,
) -> Seq<ListItemValue> {
    if versions.len() == 0 {
        Seq::empty()
    } else {
        seq![ListItemValue::Heading(heading)] + version_items(versions, default)
    }
}

/// What `list` shows. Only `sop` has a default to mark. Without a tool both
/// are listed, and where nothing at all is installed the user is advised to
/// install both.
pub open spec fn list_of(
    tool: Option<Seq<char>>,
    go_versions: Seq<Seq<char>>,
    sop_versions: Seq<Seq<char>>,
    default_sop: Option<Seq<char>>,
) -> Result<Seq<ListItemValue>, Seq<char>> {
    match tool {
        Some(name) => match tool_of(name) {
            Some(Tool::Go) => Ok(
                tool_list("No go versions installed"@, "Installed go versions:"@, go_versions, None),
            ),
            Some(Tool::Sop) => Ok(
                tool_list(
                    "No sop versions installed"@,
                    "Installed sop versions:"@,
                    sop_versions,
                    default_sop,
                ),
            ),
            None => Err(unknown_tool_of(name)),
        },
        None => if go_versions.len() == 0 && sop_versions.len() == 0 {
            Ok(
                seq![
                    ListItemValue::Nothing("No versions installed"@),
                    ListItemValue::Hint { tool: Tool::Go },
                    ListItemValue::Hint { tool: Tool::Sop },
                ],
            )
        } else {
            Ok(
                tool_section("go:"@, go_versions, None) + tool_section(
                    "sop:"@,
                    sop_versions,
                    default_sop,
                ),
            )
        },
    }
}

/// Appends one line for each version.
fn push_versions(list: &mut Vec<ListItem>, versions: &Vec<String>, default: &Option<String>)
    ensures
        items(final(list)@) == items(old(list)@) + version_items(
            texts(versions@),
            opt_text(*default),
        ),
{
    let ghost start = items(list@);
    let ghost all = version_items(texts(versions@), opt_text(*default));
    let mut i: usize = 0;
    assert(items(list@) =~= start + all.subrange(0, 0));
    while i < versions.len()
        invariant
            i <= versions.len(),
            all == version_items(texts(versions@), opt_text(*default)),
            items(list@) == start + all.subrange(0, i as int),
        decreases versions.len() - i,
    {
        let is_default = match default {
            Some(d) => str_eq(d.as_str(), versions[i].as_str()),
            None => false,
        };
        let item = ListItem::Version { version: versions[i].clone(), is_default };
        proof {
            assert(texts(versions@)[i as int] == versions@[i as int]@);
            assert(item@ == all[i as int]);
            assert(items(list@.push(item)) =~= items(list@).push(item@));
            assert(all.subrange(0, i + 1) =~= all.subrange(0, i as int).push(all[i as int]));
            assert(start + all.subrange(0, i + 1) =~= (start + all.subrange(0, i as int)).push(
                all[i as int],
            ));
        }
        list.push(item);
        i = i + 1;
    }
    assert(all.subrange(0, versions.len() as int) =~= all);
}

/// Appends a first line.
fn push_item(list: &mut Vec<ListItem>, item: ListItem)
    ensures
        items(final(list)@) == items(old(list)@).push(item@),
{
    assert(items(list@.push(item)) =~= items(list@).push(item@));
    list.push(item);
}

/// Decides what `list [tool]` shows, from the installed versions of both
/// tools and the configuration.
pub fn cmd_list(
    tool: Option<&str>,
    go_versions: &Vec<String>,
    sop_versions: &Vec<String>,
    config: &Config,
) -> (r: Result<Vec<ListItem>, CommandError>)
    ensures
        match r {
            Ok(list) => list_of(
                match tool {
                    Some(name) => Some(name@),
                    None => None,
                },
                texts(go_versions@),
                texts(sop_versions@),
                config@.default_sop,
            ) == Ok::<Seq<ListItemValue>, Seq<char>>(items(list@)),
            Err(e) => {
                &&& tool matches Some(name)
                &&& tool_of(name@) is None
                &&& e matches CommandError::Message(text)
                &&& text@ == unknown_tool_of(name@)
            },
        },
{
    let mut list: Vec<ListItem> = Vec::new();
    let no_default: Option<String> = None;
    assert(items(list@) =~= Seq::<ListItemValue>::empty());
    assert(texts(go_versions@).len() == go_versions@.len());
    assert(texts(sop_versions@).len() == sop_versions@.len());
    match tool {
        Some(name) => match tool_from_name(name) {
            Some(Tool::Go) => {
                if go_versions.len() == 0 {
                    push_item(&mut list, ListItem::Nothing("No go versions installed".to_owned()));
                } else {
                    push_item(&mut list, ListItem::Heading("Installed go versions:".to_owned()));
                    push_versions(&mut list, go_versions, &no_default);
                }
                assert(items(list@) =~= tool_list(
                    "No go versions installed"@,
                    "Installed go versions:"@,
                    texts(go_versions@),
                    None,
                ));
                Ok(list)
            },
            Some(Tool::Sop) => {
                if sop_versions.len() == 0 {
                    push_item(&mut list, ListItem::Nothing("No sop versions installed".to_owned()));
                } else {
                    push_item(&mut list, ListItem::Heading("Installed sop versions:".to_owned()));
                    push_versions(&mut list, sop_versions, &config.default_sop);
                }
                assert(items(list@) =~= tool_list(
                    "No sop versions installed"@,
                    "Installed sop versions:"@,
                    texts(sop_versions@),
                    config@.default_sop,
                ));
                Ok(list)
            },
            None => Err(CommandError::Message(unknown_tool(name))),
        },
        None => {
            if go_versions.len() == 0 && sop_versions.len() == 0 {
                push_item(&mut list, ListItem::Nothing("No versions installed".to_owned()));
                push_item(&mut list, ListItem::Hint { tool: Tool::Go });
                push_item(&mut list, ListItem::Hint { tool: Tool::Sop });
                assert(items(list@) =~= seq![
                    ListItemValue::Nothing("No versions installed"@),
                    ListItemValue::Hint { tool: Tool::Go },
                    ListItemValue::Hint { tool: Tool::Sop },
                ]);
            } else {
                if go_versions.len() > 0 {
                    push_item(&mut list, ListItem::Heading("go:".to_owned()));
                    push_versions(&mut list, go_versions, &no_default);
                }
                assert(items(list@) =~= tool_section("go:"@, texts(go_versions@), None));
                if sop_versions.len() > 0 {
                    push_item(&mut list, ListItem::Heading("sop:".to_owned()));
                    push_versions(&mut list, sop_versions, &config.default_sop);
                }
                assert(items(list@) =~= tool_section("go:"@, texts(go_versions@), None)
                    + tool_section("sop:"@, texts(sop_versions@), config@.default_sop));
            }
            Ok(list)
        },
    }
}

/// The command that a hint advises: `sopmod install <tool> latest`.
pub fn hint_command(tool: Tool) -> (r: String)
    ensures
        r@ == "sopmod install "@ + crate::install::tool_name_of(tool) + " latest"@,
{
    let mut r = joined("sopmod install ", crate::install::tool_name(tool));
    r.append(" latest");
    r
}

/// An installed version and its program.
#[derive(Debug, Clone)]
pub struct Located {
    /// The version.
    pub version: String,
    /// Where its program is.
    pub path: Vec<String>,
}

/// What `which` shows.
#[derive(Debug, Clone)]
pub enum Which {
    /// Every installed `go` version with its program.
    GoVersions(Vec<Located>),
    /// The program of the default `sop` version.
    SopPath(Vec<String>),
}

/// What is said where no version of a tool is installed.
pub open spec fn none_installed_of(tool: Tool) -> Seq<char> {
    "No "@ + crate::install::tool_name_of(tool) + " versions installed. Run `sopmod install "@
        + crate::install::tool_name_of(tool) + " latest`"@
}

/// Says that no version of a tool is installed.
fn none_installed(tool: Tool) -> (r: String)
    ensures
        r@ == none_installed_of(tool),
{
    let mut r = joined("No ", crate::install::tool_name(tool));
    r.append(" versions installed. Run `sopmod install ");
    r.append(crate::install::tool_name(tool));
    r.append(" latest`");
    r
}

/// Whether `located` names every `go` version, in order, each with its program.
pub open spec fn locates(
    located: Seq<Located>,
    go_versions: Seq<Seq<char>>,
    windows: bool,
) -> bool {
    &&& located.len() == go_versions.len()
    &&& forall|i: int|
        0 <= i < located.len() ==> (#[trigger] located[i]).version@ == go_versions[i] && texts(
            located[i].path@,
        ) == go_binary_parts(go_versions[i], windows)
}

/// Whether `r` is what `which <tool>` shows.
///
/// For `go`, every installed version with its program; it is an error if
/// none is installed. For `sop`, the program of the default version: it is
/// an error if that program is not there, if no default is set, or if
/// nothing is installed. `default_found` and `default_shown` say whether
/// the program of the default version is there and how it is shown.
pub open spec fn which_of(
    tool: Seq<char>,
    default_sop: Option<Seq<char>>,
    windows: bool,
    go_versions: Seq<Seq<char>>,
    sop_versions: Seq<Seq<char>>,
    default_found: bool,
    default_shown: Seq<char>,
    r: Result<Which, CommandError>,
) -> bool {
    match tool_of(tool) {
        Some(Tool::Go) => if go_versions.len() == 0 {
            r matches Err(CommandError::Message(text)) && text@ == none_installed_of(Tool::Go)
        } else {
            r matches Ok(Which::GoVersions(located)) && locates(located@, go_versions, windows)
        },
        Some(Tool::Sop) => match default_sop {
            Some(version) => if default_found {
                r matches Ok(Which::SopPath(path)) && texts(path@) == sop_binary_parts(
                    version,
                    windows,
                )
            } else {
                r matches Err(CommandError::Message(text)) && text@ == "sop "@ + version
                    + " is set as default but not found at "@ + default_shown
            },
            None => if sop_versions.len() == 0 {
                r matches Err(CommandError::Message(text)) && text@ == none_installed_of(Tool::Sop)
            } else {
                r matches Err(CommandError::Message(text)) && text@
                    == "No default sop version set. Run `sopmod default sop "@ + sop_versions[0]
                    + "`"@
            },
        },
        None => r matches Err(CommandError::Message(text)) && text@ == unknown_tool_of(tool),
    }
}

/// Decides what `which <tool>` shows.
pub fn cmd_which(
    tool: &str,
    config: &Config,
    windows: bool,
    go_versions: &Vec<String>,
    sop_versions: &Vec<String>,
    default_found: bool,
    default_shown: &str,
) -> (r: Result<Which, CommandError>)
    ensures
        which_of(
            tool@,
            config@.default_sop,
            windows,
            texts(go_versions@),
            texts(sop_versions@),
            default_found,
            default_shown@,
            r,
        ),
{
    assert(texts(go_versions@).len() == go_versions@.len());
    assert(texts(sop_versions@).len() == sop_versions@.len());
    match tool_from_name(tool) {
        Some(Tool::Go) => {
            if go_versions.len() == 0 {
                return Err(CommandError::Message(none_installed(Tool::Go)));
            }
            let mut located: Vec<Located> = Vec::new();
            let mut i: usize = 0;
            while i < go_versions.len()
                invariant
                    i <= go_versions.len(),
                    located@.len() == i,
                    forall|k: int|
                        0 <= k < i ==> (#[trigger] located@[k]).version@ == go_versions@[k]@
                            && texts(located@[k].path@) == go_binary_parts(
                            go_versions@[k]@,
                            windows,
                        ),
                decreases go_versions.len() - i,
            {
                located.push(
                    Located {
                        version: go_versions[i].clone(),
                        path: go_binary(go_versions[i].as_str(), windows),
                    },
                );
                i = i + 1;
            }
            Ok(Which::GoVersions(located))
        },
        Some(Tool::Sop) => match &config.default_sop {
            Some(version) => {
                if default_found {
                    Ok(Which::SopPath(sop_binary(version.as_str(), windows)))
                } else {
                    let mut text = joined("sop ", version.as_str());
                    text.append(" is set as default but not found at ");
                    text.append(default_shown);
                    Err(CommandError::Message(text))
                }
            },
            None => {
                if sop_versions.len() == 0 {
                    Err(CommandError::Message(none_installed(Tool::Sop)))
                } else {
                    assert(texts(sop_versions@)[0] == sop_versions@[0]@);
                    let mut text = joined(
                        "No default sop version set. Run `sopmod default sop ",
                        sop_versions[0].as_str(),
                    );
                    text.append("`");
                    Err(CommandError::Message(text))
                }
            },
        },
        None => Err(CommandError::Message(unknown_tool(tool))),
    }
}

/// How the user puts the `bin` directory on the search path.
#[derive(Debug, Clone)]
pub struct PathHint {
    /// The directory, as it is shown.
    pub directory: String,
    /// The line for the user's shell.
    pub command: String,
}

/// Whether the user is told to put the `bin` directory on the search
/// path: always, unless the search path is known and holds the directory.
pub open spec fn needs_path_hint_of(search_path: Option<Seq<char>>, bin_dir: Seq<char>) -> bool {
    match search_path {
        Some(value) => !occurs_in(bin_dir, value),
        None => true,
    }
}

/// The line for the user's shell: PowerShell on Windows, a POSIX shell elsewhere.
pub open spec fn path_command_of(windows: bool) -> Seq<char> {
    if windows {
        "$env:PATH = \"$HOME\\.sopmod\\bin;$env:PATH\""@
    } else {
        "export PATH=\"$HOME/.sopmod/bin:$PATH\""@
    }
}

/// Decides whether the user is told to put the `bin` directory on the
/// search path, and with which line. `search_path` is the value of `PATH`
/// if it could be read, `bin_dir` the `bin` directory as a text.
pub fn print_path_hint(search_path: Option<&str>, bin_dir: &str, windows: bool) -> (r: Option<
    PathHint,
>)
    ensures
        match r {
            Some(hint) => {
                &&& needs_path_hint_of(
                    match search_path {
                        Some(value) => Some(value@),
                        None => None,
                    },
                    bin_dir@,
                )
                &&& hint.directory@ == "~/.sopmod/bin"@
                &&& hint.command@ == path_command_of(windows)
            },
            None => search_path matches Some(value) && occurs_in(bin_dir@, value@),
        },
{
    let known = match search_path {
        Some(value) => contains(value, bin_dir),
        None => false,
    };
    if known {
        None
    } else {
        Some(
            PathHint {
                directory: "~/.sopmod/bin".to_owned(),
                command: if windows {
                    "$env:PATH = \"$HOME\\.sopmod\\bin;$env:PATH\"".to_owned()
                } else {
                    "export PATH=\"$HOME/.sopmod/bin:$PATH\"".to_owned()
                },
            },
        )
    }
}

} // verus!
