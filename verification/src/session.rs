//! A command under way.
//!
//! [`Session`] is a state machine of the same shape as the installer:
//! [`Session::request`] gives the pending request, and [`Session::advance`]
//! takes the answer and may hand back a [`Notice`] for the user. Installing a
//! version is one request of a session; the caller runs an installation for
//! it and answers with the version.

use crate::commands::{
    is_affirmative, is_affirmative_of, is_newest_compatible, newest_compatible, should_advance,
    should_advance_of, CommandError,
};
use crate::compat::{go_compat, go_compat_of};
use crate::config::{opt_text, Config, ConfigValue};
use crate::effects::{Reply, Request};
use crate::error::InstallError;
use crate::install::{
    fetch_go_index, fetch_latest_sop, go_index_url, remove_version, sop_latest_url, tool_dir,
    tool_dir_parts, tool_name, tool_name_of, user_agent,
};
use crate::paths::{sop_binary, sop_binary_parts, sop_symlink, sop_symlink_parts};
use crate::resolve::{
    go_resolution, needs_network, needs_network_of, resolve_go_version, resolve_sop_version,
    sop_resolution, Tool,
};
use crate::text::{contains_text, joined, str_eq, texts};
use vstd::prelude::*;

verus! {

/// Something to tell the user while a command runs.
#[derive(Debug, Clone)]
pub enum Notice {
    /// The default `sop` version has been set.
    DefaultSopSet { version: String },
    /// The default `sop` version has moved on to the latest release.
    DefaultSopUpdated { version: String },
    /// The `go` version that goes with the default `sop` has been chosen.
    DefaultGoSet { go: String, sop: String },
    /// No installed `go` runs the default `sop`; the lowest that does is
    /// about to be installed.
    InstallingRequiredGo { go: String, sop: String },
    /// The latest release is installed already.
    AlreadyLatest { tool: Tool, version: String },
    /// A version has been removed.
    Removed { tool: Tool, version: String },
}

impl Notice {
    /// The sentence of the notice.
    pub open spec fn text_of(self) -> Seq<char> {
        match self {
            Notice::DefaultSopSet { version } => "Default sop version set to "@ + version@,
            Notice::DefaultSopUpdated { version } => "Default sop version updated to "@
                + version@,
            Notice::DefaultGoSet { go, sop } => "Default go version set to "@ + go@
                + " (compatible with sop "@ + sop@ + ")"@,
            Notice::InstallingRequiredGo { go, sop } => "Installing go "@ + go@
                + " (required by sop "@ + sop@ + ")..."@,
            Notice::AlreadyLatest { tool, version } => tool_name_of(tool) + " "@ + version@
                + " is already the latest version"@,
            Notice::Removed { tool, version } => "Removed "@ + tool_name_of(tool) + " "@
                + version@,
        }
    }

    /// Renders the notice.
    pub fn text(&self) -> (r: String)
        ensures
            r@ == self.text_of(),
    {
        match self {
            Notice::DefaultSopSet { version } => joined(
                "Default sop version set to ",
                version.as_str(),
            ),
            Notice::DefaultSopUpdated { version } => joined(
                "Default sop version updated to ",
                version.as_str(),
            ),
            Notice::DefaultGoSet { go, sop } => {
                let mut r = joined("Default go version set to ", go.as_str());
                r.append(" (compatible with sop ");
                r.append(sop.as_str());
                r.append(")");
                r
            },
            Notice::InstallingRequiredGo { go, sop } => {
                let mut r = joined("Installing go ", go.as_str());
                r.append(" (required by sop ");
                r.append(sop.as_str());
                r.append(")...");
                r
            },
            Notice::AlreadyLatest { tool, version } => {
                let mut r = joined(tool_name(*tool), " ");
                r.append(version.as_str());
                r.append(" is already the latest version");
                r
            },
            Notice::Removed { tool, version } => {
                let mut r = joined("Removed ", tool_name(*tool));
                r.append(" ");
                r.append(version.as_str());
                r
            },
        }
    }
}

/// The command that a session carries out.
#[derive(Debug, Clone, Copy, PartialEq, Eq, Structural)]
pub enum Command {
    /// Make a `sop` version the default.
    Default,
    /// Remove an installed version.
    Remove,
    /// Install the latest release; `then_sop` asks for `sop` after `go`.
    Update { then_sop: bool },
}

/// How a command ended.
#[derive(Debug, Clone, Copy, PartialEq, Eq, Structural)]
pub enum Outcome {
    /// The command was carried out.
    Completed,
    /// The user declined, and nothing was changed.
    Declined,
}

/// Where a session stands. Every stage but the last waits for the answer to
/// one request.
#[derive(Debug)]
pub enum Stage {
    /// The release index, or the latest release, has been asked for.
    Resolving { tool: Tool },
    /// The installed versions of the tool have been asked for.
    Listing { tool: Tool, version: String },
    /// The user is being asked whether the version shall be installed.
    Confirming { version: String },
    /// The version is being installed; `advance` says whether the default
    /// moves on to it afterwards.
    Installing { tool: Tool, version: String, advance: bool },
    /// The link is being pointed at the version.
    Relinking { version: String, updated: bool },
    /// The installed `go` versions have been asked for, to pair one with
    /// the `sop` version.
    ListingRuntime { version: String },
    /// The `go` version that the `sop` version needs is being installed.
    InstallingRuntime { version: String, go: String },
    /// The configuration is being written.
    Saving,
    /// The version's directory is being looked for.
    CheckingPresence { tool: Tool, version: String },
    /// The version's directory is being deleted.
    Removing { tool: Tool, version: String },
    /// Nothing is left to do.
    Finished(Result<Outcome, CommandError>),
}

/// A command under way.
#[derive(Debug)]
pub struct Session {
    /// The command.
    pub command: Command,
    /// The version as the user wrote it; `latest` for an update.
    pub requested: String,
    /// Whether the system is Windows.
    pub windows: bool,
    /// The configuration as it stands; it is written when the session asks for it.
    pub config: Config,
    /// Where the session stands.
    pub stage: Stage,
}

/// The configuration with `version` as the default `sop`.
pub open spec fn with_default_sop(config: ConfigValue, version: Seq<char>) -> ConfigValue {
    ConfigValue { default_sop: Some(version), default_go: config.default_go }
}

/// The configuration with `version` as the default `go`.
pub open spec fn with_default_go(config: ConfigValue, version: Seq<char>) -> ConfigValue {
    ConfigValue { default_sop: config.default_sop, default_go: Some(version) }
}

/// The default version of a tool in a configuration.
pub open spec fn default_of(config: ConfigValue, tool: Tool) -> Option<Seq<char>> {
    match tool {
        Tool::Go => config.default_go,
        Tool::Sop => config.default_sop,
    }
}

/// The configuration after the version `removed` of `tool` is gone: the
/// default of the tool is cleared if it named that version, and kept if
/// not; the default of the other tool stays.
pub open spec fn without_removed(config: ConfigValue, tool: Tool, removed: Seq<char>) -> ConfigValue {
    if default_of(config, tool) == Some(removed) {
        match tool {
            Tool::Go => ConfigValue { default_sop: config.default_sop, default_go: None },
            Tool::Sop => ConfigValue { default_sop: None, default_go: config.default_go },
        }
    } else {
        config
    }
}

/// Whether an optional text is the text `version`.
fn names(default: &Option<String>, version: &str) -> (r: bool)
    ensures
        r == (opt_text(*default) == Some(version@)),
{
    match default {
        Some(d) => str_eq(d.as_str(), version),
        None => false,
    }
}

/// Clears the default of `tool` if it names the version that was removed,
/// and tells whether it did.
fn forget_removed(config: Config, tool: Tool, removed: &str) -> (r: (Config, bool))
    ensures
        r.0@ == without_removed(config@, tool, removed@),
        r.1 == (default_of(config@, tool) == Some(removed@)),
{
    match tool {
        Tool::Go => if names(&config.default_go, removed) {
            (Config { default_sop: config.default_sop, default_go: None }, true)
        } else {
            (config, false)
        },
        Tool::Sop => if names(&config.default_sop, removed) {
            (Config { default_sop: None, default_go: config.default_go }, true)
        } else {
            (config, false)
        },
    }
}

/// Whether `failure` is what a session ends with when a request fails with
/// `e`. While the user is asked, the link is set or the configuration is
/// written, a failure of the filesystem is shown with its own text alone.
pub open spec fn failure_of(stage: Stage, e: InstallError, failure: CommandError) -> bool {
    let plain = stage is Confirming || stage is Relinking || stage is Saving;
    match e {
        InstallError::Io(detail) => if plain {
            failure matches CommandError::Message(text) && text@ == detail@
        } else {
            failure == CommandError::Install(e)
        },
        _ => failure == CommandError::Install(e),
    }
}

/// Whether `stage` is where a command stands once the specifier of `tool`
/// is resolved to `version`: a removal looks for the version's directory,
/// the other commands list what is installed.
pub open spec fn resolved_stage(
    command: Command,
    tool: Tool,
    version: Seq<char>,
    stage: Stage,
) -> bool {
    match command {
        Command::Remove => {
            &&& stage matches Stage::CheckingPresence { tool: t, version: v }
            &&& t == tool
            &&& v@ == version
        },
        _ => {
            &&& stage matches Stage::Listing { tool: t, version: v }
            &&& t == tool
            &&& v@ == version
        },
    }
}

/// Whether `stage` is where a command begins with the specifier
/// `requested` of `tool`: it asks the network where the specifier needs it,
/// and else counts as resolved to the specifier itself.
pub open spec fn first_stage(
    command: Command,
    tool: Tool,
    requested: Seq<char>,
    stage: Stage,
) -> bool {
    if needs_network_of(requested) {
        stage == (Stage::Resolving { tool })
    } else {
        resolved_stage(command, tool, requested, stage)
    }
}

/// Whether `after` and `stage` are what the default moving to `version`
/// leads to: the configuration names the version, and the link is about to
/// be pointed at it.
pub open spec fn switched(
    before: ConfigValue,
    version: Seq<char>,
    updated: bool,
    after: ConfigValue,
    stage: Stage,
) -> bool {
    &&& after == with_default_sop(before, version)
    &&& stage matches Stage::Relinking { version: v, updated: u }
    &&& v@ == version
    &&& u == updated
}

/// Whether `after` and `stage` are what an update leads to once the latest
/// `version` of `tool` is installed: after `go` it may go on to `sop`;
/// after `sop` the default moves on if `advance` says so; else it ends.
pub open spec fn updated(
    command: Command,
    before: ConfigValue,
    tool: Tool,
    version: Seq<char>,
    advance: bool,
    after: ConfigValue,
    stage: Stage,
) -> bool {
    match tool {
        Tool::Go => {
            &&& after == before
            &&& if command == (Command::Update { then_sop: true }) {
                stage == (Stage::Resolving { tool: Tool::Sop })
            } else {
                stage == Stage::Finished(Ok(Outcome::Completed))
            }
        },
        Tool::Sop => if advance {
            switched(before, version, true, after, stage)
        } else {
            after == before && stage == Stage::Finished(Ok(Outcome::Completed))
        },
    }
}

/// Whether `after`, `next` and `notice` are the configuration, the stage and
/// the notice that follow when `reply` arrives in `stage`.
///
/// A finished session stays as it is. A failure of the request ends the
/// session with that failure. A reply that does not answer the pending
/// request is passed over.
pub open spec fn transition(
    command: Command,
    requested: Seq<char>,
    before: ConfigValue,
    stage: Stage,
    reply: Reply,
    after: ConfigValue,
    next: Stage,
    notice: Option<Notice>,
) -> bool {
    match (stage, reply) {
        (Stage::Finished(_), _) => next == stage && after == before && notice is None,
        (_, Reply::Failed(e)) => {
            &&& next matches Stage::Finished(Err(failure))
            &&& failure_of(stage, e, failure)
            &&& after == before
            &&& notice is None
        },
        (Stage::Resolving { tool }, Reply::GoIndex(index)) => {
            &&& after == before
            &&& notice is None
            &&& if tool == Tool::Go {
                match go_resolution(requested, index@) {
                    Some(version) => resolved_stage(command, tool, version, next),
                    None => {
                        &&& next matches Stage::Finished(
                            Err(CommandError::Install(InstallError::VersionNotFound(d))),
                        )
                        &&& d@ == requested
                    },
                }
            } else {
                next == stage
            }
        },
        (Stage::Resolving { tool }, Reply::LatestTag(tag)) => {
            &&& after == before
            &&& notice is None
            &&& if tool == Tool::Sop {
                match sop_resolution(requested, tag@) {
                    Some(version) => resolved_stage(command, tool, version, next),
                    None => {
                        &&& next matches Stage::Finished(
                            Err(CommandError::Install(InstallError::VersionNotFound(d))),
                        )
                        &&& d@ == requested
                    },
                }
            } else {
                next == stage
            }
        },
        (Stage::Listing { tool, version }, Reply::Versions(installed)) => {
            let present = texts(installed@).contains(version@);
            match command {
                Command::Default => notice is None && if present {
                    switched(before, version@, false, after, next)
                } else {
                    &&& after == before
                    &&& next matches Stage::Confirming { version: v }
                    &&& v@ == version@
                },
                Command::Update { then_sop } => {
                    let advance = tool == Tool::Sop && should_advance_of(
                        before.default_sop,
                        texts(installed@),
                        version@,
                    );
                    if present {
                        &&& notice matches Some(Notice::AlreadyLatest { tool: t, version: v })
                        &&& t == tool
                        &&& v@ == version@
                        &&& updated(command, before, tool, version@, advance, after, next)
                    } else {
                        &&& notice is None
                        &&& after == before
                        &&& next matches Stage::Installing { tool: t, version: v, advance: a }
                        &&& t == tool
                        &&& v@ == version@
                        &&& a == advance
                    }
                },
                Command::Remove => next == stage && after == before && notice is None,
            }
        },
        (Stage::Confirming { version }, Reply::Answer(line)) => {
            &&& after == before
            &&& notice is None
            &&& if is_affirmative_of(line@) {
                &&& next matches Stage::Installing { tool, version: v, advance }
                &&& tool == Tool::Sop
                &&& v@ == version@
                &&& advance
            } else {
                next == Stage::Finished(Ok(Outcome::Declined))
            }
        },
        (Stage::Installing { tool, version, advance }, Reply::Installed(_)) => {
            &&& notice is None
            &&& match command {
                Command::Default => switched(before, version@, false, after, next),
                _ => updated(command, before, tool, version@, advance, after, next),
            }
        },
        (Stage::Relinking { version, updated }, Reply::Done) => {
            &&& after == before
            &&& if updated {
                notice matches Some(Notice::DefaultSopUpdated { version: v }) && v@ == version@
            } else {
                notice matches Some(Notice::DefaultSopSet { version: v }) && v@ == version@
            }
            &&& if go_compat_of(version@) is Some {
                next matches Stage::ListingRuntime { version: v } && v@ == version@
            } else {
                next == Stage::Saving
            }
        },
        (Stage::ListingRuntime { version }, Reply::Versions(installed)) => {
            match go_compat_of(version@) {
                None => next == Stage::Saving && after == before && notice is None,
                Some(range) => if exists|i: int|
                    is_newest_compatible(texts(installed@), version@, i) {
                    &&& next == Stage::Saving
                    &&& notice matches Some(Notice::DefaultGoSet { go, sop })
                    &&& sop@ == version@
                    &&& exists|i: int| #[trigger]
                        is_newest_compatible(texts(installed@), version@, i) && go@ == texts(
                            installed@,
                        )[i]
                    &&& after == with_default_go(before, go@)
                } else {
                    &&& after == before
                    &&& next matches Stage::InstallingRuntime { version: v, go: g }
                    &&& v@ == version@
                    &&& g@ == range.min@
                    &&& notice matches Some(Notice::InstallingRequiredGo { go, sop })
                    &&& go@ == range.min@
                    &&& sop@ == version@
                },
            }
        },
        (Stage::InstallingRuntime { version, go }, Reply::Installed(installed)) => {
            &&& next == Stage::Saving
            &&& after == with_default_go(before, installed@)
            &&& notice matches Some(Notice::DefaultGoSet { go: g, sop })
            &&& g@ == installed@
            &&& sop@ == version@
        },
        (Stage::Saving, Reply::Done) => {
            &&& next == Stage::Finished(Ok(Outcome::Completed))
            &&& after == before
            &&& notice is None
        },
        (Stage::CheckingPresence { tool, version }, Reply::Exists { found, shown }) => {
            &&& after == before
            &&& notice is None
            &&& if found {
                &&& next matches Stage::Removing { tool: t, version: v }
                &&& t == tool
                &&& v@ == version@
            } else {
                &&& next matches Stage::Finished(
                    Err(CommandError::Install(InstallError::VersionNotFound(d))),
                )
                &&& d@ == tool_name_of(tool) + " "@ + version@
            }
        },
        (Stage::Removing { tool, version }, Reply::Done) => {
            &&& notice matches Some(Notice::Removed { tool: t, version: v })
            &&& t == tool
            &&& v@ == version@
            &&& after == without_removed(before, tool, version@)
            &&& if default_of(before, tool) == Some(version@) {
                next == Stage::Saving
            } else {
                next == Stage::Finished(Ok(Outcome::Completed))
            }
        },
        _ => next == stage && after == before && notice is None,
    }
}

/// The stage of a command whose specifier of `tool` is resolved to `version`.
fn stage_after_resolving(command: Command, tool: Tool, version: String) -> (stage: Stage)
    ensures
        resolved_stage(command, tool, version@, stage),
{
    match command {
        Command::Remove => Stage::CheckingPresence { tool, version },
        _ => Stage::Listing { tool, version },
    }
}

/// The configuration and the stage when the default moves to `version`.
fn switch_to(config: Config, version: String, updated: bool) -> (r: (Config, Stage))
    ensures
        switched(config@, version@, updated, r.0@, r.1),
{
    (
        Config { default_sop: Some(version.clone()), default_go: config.default_go },
        Stage::Relinking { version, updated },
    )
}

/// The configuration and the stage of an update once the latest `version`
/// of `tool` is installed.
fn after_update(command: Command, config: Config, tool: Tool, version: String, advance: bool) -> (r:
    (Config, Stage))
    ensures
        updated(command, config@, tool, version@, advance, r.0@, r.1),
{
    match tool {
        Tool::Go => match command {
            Command::Update { then_sop: true } => (config, Stage::Resolving { tool: Tool::Sop }),
            _ => (config, Stage::Finished(Ok(Outcome::Completed))),
        },
        Tool::Sop => if advance {
            switch_to(config, version, true)
        } else {
            (config, Stage::Finished(Ok(Outcome::Completed)))
        },
    }
}

impl Session {
    /// Whether the session has ended.
    pub open spec fn is_finished(self) -> bool {
        self.stage is Finished
    }

    /// Whether the session has ended with `outcome`.
    pub open spec fn ended(self, outcome: Outcome) -> bool {
        self.stage == Stage::Finished(Ok(outcome))
    }

    /// Whether the session has ended with the message `text`.
    pub open spec fn refused(self, text: Seq<char>) -> bool {
        &&& self.stage matches Stage::Finished(Err(CommandError::Message(t)))
        &&& t@ == text
    }

    /// Whether the session carries out `command` for `requested` on a
    /// system that is Windows or not, with the configuration `config`.
    pub open spec fn runs(
        self,
        command: Command,
        requested: Seq<char>,
        windows: bool,
        config: ConfigValue,
    ) -> bool {
        &&& self.command == command
        &&& self.requested@ == requested
        &&& self.windows == windows
        &&& self.config@ == config
    }

    /// Whether the state is one that a session can be in.
    ///
    /// An update asks for `latest`. Only a specifier that needs it is
    /// resolved over the network. Setting the default concerns `sop` alone,
    /// and only it asks the user; only a removal looks for a directory and
    /// deletes it. From the moment the link is set until the configuration
    /// is written, the configuration names the version as the default `sop`;
    /// a `go` version is installed for it only if it has a requirement, and
    /// then the lowest that it accepts.
    pub open spec fn wf(self) -> bool {
        &&& self.command is Update ==> self.requested@ == "latest"@
        &&& match self.stage {
            Stage::Resolving { tool } => {
                &&& needs_network_of(self.requested@)
                &&& self.command == Command::Default ==> tool == Tool::Sop
            },
            Stage::Listing { tool, version } => {
                &&& self.command != Command::Remove
                &&& self.command == Command::Default ==> tool == Tool::Sop
            },
            Stage::Confirming { version } => self.command == Command::Default,
            Stage::Installing { tool, version, advance } => {
                &&& self.command != Command::Remove
                &&& self.command == Command::Default ==> tool == Tool::Sop && advance
                &&& tool == Tool::Go ==> !advance
            },
            Stage::Relinking { version, updated } => {
                &&& self.command != Command::Remove
                &&& updated == (self.command is Update)
                &&& self.config@.default_sop == Some(version@)
            },
            Stage::ListingRuntime { version } => {
                &&& self.command != Command::Remove
                &&& self.config@.default_sop == Some(version@)
                &&& go_compat_of(version@) is Some
            },
            Stage::InstallingRuntime { version, go } => {
                &&& self.command != Command::Remove
                &&& self.config@.default_sop == Some(version@)
                &&& go_compat_of(version@) matches Some(range)
                &&& go@ == range.min@
            },
            Stage::Saving => true,
            Stage::CheckingPresence { tool, version } => self.command == Command::Remove,
            Stage::Removing { tool, version } => self.command == Command::Remove,
            Stage::Finished(_) => true,
        }
    }

    /// Whether `request` is what the session asks for in its stage.
    pub open spec fn asks(self, request: Option<Request>) -> bool {
        match self.stage {
            Stage::Resolving { tool } => match tool {
                Tool::Go => {
                    &&& request matches Some(Request::FetchGoIndex { url })
                    &&& url@ == go_index_url()
                },
                Tool::Sop => {
                    &&& request matches Some(Request::FetchLatestSop { url, agent })
                    &&& url@ == sop_latest_url()
                    &&& agent@ == user_agent()
                },
            },
            Stage::Listing { tool, version } => {
                &&& request matches Some(Request::ListInstalled { tool: t })
                &&& t == tool
            },
            Stage::Confirming { version } => {
                &&& request matches Some(Request::Confirm { tool, version: v })
                &&& tool == Tool::Sop
                &&& v@ == version@
            },
            Stage::Installing { tool, version, advance } => {
                &&& request matches Some(Request::Install { tool: t, version: v })
                &&& t == tool
                &&& v@ == version@
            },
            Stage::Relinking { version, updated } => {
                &&& request matches Some(Request::Relink { target, link })
                &&& texts(target@) == sop_binary_parts(version@, self.windows)
                &&& texts(link@) == sop_symlink_parts(self.windows)
            },
            Stage::ListingRuntime { version } => {
                &&& request matches Some(Request::ListInstalled { tool })
                &&& tool == Tool::Go
            },
            Stage::InstallingRuntime { version, go } => {
                &&& request matches Some(Request::Install { tool, version: v })
                &&& tool == Tool::Go
                &&& v@ == go@
            },
            Stage::Saving => {
                &&& request matches Some(Request::SaveConfig { config })
                &&& config@ == self.config@
            },
            Stage::CheckingPresence { tool, version } => {
                &&& request matches Some(Request::Exists { path })
                &&& texts(path@) == tool_dir_parts(tool, version@)
            },
            Stage::Removing { tool, version } => {
                &&& request matches Some(Request::RemoveDir { path })
                &&& texts(path@) == tool_dir_parts(tool, version@)
            },
            Stage::Finished(_) => request is None,
        }
    }

    /// Whether `next` and `notice` are what the session becomes, and what
    /// it tells the user, on `reply`: the command stays the same, and the
    /// configuration and the stage change as [`transition`] says.
    pub open spec fn advanced(self, reply: Reply, next: Session, notice: Option<Notice>) -> bool {
        &&& next.command == self.command
        &&& next.requested@ == self.requested@
        &&& next.windows == self.windows
        &&& transition(
            self.command,
            self.requested@,
            self.config@,
            self.stage,
            reply,
            next.config@,
            next.stage,
            notice,
        )
    }

    /// Begins `command` with the specifier `requested` of `tool`.
    pub fn begin(
        command: Command,
        tool: Tool,
        requested: &str,
        config: Config,
        windows: bool,
    ) -> (next: Session)
        ensures
            next.runs(command, requested@, windows, config@),
            first_stage(command, tool, requested@, next.stage),
            (command == Command::Default ==> tool == Tool::Sop) && (command is Update
                ==> requested@ == "latest"@) ==> next.wf(),
    {
        let stage = if needs_network(requested) {
            Stage::Resolving { tool }
        } else {
            stage_after_resolving(command, tool, requested.to_owned())
        };
        Session { command, requested: requested.to_owned(), windows, config, stage }
    }

    /// A session that has ended with the message `text` before it began.
    pub fn refuse(
        command: Command,
        requested: &str,
        config: Config,
        windows: bool,
        text: String,
    ) -> (next: Session)
        ensures
            next.runs(command, requested@, windows, config@),
            next.refused(text@),
            (command is Update ==> requested@ == "latest"@) ==> next.wf(),
    {
        Session {
            command,
            requested: requested.to_owned(),
            windows,
            config,
            stage: Stage::Finished(Err(CommandError::Message(text))),
        }
    }

    /// The request that the session waits to have answered; `None` once it
    /// has ended.
    pub fn request(&self) -> (request: Option<Request>)
        ensures
            self.asks(request),
    {
        match &self.stage {
            Stage::Resolving { tool } => match tool {
                Tool::Go => Some(fetch_go_index()),
                Tool::Sop => Some(fetch_latest_sop()),
            },
            Stage::Listing { tool, version } => Some(Request::ListInstalled { tool: *tool }),
            Stage::Confirming { version } => Some(
                Request::Confirm { tool: Tool::Sop, version: version.clone() },
            ),
            Stage::Installing { tool, version, advance } => Some(
                Request::Install { tool: *tool, version: version.clone() },
            ),
            Stage::Relinking { version, updated } => Some(
                Request::Relink {
                    target: sop_binary(version.as_str(), self.windows),
                    link: sop_symlink(self.windows),
                },
            ),
            Stage::ListingRuntime { version } => Some(Request::ListInstalled { tool: Tool::Go }),
            Stage::InstallingRuntime { version, go } => Some(
                Request::Install { tool: Tool::Go, version: go.clone() },
            ),
            Stage::Saving => Some(Request::SaveConfig { config: self.config.copy() }),
            Stage::CheckingPresence { tool, version } => Some(
                Request::Exists { path: tool_dir(*tool, version.as_str()) },
            ),
            Stage::Removing { tool, version } => Some(
                Request::RemoveDir { path: tool_dir(*tool, version.as_str()) },
            ),
            Stage::Finished(_) => None,
        }
    }

    /// Takes the answer to the pending request, and hands back what the
    /// user is to be told before the next request.
    pub fn advance(self, reply: Reply) -> (r: (Session, Option<Notice>))
        ensures
            self.advanced(reply, r.0, r.1),
            self.wf() ==> r.0.wf(),
    {
        let Session { command, requested, windows, config, stage } = self;
        let (config, stage, notice) = match (stage, reply) {
            (Stage::Finished(outcome), _) => (config, Stage::Finished(outcome), None),
            (stage, Reply::Failed(e)) => {
                let plain = match &stage {
                    Stage::Confirming { .. } => true,
                    Stage::Relinking { .. } => true,
                    Stage::Saving => true,
                    _ => false,
                };
                let failure = match e {
                    InstallError::Io(detail) => if plain {
                        CommandError::Message(detail)
                    } else {
                        CommandError::Install(InstallError::Io(detail))
                    },
                    other => CommandError::Install(other),
                };
                (config, Stage::Finished(Err(failure)), None)
            },
            (Stage::Resolving { tool }, Reply::GoIndex(index)) => match tool {
                Tool::Go => match resolve_go_version(requested.as_str(), &index) {
                    Ok(version) => (config, stage_after_resolving(command, tool, version), None),
                    Err(e) => (config, Stage::Finished(Err(CommandError::Install(e))), None),
                },
                Tool::Sop => (config, Stage::Resolving { tool }, None),
            },
            (Stage::Resolving { tool }, Reply::LatestTag(tag)) => match tool {
                Tool::Sop => match resolve_sop_version(requested.as_str(), tag.as_str()) {
                    Ok(version) => (config, stage_after_resolving(command, tool, version), None),
                    Err(e) => (config, Stage::Finished(Err(CommandError::Install(e))), None),
                },
                Tool::Go => (config, Stage::Resolving { tool }, None),
            },
            (Stage::Listing { tool, version }, Reply::Versions(installed)) => {
                let present = contains_text(&installed, version.as_str());
                match command {
                    Command::Default => if present {
                        let (config, stage) = switch_to(config, version, false);
                        (config, stage, None)
                    } else {
                        (config, Stage::Confirming { version }, None)
                    },
                    Command::Update { then_sop } => {
                        let advance = match tool {
                            Tool::Sop => should_advance(
                                &config.default_sop,
                                &installed,
                                version.as_str(),
                            ),
                            Tool::Go => false,
                        };
                        if present {
                            let notice = Notice::AlreadyLatest { tool, version: version.clone() };
                            let (config, stage) = after_update(
                                command,
                                config,
                                tool,
                                version,
                                advance,
                            );
                            (config, stage, Some(notice))
                        } else {
                            (config, Stage::Installing { tool, version, advance }, None)
                        }
                    },
                    Command::Remove => (config, Stage::Listing { tool, version }, None),
                }
            },
            (Stage::Confirming { version }, Reply::Answer(line)) => {
                if is_affirmative(line.as_str()) {
                    (config, Stage::Installing { tool: Tool::Sop, version, advance: true }, None)
                } else {
                    (config, Stage::Finished(Ok(Outcome::Declined)), None)
                }
            },
            (Stage::Installing { tool, version, advance }, Reply::Installed(_)) => {
                let (config, stage) = match command {
                    Command::Default => switch_to(config, version, false),
                    _ => after_update(command, config, tool, version, advance),
                };
                (config, stage, None)
            },
            (Stage::Relinking { version, updated }, Reply::Done) => {
                let notice = if updated {
                    Notice::DefaultSopUpdated { version: version.clone() }
                } else {
                    Notice::DefaultSopSet { version: version.clone() }
                };
                let stage = match go_compat(version.as_str()) {
                    Some(_) => Stage::ListingRuntime { version },
                    None => Stage::Saving,
                };
                (config, stage, Some(notice))
            },
            (Stage::ListingRuntime { version }, Reply::Versions(installed)) => {
                match go_compat(version.as_str()) {
                    None => (config, Stage::Saving, None),
                    Some(range) => match newest_compatible(&installed, version.as_str()) {
                        Some(i) => {
                            let go = installed[i].clone();
                            assert(texts(installed@)[i as int] == go@);
                            let notice = Notice::DefaultGoSet { go: go.clone(), sop: version };
                            (
                                Config { default_sop: config.default_sop, default_go: Some(go) },
                                Stage::Saving,
                                Some(notice),
                            )
                        },
                        None => {
                            let notice = Notice::InstallingRequiredGo {
                                go: range.min.to_owned(),
                                sop: version.clone(),
                            };
                            (
                                config,
                                Stage::InstallingRuntime { version, go: range.min.to_owned() },
                                Some(notice),
                            )
                        },
                    },
                }
            },
            (Stage::InstallingRuntime { version, go }, Reply::Installed(installed)) => {
                let notice = Notice::DefaultGoSet { go: installed.clone(), sop: version };
                (
                    Config { default_sop: config.default_sop, default_go: Some(installed) },
                    Stage::Saving,
                    Some(notice),
                )
            },
            (Stage::Saving, Reply::Done) => (config, Stage::Finished(Ok(Outcome::Completed)), None),
            (Stage::CheckingPresence { tool, version }, Reply::Exists { found, shown }) => {
                match remove_version(tool, version.as_str(), found) {
                    Ok(_) => (config, Stage::Removing { tool, version }, None),
                    Err(e) => (config, Stage::Finished(Err(CommandError::Install(e))), None),
                }
            },
            (Stage::Removing { tool, version }, Reply::Done) => {
                let notice = Notice::Removed { tool, version: version.clone() };
                let (config, cleared) = forget_removed(config, tool, version.as_str());
                if cleared {
                    (config, Stage::Saving, Some(notice))
                } else {
                    (config, Stage::Finished(Ok(Outcome::Completed)), Some(notice))
                }
            },
            (stage, _) => (config, stage, None),
        };
        (Session { command, requested, windows, config, stage }, notice)
    }

    /// Whether the session has ended.
    pub fn finished(&self) -> (r: bool)
        ensures
            r == self.is_finished(),
    {
        match &self.stage {
            Stage::Finished(_) => true,
            _ => false,
        }
    }

    /// How the session ended; `None` while it is under way.
    pub fn outcome(self) -> (r: Option<Result<Outcome, CommandError>>)
        ensures
            match r {
                Some(outcome) => self.stage == Stage::Finished(outcome),
                None => !self.is_finished(),
            },
    {
        match self.stage {
            Stage::Finished(outcome) => Some(outcome),
            _ => None,
        }
    }
}

impl Session {
    /// How many requests the session can still make, at most. An update of
    /// both tools has the requests for `sop` still before it while it deals
    /// with `go`.
    pub open spec fn remaining(self) -> nat {
        let later: nat = if self.command == (Command::Update { then_sop: true }) {
            10
        } else {
            0
        };
        match self.stage {
            Stage::Resolving { tool } => if tool == Tool::Go {
                10 + later
            } else {
                10
            },
            Stage::Listing { tool, .. } => if tool == Tool::Go {
                9 + later
            } else {
                9
            },
            Stage::Confirming { .. } => 8,
            Stage::Installing { tool, .. } => if tool == Tool::Go {
                7 + later
            } else {
                7
            },
            Stage::Relinking { .. } => 6,
            Stage::ListingRuntime { .. } => 5,
            Stage::InstallingRuntime { .. } => 4,
            Stage::CheckingPresence { .. } => 3,
            Stage::Removing { .. } => 2,
            Stage::Saving => 1,
            Stage::Finished(_) => 0,
        }
    }

    /// Whether `reply` answers the request that is pending: the failure of
    /// the request does, and else the kind of reply that the request calls for.
    pub open spec fn answered_by(self, reply: Reply) -> bool {
        match (self.stage, reply) {
            (Stage::Finished(_), _) => false,
            (_, Reply::Failed(_)) => true,
            (Stage::Resolving { tool }, Reply::GoIndex(_)) => tool == Tool::Go,
            (Stage::Resolving { tool }, Reply::LatestTag(_)) => tool == Tool::Sop,
            (Stage::Listing { .. }, Reply::Versions(_)) => self.command != Command::Remove,
            (Stage::Confirming { .. }, Reply::Answer(_)) => true,
            (Stage::Installing { .. }, Reply::Installed(_)) => true,
            (Stage::Relinking { .. }, Reply::Done) => true,
            (Stage::ListingRuntime { .. }, Reply::Versions(_)) => true,
            (Stage::InstallingRuntime { .. }, Reply::Installed(_)) => true,
            (Stage::Saving, Reply::Done) => true,
            (Stage::CheckingPresence { .. }, Reply::Exists { .. }) => true,
            (Stage::Removing { .. }, Reply::Done) => true,
            _ => false,
        }
    }
}

/// Every answer brings the session closer to its end, and any other reply
/// leaves it as it is: a session makes at most twenty requests.
pub proof fn lemma_session_makes_progress(
    before: Session,
    reply: Reply,
    next: Session,
    notice: Option<Notice>,
)
    requires
        before.advanced(reply, next, notice),
    ensures
        before.answered_by(reply) ==> next.remaining() < before.remaining(),
        !before.answered_by(reply) ==> next.stage == before.stage && next.config@
            == before.config@ && notice is None,
        before.remaining() <= 20,
        before.remaining() == 0 <==> before.is_finished(),
{
}

/// Where the user declines to install the version that is to become the
/// default, nothing is changed: the session ends with the configuration it
/// began with, and none of its requests writes the configuration, sets the
/// link or installs anything.
pub proof fn lemma_declined_default_changes_nothing(
    listing: Session,
    first: Option<Request>,
    installed: Vec<String>,
    confirming: Session,
    second: Option<Request>,
    line: String,
    last: Session,
    third: Option<Request>,
)
    requires
        listing.command == Command::Default,
        listing.stage matches Stage::Listing { tool, version } && !texts(installed@).contains(
            version@,
        ),
        listing.asks(first),
        listing.advanced(Reply::Versions(installed), confirming, None),
        confirming.asks(second),
        !is_affirmative_of(line@),
        confirming.advanced(Reply::Answer(line), last, None),
        last.asks(third),
    ensures
        first matches Some(request) && !request.is_change(),
        second matches Some(request) && !request.is_change(),
        third is None,
        last.ended(Outcome::Declined),
        last.config@ == listing.config@,
{
}

/// No default is left dangling: once a version of a tool is removed, the
/// configuration does not name it as the default of that tool, and the
/// default of the other tool is what it was. Where the removed version was
/// the default, the session goes on to write the configuration without it.
pub proof fn lemma_removing_default_clears_it(
    removing: Session,
    next: Session,
    notice: Option<Notice>,
    request: Option<Request>,
)
    requires
        removing.stage is Removing,
        removing.advanced(Reply::Done, next, notice),
        next.asks(request),
    ensures
        ({
            let tool = removing.stage->Removing_tool;
            let version = removing.stage->Removing_version@;
            let other = match tool {
                Tool::Go => Tool::Sop,
                Tool::Sop => Tool::Go,
            };
            &&& default_of(next.config@, tool) != Some(version)
            &&& default_of(next.config@, other) == default_of(removing.config@, other)
            &&& if default_of(removing.config@, tool) == Some(version) {
                &&& default_of(next.config@, tool) is None
                &&& request matches Some(Request::SaveConfig { config })
                &&& config@ == next.config@
            } else {
                &&& next.config@ == removing.config@
                &&& request is None
            }
        }),
{
}

} // verus!
