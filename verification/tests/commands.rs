use sopmod::commands::{
    accepts, cmd_default, cmd_install, cmd_remove, cmd_update, is_affirmative,
    newest_compatible, parse_tool, should_advance, tool_from_name, unknown_tool, CommandError,
};
use sopmod::session::{Command, Notice, Outcome, Session, Stage};
use sopmod::config::Config;
use sopmod::effects::{Reply, Request};
use sopmod::error::InstallError;
use sopmod::resolve::{GoRelease, Tool};

fn strings(items: &[&str]) -> Vec<String> {
    items.iter().map(|s| s.to_string()).collect()
}

fn config(sop: Option<&str>, go: Option<&str>) -> Config {
    Config { default_sop: sop.map(|s| s.to_string()), default_go: go.map(|s| s.to_string()) }
}

fn present(found: bool) -> Reply {
    Reply::Exists { found, shown: "\"/home/u/.sopmod/x\"".to_string() }
}

fn step(session: Session, reply: Reply) -> Session {
    session.advance(reply).0
}

fn same(a: &Config, b: &Config) -> bool {
    a.default_sop == b.default_sop && a.default_go == b.default_go
}

fn ended(session: Session) -> Result<Outcome, CommandError> {
    assert!(session.finished());
    assert!(session.request().is_none());
    session.outcome().unwrap()
}

#[test]
fn tools_are_read_by_name() {
    assert_eq!(tool_from_name("go"), Some(Tool::Go));
    assert_eq!(tool_from_name("sop"), Some(Tool::Sop));
    assert_eq!(tool_from_name("Go"), None);
    assert_eq!(tool_from_name(""), None);
    assert_eq!(parse_tool("go").unwrap(), Tool::Go);
    assert_eq!(
        parse_tool("rust").unwrap_err().message(),
        "Unknown tool 'rust'. Use 'go' or 'sop'."
    );
    assert_eq!(unknown_tool(""), "Unknown tool ''. Use 'go' or 'sop'.");
}

#[test]
fn answers_that_say_yes() {
    for line in ["", "\n", "y", "Y\n", "yes\n", "YES", "  Yes  \r\n", "\ty\t"] {
        assert!(is_affirmative(line), "{:?}", line);
    }
    for line in ["n", "no\n", "N", "yeah", "y e s", "ye", "yess", "oui"] {
        assert!(!is_affirmative(line), "{:?}", line);
    }
    assert!(accepts(""));
    assert!(accepts("y"));
    assert!(accepts("yes"));
    assert!(!accepts("Y"));
    assert!(!accepts(" y"));
}

#[test]
fn the_newest_compatible_go_is_chosen_by_numbers() {
    let installed = strings(&["1.21.0", "1.9.0", "1.22.3", "1.20.1", "1.22.10", "1.22.9"]);
    assert_eq!(newest_compatible(&installed, "0.4.1"), Some(4));
    let installed = strings(&["1.20.0", "1.19.5"]);
    assert_eq!(newest_compatible(&installed, "0.4.1"), None);
    assert_eq!(newest_compatible(&Vec::new(), "0.4.1"), None);
    let installed = strings(&["1.22.0", "garbage", "1.21.0"]);
    assert_eq!(newest_compatible(&installed, "0.4.1"), Some(0));
}

#[test]
fn of_equally_new_versions_the_last_is_chosen() {
    let installed = strings(&["1.22.0", "1.22.0", "1.21.0"]);
    assert_eq!(newest_compatible(&installed, "0.4.1"), Some(1));
}

#[test]
fn the_default_moves_on_only_from_an_installed_version() {
    let installed = strings(&["0.3.0", "0.4.0"]);
    assert!(should_advance(&None, &installed, "0.4.1"));
    assert!(should_advance(&Some("0.4.0".to_string()), &installed, "0.4.1"));
    assert!(!should_advance(&Some("0.2.0".to_string()), &installed, "0.4.1"));
    assert!(!should_advance(&Some("0.4.0".to_string()), &installed, "0.4.0"));
    assert!(should_advance(&None, &Vec::new(), "0.4.1"));
}

#[test]
fn notices_have_their_sentences() {
    let text = |n: Notice| n.text();
    assert_eq!(
        text(Notice::DefaultSopSet { version: "0.4.1".to_string() }),
        "Default sop version set to 0.4.1"
    );
    assert_eq!(
        text(Notice::DefaultSopUpdated { version: "0.4.1".to_string() }),
        "Default sop version updated to 0.4.1"
    );
    assert_eq!(
        text(Notice::DefaultGoSet { go: "1.22.0".to_string(), sop: "0.4.1".to_string() }),
        "Default go version set to 1.22.0 (compatible with sop 0.4.1)"
    );
    assert_eq!(
        text(Notice::InstallingRequiredGo { go: "1.21".to_string(), sop: "0.4.1".to_string() }),
        "Installing go 1.21 (required by sop 0.4.1)..."
    );
    assert_eq!(
        text(Notice::AlreadyLatest { tool: Tool::Go, version: "1.22.1".to_string() }),
        "go 1.22.1 is already the latest version"
    );
    assert_eq!(
        text(Notice::Removed { tool: Tool::Sop, version: "0.4.1".to_string() }),
        "Removed sop 0.4.1"
    );
}

#[test]
fn install_begins_an_installation_of_the_named_tool() {
    let install = cmd_install("go", "1.22.0", "linux", "x86_64").unwrap();
    assert_eq!(install.tool, Tool::Go);
    assert_eq!(install.requested, "1.22.0");
    let install = cmd_install("sop", "latest", "linux", "x86_64").unwrap();
    assert_eq!(install.tool, Tool::Sop);
    assert!(matches!(install.request(), Some(Request::FetchLatestSop { .. })));
    assert_eq!(
        cmd_install("rust", "1.0", "linux", "x86_64").unwrap_err().message(),
        "Unknown tool 'rust'. Use 'go' or 'sop'."
    );
}

#[test]
fn default_of_go_is_refused() {
    let session = cmd_default("go", "1.22.0", config(None, None), false);
    assert_eq!(
        ended(session).unwrap_err().message(),
        "go versions are managed automatically by sop. Use `sopmod install go <version>` to install."
    );
    let session = cmd_default("zig", "1.0", config(None, None), false);
    assert_eq!(ended(session).unwrap_err().message(), "Unknown tool 'zig'. Use 'go' or 'sop'.");
}

#[test]
fn declined_default_changes_nothing() {
    let before = config(Some("0.3.0"), Some("1.21.0"));
    let session = cmd_default("sop", "0.4.1", before.copy(), false);
    assert_eq!(session.command, Command::Default);
    match session.request() {
        Some(Request::ListInstalled { tool }) => assert_eq!(tool, Tool::Sop),
        other => panic!("unexpected: {:?}", other),
    }
    let (session, notice) = session.advance(Reply::Versions(strings(&["0.3.0"])));
    assert!(notice.is_none());
    match session.request() {
        Some(Request::Confirm { tool, version }) => {
            assert_eq!(tool, Tool::Sop);
            assert_eq!(version, "0.4.1");
        }
        other => panic!("unexpected: {:?}", other),
    }
    let (session, notice) = session.advance(Reply::Answer("n\n".to_string()));
    assert!(notice.is_none());
    assert!(same(&session.config, &before));
    assert_eq!(ended(session).unwrap(), Outcome::Declined);
}

#[test]
fn default_of_an_installed_version_sets_link_runtime_and_configuration() {
    let session = cmd_default("sop", "0.4.1", config(None, None), false);
    let (session, notice) = session.advance(Reply::Versions(strings(&["0.4.0", "0.4.1"])));
    assert!(notice.is_none());
    assert_eq!(session.config.default_sop, Some("0.4.1".to_string()));
    match session.request() {
        Some(Request::Relink { target, link }) => {
            assert_eq!(target, strings(&[".sopmod", "sop", "0.4.1", "sop"]));
            assert_eq!(link, strings(&[".sopmod", "bin", "sop"]));
        }
        other => panic!("unexpected: {:?}", other),
    }
    let (session, notice) = session.advance(Reply::Done);
    assert_eq!(notice.unwrap().text(), "Default sop version set to 0.4.1");
    match session.request() {
        Some(Request::ListInstalled { tool }) => assert_eq!(tool, Tool::Go),
        other => panic!("unexpected: {:?}", other),
    }
    let (session, notice) =
        session.advance(Reply::Versions(strings(&["1.20.0", "1.22.1", "1.21.9"])));
    assert_eq!(
        notice.unwrap().text(),
        "Default go version set to 1.22.1 (compatible with sop 0.4.1)"
    );
    match session.request() {
        Some(Request::SaveConfig { config }) => {
            assert_eq!(config.default_sop, Some("0.4.1".to_string()));
            assert_eq!(config.default_go, Some("1.22.1".to_string()));
        }
        other => panic!("unexpected: {:?}", other),
    }
    let (session, notice) = session.advance(Reply::Done);
    assert!(notice.is_none());
    assert_eq!(ended(session).unwrap(), Outcome::Completed);
}

#[test]
fn default_on_windows_links_the_exe() {
    let session = cmd_default("sop", "0.4.1", config(None, None), true);
    let session = step(session, Reply::Versions(strings(&["0.4.1"])));
    match session.request() {
        Some(Request::Relink { target, link }) => {
            assert_eq!(target, strings(&[".sopmod", "sop", "0.4.1", "sop.exe"]));
            assert_eq!(link, strings(&[".sopmod", "bin", "sop.exe"]));
        }
        other => panic!("unexpected: {:?}", other),
    }
}

#[test]
fn accepted_default_installs_sop_and_the_go_it_needs() {
    let session = cmd_default("sop", "latest", config(None, Some("1.19.0")), false);
    assert!(matches!(session.request(), Some(Request::FetchLatestSop { .. })));
    let session = step(session, Reply::LatestTag("v0.4.1".to_string()));
    let session = step(session, Reply::Versions(Vec::new()));
    let session = step(session, Reply::Answer("\n".to_string()));
    match session.request() {
        Some(Request::Install { tool, version }) => {
            assert_eq!(tool, Tool::Sop);
            assert_eq!(version, "0.4.1");
        }
        other => panic!("unexpected: {:?}", other),
    }
    let session = step(session, Reply::Installed("0.4.1".to_string()));
    assert!(matches!(session.request(), Some(Request::Relink { .. })));
    let session = step(session, Reply::Done);
    let (session, notice) = session.advance(Reply::Versions(strings(&["1.19.0"])));
    assert_eq!(notice.unwrap().text(), "Installing go 1.21 (required by sop 0.4.1)...");
    assert_eq!(session.config.default_go, Some("1.19.0".to_string()));
    match session.request() {
        Some(Request::Install { tool, version }) => {
            assert_eq!(tool, Tool::Go);
            assert_eq!(version, "1.21");
        }
        other => panic!("unexpected: {:?}", other),
    }
    let (session, notice) = session.advance(Reply::Installed("1.21.13".to_string()));
    assert_eq!(
        notice.unwrap().text(),
        "Default go version set to 1.21.13 (compatible with sop 0.4.1)"
    );
    match session.request() {
        Some(Request::SaveConfig { config }) => {
            assert_eq!(config.default_sop, Some("0.4.1".to_string()));
            assert_eq!(config.default_go, Some("1.21.13".to_string()));
        }
        other => panic!("unexpected: {:?}", other),
    }
    assert_eq!(ended(step(session, Reply::Done)).unwrap(), Outcome::Completed);
}

#[test]
fn default_of_a_sop_without_requirement_leaves_go_alone() {
    let session = cmd_default("sop", "0.0.1", config(None, Some("1.19.0")), false);
    let session = step(session, Reply::Versions(strings(&["0.0.1"])));
    let session = step(session, Reply::Done);
    match session.request() {
        Some(Request::SaveConfig { config }) => {
            assert_eq!(config.default_sop, Some("0.0.1".to_string()));
            assert_eq!(config.default_go, Some("1.19.0".to_string()));
        }
        other => panic!("unexpected: {:?}", other),
    }
}

#[test]
fn failures_end_the_session() {
    let session = cmd_default("sop", "0.4.1", config(None, None), false);
    let session = step(session, Reply::Versions(Vec::new()));
    let session = step(session, Reply::Answer("y".to_string()));
    let session =
        step(session, Reply::Failed(InstallError::VersionNotFound("sop 0.4.1".to_string())));
    assert_eq!(ended(session).unwrap_err().message(), "Version not found: sop 0.4.1");

    let session = cmd_default("sop", "0.4.1", config(None, None), false);
    let session = step(session, Reply::Versions(strings(&["0.4.1"])));
    let session = step(session, Reply::Failed(InstallError::Io("permission denied".to_string())));
    assert_eq!(ended(session).unwrap_err().message(), "permission denied");

    let session = cmd_remove("go", "1.22.0", config(None, None), false);
    let session = step(session, present(true));
    let session = step(session, Reply::Failed(InstallError::Io("permission denied".to_string())));
    assert_eq!(ended(session).unwrap_err().message(), "IO error: permission denied");
}

#[test]
fn removing_the_default_sop_clears_the_default() {
    let session = cmd_remove("sop", "0.4.1", config(Some("0.4.1"), Some("1.22.0")), false);
    assert_eq!(session.command, Command::Remove);
    match session.request() {
        Some(Request::Exists { path }) => assert_eq!(path, strings(&[".sopmod", "sop", "0.4.1"])),
        other => panic!("unexpected: {:?}", other),
    }
    let session = step(session, present(true));
    match session.request() {
        Some(Request::RemoveDir { path }) => {
            assert_eq!(path, strings(&[".sopmod", "sop", "0.4.1"]))
        }
        other => panic!("unexpected: {:?}", other),
    }
    let (session, notice) = session.advance(Reply::Done);
    assert_eq!(notice.unwrap().text(), "Removed sop 0.4.1");
    assert_eq!(session.config.default_sop, None);
    match session.request() {
        Some(Request::SaveConfig { config }) => {
            assert_eq!(config.default_sop, None);
            assert_eq!(config.default_go, Some("1.22.0".to_string()));
        }
        other => panic!("unexpected: {:?}", other),
    }
    assert_eq!(ended(step(session, Reply::Done)).unwrap(), Outcome::Completed);
}

#[test]
fn removing_another_version_keeps_the_default() {
    let before = config(Some("0.4.1"), Some("1.22.0"));
    let session = cmd_remove("sop", "0.4.0", before.copy(), false);
    let session = step(step(session, present(true)), Reply::Done);
    assert!(same(&session.config, &before));
    assert_eq!(ended(session).unwrap(), Outcome::Completed);

    let session = cmd_remove("go", "1.21.0", before.copy(), false);
    let (session, notice) = step(session, present(true)).advance(Reply::Done);
    assert_eq!(notice.unwrap().text(), "Removed go 1.21.0");
    assert!(same(&session.config, &before));
    assert_eq!(ended(session).unwrap(), Outcome::Completed);
}

#[test]
fn removing_a_version_of_the_other_tool_with_the_same_text_keeps_the_default() {
    let before = config(Some("1.22.0"), None);
    let session = cmd_remove("go", "1.22.0", before.copy(), false);
    let session = step(step(session, present(true)), Reply::Done);
    assert!(same(&session.config, &before));
    assert_eq!(ended(session).unwrap(), Outcome::Completed);

    let before = config(None, Some("0.4.1"));
    let session = cmd_remove("sop", "0.4.1", before.copy(), false);
    let session = step(step(session, present(true)), Reply::Done);
    assert!(same(&session.config, &before));
    assert_eq!(ended(session).unwrap(), Outcome::Completed);
}

#[test]
fn removing_the_default_go_clears_the_default() {
    let session = cmd_remove("go", "1.22.0", config(Some("0.4.1"), Some("1.22.0")), false);
    match session.request() {
        Some(Request::Exists { path }) => assert_eq!(path, strings(&[".sopmod", "go", "1.22.0"])),
        other => panic!("unexpected: {:?}", other),
    }
    let session = step(session, present(true));
    match session.request() {
        Some(Request::RemoveDir { path }) => assert_eq!(path, strings(&[".sopmod", "go", "1.22.0"])),
        other => panic!("unexpected: {:?}", other),
    }
    let (session, notice) = session.advance(Reply::Done);
    assert_eq!(notice.unwrap().text(), "Removed go 1.22.0");
    assert_eq!(session.config.default_go, None);
    assert_eq!(session.config.default_sop, Some("0.4.1".to_string()));
    match session.request() {
        Some(Request::SaveConfig { config }) => {
            assert_eq!(config.default_go, None);
            assert_eq!(config.default_sop, Some("0.4.1".to_string()));
        }
        other => panic!("unexpected: {:?}", other),
    }
    assert_eq!(ended(step(session, Reply::Done)).unwrap(), Outcome::Completed);
}

#[test]
fn removing_what_is_not_installed_is_not_found() {
    let session = cmd_remove("go", "1.22.0", config(None, None), false);
    assert_eq!(
        ended(step(session, present(false))).unwrap_err().message(),
        "Version not found: go 1.22.0"
    );
    let session = cmd_remove("sop", "latest", config(None, None), false);
    assert!(matches!(session.request(), Some(Request::FetchLatestSop { .. })));
    let session = step(session, Reply::LatestTag("v0.4.1".to_string()));
    assert_eq!(
        ended(step(session, present(false))).unwrap_err().message(),
        "Version not found: sop 0.4.1"
    );
    let session = cmd_remove("nim", "1.0", config(None, None), false);
    assert_eq!(ended(session).unwrap_err().message(), "Unknown tool 'nim'. Use 'go' or 'sop'.");
}

#[test]
fn removing_a_partial_go_version_resolves_it_first() {
    let session = cmd_remove("go", "1.22", config(None, None), false);
    assert!(matches!(session.request(), Some(Request::FetchGoIndex { .. })));
    let index = vec![GoRelease { version: "go1.22.1".to_string(), stable: true }];
    let session = step(session, Reply::GoIndex(index));
    match session.request() {
        Some(Request::Exists { path }) => assert_eq!(path, strings(&[".sopmod", "go", "1.22.1"])),
        other => panic!("unexpected: {:?}", other),
    }
    let session = cmd_remove("go", "1.22", config(None, None), false);
    let session = step(session, Reply::GoIndex(Vec::new()));
    assert_eq!(ended(session).unwrap_err().message(), "Version not found: 1.22");
}

#[test]
fn update_of_go_installs_the_latest_release() {
    let session = cmd_update(Some("go"), config(None, None), false);
    assert_eq!(session.command, Command::Update { then_sop: false });
    assert_eq!(session.requested, "latest");
    assert!(matches!(session.request(), Some(Request::FetchGoIndex { .. })));
    let index = vec![
        GoRelease { version: "go1.23rc1".to_string(), stable: false },
        GoRelease { version: "go1.22.1".to_string(), stable: true },
    ];
    let session = step(session, Reply::GoIndex(index));
    match session.request() {
        Some(Request::ListInstalled { tool }) => assert_eq!(tool, Tool::Go),
        other => panic!("unexpected: {:?}", other),
    }
    let (session, notice) = session.advance(Reply::Versions(strings(&["1.22.0"])));
    assert!(notice.is_none());
    match session.request() {
        Some(Request::Install { tool, version }) => {
            assert_eq!(tool, Tool::Go);
            assert_eq!(version, "1.22.1");
        }
        other => panic!("unexpected: {:?}", other),
    }
    let session = step(session, Reply::Installed("1.22.1".to_string()));
    assert_eq!(ended(session).unwrap(), Outcome::Completed);
}

#[test]
fn update_says_when_the_latest_is_installed() {
    let session = cmd_update(Some("go"), config(None, None), false);
    let index = vec![GoRelease { version: "go1.22.1".to_string(), stable: true }];
    let session = step(session, Reply::GoIndex(index));
    let (session, notice) = session.advance(Reply::Versions(strings(&["1.22.1"])));
    assert_eq!(notice.unwrap().text(), "go 1.22.1 is already the latest version");
    assert_eq!(ended(session).unwrap(), Outcome::Completed);
}

#[test]
fn update_of_sop_moves_a_tracking_default_on() {
    let session = cmd_update(Some("sop"), config(Some("0.4.0"), Some("1.21.0")), false);
    assert!(matches!(session.request(), Some(Request::FetchLatestSop { .. })));
    let session = step(session, Reply::LatestTag("v0.4.1".to_string()));
    let session = step(session, Reply::Versions(strings(&["0.4.0"])));
    assert!(matches!(session.stage, Stage::Installing { advance: true, .. }));
    let session = step(session, Reply::Installed("0.4.1".to_string()));
    assert_eq!(session.config.default_sop, Some("0.4.1".to_string()));
    assert!(matches!(session.request(), Some(Request::Relink { .. })));
    let (session, notice) = session.advance(Reply::Done);
    assert_eq!(notice.unwrap().text(), "Default sop version updated to 0.4.1");
    let session = step(session, Reply::Versions(strings(&["1.21.0", "1.22.0"])));
    match session.request() {
        Some(Request::SaveConfig { config }) => {
            assert_eq!(config.default_sop, Some("0.4.1".to_string()));
            assert_eq!(config.default_go, Some("1.22.0".to_string()));
        }
        other => panic!("unexpected: {:?}", other),
    }
    assert_eq!(ended(step(session, Reply::Done)).unwrap(), Outcome::Completed);
}

#[test]
fn update_of_sop_leaves_a_pinned_default() {
    let before = config(Some("0.2.0"), None);
    let session = cmd_update(Some("sop"), before.copy(), false);
    let session = step(session, Reply::LatestTag("v0.4.1".to_string()));
    let session = step(session, Reply::Versions(strings(&["0.4.0"])));
    assert!(matches!(session.stage, Stage::Installing { advance: false, .. }));
    let session = step(session, Reply::Installed("0.4.1".to_string()));
    assert!(same(&session.config, &before));
    assert_eq!(ended(session).unwrap(), Outcome::Completed);
}

#[test]
fn update_of_sop_that_is_current_changes_nothing() {
    let before = config(Some("0.4.1"), Some("1.22.0"));
    let session = cmd_update(Some("sop"), before.copy(), false);
    let session = step(session, Reply::LatestTag("v0.4.1".to_string()));
    let (session, notice) = session.advance(Reply::Versions(strings(&["0.4.1"])));
    assert_eq!(notice.unwrap().text(), "sop 0.4.1 is already the latest version");
    assert!(same(&session.config, &before));
    assert_eq!(ended(session).unwrap(), Outcome::Completed);
}

#[test]
fn update_without_a_default_sets_one() {
    let session = cmd_update(Some("sop"), config(None, None), false);
    let session = step(session, Reply::LatestTag("0.4.1".to_string()));
    let (session, notice) = session.advance(Reply::Versions(strings(&["0.4.1"])));
    assert_eq!(notice.unwrap().text(), "sop 0.4.1 is already the latest version");
    assert_eq!(session.config.default_sop, Some("0.4.1".to_string()));
    assert!(matches!(session.request(), Some(Request::Relink { .. })));
}

#[test]
fn update_of_both_does_go_and_then_sop() {
    let session = cmd_update(None, config(Some("0.4.1"), None), false);
    assert_eq!(session.command, Command::Update { then_sop: true });
    assert!(matches!(session.request(), Some(Request::FetchGoIndex { .. })));
    let index = vec![GoRelease { version: "go1.22.1".to_string(), stable: true }];
    let session = step(session, Reply::GoIndex(index));
    let session = step(session, Reply::Versions(Vec::new()));
    let session = step(session, Reply::Installed("1.22.1".to_string()));
    assert!(matches!(session.request(), Some(Request::FetchLatestSop { .. })));
    let session = step(session, Reply::LatestTag("v0.4.1".to_string()));
    match session.request() {
        Some(Request::ListInstalled { tool }) => assert_eq!(tool, Tool::Sop),
        other => panic!("unexpected: {:?}", other),
    }
    let session = step(session, Reply::Versions(strings(&["0.4.1"])));
    assert_eq!(ended(session).unwrap(), Outcome::Completed);
}

#[test]
fn update_of_an_unknown_tool_is_refused() {
    let session = cmd_update(Some("gcc"), config(None, None), false);
    assert_eq!(ended(session).unwrap_err().message(), "Unknown tool 'gcc'. Use 'go' or 'sop'.");
}

#[test]
fn update_without_a_stable_release_is_not_found() {
    let session = cmd_update(Some("go"), config(None, None), false);
    let session = step(session, Reply::GoIndex(Vec::new()));
    assert_eq!(ended(session).unwrap_err().message(), "Version not found: latest");
}

#[test]
fn a_session_passes_over_replies_that_do_not_answer() {
    let session = cmd_default("sop", "0.4.1", config(None, None), false);
    let (session, notice) = session.advance(Reply::Done);
    assert!(notice.is_none());
    assert!(matches!(session.stage, Stage::Listing { .. }));
    let session = step(session, Reply::Answer("y".to_string()));
    assert!(matches!(session.request(), Some(Request::ListInstalled { .. })));
    let session = cmd_update(Some("sop"), config(None, None), false);
    let session = step(session, Reply::GoIndex(Vec::new()));
    assert!(matches!(session.stage, Stage::Resolving { tool: Tool::Sop }));
}

#[test]
fn default_of_a_partial_version_resolves_it_first() {
    let session = cmd_default("sop", "0.4", config(None, None), false);
    assert!(matches!(session.request(), Some(Request::FetchLatestSop { .. })));
    let session = step(session, Reply::LatestTag("v0.4.1".to_string()));
    let session = step(session, Reply::Versions(strings(&["0.4.1"])));
    assert_eq!(session.config.default_sop, Some("0.4.1".to_string()));
    let session = cmd_default("sop", "0.3", config(None, None), false);
    let session = step(session, Reply::LatestTag("v0.4.1".to_string()));
    assert_eq!(ended(session).unwrap_err().message(), "Version not found: 0.3");
}
