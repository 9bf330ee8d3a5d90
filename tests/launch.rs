use dexrs::gpu::{select_gpu_env, GpuOptions};
use dexrs::launch::{check_exit_status, choose_strategy, LaunchEnv, LaunchPlan, LaunchStrategy};
use dexrs::terminal::{detect_terminal, str_contains, TerminalProbe};
use dexrs::entry::list_contains;
use dexrs::{DesktopEntry, ExecError};

fn entry(exec: Option<&str>) -> DesktopEntry {
    DesktopEntry {
        path: "/apps/app.desktop".to_string(),
        exec_line: exec.map(|e| e.to_string()),
        actions: None,
        action_execs: vec![],
        icon: Some("app-icon".to_string()),
        name: None,
        localized_names: vec![],
        working_dir: None,
        terminal: false,
    }
}

fn no_gpu() -> GpuOptions {
    GpuOptions { switchable: false, default_gpu: None, non_default_gpu: None }
}

fn env() -> LaunchEnv {
    LaunchEnv {
        lang: None,
        shell: Some("/bin/sh".to_string()),
        terminal: TerminalProbe { link: None, link_of_link: None, gnome_terminal_exists: false },
        bus_actionable: false,
        gpu: no_gpu(),
    }
}

fn spawned(plan: LaunchPlan) -> (String, Vec<String>, Option<String>, Vec<(String, String)>) {
    match plan {
        LaunchPlan::Spawn { program, args, working_dir, env } => (program, args, working_dir, env),
        LaunchPlan::Bus { .. } => panic!("expected a spawn"),
    }
}

#[test]
fn should_fail_if_exec_string_is_empty() {
    let de = entry(Some(""));
    let result = de.launch(&[], false, env());
    assert!(matches!(result, Err(ExecError::EmptyExecString)));
}

#[test]
fn should_exec_simple_command() {
    let de = entry(Some("alacritty"));
    let result = de.launch(&[], false, env());
    assert!(result.is_ok());
}

#[test]
fn should_launch_with_field_codes() {
    let mut de = entry(Some("nvim %F"));
    de.terminal = true;
    let (program, args, _, _) = spawned(de.launch(&["src/lib.rs"], false, env()).unwrap());
    assert_eq!(program, "/bin/sh");
    assert_eq!(args, vec!["-c", "/usr/bin/konsole -e nvim src/lib.rs"]);
}

#[test]
fn should_launch_action() {
    let mut de = entry(Some("alacritty"));
    de.actions = Some("New;".to_string());
    de.action_execs = vec![("New".to_string(), "alacritty --new".to_string())];
    let (_, args, _, _) = spawned(de.launch_action("New", &[], env()).unwrap());
    assert_eq!(args, vec!["-c", "alacritty --new"]);
}

#[test]
fn resolves_file_and_icon_codes() {
    let de = entry(Some("app %f %i"));
    assert_eq!(de.resolve_args("app %f %i", &["/tmp/x"], None).unwrap(), vec!["app", "/tmp/x", "app-icon"]);
    let (program, args, dir, vars) = spawned(de.launch(&["/tmp/x"], false, env()).unwrap());
    assert_eq!(program, "/bin/sh");
    assert_eq!(args, vec!["-c", "app /tmp/x app-icon"]);
    assert_eq!(dir, None);
    assert!(vars.is_empty());
}

#[test]
fn quoted_exec_launches_and_unmatched_quote_fails() {
    let de = entry(Some("\"app arg\""));
    let (_, args, _, _) = spawned(de.launch(&[], false, env()).unwrap());
    assert_eq!(args, vec!["-c", "app arg"]);
    let bad = entry(Some("\"app arg"));
    assert_eq!(
        bad.launch(&[], false, env()).unwrap_err(),
        ExecError::UnmatchedQuote { command: "\"app arg".to_string() }
    );
}

#[test]
fn nothing_left_after_substitution_fails() {
    let de = entry(Some("%f"));
    assert_eq!(de.launch(&[], false, env()).unwrap_err(), ExecError::EmptyExecString);
    let de = entry(Some("%U %u"));
    assert_eq!(de.launch(&[], false, env()).unwrap_err(), ExecError::EmptyExecString);
}

#[test]
fn missing_exec_key_fails() {
    let de = entry(None);
    assert_eq!(
        de.launch(&[], false, env()).unwrap_err(),
        ExecError::MissingExecKey { desktop_entry: "/apps/app.desktop".to_string() }
    );
}

#[test]
fn unknown_action_fails() {
    let mut de = entry(Some("app"));
    de.actions = Some("New;Private".to_string());
    assert_eq!(
        de.launch_action("Old", &[], env()).unwrap_err(),
        ExecError::ActionNotFound {
            action: "Old".to_string(),
            desktop_entry: "/apps/app.desktop".to_string()
        }
    );
    let plain = entry(Some("app"));
    assert!(matches!(
        plain.launch_action("New", &[], env()),
        Err(ExecError::ActionNotFound { .. })
    ));
}

#[test]
fn empty_action_name_is_never_declared() {
    let mut de = entry(Some("app"));
    de.actions = Some("New;".to_string());
    de.action_execs = vec![("".to_string(), "app --empty".to_string())];
    assert_eq!(
        de.launch_action("", &[], env()).unwrap_err(),
        ExecError::ActionNotFound {
            action: "".to_string(),
            desktop_entry: "/apps/app.desktop".to_string()
        }
    );
    assert!(!de.has_action(""));
    assert!(de.has_action("New"));
}

#[test]
fn action_without_exec_fails() {
    let mut de = entry(Some("app"));
    de.actions = Some("New;Private;".to_string());
    de.action_execs = vec![("New".to_string(), "app --new".to_string())];
    assert_eq!(
        de.launch_action("Private", &[], env()).unwrap_err(),
        ExecError::ActionExecKeyNotFound {
            action: "Private".to_string(),
            desktop_entry: "/apps/app.desktop".to_string()
        }
    );
}

#[test]
fn deprecated_code_fails_the_launch() {
    let de = entry(Some("app %m"));
    assert_eq!(
        de.launch(&[], false, env()).unwrap_err(),
        ExecError::DeprecatedFieldCode("%m".to_string())
    );
}

#[test]
fn missing_shell_fails() {
    let de = entry(Some("app"));
    let mut e = env();
    e.shell = None;
    assert_eq!(de.launch(&[], false, e).unwrap_err(), ExecError::MissingShellEnvironment);
}

#[test]
fn bus_activation_bypasses_the_shell() {
    let mut de = entry(Some("app %U"));
    de.terminal = true;
    let mut e = env();
    e.shell = None;
    e.bus_actionable = true;
    match de.launch(&["a", "b"], true, e).unwrap() {
        LaunchPlan::Bus { uris } => assert_eq!(uris, vec!["a", "b"]),
        other => panic!("expected bus activation, got {:?}", other),
    }
}

#[test]
fn working_directory_is_passed_on() {
    let mut de = entry(Some("app"));
    de.working_dir = Some("/srv/work".to_string());
    let (_, _, dir, _) = spawned(de.launch(&[], false, env()).unwrap());
    assert_eq!(dir, Some("/srv/work".to_string()));
}

#[test]
fn terminal_falls_back_to_konsole() {
    let probe = TerminalProbe { link: None, link_of_link: None, gnome_terminal_exists: false };
    let t = detect_terminal(&probe);
    assert_eq!(t.program, "/usr/bin/konsole");
    assert_eq!(t.separator, "-e");
    let mut de = entry(Some("top"));
    de.terminal = true;
    let (_, args, _, _) = spawned(de.launch(&[], false, env()).unwrap());
    assert_eq!(args, vec!["-c", "/usr/bin/konsole -e top"]);
}

#[test]
fn terminal_prefers_gnome_terminal_without_link() {
    let probe = TerminalProbe { link: None, link_of_link: None, gnome_terminal_exists: true };
    let t = detect_terminal(&probe);
    assert_eq!(t.program, "/usr/bin/gnome-terminal");
    assert_eq!(t.separator, "--");
}

#[test]
fn terminal_link_is_followed() {
    let probe = TerminalProbe {
        link: Some("/etc/alternatives/x-terminal-emulator".to_string()),
        link_of_link: Some("/usr/bin/alacritty".to_string()),
        gnome_terminal_exists: true,
    };
    let t = detect_terminal(&probe);
    assert_eq!(t.program, "/usr/bin/alacritty");
    assert_eq!(t.separator, "-e");
    let probe = TerminalProbe {
        link: Some("/usr/bin/gnome-terminal.wrapper".to_string()),
        link_of_link: None,
        gnome_terminal_exists: false,
    };
    let t = detect_terminal(&probe);
    assert_eq!(t.program, "/usr/bin/gnome-terminal.wrapper");
    assert_eq!(t.separator, "--");
}

#[test]
fn gpu_preference_selects_variables() {
    let vars = |n: &str| Some(vec![("GPU".to_string(), n.to_string())]);
    let switchable = || GpuOptions { switchable: true, default_gpu: vars("0"), non_default_gpu: vars("1") };
    let fixed = || GpuOptions { switchable: false, default_gpu: vars("0"), non_default_gpu: vars("1") };
    assert_eq!(select_gpu_env(true, switchable()), vec![("GPU".to_string(), "1".to_string())]);
    assert_eq!(select_gpu_env(true, fixed()), vec![("GPU".to_string(), "0".to_string())]);
    assert!(select_gpu_env(false, switchable()).is_empty());
    assert!(select_gpu_env(true, no_gpu()).is_empty());
    let de = entry(Some("glxgears"));
    let mut e = env();
    e.gpu = switchable();
    let (_, _, _, env_vars) = spawned(de.launch(&[], true, e).unwrap());
    assert_eq!(env_vars, vec![("GPU".to_string(), "1".to_string())]);
}

#[test]
fn strategy_is_chosen_once() {
    assert_eq!(choose_strategy(true, true), LaunchStrategy::Bus);
    assert_eq!(choose_strategy(false, true), LaunchStrategy::TerminalShell);
    assert_eq!(choose_strategy(false, false), LaunchStrategy::DirectShell);
}

#[test]
fn exit_status_check() {
    assert_eq!(check_exit_status(None, "app"), Ok(()));
    assert_eq!(check_exit_status(Some(0), "app"), Ok(()));
    assert_eq!(
        check_exit_status(Some(2), "app"),
        Err(ExecError::NonZeroStatusCode { status: 2, command: "app".to_string() })
    );
}

#[test]
fn action_list_and_substring_search() {
    assert!(list_contains("New;Private;", "Private"));
    assert!(!list_contains("New;Private;", ""));
    assert!(!list_contains(";;", ""));
    assert!(!list_contains("New;Private", "Priv"));
    assert!(!list_contains("", "New"));
    assert!(str_contains("/usr/bin/gnome-terminal", "gnome-terminal"));
    assert!(!str_contains("gnome-termina", "gnome-terminal"));
}
