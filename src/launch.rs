use vstd::prelude::*;

use crate::entry::{lookup, opt_str_view, opt_string_view, DesktopEntry};
use crate::error::{ExecError, ExecErrorView};
use crate::exec::{
    join_spaced, locale_from_lang, locale_of, parse_exec, parse_exec_string, result_view,
    lemma_strings_view_push, strings_view, substitute, uris_view,
};
use crate::gpu::{gpu_env, select_gpu_env, GpuOptions};
use crate::terminal::{detect_terminal, TerminalProbe};

verus! {

/// What the caller has read from the environment for one launch.
pub struct LaunchEnv {
    /// The `LANG` variable.
    pub lang: Option<String>,
    /// The `SHELL` variable.
    pub shell: Option<String>,
    /// What the file system says about terminal emulators.
    pub terminal: TerminalProbe,
    /// Whether a session bus is reachable and the entry can be activated on it.
    pub bus_actionable: bool,
    /// What the graphics collaborator reports.
    pub gpu: GpuOptions,
}

/// How a launch is carried out.
#[derive(Debug, Clone, Copy, PartialEq, Eq, Structural)]
pub enum LaunchStrategy {
    /// Activation through the session bus.
    Bus,
    /// The login shell runs a terminal emulator that runs the command.
    TerminalShell,
    /// The login shell runs the command.
    DirectShell,
}

/// The strategy: the bus where the entry can be activated on it, else the shell, through a
/// terminal emulator where the entry asks for one.
pub open spec fn spec_strategy(bus_actionable: bool, terminal: bool) -> LaunchStrategy {
    if bus_actionable {
        LaunchStrategy::Bus
    } else if terminal {
        LaunchStrategy::TerminalShell
    } else {
        LaunchStrategy::DirectShell
    }
}

pub fn choose_strategy(bus_actionable: bool, terminal: bool) -> (r: LaunchStrategy)
    ensures
        r == spec_strategy(bus_actionable, terminal),
{
    if bus_actionable {
        LaunchStrategy::Bus
    } else if terminal {
        LaunchStrategy::TerminalShell
    } else {
        LaunchStrategy::DirectShell
    }
}

/// A resolved launch, ready for the caller to carry out.
#[derive(Debug)]
pub enum LaunchPlan {
    /// Activate the entry on the session bus with these URIs.
    Bus { uris: Vec<String> },
    /// Spawn `program` with `args` in `working_dir`, with `env` added to its environment.
    Spawn {
        program: String,
        args: Vec<String>,
        working_dir: Option<String>,
        env: Vec<(String, String)>,
    },
}

/// The mathematical value of a [`LaunchPlan`].
pub enum PlanView {
    Bus { uris: Seq<Seq<char>> },
    Spawn {
        program: Seq<char>,
        args: Seq<Seq<char>>,
        working_dir: Option<Seq<char>>,
        env: Seq<(String, String)>,
    },
}

impl View for LaunchPlan {
    type V = PlanView;

    open spec fn view(&self) -> PlanView {
        match self {
            LaunchPlan::Bus { uris } => PlanView::Bus { uris: strings_view(uris@) },
            LaunchPlan::Spawn { program, args, working_dir, env } => PlanView::Spawn {
                program: program@,
                args: strings_view(args@),
                working_dir: opt_string_view(*working_dir),
                env: env@,
            },
        }
    }
}

/// The line that the shell is asked to run.
pub open spec fn shell_command(
    strategy: LaunchStrategy,
    terminal: (Seq<char>, Seq<char>),
    args: Seq<Seq<char>>,
) -> Seq<char> {
    if strategy == LaunchStrategy::TerminalShell {
        terminal.0 + seq![' '] + terminal.1 + seq![' '] + join_spaced(args)
    } else {
        join_spaced(args)
    }
}

impl DesktopEntry {
    /// The arguments that an exec string resolves to, or why it resolves to none.
    pub open spec fn resolved_args(
        &self,
        exec_line: Seq<char>,
        uris: Seq<Seq<char>>,
        lang: Option<Seq<char>>,
    ) -> Result<Seq<Seq<char>>, ExecErrorView> {
        match parse_exec(exec_line) {
            Err(e) => Err(e),
            Ok(ts) => {
                let locale = match lang {
                    Some(l) => Some(locale_of(l)),
                    None => None,
                };
                let args = substitute(
                    ts,
                    uris,
                    opt_string_view(self.icon),
                    self.translated_name(locale),
                    self.path@,
                );
                if args.len() == 0 {
                    Err(ExecErrorView::EmptyExecString)
                } else {
                    Ok(args)
                }
            },
        }
    }

    /// The plan for an exec string of this entry.
    pub open spec fn planned(
        &self,
        exec_line: Seq<char>,
        uris: Seq<Seq<char>>,
        prefer_non_default_gpu: bool,
        env: LaunchEnv,
    ) -> Result<PlanView, ExecErrorView> {
        match self.resolved_args(exec_line, uris, opt_string_view(env.lang)) {
            Err(e) => Err(e),
            Ok(args) => {
                let strategy = spec_strategy(env.bus_actionable, self.terminal);
                if strategy == LaunchStrategy::Bus {
                    Ok(PlanView::Bus { uris })
                } else {
                    match env.shell {
                        None => Err(ExecErrorView::MissingShellEnvironment),
                        Some(shell) => Ok(
                            PlanView::Spawn {
                                program: shell@,
                                args: seq![
                                    seq!['-', 'c'],
                                    shell_command(strategy, env.terminal.chosen(), args),
                                ],
                                working_dir: opt_string_view(self.working_dir),
                                env: gpu_env(prefer_non_default_gpu, env.gpu),
                            },
                        ),
                    }
                }
            },
        }
    }

    /// Resolves the arguments of an exec string of this entry.
    pub fn resolve_args(&self, exec_line: &str, uris: &[&str], lang: Option<&str>) -> (r: Result<
        Vec<String>,
        ExecError,
    >)
        ensures
            match r {
                Ok(v) => self.resolved_args(exec_line@, uris_view(uris@), opt_str_view(lang)) == Ok::<
                    Seq<Seq<char>>,
                    ExecErrorView,
                >(strings_view(v@)),
                Err(e) => self.resolved_args(exec_line@, uris_view(uris@), opt_str_view(lang))
                    == Err::<Seq<Seq<char>>, ExecErrorView>(e@),
            },
    {
        let tokens = match parse_exec_string(exec_line) {
            Ok(t) => t,
            Err(e) => return Err(e),
        };
        let locale = match lang {
            Some(l) => Some(locale_from_lang(l)),
            None => None,
        };
        let args = self.get_args(uris, &tokens, locale);
        if args.len() == 0 {
            return Err(ExecError::EmptyExecString);
        }
        Ok(args)
    }

    fn shell_launch(&self, exec_line: &str, uris: &[&str], prefer_non_default_gpu: bool, env: LaunchEnv) -> (r:
        Result<LaunchPlan, ExecError>)
        ensures
            result_view(r) == self.planned(exec_line@, uris_view(uris@), prefer_non_default_gpu, env),
    {
        let lang = match &env.lang {
            Some(l) => Some(l.as_str()),
            None => None,
        };
        let args = match self.resolve_args(exec_line, uris, lang) {
            Ok(a) => a,
            Err(e) => return Err(e),
        };
        let strategy = choose_strategy(env.bus_actionable, self.terminal());
        if strategy == LaunchStrategy::Bus {
            return Ok(LaunchPlan::Bus { uris: copy_uris(uris) });
        }
        let shell = match env.shell {
            Some(s) => s,
            None => return Err(ExecError::MissingShellEnvironment),
        };
        proof {
            reveal_strlit(" ");
            reveal_strlit("-c");
        }
        let ghost chosen = env.terminal.chosen();
        let mut command = String::new();
        if strategy == LaunchStrategy::TerminalShell {
            let term = detect_terminal(&env.terminal);
            command.append(term.program.as_str());
            command.append(" ");
            command.append(term.separator.as_str());
            command.append(" ");
            proof {
                assert(command@ =~= chosen.0 + seq![' '] + chosen.1 + seq![' ']);
            }
        }
        let joined = join_strings(&args);
        command.append(joined.as_str());
        proof {
            assert(command@ =~= shell_command(strategy, chosen, strings_view(args@)));
        }
        let working_dir = match self.path() {
            Some(d) => Some(String::from_str(d)),
            None => None,
        };
        let env_vars = select_gpu_env(prefer_non_default_gpu, env.gpu);
        let mut shell_args: Vec<String> = Vec::new();
        let dash_c = String::from_str("-c");
        proof {
            assert(strings_view(shell_args@) =~= seq![]);
            assert(dash_c@ =~= seq!['-', 'c']);
            lemma_strings_view_push(shell_args@, dash_c);
        }
        shell_args.push(dash_c);
        proof {
            lemma_strings_view_push(shell_args@, command);
        }
        shell_args.push(command);
        proof {
            assert(strings_view(shell_args@) =~= seq![
                seq!['-', 'c'],
                shell_command(strategy, env.terminal.chosen(), strings_view(args@)),
            ]);
        }
        Ok(LaunchPlan::Spawn { program: shell, args: shell_args, working_dir, env: env_vars })
    }
}

/// The URIs as owned strings.
fn copy_uris(uris: &[&str]) -> (r: Vec<String>)
    ensures
        strings_view(r@) == uris_view(uris@),
{
    let mut out: Vec<String> = Vec::new();
    let mut i: usize = 0;
    while i < uris.len()
        invariant
            i <= uris@.len(),
            strings_view(out@) == uris_view(uris@).take(i as int),
        decreases uris@.len() - i,
    {
        let s = String::from_str(uris[i]);
        proof {
            lemma_strings_view_push(out@, s);
            assert(uris_view(uris@).take(i + 1) =~= uris_view(uris@).take(i as int).push(
                uris@[i as int]@,
            ));
        }
        out.push(s);
        i = i + 1;
    }
    proof {
        assert(uris_view(uris@).take(i as int) =~= uris_view(uris@));
    }
    out
}

/// The strings joined by single spaces.
pub fn join_strings(v: &Vec<String>) -> (r: String)
    ensures
        r@ == join_spaced(strings_view(v@)),
{
    let mut out = String::new();
    let mut i: usize = 0;
    let ghost ws = strings_view(v@);
    proof {
        reveal_strlit(" ");
    }
    while i < v.len()
        invariant
            i <= v@.len(),
            ws == strings_view(v@),
            out@ == join_spaced(ws.take(i as int)),
            " "@ == seq![' '],
        decreases v@.len() - i,
    {
        proof {
            assert(ws.take(i + 1).drop_last() =~= ws.take(i as int));
            assert(ws.take(i + 1).last() == v@[i as int]@);
            if i == 0 {
                assert(out@ =~= seq![]);
            }
        }
        if i > 0 {
            out.append(" ");
        }
        out.append(v[i].as_str());
        proof {
            if i == 0 {
                assert(out@ =~= ws.take(1)[0]);
            }
        }
        i = i + 1;
    }
    proof {
        assert(ws.take(i as int) =~= ws);
    }
    out
}

impl DesktopEntry {
    /// Resolves the launch of the named action of this entry.
    pub fn launch_action(&self, action: &str, uris: &[&str], env: LaunchEnv) -> (r: Result<
        LaunchPlan,
        ExecError,
    >)
        ensures
            result_view(r) == (if !self.declares_action(action@) {
                Err(ExecErrorView::ActionNotFound { action: action@, desktop_entry: self.path@ })
            } else {
                match lookup(self.action_execs@, action@) {
                    None => Err(
                        ExecErrorView::ActionExecKeyNotFound {
                            action: action@,
                            desktop_entry: self.path@,
                        },
                    ),
                    Some(e) => self.planned(e, uris_view(uris@), false, env),
                }
            }),
    {
        if !self.has_action(action) {
            return Err(
                ExecError::ActionNotFound {
                    action: String::from_str(action),
                    desktop_entry: String::from_str(self.path.as_str()),
                },
            );
        }
        match self.action_exec(action) {
            Some(e) => self.shell_launch(e, uris, false, env),
            None => Err(
                ExecError::ActionExecKeyNotFound {
                    action: String::from_str(action),
                    desktop_entry: String::from_str(self.path.as_str()),
                },
            ),
        }
    }

    /// Resolves the launch of this entry with `uris`, asking for the non-default GPU where
    /// `prefer_non_default_gpu` holds.
    pub fn launch(&self, uris: &[&str], prefer_non_default_gpu: bool, env: LaunchEnv) -> (r: Result<
        LaunchPlan,
        ExecError,
    >)
        ensures
            result_view(r) == match self.exec_line {
                None => Err(
                    ExecErrorView::MissingExecKey { desktop_entry: self.path@ },
                ),
                Some(e) => self.planned(e@, uris_view(uris@), prefer_non_default_gpu, env),
            },
    {
        match self.exec_line() {
            Some(e) => self.shell_launch(e, uris, prefer_non_default_gpu, env),
            None => Err(
                ExecError::MissingExecKey { desktop_entry: String::from_str(self.path.as_str()) },
            ),
        }
    }
}

/// What the immediate look at a spawned process means: a known non-zero exit code is a
/// failure; success, or a process still running or not yet known, is success.
pub fn check_exit_status(status: Option<i32>, command: &str) -> (r: Result<(), ExecError>)
    ensures
        match status {
            Some(code) if code != 0 => r is Err && r->Err_0@ == ExecErrorView::NonZeroStatusCode {
                status: code,
                command: command@,
            },
            _ => r is Ok,
        },
{
    match status {
        Some(code) => if code != 0 {
            Err(ExecError::NonZeroStatusCode { status: code, command: String::from_str(command) })
        } else {
            Ok(())
        },
        None => Ok(()),
    }
}

} // verus!
