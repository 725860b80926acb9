//! Which program a new session runs, and with what environment.

use crate::factory::TerminalSize;
use vstd::prelude::*;
use vstd::string::StringExecFns;

verus! {

/// One variable that is set for the shell, whatever the host has it at.
#[derive(Debug, Clone, PartialEq, Eq)]
pub struct EnvOverride {
    pub name: String,
    pub value: String,
}

/// All that is decided before a shell is started: the program, the variables
/// set for it, and the size of its terminal.
#[derive(Debug, Clone, PartialEq, Eq)]
pub struct LaunchPlan {
    pub program: String,
    pub env: Vec<EnvOverride>,
    pub size: TerminalSize,
}

/// The shell of the platform, for a host that names none.
pub open spec fn platform_shell(windows: bool) -> Seq<char> {
    if windows {
        "cmd.exe"@
    } else {
        "/bin/bash"@
    }
}

/// The shell to run: the one that the host's shell variable names, or else
/// the shell of the platform.
pub open spec fn shell_text(windows: bool, shell_var: Option<Seq<char>>) -> Seq<char> {
    match shell_var {
        Some(named) => named,
        None => platform_shell(windows),
    }
}

/// What the host's shell variable holds, as a value.
pub open spec fn named_shell(shell_var: Option<&str>) -> Option<Seq<char>> {
    match shell_var {
        Some(named) => Some(named@),
        None => None,
    }
}

/// The variable at position `i` of `env` is `name`, set to `value`.
pub open spec fn sets(env: Seq<EnvOverride>, i: int, name: Seq<char>, value: Seq<char>) -> bool {
    0 <= i < env.len() && env[i].name@ == name && env[i].value@ == value
}

/// The variables set for every shell: the terminal type, a flag that asks
/// programs for colour, and a search path.
pub open spec fn is_recommended_env(env: Seq<EnvOverride>) -> bool {
    &&& env.len() == 3
    &&& sets(env, 0, "TERM"@, "xterm-256color"@)
    &&& sets(env, 1, "PATH"@, "/opt/homebrew/bin:/usr/local/bin:/usr/bin:/bin"@)
    &&& sets(env, 2, "FORCE_COLOR"@, "1"@)
}

/// The shell to run, given the platform and what the host's shell variable
/// holds, if it is set.
pub fn default_shell(windows: bool, shell_var: Option<&str>) -> (shell: String)
    ensures
        shell@ == shell_text(windows, named_shell(shell_var)),
{
    match shell_var {
        Some(named) => String::from_str(named),
        None => if windows {
            String::from_str("cmd.exe")
        } else {
            String::from_str("/bin/bash")
        },
    }
}

/// The variables set for every shell.
pub fn recommended_env() -> (env: Vec<EnvOverride>)
    ensures
        is_recommended_env(env@),
{
    let mut env: Vec<EnvOverride> = Vec::new();
    env.push(
        EnvOverride { name: String::from_str("TERM"), value: String::from_str("xterm-256color") },
    );
    env.push(
        EnvOverride {
            name: String::from_str("PATH"),
            value: String::from_str("/opt/homebrew/bin:/usr/local/bin:/usr/bin:/bin"),
        },
    );
    env.push(EnvOverride { name: String::from_str("FORCE_COLOR"), value: String::from_str("1") });
    env
}

/// The plan for starting `program` in a new terminal: the recommended
/// variables and the initial size of 24 rows by 80 columns.
pub fn launch_plan(program: String) -> (plan: LaunchPlan)
    ensures
        plan.program@ == program@,
        is_recommended_env(plan.env@),
        plan.size == TerminalSize::of_cells(24, 80),
{
    LaunchPlan { program, env: recommended_env(), size: TerminalSize::initial() }
}

} // verus!
