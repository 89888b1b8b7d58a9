use vstd::prelude::*;

use crate::opt_view;

verus! {

/// Terminal width used when the caller gives none.
pub const DEFAULT_COLS: u16 = 80;

/// Terminal height used when the caller gives none.
pub const DEFAULT_ROWS: u16 = 24;

/// The shell a session starts when the caller names none, on a POSIX host:
/// the login shell from the environment when it is set, else `/bin/sh`.
pub open spec fn spec_posix_default_shell(login_shell: Option<Seq<char>>) -> Seq<char> {
    match login_shell {
        Some(s) => s,
        None => "/bin/sh"@,
    }
}

/// The shell a session starts when the caller names none, on Windows: the
/// newer PowerShell when it is installed, else the legacy one.
pub open spec fn spec_windows_default_shell(pwsh_installed: bool) -> Seq<char> {
    if pwsh_installed {
        "pwsh.exe"@
    } else {
        "powershell.exe"@
    }
}

/// Default shell on a POSIX host, given the login shell read from the
/// environment (`None` when it is unset or unreadable).
pub fn posix_default_shell(login_shell: Option<String>) -> (r: String)
    ensures
        r@ == spec_posix_default_shell(opt_view(login_shell)),
{
    match login_shell {
        Some(s) => s,
        None => "/bin/sh".to_owned(),
    }
}

/// Default shell on Windows, given whether `pwsh.exe` was found on the
/// search path.
pub fn windows_default_shell(pwsh_installed: bool) -> (r: String)
    ensures
        r@ == spec_windows_default_shell(pwsh_installed),
{
    if pwsh_installed {
        "pwsh.exe".to_owned()
    } else {
        "powershell.exe".to_owned()
    }
}

/// Everything needed to start one shell on a fresh pseudo-terminal.
pub struct SpawnPlan {
    /// The program to run.
    pub shell: String,
    /// The working directory, when one was asked for.
    pub cwd: Option<String>,
    /// Terminal width in character cells.
    pub cols: u16,
    /// Terminal height in character cells.
    pub rows: u16,
    /// Value of `TERM` in the child's environment.
    pub term: String,
    /// Variables taken out of the child's environment, so that it does not
    /// take itself for a session nested inside the host application.
    pub unset_vars: Vec<String>,
}

/// The terminal type announced to the child: full colour, interactive.
pub open spec fn spec_term() -> Seq<char> {
    "xterm-256color"@
}

/// The variables by which a child would detect a nested host session.
pub open spec fn spec_unset_vars() -> Seq<Seq<char>> {
    seq!["CLAUDECODE"@, "CLAUDE_CODE"@]
}

impl SpawnPlan {
    /// Builds the plan of a spawn: the requested size, else 80 by 24; the
    /// requested shell, else `default_shell`; the working directory as given.
    pub fn new(
        cwd: Option<String>,
        shell: Option<String>,
        cols: Option<u16>,
        rows: Option<u16>,
        default_shell: String,
    ) -> (r: SpawnPlan)
        ensures
            r.shell@ == (match shell {
                Some(s) => s@,
                None => default_shell@,
            }),
            opt_view(r.cwd) == opt_view(cwd),
            r.cols == (match cols {
                Some(c) => c,
                None => DEFAULT_COLS,
            }),
            r.rows == (match rows {
                Some(n) => n,
                None => DEFAULT_ROWS,
            }),
            r.term@ == spec_term(),
            r.unset_vars@.map_values(|v: String| v@) == spec_unset_vars(),
    {
        let shell = match shell {
            Some(s) => s,
            None => default_shell,
        };
        let cols = match cols {
            Some(c) => c,
            None => DEFAULT_COLS,
        };
        let rows = match rows {
            Some(n) => n,
            None => DEFAULT_ROWS,
        };
        let mut unset_vars: Vec<String> = Vec::new();
        unset_vars.push("CLAUDECODE".to_owned());
        unset_vars.push("CLAUDE_CODE".to_owned());
        assert(unset_vars@.map_values(|v: String| v@) =~= spec_unset_vars());
        SpawnPlan { shell, cwd, cols, rows, term: "xterm-256color".to_owned(), unset_vars }
    }
}

} // verus!
