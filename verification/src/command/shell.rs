//! The interpreters that a command line can be handed to.

use vstd::prelude::*;
use vstd::string::*;

verus! {

/// A shell interpreter.
#[derive(PartialEq, Eq, Debug)]
pub enum Shell {
    Bash,
    Zsh,
    /// The system's baseline shell, and the default.
    Sh,
    /// Any other interpreter, by the name of its program.
    Custom(String),
}

/// A shell interpreter, as a mathematical value.
pub enum ShellView {
    Bash,
    Zsh,
    Sh,
    Custom(Seq<char>),
}

impl ShellView {
    /// The name of the interpreter's program.
    pub open spec fn name(self) -> Seq<char> {
        match self {
            ShellView::Bash => "bash"@,
            ShellView::Zsh => "zsh"@,
            ShellView::Sh => "sh"@,
            ShellView::Custom(name) => name,
        }
    }
}

/// The name of the interpreter that runs a unit configured with `shell`:
/// its own, or the baseline shell where it has none.
pub open spec fn interpreter(shell: Option<ShellView>) -> Seq<char> {
    match shell {
        Some(shell) => shell.name(),
        None => ShellView::Sh.name(),
    }
}

impl View for Shell {
    type V = ShellView;

    open spec fn view(&self) -> ShellView {
        match self {
            Shell::Bash => ShellView::Bash,
            Shell::Zsh => ShellView::Zsh,
            Shell::Sh => ShellView::Sh,
            Shell::Custom(name) => ShellView::Custom(name@),
        }
    }
}

impl Default for Shell {
    fn default() -> (shell: Shell)
        ensures
            shell == Shell::Sh,
    {
        Shell::Sh
    }
}

impl Clone for Shell {
    fn clone(&self) -> (copy: Shell)
        ensures
            copy@ == self@,
    {
        match self {
            Shell::Bash => Shell::Bash,
            Shell::Zsh => Shell::Zsh,
            Shell::Sh => Shell::Sh,
            Shell::Custom(name) => Shell::Custom(name.clone()),
        }
    }
}

impl Shell {
    /// The name of the interpreter's program.
    pub fn to_string(&self) -> (name: String)
        ensures
            name@ == self@.name(),
    {
        match self {
            Shell::Bash => "bash".to_owned(),
            Shell::Zsh => "zsh".to_owned(),
            Shell::Sh => "sh".to_owned(),
            Shell::Custom(name) => name.clone(),
        }
    }
}

/// The view of a shell that may be absent.
pub open spec fn shell_view(shell: Option<Shell>) -> Option<ShellView> {
    match shell {
        Some(shell) => Some(shell@),
        None => None,
    }
}

/// The name of the interpreter that runs a unit configured with `shell`.
pub fn interpreter_of(shell: &Option<Shell>) -> (name: String)
    ensures
        name@ == interpreter(shell_view(*shell)),
{
    match shell {
        Some(shell) => shell.to_string(),
        None => "sh".to_owned(),
    }
}

} // verus!
