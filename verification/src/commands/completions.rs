use crate::text::{framed, lowercased, occurs_in, same_text, str_contains, str_to_lowercase};
use vstd::prelude::*;

verus! {

/// A command shell for which completions can be asked.
#[derive(Debug, Clone, Copy, PartialEq, Eq, Structural)]
pub enum Shell {
    Bash,
    Elvish,
    Fish,
    PowerShell,
    Zsh,
}

impl Shell {
    /// Whether completions for the shell can be written and installed: this
    /// is so for every shell but `Elvish`.
    pub open spec fn supported(self) -> bool {
        self != Shell::Elvish
    }

    /// Says whether completions for the shell can be written and installed.
    pub fn is_supported(self) -> (b: bool)
        ensures
            b == self.supported(),
    {
        match self {
            Shell::Elvish => false,
            _ => true,
        }
    }
}

/// Why no shell was made out.
#[derive(Debug)]
pub enum DetectError {
    /// The shell in use is none that completions can be installed for.
    Unsupported(String),
    /// The shell in use is `cmd.exe`, which has no completions.
    CommandPrompt,
    /// Nothing tells which shell is in use.
    Unknown,
}

/// What a `DetectError` holds.
pub enum DetectErrorView {
    Unsupported(Seq<char>),
    CommandPrompt,
    Unknown,
}

impl View for DetectError {
    type V = DetectErrorView;

    open spec fn view(&self) -> DetectErrorView {
        match self {
            DetectError::Unsupported(name) => DetectErrorView::Unsupported(name@),
            DetectError::CommandPrompt => DetectErrorView::CommandPrompt,
            DetectError::Unknown => DetectErrorView::Unknown,
        }
    }
}

/// The shell that a program of this name is.
pub open spec fn shell_named(name: Seq<char>) -> Option<Shell> {
    if name == "bash"@ {
        Some(Shell::Bash)
    } else if name == "zsh"@ {
        Some(Shell::Zsh)
    } else if name == "fish"@ {
        Some(Shell::Fish)
    } else if name == "pwsh"@ || name == "powershell"@ {
        Some(Shell::PowerShell)
    } else {
        None
    }
}

/// Tells the shell that a program of this name is.
pub fn shell_from_name(name: &str) -> (r: Option<Shell>)
    ensures
        r == shell_named(name@),
{
    if same_text(name, "bash") {
        Some(Shell::Bash)
    } else if same_text(name, "zsh") {
        Some(Shell::Zsh)
    } else if same_text(name, "fish") {
        Some(Shell::Fish)
    } else if same_text(name, "pwsh") || same_text(name, "powershell") {
        Some(Shell::PowerShell)
    } else {
        None
    }
}

/// The shell in use, as far as these tell: the file name of the program that
/// the environment names as the shell, whether the environment holds a
/// module path of PowerShell, and the command interpreter that it names. The
/// program's name decides where there is one; then the module path; a
/// command interpreter `cmd.exe`, in any case of letters, is refused.
pub open spec fn detected_shell(
    shell_name: Option<Seq<char>>,
    has_module_path: bool,
    command_interpreter: Option<Seq<char>>,
) -> Result<Shell, DetectErrorView> {
    match shell_name {
        Some(name) => match shell_named(name) {
            Some(shell) => Ok(shell),
            None => Err(DetectErrorView::Unsupported(name)),
        },
        None => if has_module_path {
            Ok(Shell::PowerShell)
        } else {
            match command_interpreter {
                Some(path) if occurs_in(lowercased(path), "cmd.exe"@) => Err(
                    DetectErrorView::CommandPrompt,
                ),
                _ => Err(DetectErrorView::Unknown),
            }
        },
    }
}

/// Makes out the shell in use from what the environment tells of it.
pub fn detect_shell(
    shell_name: Option<&str>,
    has_module_path: bool,
    command_interpreter: Option<&str>,
) -> (r: Result<Shell, DetectError>)
    ensures
        match detected_shell(
            match shell_name {
                Some(name) => Some(name@),
                None => None,
            },
            has_module_path,
            match command_interpreter {
                Some(path) => Some(path@),
                None => None,
            },
        ) {
            Ok(shell) => r == Ok::<Shell, DetectError>(shell),
            Err(e) => r is Err && r->Err_0@ == e,
        },
        r is Ok ==> r->Ok_0.supported(),
{
    match shell_name {
        Some(name) => match shell_from_name(name) {
            Some(shell) => Ok(shell),
            None => Err(DetectError::Unsupported(name.to_string())),
        },
        None => {
            if has_module_path {
                return Ok(Shell::PowerShell);
            }
            match command_interpreter {
                Some(path) => {
                    if is_command_prompt(&str_to_lowercase(path)) {
                        Err(DetectError::CommandPrompt)
                    } else {
                        Err(DetectError::Unknown)
                    }
                },
                None => Err(DetectError::Unknown),
            }
        },
    }
}

/// Says whether the path of a command interpreter, written in lower case,
/// names `cmd.exe`.
pub fn is_command_prompt(lowercase_path: &String) -> (b: bool)
    ensures
        b == occurs_in(lowercase_path@, "cmd.exe"@),
{
    str_contains(lowercase_path.as_str(), "cmd.exe")
}

/// The message that tells the user why no shell was made out.
pub open spec fn detect_error_text(e: DetectErrorView) -> Seq<char> {
    match e {
        DetectErrorView::Unsupported(name) => "Unsupported shell: "@ + name
            + ". Please specify a supported shell (bash, zsh, fish, powershell)"@,
        DetectErrorView::CommandPrompt => "cmd.exe does not support tab completions. Please use PowerShell instead, or specify a shell explicitly."@,
        DetectErrorView::Unknown => "Could not detect shell. Please specify a shell explicitly (bash, zsh, fish, powershell)"@,
    }
}

impl DetectError {
    /// The message for the user.
    pub fn message(&self) -> (r: String)
        ensures
            r@ == detect_error_text(self@),
    {
        match self {
            DetectError::Unsupported(name) => framed(
                "Unsupported shell: ",
                name.as_str(),
                ". Please specify a supported shell (bash, zsh, fish, powershell)",
            ),
            DetectError::CommandPrompt => {
                "cmd.exe does not support tab completions. Please use PowerShell instead, or specify a shell explicitly.".to_string()
            },
            DetectError::Unknown => {
                "Could not detect shell. Please specify a shell explicitly (bash, zsh, fish, powershell)".to_string()
            },
        }
    }
}

/// What is to be done about completions.
#[derive(Debug, Clone, Copy, PartialEq, Eq, Structural)]
pub enum CompletionsRequest {
    /// The script for the shell is written out.
    Print(Shell),
    /// The script for the shell is installed.
    Install(Shell),
    /// The script is installed for the shell in use, which is to be made out first.
    DetectAndInstall,
    /// Nothing: no shell was named and nothing is to be installed.
    ShellMissing,
}

/// Settles what is to be done about completions from the shell that was
/// named, if any, and from whether the script is to be installed. A script
/// for a shell that has none is installed for the shell in use.
pub fn completions_request(shell: Option<Shell>, install: bool) -> (r: CompletionsRequest)
    ensures
        r == match shell {
            Some(s) => if !install {
                CompletionsRequest::Print(s)
            } else if s.supported() {
                CompletionsRequest::Install(s)
            } else {
                CompletionsRequest::DetectAndInstall
            },
            None => if install {
                CompletionsRequest::DetectAndInstall
            } else {
                CompletionsRequest::ShellMissing
            },
        },
{
    match shell {
        Some(s) => {
            if !install {
                CompletionsRequest::Print(s)
            } else if s.is_supported() {
                CompletionsRequest::Install(s)
            } else {
                CompletionsRequest::DetectAndInstall
            }
        },
        None => {
            if install {
                CompletionsRequest::DetectAndInstall
            } else {
                CompletionsRequest::ShellMissing
            }
        },
    }
}

} // verus!
