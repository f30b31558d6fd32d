use khelp::commands::completions::{
    completions_request, detect_shell, is_command_prompt, shell_from_name, CompletionsRequest,
    DetectError, Shell,
};

#[test]
fn test_shells_are_known_by_name() {
    assert_eq!(shell_from_name("bash"), Some(Shell::Bash));
    assert_eq!(shell_from_name("zsh"), Some(Shell::Zsh));
    assert_eq!(shell_from_name("fish"), Some(Shell::Fish));
    assert_eq!(shell_from_name("pwsh"), Some(Shell::PowerShell));
    assert_eq!(shell_from_name("powershell"), Some(Shell::PowerShell));
    assert_eq!(shell_from_name("elvish"), None);
    assert_eq!(shell_from_name("Bash"), None);
    assert_eq!(shell_from_name(""), None);
}

#[test]
fn test_supported_shells() {
    assert!(Shell::Bash.is_supported());
    assert!(Shell::Zsh.is_supported());
    assert!(Shell::Fish.is_supported());
    assert!(Shell::PowerShell.is_supported());
    assert!(!Shell::Elvish.is_supported());
}

#[test]
fn test_detect_shell_goes_by_program_name_first() {
    assert_eq!(detect_shell(Some("zsh"), true, Some("cmd.exe")).unwrap(), Shell::Zsh);
    match detect_shell(Some("tcsh"), true, None) {
        Err(DetectError::Unsupported(name)) => {
            assert_eq!(name, "tcsh");
            assert_eq!(
                DetectError::Unsupported(name).message(),
                "Unsupported shell: tcsh. Please specify a supported shell (bash, zsh, fish, powershell)"
            );
        }
        other => panic!("unexpected: {:?}", other),
    }
}

#[test]
fn test_detect_shell_falls_back_to_the_environment() {
    assert_eq!(detect_shell(None, true, Some("C:\\Windows\\cmd.exe")).unwrap(), Shell::PowerShell);
    match detect_shell(None, false, Some("C:\\WINDOWS\\system32\\CMD.EXE")) {
        Err(DetectError::CommandPrompt) => assert_eq!(
            DetectError::CommandPrompt.message(),
            "cmd.exe does not support tab completions. Please use PowerShell instead, or specify a shell explicitly."
        ),
        other => panic!("unexpected: {:?}", other),
    }
    match detect_shell(None, false, Some("/bin/sh")) {
        Err(DetectError::Unknown) => assert_eq!(
            DetectError::Unknown.message(),
            "Could not detect shell. Please specify a shell explicitly (bash, zsh, fish, powershell)"
        ),
        other => panic!("unexpected: {:?}", other),
    }
    assert!(matches!(detect_shell(None, false, None), Err(DetectError::Unknown)));
}

#[test]
fn test_completions_requests() {
    assert_eq!(completions_request(Some(Shell::Fish), false), CompletionsRequest::Print(Shell::Fish));
    assert_eq!(
        completions_request(Some(Shell::Elvish), false),
        CompletionsRequest::Print(Shell::Elvish)
    );
    assert_eq!(completions_request(Some(Shell::Bash), true), CompletionsRequest::Install(Shell::Bash));
    assert_eq!(completions_request(Some(Shell::Elvish), true), CompletionsRequest::DetectAndInstall);
    assert_eq!(completions_request(None, true), CompletionsRequest::DetectAndInstall);
    assert_eq!(completions_request(None, false), CompletionsRequest::ShellMissing);
}

#[test]
fn test_command_prompt_is_known_by_its_path() {
    assert!(is_command_prompt(&"c:\\windows\\system32\\cmd.exe".to_string()));
    assert!(is_command_prompt(&"cmd.exe".to_string()));
    assert!(!is_command_prompt(&"C:\\Windows\\CMD.EXE".to_string()));
    assert!(!is_command_prompt(&"/bin/cmd".to_string()));
    assert!(!is_command_prompt(&String::new()));
}
