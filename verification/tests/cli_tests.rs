use no_boilerplate_vite::cli::{completion_instructions, parse_args, Invocation, UsageError};
use no_boilerplate_vite::name::ProjectName;

fn args(list: &[&str]) -> Vec<Vec<u8>> {
    list.iter().map(|a| a.as_bytes().to_vec()).collect()
}

#[test]
fn missing_project_name_is_fatal() {
    let r = parse_args(&args(&["nbv"]));
    assert!(matches!(r, Err(UsageError::MissingProjectName)));
}

#[test]
fn help_flags_short_circuit() {
    assert!(matches!(parse_args(&args(&["nbv", "-h"])), Ok(Invocation::ShowHelp)));
    assert!(matches!(parse_args(&args(&["nbv", "--help"])), Ok(Invocation::ShowHelp)));
}

#[test]
fn traversal_like_names_are_rejected() {
    assert!(matches!(
        parse_args(&args(&["nbv", "../evil"])),
        Err(UsageError::InvalidProjectName)
    ));
    assert!(matches!(
        parse_args(&args(&["nbv", "a/b"])),
        Err(UsageError::InvalidProjectName)
    ));
    assert!(matches!(
        parse_args(&args(&["nbv", "a.b"])),
        Err(UsageError::InvalidProjectName)
    ));
    assert!(matches!(
        parse_args(&args(&["nbv", "a\\b"])),
        Err(UsageError::InvalidProjectName)
    ));
}

#[test]
fn invalid_name_produces_no_scaffold_command() {
    // Rejection happens at parse time, before any tree is touched: no
    // invocation that could mutate a filesystem is ever produced.
    for bad in ["../evil", "a/b", "a.b"] {
        match parse_args(&args(&["nbv", bad])) {
            Err(UsageError::InvalidProjectName) => {}
            other => panic!("expected the name {:?} to be rejected, got {:?}", bad, other.is_ok()),
        }
    }
}

#[test]
fn project_name_parse_checks_bytes() {
    assert!(ProjectName::parse(b"demo-app".to_vec()).is_ok());
    assert!(ProjectName::parse(b"demo app 7".to_vec()).is_ok());
    assert!(ProjectName::parse(b"demo.app".to_vec()).is_err());
    assert!(ProjectName::parse(b"demo/app".to_vec()).is_err());
    assert!(ProjectName::parse(b"demo\\app".to_vec()).is_err());
    let rejected = ProjectName::parse(b"a.b".to_vec()).unwrap_err();
    assert_eq!(rejected, b"a.b".to_vec());
}

#[test]
fn install_flag_spellings() {
    match parse_args(&args(&["nbv", "demo-app", "-i"])) {
        Ok(Invocation::Scaffold { name, install }) => {
            assert_eq!(name.as_bytes().as_slice(), b"demo-app");
            assert!(install);
        }
        _ => panic!("expected a scaffold invocation"),
    }
    match parse_args(&args(&["nbv", "demo-app", "--install"])) {
        Ok(Invocation::Scaffold { install, .. }) => assert!(install),
        _ => panic!("expected a scaffold invocation"),
    }
}

#[test]
fn no_second_argument_means_no_install() {
    match parse_args(&args(&["nbv", "demo-app"])) {
        Ok(Invocation::Scaffold { name, install }) => {
            assert_eq!(name.as_bytes().as_slice(), b"demo-app");
            assert!(!install);
        }
        _ => panic!("expected a scaffold invocation"),
    }
}

#[test]
fn unknown_second_argument_is_fatal() {
    match parse_args(&args(&["nbv", "demo-app", "--wat"])) {
        Err(UsageError::UnknownArgument { arg }) => assert_eq!(arg, b"--wat".to_vec()),
        _ => panic!("expected an unknown-argument error"),
    }
}

#[test]
fn completion_instructions_without_install() {
    let name = ProjectName::parse(b"demo-app".to_vec()).unwrap();
    let text = String::from_utf8(completion_instructions(&name, false)).unwrap();
    assert!(text.contains("cd demo-app"));
    assert_eq!(
        text,
        "  cd demo-app\n  npm install -D tailwindcss postcss autoprefixer\n  npm run dev"
    );
}

#[test]
fn completion_instructions_with_install() {
    let name = ProjectName::parse(b"demo-app".to_vec()).unwrap();
    let text = String::from_utf8(completion_instructions(&name, true)).unwrap();
    assert_eq!(text, "  cd demo-app\n  npm run dev");
}
