use kfct_lib::configs::helper::create_runtime_vars;
use kfct_lib::configs::{SectionGlobal, SectionLocal};
use kfct_lib::exit_codes::{
    error_bad_arguments, error_cannot_make, exit_code, Platform, ARGUMENT_PARSING_ERROR,
    ERROR_SUCCESS,
};
use kfct_lib::file_helper::{
    cleanup_outcome, create_hacky_steamappid, is_hidden, remove_compilation_garbage, CleanupStep,
};
use kfct_lib::pipeline::{following, Action, Pipeline, STEP_COUNT};
use kfct_lib::ucc_wrapper::{start_compilation, validate_compile_directory};
use kfct_lib::{CompileToolErrors, RuntimeVariables};

fn vars() -> RuntimeVariables {
    create_runtime_vars(
        &SectionGlobal {
            package_name: "MyMod".to_string(),
            dir_classes: "C:\\Mods".to_string(),
            dir_compile: "C:\\Srv".to_string(),
            dir_move_to: None,
            dir_release_output: None,
        },
        &SectionLocal {
            edit_packages: "MyMod".to_string(),
            compile_outsideof_kf: false,
            alt_directories: false,
            move_files: false,
            create_int: false,
            make_redirect: false,
            make_release: false,
        },
    )
}

fn run(outcomes: &[bool]) -> (Vec<Action>, Pipeline) {
    let mut state = Pipeline::new();
    let mut taken = Vec::new();
    for ok in outcomes {
        if state.is_finished() {
            break;
        }
        taken.push(state.pending);
        state = state.advance(*ok);
    }
    (taken, state)
}

#[test]
fn identity_file_is_a_read_only_three() {
    let file = create_hacky_steamappid(&vars());
    assert_eq!(file.path, "C:\\Srv\\System\\steam_appid.txt");
    assert_eq!(file.content, "3");
    assert!(file.read_only);
}

#[test]
fn identity_file_is_made_writable_before_removal() {
    let v = vars();
    let created = create_hacky_steamappid(&v);
    assert!(created.read_only);
    let steps = remove_compilation_garbage(&v, false, true);
    assert_eq!(
        steps,
        vec![
            CleanupStep::ClearReadOnly(created.path.clone()),
            CleanupStep::RemoveFile(created.path.clone()),
        ]
    );
    assert_eq!(cleanup_outcome(&Vec::new()), Ok(()));
}

#[test]
fn cleanup_of_nothing_succeeds_twice() {
    let v = vars();
    for _ in 0..2 {
        let steps = remove_compilation_garbage(&v, false, false);
        assert!(steps.is_empty());
        assert_eq!(cleanup_outcome(&Vec::new()), Ok(()));
    }
}

#[test]
fn cleanup_removes_config_then_identity_file() {
    let v = vars();
    assert_eq!(
        remove_compilation_garbage(&v, true, true),
        vec![
            CleanupStep::RemoveFile("C:\\Srv\\System\\kfcompile.ini".to_string()),
            CleanupStep::ClearReadOnly("C:\\Srv\\System\\steam_appid.txt".to_string()),
            CleanupStep::RemoveFile("C:\\Srv\\System\\steam_appid.txt".to_string()),
        ]
    );
    assert_eq!(
        remove_compilation_garbage(&v, true, false),
        vec![CleanupStep::RemoveFile("C:\\Srv\\System\\kfcompile.ini".to_string())]
    );
    let mut unset = vars();
    unset.compiled_paths.temp_compilation_file = None;
    assert!(remove_compilation_garbage(&unset, true, false).is_empty());
}

#[test]
fn cleanup_failures_are_aggregated() {
    let failures = vec!["denied: a".to_string(), "denied: b".to_string()];
    assert_eq!(
        cleanup_outcome(&failures),
        Err(CompileToolErrors::IOError("denied: a\ndenied: b\n".to_string()))
    );
    assert_eq!(
        cleanup_outcome(&vec!["x".to_string()]),
        Err(CompileToolErrors::IOError("x\n".to_string()))
    );
}

#[test]
fn hidden_entries_begin_with_a_dot() {
    assert!(is_hidden(".git"));
    assert!(is_hidden("."));
    assert!(!is_hidden("Classes"));
    assert!(!is_hidden(""));
    assert!(!is_hidden("a.b"));
}

#[test]
fn compile_directory_is_judged_from_the_probe() {
    let v = vars();
    assert_eq!(validate_compile_directory(&v, Ok(true)), Ok(true));
    assert_eq!(
        validate_compile_directory(&v, Ok(false)),
        Err(CompileToolErrors::DirectoryNotFound("C:\\Srv".to_string()))
    );
    assert_eq!(
        validate_compile_directory(&v, Err("permission denied".to_string())),
        Err(CompileToolErrors::IOError("permission denied".to_string()))
    );
}

#[test]
fn compiler_is_started_with_three_arguments() {
    let call = start_compilation(&vars());
    assert_eq!(call.program, "C:\\Srv\\System\\UCC.exe");
    assert_eq!(
        call.arguments,
        vec!["make".to_string(), "ini=kfcompile.ini".to_string(), "-EXPORTCACHE".to_string()]
    );
}

#[test]
fn error_messages_name_kind_and_detail() {
    assert_eq!(CompileToolErrors::IOError("x".to_string()).message(), "I/O error: x");
    assert_eq!(
        CompileToolErrors::MissingRequiredField("dir_Compile".to_string()).message(),
        "missing required field: dir_Compile"
    );
    assert_eq!(
        CompileToolErrors::ConfigParseError("x".to_string()).message(),
        "configuration unreadable: x"
    );
    assert_eq!(
        CompileToolErrors::DirectoryNotFound("C:\\Srv".to_string()).message(),
        "directory not found: C:\\Srv"
    );
    assert_eq!(CompileToolErrors::PackagingError("x".to_string()).message(), "packaging failed: x");
    assert_eq!(CompileToolErrors::PathError("x".to_string()).message(), "path error: x");
}

#[test]
fn exit_codes_by_platform() {
    assert_eq!(ERROR_SUCCESS, 0);
    assert_eq!(ARGUMENT_PARSING_ERROR, 2);
    assert_eq!(error_cannot_make(Platform::Windows), 82);
    assert_eq!(error_cannot_make(Platform::Unix), 1);
    assert_eq!(error_bad_arguments(Platform::Windows), 160);
    assert_eq!(error_bad_arguments(Platform::Unix), 128);
    assert_eq!(exit_code(Platform::Unix, true), 0);
    assert_eq!(exit_code(Platform::Windows, true), 0);
    assert_eq!(exit_code(Platform::Unix, false), 1);
    assert_eq!(exit_code(Platform::Windows, false), 82);
}

#[test]
fn run_without_failure_takes_every_step_in_order() {
    let (taken, end) = run(&[true; 8]);
    assert_eq!(
        taken,
        vec![
            Action::ParseAndDerive,
            Action::ValidateCompileDirectory,
            Action::WriteCompilationConfig,
            Action::CreateIdentityFile,
            Action::RunCompiler,
            Action::PackageRelease,
            Action::RemoveTransientArtifacts,
        ]
    );
    assert_eq!(taken.len(), STEP_COUNT);
    assert_eq!(end.pending, Action::Finish(true));
    assert_eq!(end.advance(false).pending, Action::Finish(true));
}

#[test]
fn early_failure_ends_the_run_at_once() {
    for k in 0..3 {
        let mut outcomes = vec![true; 7];
        outcomes[k] = false;
        let (taken, end) = run(&outcomes);
        assert_eq!(taken.len(), k + 1);
        assert_eq!(end.pending, Action::Finish(false));
    }
}

#[test]
fn late_failure_still_cleans_up() {
    let (taken, end) = run(&[true, true, true, false, true, true, true]);
    assert_eq!(taken.last(), Some(&Action::RemoveTransientArtifacts));
    assert_eq!(taken.len(), 5);
    assert_eq!(end.pending, Action::Finish(false));

    let (taken, end) = run(&[true, true, true, true, false, true, true]);
    assert_eq!(taken.last(), Some(&Action::RemoveTransientArtifacts));
    assert!(!taken.contains(&Action::PackageRelease));
    assert_eq!(end.pending, Action::Finish(false));

    let (taken, end) = run(&[true, true, true, true, true, false, true]);
    assert_eq!(taken.last(), Some(&Action::RemoveTransientArtifacts));
    assert_eq!(taken.len(), 7);
    assert_eq!(end.pending, Action::Finish(false));

    let (_, end) = run(&[true, true, true, true, true, true, false]);
    assert_eq!(end.pending, Action::Finish(false));
}

#[test]
fn release_is_archived_beside_its_directory() {
    let mut v = vars();
    assert_eq!(kfct_lib::file_helper::release_archive(&v), None);
    v.release_options = Some(kfct_lib::ReleaseOptions::new(&"C:\\Rel".to_string()));
    let request = kfct_lib::file_helper::release_archive(&v).unwrap();
    assert_eq!(request.source_dir, "C:\\Rel");
    assert_eq!(request.archive_file, "C:\\Rel.zip");
    v.release_options = Some(kfct_lib::ReleaseOptions {
        make_zip: false,
        release_path: "C:\\Rel".to_string(),
    });
    assert_eq!(kfct_lib::file_helper::release_archive(&v), None);
}

#[test]
fn every_step_has_its_successor() {
    assert_eq!(following(Action::ParseAndDerive), Action::ValidateCompileDirectory);
    assert_eq!(following(Action::WriteCompilationConfig), Action::CreateIdentityFile);
    assert_eq!(following(Action::PackageRelease), Action::RemoveTransientArtifacts);
    assert_eq!(following(Action::RemoveTransientArtifacts), Action::Finish(true));
    assert_eq!(following(Action::Finish(false)), Action::Finish(false));
}
