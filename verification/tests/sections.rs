use configparser::ini::Ini;
use kfct_lib::configs::helper::{
    assemble_global_section, assemble_local_section, check_app_config, get_global_section,
    get_local_section, load_failure, parse_app_config, parse_config_text, recovery_after,
    resolve_flag,
};
use kfct_lib::configs::{SectionGlobal, SectionLocal, APP_CONFIG_NAME, APP_CONFIG_TEMPLATE};
use kfct_lib::CompileToolErrors;

fn store(text: &str) -> Ini {
    let mut ini = Ini::new();
    ini.read(text.to_string()).unwrap();
    ini
}

const FULL: &str = "[global]\nmutatorName=MyMod\ndir_Compile=C:\\Srv\ndir_Classes=C:\\Mods\ndir_MoveTo=C:\\Out\ndir_ReleaseOutput=C:\\Rel\n\n[MyMod]\nEditPackages=KFMod,MyMod\nbICompileOutsideofKF=true\nbAltDirectories=false\nbMoveFiles=TRUE\nbCreateINT=maybe\nbMakeRelease=true\n";

#[test]
fn global_section_is_read() {
    let g = get_global_section(&store(FULL)).unwrap();
    assert_eq!(
        g,
        SectionGlobal {
            package_name: "MyMod".to_string(),
            dir_classes: "C:\\Mods".to_string(),
            dir_compile: "C:\\Srv".to_string(),
            dir_move_to: Some("C:\\Out".to_string()),
            dir_release_output: Some("C:\\Rel".to_string()),
        }
    );
}

#[test]
fn global_section_optional_keys_may_be_absent() {
    let ini = store("[global]\nmutatorName=M\ndir_Compile=C\ndir_Classes=S\n");
    let g = get_global_section(&ini).unwrap();
    assert_eq!(g.dir_move_to, None);
    assert_eq!(g.dir_release_output, None);
}

#[test]
fn global_section_reports_first_missing_key() {
    let ini = store("[global]\ndir_Classes=S\n");
    assert_eq!(
        get_global_section(&ini),
        Err(CompileToolErrors::MissingRequiredField("mutatorName".to_string()))
    );
    let ini = store("[global]\nmutatorName=M\ndir_Classes=S\n");
    assert_eq!(
        get_global_section(&ini),
        Err(CompileToolErrors::MissingRequiredField("dir_Compile".to_string()))
    );
    let ini = store("[global]\nmutatorName=M\ndir_Compile=C\n");
    assert_eq!(
        get_global_section(&ini),
        Err(CompileToolErrors::MissingRequiredField("dir_Classes".to_string()))
    );
}

#[test]
fn local_section_is_read_with_lenient_flags() {
    let l = get_local_section(&store(FULL), "MyMod").unwrap();
    assert_eq!(
        l,
        SectionLocal {
            edit_packages: "KFMod,MyMod".to_string(),
            compile_outsideof_kf: true,
            alt_directories: false,
            move_files: true,
            create_int: false,
            make_redirect: false,
            make_release: true,
        }
    );
}

#[test]
fn local_section_needs_edit_packages() {
    let ini = store("[global]\nmutatorName=M\n[M]\nbCreateINT=true\n");
    assert_eq!(
        get_local_section(&ini, "M"),
        Err(CompileToolErrors::MissingRequiredField("EditPackages".to_string()))
    );
    assert_eq!(
        get_local_section(&ini, "Other"),
        Err(CompileToolErrors::MissingRequiredField("EditPackages".to_string()))
    );
}

#[test]
fn both_sections_are_read_in_order() {
    let (g, l) = parse_app_config(&store(FULL)).unwrap();
    assert_eq!(g.package_name, "MyMod");
    assert_eq!(l.edit_packages, "KFMod,MyMod");
    let ini = store("[global]\nmutatorName=Gone\ndir_Compile=C\ndir_Classes=S\n[MyMod]\nEditPackages=A\n");
    assert_eq!(
        parse_app_config(&ini),
        Err(CompileToolErrors::MissingRequiredField("EditPackages".to_string()))
    );
    let ini = store("[MyMod]\nEditPackages=A\n");
    assert_eq!(
        parse_app_config(&ini),
        Err(CompileToolErrors::MissingRequiredField("mutatorName".to_string()))
    );
}

#[test]
fn default_configuration_can_be_parsed() {
    let (g, l) = parse_app_config(&store(APP_CONFIG_TEMPLATE)).unwrap();
    assert_eq!(g.package_name, "MyMod");
    assert_eq!(g.dir_move_to, None);
    assert_eq!(g.dir_release_output, None);
    assert_eq!(l.edit_packages, "MyMod");
    assert!(!l.make_release);
}

#[test]
fn flags_resolve_silently() {
    assert!(resolve_flag(&Ok(Some(true))));
    assert!(!resolve_flag(&Ok(Some(false))));
    assert!(!resolve_flag(&Ok(None)));
    assert!(!resolve_flag(&Err("not a flag".to_string())));
}

#[test]
fn assembling_sections_from_answers() {
    let g = assemble_global_section(
        Some("M".to_string()),
        Some("C".to_string()),
        Some("S".to_string()),
        None,
        Some("R".to_string()),
    )
    .unwrap();
    assert_eq!(g.package_name, "M");
    assert_eq!(g.dir_compile, "C");
    assert_eq!(g.dir_classes, "S");
    assert_eq!(g.dir_release_output, Some("R".to_string()));
    assert_eq!(
        assemble_global_section(None, None, None, None, None),
        Err(CompileToolErrors::MissingRequiredField("mutatorName".to_string()))
    );
    let l = assemble_local_section(
        Some("A,B".to_string()),
        Ok(Some(true)),
        Err("bad".to_string()),
        Ok(None),
        Ok(Some(false)),
        Ok(Some(true)),
        Err("bad".to_string()),
    )
    .unwrap();
    assert_eq!(
        l,
        SectionLocal {
            edit_packages: "A,B".to_string(),
            compile_outsideof_kf: true,
            alt_directories: false,
            move_files: false,
            create_int: false,
            make_redirect: true,
            make_release: false,
        }
    );
    assert_eq!(
        assemble_local_section(None, Ok(None), Ok(None), Ok(None), Ok(None), Ok(None), Ok(None)),
        Err(CompileToolErrors::MissingRequiredField("EditPackages".to_string()))
    );
}

#[test]
fn default_configuration_is_written_only_where_none_exists() {
    assert_eq!(check_app_config(true), None);
    let write = check_app_config(false).unwrap();
    assert_eq!(write.path, APP_CONFIG_NAME);
    assert_eq!(write.content, APP_CONFIG_TEMPLATE);
    assert!(!write.read_only);
}

#[test]
fn load_failure_writes_the_template_and_reports() {
    let (write, error) = load_failure("no such file".to_string());
    assert_eq!(write.path, "CompileSettings.ini");
    assert_eq!(write.content, APP_CONFIG_TEMPLATE);
    assert!(!write.read_only);
    assert_eq!(error, CompileToolErrors::ConfigParseError("no such file".to_string()));
}

#[test]
fn configuration_text_is_read_into_sections() {
    let (g, l) = parse_config_text(FULL).unwrap();
    assert_eq!(g, get_global_section(&store(FULL)).unwrap());
    assert_eq!(l, get_local_section(&store(FULL), "MyMod").unwrap());
    assert_eq!(g.dir_compile, "C:\\Srv");
    assert_eq!(l.edit_packages, "KFMod,MyMod");
    assert!(l.compile_outsideof_kf);
    assert!(!l.create_int);
    assert_eq!(
        parse_config_text("[global]\nmutatorName=M\ndir_Compile=C\n"),
        Err(CompileToolErrors::MissingRequiredField("dir_Classes".to_string()))
    );
    assert_eq!(
        parse_config_text(""),
        Err(CompileToolErrors::MissingRequiredField("mutatorName".to_string()))
    );
}

#[test]
fn malformed_configuration_text_is_unreadable() {
    for text in ["[global\nmutatorName=M\n", "[global]\n=value\n"] {
        let error = parse_config_text(text).unwrap_err();
        assert!(matches!(error, CompileToolErrors::ConfigParseError(_)));
        let write = recovery_after(&error).unwrap();
        assert_eq!(write.path, APP_CONFIG_NAME);
        assert_eq!(write.content, APP_CONFIG_TEMPLATE);
    }
    let mut ini = Ini::new();
    let message = ini.read("[global\n".to_string()).unwrap_err();
    assert_eq!(
        parse_config_text("[global\n"),
        Err(CompileToolErrors::ConfigParseError(message))
    );
}

#[test]
fn only_an_unreadable_configuration_is_replaced() {
    assert_eq!(
        recovery_after(&CompileToolErrors::MissingRequiredField("mutatorName".to_string())),
        None
    );
    assert_eq!(recovery_after(&CompileToolErrors::IOError("x".to_string())), None);
    assert_eq!(recovery_after(&CompileToolErrors::DirectoryNotFound("x".to_string())), None);
    assert!(recovery_after(&CompileToolErrors::ConfigParseError("x".to_string())).is_some());
}
