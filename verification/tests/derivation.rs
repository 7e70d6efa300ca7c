use kfct_lib::configs::helper::{create_kf_config, create_runtime_vars};
use kfct_lib::configs::{SectionGlobal, SectionLocal, COMPILATION_CONFIG_TEMPLATE};
use kfct_lib::text::{join_path, split_on};
use kfct_lib::{CompilationPaths, CompileOptions, ReleaseOptions, RuntimeVariables};

fn global(dir_compile: &str, name: &str) -> SectionGlobal {
    SectionGlobal {
        package_name: name.to_string(),
        dir_classes: "C:\\Mods".to_string(),
        dir_compile: dir_compile.to_string(),
        dir_move_to: None,
        dir_release_output: None,
    }
}

fn local(edit_packages: &str) -> SectionLocal {
    SectionLocal {
        edit_packages: edit_packages.to_string(),
        compile_outsideof_kf: false,
        alt_directories: false,
        move_files: false,
        create_int: false,
        make_redirect: false,
        make_release: false,
    }
}

#[test]
fn split_keeps_empty_segment_between_commas() {
    assert_eq!(split_on("A,,B", ','), vec!["A".to_string(), String::new(), "B".to_string()]);
    let vars = create_runtime_vars(&global("C:\\Srv", "MyMod"), &local("A,,B"));
    assert_eq!(
        vars.compile_options.edit_packages,
        vec!["A".to_string(), String::new(), "B".to_string()]
    );
}

#[test]
fn split_edge_cases() {
    assert_eq!(split_on("", ','), vec![String::new()]);
    assert_eq!(split_on(",", ','), vec![String::new(), String::new()]);
    assert_eq!(split_on("abc", ','), vec!["abc".to_string()]);
    assert_eq!(split_on("a,b,", ','), vec!["a".to_string(), "b".to_string(), String::new()]);
    assert_eq!(split_on(" a , b ", ','), vec![" a ".to_string(), " b ".to_string()]);
    assert_eq!(split_on("é,ü", ','), vec!["é".to_string(), "ü".to_string()]);
}

#[test]
fn split_agrees_with_std() {
    for text in ["KFMod,ServerPerks,,X", "one", ",,,", "a,b"] {
        let expected: Vec<String> = text.split(',').map(|s| s.to_string()).collect();
        assert_eq!(split_on(text, ','), expected);
        assert_eq!(split_on(text, ',').join(","), text);
    }
}

#[test]
fn join_path_uses_backslash() {
    assert_eq!(join_path("C:\\Srv", "System"), "C:\\Srv\\System");
    assert_eq!(join_path("", "System"), "\\System");
}

#[test]
fn scenario_paths_of_my_mod() {
    let vars = create_runtime_vars(&global("C:\\Srv", "MyMod"), &local("MyMod"));
    let paths = &vars.compiled_paths;
    assert_eq!(paths.compile_dir, "C:\\Srv");
    assert_eq!(paths.compile_dir_system, "C:\\Srv\\System");
    assert_eq!(paths.ucc_exe, "C:\\Srv\\System\\UCC.exe");
    assert_eq!(paths.package_u, "C:\\Srv\\System\\MyMod.u");
    assert_eq!(paths.package_ucl, "C:\\Srv\\System\\MyMod.ucl");
    assert_eq!(paths.package_int, Some("C:\\Srv\\System\\MyMod.int".to_string()));
    assert_eq!(paths.package_uz2, Some("C:\\Srv\\System\\MyMod.uz2".to_string()));
    assert_eq!(paths.package_ini, Some("C:\\Srv\\System\\MyMod.ini".to_string()));
    assert_eq!(paths.temp_compilation_file, Some("C:\\Srv\\System\\kfcompile.ini".to_string()));
    assert_eq!(paths.hacky_steam_appid_file, "C:\\Srv\\System\\steam_appid.txt");
    assert_eq!(paths.sources_path, None);
}

#[test]
fn scenario_release_options() {
    let mut g = global("C:\\Srv", "MyMod");
    let absent = create_runtime_vars(&g, &local("MyMod"));
    assert_eq!(absent.release_options, None);
    g.dir_release_output = Some("C:\\Rel".to_string());
    let present = create_runtime_vars(&g, &local("MyMod"));
    assert_eq!(
        present.release_options,
        Some(ReleaseOptions { make_zip: true, release_path: "C:\\Rel".to_string() })
    );
    assert_eq!(
        ReleaseOptions::new(&"C:\\Rel".to_string()),
        ReleaseOptions { make_zip: true, release_path: "C:\\Rel".to_string() }
    );
}

#[test]
fn move_to_is_mirrored_outside_the_paths() {
    let mut g = global("D:\\KF", "Pkg");
    g.dir_move_to = Some("D:\\Out".to_string());
    let vars = RuntimeVariables::new(&g, &local("Pkg"));
    assert_eq!(vars.path_where_to_copy, Some("D:\\Out".to_string()));
    assert_eq!(vars.compiled_paths.sources_path, None);
}

#[test]
fn paths_depend_on_root_and_name_alone() {
    let plain = global("C:\\Srv", "MyMod");
    let mut other = global("C:\\Srv", "MyMod");
    other.dir_classes = "E:\\Elsewhere".to_string();
    other.dir_move_to = Some("D:\\Out".to_string());
    other.dir_release_output = Some("D:\\Rel".to_string());
    assert_eq!(CompilationPaths::new(&plain), CompilationPaths::new(&other));
    let first = create_runtime_vars(&plain, &local("A"));
    let second = create_runtime_vars(&other, &local("B,C"));
    assert_eq!(first.compiled_paths, second.compiled_paths);
}

#[test]
fn package_extensions_and_ignore_list() {
    assert_eq!(kfct_lib::UNREAL_PACKAGES, [".u", ".ucl", ".u.uz2", ".int"]);
    assert_eq!(kfct_lib::IGNORE_LIST, [".git", "*.md", "Docs", "LICENSE"]);
}

#[test]
fn derivation_is_deterministic() {
    let mut g = global("D:\\Dedicated Server", "BitCore");
    g.dir_release_output = Some("D:\\Rel".to_string());
    let l = local("KFMod,BitCore");
    let first = create_runtime_vars(&g, &l);
    let second = create_runtime_vars(&g.clone(), &l.clone());
    assert_eq!(first, second);
}

#[test]
fn options_promote_every_flag() {
    let mut l = local("A,B");
    l.create_int = true;
    l.make_release = true;
    let options = CompileOptions::new(&global("C:\\Srv", "MyMod"), &l);
    assert_eq!(options.package_name, "MyMod");
    assert_eq!(options.edit_packages, vec!["A".to_string(), "B".to_string()]);
    assert_eq!(options.path_source_files, "C:\\Mods");
    assert_eq!(options.create_int, Some(true));
    assert_eq!(options.i_compile_outsideof_kf, Some(false));
    assert_eq!(options.alt_directories, Some(false));
    assert_eq!(options.move_files, Some(false));
    assert_eq!(options.make_redirect, Some(false));
    assert_eq!(options.make_release, Some(true));
    assert_eq!(options.copy_default_ini, Some(true));
}

#[test]
fn paths_are_rooted_and_named_after_package() {
    for (dir, name) in [("C:\\Srv", "MyMod"), ("", "X"), ("/opt/kf", "Perks"), ("D:\\a b", "")] {
        let paths = CompilationPaths::new(&global(dir, name));
        let root = format!("{}\\", dir);
        let system = format!("{}\\System\\", dir);
        let all = vec![
            paths.compile_dir_system.clone(),
            paths.ucc_exe.clone(),
            paths.temp_compilation_file.clone().unwrap(),
            paths.hacky_steam_appid_file.clone(),
            paths.package_u.clone(),
            paths.package_ucl.clone(),
            paths.package_int.clone().unwrap(),
            paths.package_uz2.clone().unwrap(),
            paths.package_ini.clone().unwrap(),
        ];
        for p in &all {
            assert!(p.starts_with(&root));
        }
        for p in &all[4..] {
            assert!(p.starts_with(&format!("{}{}.", system, name)));
        }
    }
}

#[test]
fn paths_do_not_depend_on_flags() {
    let g = global("C:\\Srv", "MyMod");
    let mut l = local("MyMod");
    let plain = create_runtime_vars(&g, &l);
    l.create_int = true;
    l.make_redirect = true;
    let flagged = create_runtime_vars(&g, &l);
    assert_eq!(plain.compiled_paths, flagged.compiled_paths);
}

#[test]
fn compiler_config_lists_dependencies_in_order() {
    let vars = create_runtime_vars(&global("C:\\Srv", "MyMod"), &local("KFMod,,MyMod"));
    let file = create_kf_config(&vars);
    assert_eq!(file.path, "C:\\Srv\\System\\kfcompile.ini");
    assert!(!file.read_only);
    assert_eq!(
        file.content,
        format!("{}EditPackages=KFMod\nEditPackages=\nEditPackages=MyMod\n", COMPILATION_CONFIG_TEMPLATE)
    );
    let written = &file.content[COMPILATION_CONFIG_TEMPLATE.len()..];
    let read_back: Vec<String> = written
        .lines()
        .map(|line| line.strip_prefix("EditPackages=").unwrap().to_string())
        .collect();
    assert_eq!(read_back, vars.compile_options.edit_packages);
}

#[test]
fn compiler_config_template_ends_with_line_break() {
    assert!(COMPILATION_CONFIG_TEMPLATE.ends_with('\n'));
    assert!(COMPILATION_CONFIG_TEMPLATE.contains("[Editor.EditorEngine]"));
}
