//! Reading the configuration sections and deriving what the run needs.

use crate::configs::{
    lemma_template_ends_with_line_break, SectionGlobal, SectionGlobalView, SectionLocal,
    SectionLocalView, APP_CONFIG_NAME, APP_CONFIG_TEMPLATE, COMPILATION_CONFIG_NAME,
    COMPILATION_CONFIG_TEMPLATE, GLOBAL_SECTION_NAME,
};
use crate::errors::{CompileToolErrors, CompileToolErrorsView};
use crate::file_helper::{FileWrite, FileWriteView};
use crate::text::{
    join_path, lemma_split_after_separator, lemma_split_extend, path_join, split_segments,
};
use crate::{derived_runtime, RuntimeVariables};
use configparser::ini::Ini;
use vstd::prelude::*;
use vstd::string::*;

verus! {

/// The configuration store of the `configparser` crate. Nothing inside it
/// is visible here; it is only asked, through the two lookups below.
#[verifier::external_type_specification]
#[verifier::external_body]
pub struct ExIni(configparser::ini::Ini);

/// What a store answers when asked for a value: for each pair of section and
/// key, written as the caller writes them, the value that `Ini::get` returns;
/// a pair for which it returns nothing is not in the map.
pub uninterp spec fn ini_values(ini: Ini) -> Map<(Seq<char>, Seq<char>), Seq<char>>;

/// What a store answers when asked for a flag: for each pair of section and
/// key, the flag that `Ini::getbool` reads or the message with which it
/// refuses the stored text; a pair for which it finds nothing is not in the
/// map.
pub uninterp spec fn ini_flags(ini: Ini) -> Map<(Seq<char>, Seq<char>), Result<bool, Seq<char>>>;

/// Whether a store falls back to its default section where a key is not
/// found in the section asked for. `Ini::new` makes a store that does not.
pub uninterp spec fn ini_cascades(ini: Ini) -> bool;

/// What a configuration text reads as in a fresh store made by `Ini::new`:
/// the answers of that store for values and for flags, or the message with
/// which `Ini::read` refuses the text.
pub uninterp spec fn text_contents(text: Seq<char>) -> Result<
    (Map<(Seq<char>, Seq<char>), Seq<char>>, Map<(Seq<char>, Seq<char>), Result<bool, Seq<char>>>),
    Seq<char>,
>;

/// The value that `values` holds under `key` in `section`, if any.
pub open spec fn stored_value(
    values: Map<(Seq<char>, Seq<char>), Seq<char>>,
    section: Seq<char>,
    key: Seq<char>,
) -> Option<Seq<char>> {
    if values.contains_key((section, key)) {
        Some(values[(section, key)])
    } else {
        None
    }
}

/// The flag that `flags` holds under `key` in `section`: absent, read, or
/// refused.
pub open spec fn stored_flag(
    flags: Map<(Seq<char>, Seq<char>), Result<bool, Seq<char>>>,
    section: Seq<char>,
    key: Seq<char>,
) -> Result<Option<bool>, Seq<char>> {
    if flags.contains_key((section, key)) {
        match flags[(section, key)] {
            Ok(b) => Ok(Some(b)),
            Err(e) => Err(e),
        }
    } else {
        Ok(None)
    }
}

/// The mathematical value of a flag as the store hands it out.
pub open spec fn raw_flag_view(raw: Result<Option<bool>, String>) -> Result<Option<bool>, Seq<char>> {
    match raw {
        Ok(b) => Ok(b),
        Err(e) => Err(e@),
    }
}

/// Calls `Ini::get`. Trusted: the result is the store's answer for this
/// section and key, a function of the store and the two texts alone.
#[verifier::external_body]
fn lookup_value(app_config: &Ini, section: &str, key: &str) -> (r: Option<String>)
    ensures
        r.deep_view() == (if ini_values(*app_config).contains_key((section@, key@)) {
            Some(ini_values(*app_config)[(section@, key@)])
        } else {
            None::<Seq<char>>
        }),
{
    app_config.get(section, key)
}

/// Calls `Ini::getbool`. Trusted: the result is the store's answer for this
/// section and key, a function of the store and the two texts alone; nothing
/// is claimed about which texts it reads as which flag. A store that falls
/// back to its default section is left out: on such a store the call may
/// not return.
#[verifier::external_body]
fn lookup_flag(app_config: &Ini, section: &str, key: &str) -> (r: Result<Option<bool>, String>)
    requires
        !ini_cascades(*app_config),
    ensures
        raw_flag_view(r) == (if ini_flags(*app_config).contains_key((section@, key@)) {
            match ini_flags(*app_config)[(section@, key@)] {
                Ok(b) => Ok::<Option<bool>, Seq<char>>(Some(b)),
                Err(e) => Err::<Option<bool>, Seq<char>>(e),
            }
        } else {
            Ok::<Option<bool>, Seq<char>>(None)
        }),
{
    app_config.getbool(section, key)
}

/// Calls `Ini::new` and then `Ini::read` on the new store. Trusted: the
/// store made does not fall back to its default section; what it answers,
/// or the message with which the text is refused, depends on the text
/// alone.
#[verifier::external_body]
fn read_store(text: &str) -> (r: Result<Ini, String>)
    ensures
        match r {
            Ok(ini) => !ini_cascades(ini) && text_contents(text@) == Ok::<
                (
                    Map<(Seq<char>, Seq<char>), Seq<char>>,
                    Map<(Seq<char>, Seq<char>), Result<bool, Seq<char>>>,
                ),
                Seq<char>,
            >((ini_values(ini), ini_flags(ini))),
            Err(e) => text_contents(text@) == Err::<
                (
                    Map<(Seq<char>, Seq<char>), Seq<char>>,
                    Map<(Seq<char>, Seq<char>), Result<bool, Seq<char>>>,
                ),
                Seq<char>,
            >(e@),
        },
{
    let mut store = Ini::new();
    match store.read(text.to_string()) {
        Ok(_) => Ok(store),
        Err(e) => Err(e),
    }
}

/// The mathematical value of the outcome of reading the global section.
pub open spec fn global_outcome_view(r: Result<SectionGlobal, CompileToolErrors>) -> Result<
    SectionGlobalView,
    CompileToolErrorsView,
> {
    match r {
        Ok(g) => Ok(g@),
        Err(e) => Err(e@),
    }
}

/// The mathematical value of the outcome of reading a package's section.
pub open spec fn local_outcome_view(r: Result<SectionLocal, CompileToolErrors>) -> Result<
    SectionLocalView,
    CompileToolErrorsView,
> {
    match r {
        Ok(l) => Ok(l@),
        Err(e) => Err(e@),
    }
}

/// The global section that five answers of the store make: the first of the
/// three required keys that is absent is reported, in the order package
/// name, compile root, source directory; the optional two are taken as they
/// come.
pub open spec fn global_section_of(
    package_name: Option<Seq<char>>,
    dir_compile: Option<Seq<char>>,
    dir_classes: Option<Seq<char>>,
    dir_move_to: Option<Seq<char>>,
    dir_release_output: Option<Seq<char>>,
) -> Result<SectionGlobalView, CompileToolErrorsView> {
    if package_name is None {
        Err(CompileToolErrorsView::MissingRequiredField("mutatorName"@))
    } else if dir_compile is None {
        Err(CompileToolErrorsView::MissingRequiredField("dir_Compile"@))
    } else if dir_classes is None {
        Err(CompileToolErrorsView::MissingRequiredField("dir_Classes"@))
    } else {
        Ok(
            SectionGlobalView {
                package_name: package_name->0,
                dir_classes: dir_classes->0,
                dir_compile: dir_compile->0,
                dir_move_to,
                dir_release_output,
            },
        )
    }
}

/// Builds the global section from the store's five answers.
pub fn assemble_global_section(
    package_name: Option<String>,
    dir_compile: Option<String>,
    dir_classes: Option<String>,
    dir_move_to: Option<String>,
    dir_release_output: Option<String>,
) -> (r: Result<SectionGlobal, CompileToolErrors>)
    ensures
        global_outcome_view(r) == global_section_of(
            package_name.deep_view(),
            dir_compile.deep_view(),
            dir_classes.deep_view(),
            dir_move_to.deep_view(),
            dir_release_output.deep_view(),
        ),
{
    let package_name: String = match package_name {
        Some(s) => s,
        None => {
            return Err(CompileToolErrors::MissingRequiredField(String::from_str("mutatorName")));
        },
    };
    let dir_compile: String = match dir_compile {
        Some(s) => s,
        None => {
            return Err(CompileToolErrors::MissingRequiredField(String::from_str("dir_Compile")));
        },
    };
    let dir_classes: String = match dir_classes {
        Some(s) => s,
        None => {
            return Err(CompileToolErrors::MissingRequiredField(String::from_str("dir_Classes")));
        },
    };
    Ok(SectionGlobal { package_name, dir_classes, dir_compile, dir_move_to, dir_release_output })
}

/// Reads the global section from the store.
pub fn get_global_section(app_config: &Ini) -> (r: Result<SectionGlobal, CompileToolErrors>)
    ensures
        global_outcome_view(r) == global_section_of(
            stored_value(ini_values(*app_config), GLOBAL_SECTION_NAME@, "mutatorName"@),
            stored_value(ini_values(*app_config), GLOBAL_SECTION_NAME@, "dir_Compile"@),
            stored_value(ini_values(*app_config), GLOBAL_SECTION_NAME@, "dir_Classes"@),
            stored_value(ini_values(*app_config), GLOBAL_SECTION_NAME@, "dir_MoveTo"@),
            stored_value(ini_values(*app_config), GLOBAL_SECTION_NAME@, "dir_ReleaseOutput"@),
        ),
{
    assemble_global_section(
        lookup_value(app_config, GLOBAL_SECTION_NAME, "mutatorName"),
        lookup_value(app_config, GLOBAL_SECTION_NAME, "dir_Compile"),
        lookup_value(app_config, GLOBAL_SECTION_NAME, "dir_Classes"),
        lookup_value(app_config, GLOBAL_SECTION_NAME, "dir_MoveTo"),
        lookup_value(app_config, GLOBAL_SECTION_NAME, "dir_ReleaseOutput"),
    )
}

/// What a flag of the configuration means: set only where the store read it
/// as set. An absent flag and a text that is no flag both mean unset.
pub open spec fn flag_value(raw: Result<Option<bool>, Seq<char>>) -> bool {
    raw == Ok::<Option<bool>, Seq<char>>(Some(true))
}

/// Resolves a flag as the store hands it out; never fails.
pub fn resolve_flag(raw: &Result<Option<bool>, String>) -> (r: bool)
    ensures
        r == flag_value(raw_flag_view(*raw)),
{
    match raw {
        Ok(Some(b)) => *b,
        Ok(None) => false,
        Err(_) => false,
    }
}

/// The package's section that seven answers of the store make: an absent
/// dependency list is reported, and each flag is resolved on its own.
pub open spec fn local_section_of(
    edit_packages: Option<Seq<char>>,
    compile_outsideof_kf: Result<Option<bool>, Seq<char>>,
    alt_directories: Result<Option<bool>, Seq<char>>,
    move_files: Result<Option<bool>, Seq<char>>,
    create_int: Result<Option<bool>, Seq<char>>,
    make_redirect: Result<Option<bool>, Seq<char>>,
    make_release: Result<Option<bool>, Seq<char>>,
) -> Result<SectionLocalView, CompileToolErrorsView> {
    match edit_packages {
        None => Err(CompileToolErrorsView::MissingRequiredField("EditPackages"@)),
        Some(list) => Ok(
            SectionLocalView {
                edit_packages: list,
                compile_outsideof_kf: flag_value(compile_outsideof_kf),
                alt_directories: flag_value(alt_directories),
                move_files: flag_value(move_files),
                create_int: flag_value(create_int),
                make_redirect: flag_value(make_redirect),
                make_release: flag_value(make_release),
            },
        ),
    }
}

/// Builds a package's section from the store's seven answers.
pub fn assemble_local_section(
    edit_packages: Option<String>,
    compile_outsideof_kf: Result<Option<bool>, String>,
    alt_directories: Result<Option<bool>, String>,
    move_files: Result<Option<bool>, String>,
    create_int: Result<Option<bool>, String>,
    make_redirect: Result<Option<bool>, String>,
    make_release: Result<Option<bool>, String>,
) -> (r: Result<SectionLocal, CompileToolErrors>)
    ensures
        local_outcome_view(r) == local_section_of(
            edit_packages.deep_view(),
            raw_flag_view(compile_outsideof_kf),
            raw_flag_view(alt_directories),
            raw_flag_view(move_files),
            raw_flag_view(create_int),
            raw_flag_view(make_redirect),
            raw_flag_view(make_release),
        ),
{
    match edit_packages {
        None => Err(CompileToolErrors::MissingRequiredField(String::from_str("EditPackages"))),
        Some(list) => Ok(
            SectionLocal {
                edit_packages: list,
                compile_outsideof_kf: resolve_flag(&compile_outsideof_kf),
                alt_directories: resolve_flag(&alt_directories),
                move_files: resolve_flag(&move_files),
                create_int: resolve_flag(&create_int),
                make_redirect: resolve_flag(&make_redirect),
                make_release: resolve_flag(&make_release),
            },
        ),
    }
}

/// Reads the section of `package_name` from the store.
pub fn get_local_section(app_config: &Ini, package_name: &str) -> (r: Result<
    SectionLocal,
    CompileToolErrors,
>)
    requires
        !ini_cascades(*app_config),
    ensures
        local_outcome_view(r) == local_section_of(
            stored_value(ini_values(*app_config), package_name@, "EditPackages"@),
            stored_flag(ini_flags(*app_config), package_name@, "bICompileOutsideofKF"@),
            stored_flag(ini_flags(*app_config), package_name@, "bAltDirectories"@),
            stored_flag(ini_flags(*app_config), package_name@, "bMoveFiles"@),
            stored_flag(ini_flags(*app_config), package_name@, "bCreateINT"@),
            stored_flag(ini_flags(*app_config), package_name@, "bMakeRedirect"@),
            stored_flag(ini_flags(*app_config), package_name@, "bMakeRelease"@),
        ),
{
    assemble_local_section(
        lookup_value(app_config, package_name, "EditPackages"),
        lookup_flag(app_config, package_name, "bICompileOutsideofKF"),
        lookup_flag(app_config, package_name, "bAltDirectories"),
        lookup_flag(app_config, package_name, "bMoveFiles"),
        lookup_flag(app_config, package_name, "bCreateINT"),
        lookup_flag(app_config, package_name, "bMakeRedirect"),
        lookup_flag(app_config, package_name, "bMakeRelease"),
    )
}

/// Both sections of a store, or the first failure: the global section is
/// read first, and the package's section is the one that it names.
pub open spec fn sections_read(
    global: Result<SectionGlobalView, CompileToolErrorsView>,
    local: Result<SectionLocalView, CompileToolErrorsView>,
) -> Result<(SectionGlobalView, SectionLocalView), CompileToolErrorsView> {
    match global {
        Err(e) => Err(e),
        Ok(g) => match local {
            Err(e) => Err(e),
            Ok(l) => Ok((g, l)),
        },
    }
}

/// The mathematical value of the outcome of reading both sections.
pub open spec fn sections_outcome_view(
    r: Result<(SectionGlobal, SectionLocal), CompileToolErrors>,
) -> Result<(SectionGlobalView, SectionLocalView), CompileToolErrorsView> {
    match r {
        Ok((g, l)) => Ok((g@, l@)),
        Err(e) => Err(e@),
    }
}

/// The section named `package_name` that the answers of a store make.
pub open spec fn local_section_in(
    values: Map<(Seq<char>, Seq<char>), Seq<char>>,
    flags: Map<(Seq<char>, Seq<char>), Result<bool, Seq<char>>>,
    package_name: Seq<char>,
) -> Result<SectionLocalView, CompileToolErrorsView> {
    local_section_of(
        stored_value(values, package_name, "EditPackages"@),
        stored_flag(flags, package_name, "bICompileOutsideofKF"@),
        stored_flag(flags, package_name, "bAltDirectories"@),
        stored_flag(flags, package_name, "bMoveFiles"@),
        stored_flag(flags, package_name, "bCreateINT"@),
        stored_flag(flags, package_name, "bMakeRedirect"@),
        stored_flag(flags, package_name, "bMakeRelease"@),
    )
}

/// The global section that the answers of a store make.
pub open spec fn global_section_in(values: Map<(Seq<char>, Seq<char>), Seq<char>>) -> Result<
    SectionGlobalView,
    CompileToolErrorsView,
> {
    global_section_of(
        stored_value(values, GLOBAL_SECTION_NAME@, "mutatorName"@),
        stored_value(values, GLOBAL_SECTION_NAME@, "dir_Compile"@),
        stored_value(values, GLOBAL_SECTION_NAME@, "dir_Classes"@),
        stored_value(values, GLOBAL_SECTION_NAME@, "dir_MoveTo"@),
        stored_value(values, GLOBAL_SECTION_NAME@, "dir_ReleaseOutput"@),
    )
}

/// Both sections that the answers of a store make, or the first failure.
pub open spec fn sections_in(
    values: Map<(Seq<char>, Seq<char>), Seq<char>>,
    flags: Map<(Seq<char>, Seq<char>), Result<bool, Seq<char>>>,
) -> Result<(SectionGlobalView, SectionLocalView), CompileToolErrorsView> {
    match global_section_in(values) {
        Err(e) => Err(e),
        Ok(g) => sections_read(Ok(g), local_section_in(values, flags, g.package_name)),
    }
}

/// Reads both sections from a loaded store; fails with the first failure.
/// The store must be one that does not fall back to its default section,
/// as every store made by [`parse_config_text`] is.
pub fn parse_app_config(app_config: &Ini) -> (r: Result<
    (SectionGlobal, SectionLocal),
    CompileToolErrors,
>)
    requires
        !ini_cascades(*app_config),
    ensures
        sections_outcome_view(r) == sections_in(ini_values(*app_config), ini_flags(*app_config)),
{
    let global: SectionGlobal = match get_global_section(app_config) {
        Ok(g) => g,
        Err(e) => {
            return Err(e);
        },
    };
    match get_local_section(app_config, global.package_name.as_str()) {
        Ok(local) => Ok((global, local)),
        Err(e) => Err(e),
    }
}

/// Both sections that a configuration text makes: a text that cannot be
/// read is reported as unreadable, with the reader's message; a text that
/// can gives what its store answers.
pub open spec fn sections_of_text(text: Seq<char>) -> Result<
    (SectionGlobalView, SectionLocalView),
    CompileToolErrorsView,
> {
    match text_contents(text) {
        Err(message) => Err(CompileToolErrorsView::ConfigParseError(message)),
        Ok((values, flags)) => sections_in(values, flags),
    }
}

/// Reads both sections from the text of a configuration.
pub fn parse_config_text(text: &str) -> (r: Result<(SectionGlobal, SectionLocal), CompileToolErrors>)
    ensures
        sections_outcome_view(r) == sections_of_text(text@),
{
    match read_store(text) {
        Ok(store) => parse_app_config(&store),
        Err(message) => Err(CompileToolErrors::ConfigParseError(message)),
    }
}

/// What is written after a failure, as an aid: the default configuration
/// where the configuration could not be read, and nothing after any other
/// failure.
pub fn recovery_after(error: &CompileToolErrors) -> (r: Option<FileWrite>)
    ensures
        error@ is ConfigParseError ==> r is Some && r->0@ == default_app_config(),
        !(error@ is ConfigParseError) ==> r is None,
{
    match error {
        CompileToolErrors::ConfigParseError(_) => check_app_config(false),
        _ => None,
    }
}

/// The default configuration as a file to write.
pub open spec fn default_app_config() -> FileWriteView {
    FileWriteView { path: APP_CONFIG_NAME@, content: APP_CONFIG_TEMPLATE@, read_only: false }
}

/// Decides whether the default configuration is to be written: it is where
/// no configuration file exists, and only there.
pub fn check_app_config(config_exists: bool) -> (r: Option<FileWrite>)
    ensures
        config_exists ==> r is None,
        !config_exists ==> r is Some && r->0@ == default_app_config(),
{
    if config_exists {
        None
    } else {
        Some(
            FileWrite {
                path: String::from_str(APP_CONFIG_NAME),
                content: String::from_str(APP_CONFIG_TEMPLATE),
                read_only: false,
            },
        )
    }
}

/// What follows a configuration that could not be loaded, be the file
/// missing or malformed: the default configuration is written as an aid,
/// and the failure is reported all the same, with the loader's message.
pub fn load_failure(message: String) -> (r: (FileWrite, CompileToolErrors))
    ensures
        r.0@ == default_app_config(),
        r.1@ == CompileToolErrorsView::ConfigParseError(message@),
{
    (
        FileWrite {
            path: String::from_str(APP_CONFIG_NAME),
            content: String::from_str(APP_CONFIG_TEMPLATE),
            read_only: false,
        },
        CompileToolErrors::ConfigParseError(message),
    )
}

/// Derives the runtime model of a run. It cannot fail, and equal sections
/// give equal models.
pub fn create_runtime_vars(global_section: &SectionGlobal, local_section: &SectionLocal) -> (r:
    RuntimeVariables)
    ensures
        r@ == derived_runtime(global_section@, local_section@),
{
    RuntimeVariables::new(global_section, local_section)
}

/// The line that declares one dependency to the compiler.
pub open spec fn edit_package_line(package: Seq<char>) -> Seq<char> {
    "EditPackages="@ + package + "\n"@
}

/// One line for each dependency, in order.
pub open spec fn edit_package_lines(packages: Seq<Seq<char>>) -> Seq<char>
    decreases packages.len(),
{
    if packages.len() == 0 {
        Seq::<char>::empty()
    } else {
        edit_package_lines(packages.drop_last()) + edit_package_line(packages.last())
    }
}

/// The compiler's configuration for a list of dependencies: the fixed head,
/// then their lines.
pub open spec fn kf_config_text(packages: Seq<Seq<char>>) -> Seq<char> {
    COMPILATION_CONFIG_TEMPLATE@ + edit_package_lines(packages)
}

/// The compiler's temporary configuration as a file to write. It replaces
/// whatever is at its path.
pub fn create_kf_config(runtime_vars: &RuntimeVariables) -> (r: FileWrite)
    ensures
        r@.path == path_join(runtime_vars@.compiled_paths.compile_dir_system, COMPILATION_CONFIG_NAME@),
        r@.content == kf_config_text(runtime_vars@.compile_options.edit_packages),
        !r@.read_only,
{
    let packages: &Vec<String> = &runtime_vars.compile_options.edit_packages;
    let mut content: String = String::from_str(COMPILATION_CONFIG_TEMPLATE);
    let mut i: usize = 0;
    proof {
        assert(packages.deep_view().take(0) =~= Seq::<Seq<char>>::empty());
        assert(content@ =~= kf_config_text(packages.deep_view().take(0)));
    }
    while i < packages.len()
        invariant
            i <= packages.len(),
            content@ == kf_config_text(packages.deep_view().take(i as int)),
        decreases packages.len() - i,
    {
        let ghost before = content@;
        proof {
            let next = packages.deep_view().take(i as int + 1);
            assert(next.drop_last() =~= packages.deep_view().take(i as int));
            assert(next.last() == packages[i as int]@);
        }
        content.append("EditPackages=");
        content.append(packages[i].as_str());
        content.append("\n");
        proof {
            assert(content@ =~= before + edit_package_line(packages[i as int]@));
            assert(content@ =~= kf_config_text(packages.deep_view().take(i as int + 1)));
        }
        i += 1;
    }
    proof {
        assert(packages.deep_view().take(i as int) =~= packages.deep_view());
    }
    FileWrite {
        path: join_path(
            runtime_vars.compiled_paths.compile_dir_system.as_str(),
            COMPILATION_CONFIG_NAME,
        ),
        content,
        read_only: false,
    }
}

/// The lines that declare `packages`, each without its line break.
pub open spec fn declared_lines(packages: Seq<Seq<char>>) -> Seq<Seq<char>> {
    Seq::new(packages.len(), |i: int| "EditPackages="@ + packages[i])
}

/// What is written after the fixed head reads back, line by line, as one
/// declaration for each dependency, in the order of the list, followed by
/// the empty remainder after the last line break. This holds of names
/// without a line break; a name with one would read back as two lines.
pub proof fn lemma_written_lines_read_back(packages: Seq<Seq<char>>)
    requires
        forall|i: int| 0 <= i < packages.len() ==> !(#[trigger] packages[i]).contains('\n'),
    ensures
        split_segments(edit_package_lines(packages), '\n') == declared_lines(packages).push(
            Seq::<char>::empty(),
        ),
    decreases packages.len(),
{
    reveal_strlit("EditPackages=");
    reveal_strlit("\n");
    if packages.len() == 0 {
        assert(declared_lines(packages).push(Seq::<char>::empty()) =~= seq![Seq::<char>::empty()]);
    } else {
        let init = packages.drop_last();
        assert forall|i: int| 0 <= i < init.len() implies !(#[trigger] init[i]).contains('\n') by {
            assert(init[i] == packages[i]);
        }
        lemma_written_lines_read_back(init);
        let line = "EditPackages="@ + packages.last();
        assert forall|j: int| 0 <= j < line.len() implies line[j] != '\n' by {
            if j >= "EditPackages="@.len() {
                assert(packages[packages.len() - 1].contains(line[j]));
            }
        }
        lemma_split_extend(edit_package_lines(init), line, '\n');
        let body = edit_package_lines(init) + line;
        let before = declared_lines(init).push(Seq::<char>::empty());
        assert(before.drop_last() =~= declared_lines(init));
        assert(before.last() + line =~= line);
        assert(declared_lines(init).push(line) =~= declared_lines(packages));
        assert("\n"@ =~= seq!['\n']);
        let whole = edit_package_lines(packages);
        assert(whole =~= body.push('\n'));
        assert(whole.drop_last() =~= body);
    }
}

/// The written configuration reads back, line by line, as the lines of the
/// fixed head followed by one declaration for each dependency, in the order
/// of the list. This holds of names without a line break.
pub proof fn lemma_written_config_reads_back(packages: Seq<Seq<char>>)
    requires
        forall|i: int| 0 <= i < packages.len() ==> !(#[trigger] packages[i]).contains('\n'),
    ensures
        split_segments(kf_config_text(packages), '\n') == split_segments(
            COMPILATION_CONFIG_TEMPLATE@,
            '\n',
        ).drop_last() + declared_lines(packages).push(Seq::<char>::empty()),
{
    lemma_template_ends_with_line_break();
    let head = COMPILATION_CONFIG_TEMPLATE@;
    lemma_written_lines_read_back(packages);
    lemma_split_after_separator(head, edit_package_lines(packages), '\n');
}

/// The written configuration is the fixed head followed by nothing but the
/// declarations: its length is theirs added, and it begins with the head.
pub proof fn lemma_config_begins_with_template(packages: Seq<Seq<char>>)
    ensures
        kf_config_text(packages).subrange(0, COMPILATION_CONFIG_TEMPLATE@.len() as int)
            == COMPILATION_CONFIG_TEMPLATE@,
        kf_config_text(packages).subrange(
            COMPILATION_CONFIG_TEMPLATE@.len() as int,
            kf_config_text(packages).len() as int,
        ) == edit_package_lines(packages),
{
    let text = kf_config_text(packages);
    let head = COMPILATION_CONFIG_TEMPLATE@;
    assert(text.subrange(0, head.len() as int) =~= head);
    assert(text.subrange(head.len() as int, text.len() as int) =~= edit_package_lines(packages));
}

} // verus!
