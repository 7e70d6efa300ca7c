//! Build orchestration for a mod-compilation workflow: configuration sections,
//! the runtime model derived from them, and the ordered pipeline that drives
//! the external compiler.

use crate::configs::{SectionGlobal, SectionGlobalView, SectionLocal, SectionLocalView};
use crate::text::{
    concat_text, file_name, join_path, lemma_file_name_of_join, lemma_join_rooted,
    lemma_rooted_transitive, path_join, rooted_under, split_on, split_segments, PATH_SEPARATOR,
};
use vstd::prelude::*;
use vstd::string::*;

pub mod configs;
pub mod errors;
pub mod exit_codes;
pub mod file_helper;
pub mod pipeline;
pub mod text;
pub mod ucc_wrapper;

pub use crate::errors::CompileToolErrors;

verus! {

/// The extensions of the files that the compiler and the tools beside it
/// make for a package.
pub const UNREAL_PACKAGES: [&'static str; 4] = [".u", ".ucl", ".u.uz2", ".int"];

/// What is left out where source files are copied.
pub const IGNORE_LIST: [&'static str; 4] = [".git", "*.md", "Docs", "LICENSE"];

/// A copy of an optional text.
fn clone_optional(o: &Option<String>) -> (r: Option<String>)
    ensures
        r.deep_view() == o.deep_view(),
{
    match o {
        Some(s) => Some(s.clone()),
        None => None,
    }
}

/// Everything a run needs, derived once from the configuration and only read
/// afterwards.
#[derive(Debug, Default, Clone, PartialEq, Eq)]
pub struct RuntimeVariables {
    pub compile_options: CompileOptions,
    pub compiled_paths: CompilationPaths,
    pub path_where_to_copy: Option<String>,
    pub release_options: Option<ReleaseOptions>,
}

/// The mathematical value of a [`RuntimeVariables`].
pub struct RuntimeVariablesView {
    pub compile_options: CompileOptionsView,
    pub compiled_paths: CompilationPathsView,
    pub path_where_to_copy: Option<Seq<char>>,
    pub release_options: Option<ReleaseOptionsView>,
}

impl View for RuntimeVariables {
    type V = RuntimeVariablesView;

    open spec fn view(&self) -> RuntimeVariablesView {
        RuntimeVariablesView {
            compile_options: self.compile_options@,
            compiled_paths: self.compiled_paths@,
            path_where_to_copy: self.path_where_to_copy.deep_view(),
            release_options: match self.release_options {
                Some(r) => Some(r@),
                None => None,
            },
        }
    }
}

/// The runtime model that a pair of sections gives.
pub open spec fn derived_runtime(
    global: SectionGlobalView,
    local: SectionLocalView,
) -> RuntimeVariablesView {
    RuntimeVariablesView {
        compile_options: derived_options(global, local),
        compiled_paths: derived_paths(global.dir_compile, global.package_name),
        path_where_to_copy: global.dir_move_to,
        release_options: match global.dir_release_output {
            Some(dir) => Some(release_into(dir)),
            None => None,
        },
    }
}

impl RuntimeVariables {
    /// Derives the runtime model from the two sections.
    pub fn new(global_section: &SectionGlobal, local_section: &SectionLocal) -> (r: Self)
        ensures
            r@ == derived_runtime(global_section@, local_section@),
    {
        let release_options: Option<ReleaseOptions> = match &global_section.dir_release_output {
            Some(dir) => Some(ReleaseOptions::new(dir)),
            None => None,
        };
        Self {
            compile_options: CompileOptions::new(global_section, local_section),
            compiled_paths: CompilationPaths::new(global_section),
            path_where_to_copy: clone_optional(&global_section.dir_move_to),
            release_options,
        }
    }
}

/// What is compiled and how.
#[derive(Debug, Default, Clone, PartialEq, Eq)]
pub struct CompileOptions {
    /// Name of the package.
    pub package_name: String,
    /// The package's dependencies, in the order of the configuration.
    pub edit_packages: Vec<String>,
    /// Create a localization file.
    pub create_int: Option<bool>,
    /// The sources lie outside the compiler's tree.
    pub i_compile_outsideof_kf: Option<bool>,
    /// Where the sources lie.
    pub path_source_files: String,
    /// The sources use the alternative directory layout.
    pub alt_directories: Option<bool>,
    /// Copy the package's default configuration.
    pub copy_default_ini: Option<bool>,
    /// Move files after the build.
    pub move_files: Option<bool>,
    /// Create a redirect file.
    pub make_redirect: Option<bool>,
    /// Make a release build.
    pub make_release: Option<bool>,
}

/// The mathematical value of a [`CompileOptions`].
pub struct CompileOptionsView {
    pub package_name: Seq<char>,
    pub edit_packages: Seq<Seq<char>>,
    pub create_int: Option<bool>,
    pub i_compile_outsideof_kf: Option<bool>,
    pub path_source_files: Seq<char>,
    pub alt_directories: Option<bool>,
    pub copy_default_ini: Option<bool>,
    pub move_files: Option<bool>,
    pub make_redirect: Option<bool>,
    pub make_release: Option<bool>,
}

impl View for CompileOptions {
    type V = CompileOptionsView;

    open spec fn view(&self) -> CompileOptionsView {
        CompileOptionsView {
            package_name: self.package_name@,
            edit_packages: self.edit_packages.deep_view(),
            create_int: self.create_int,
            i_compile_outsideof_kf: self.i_compile_outsideof_kf,
            path_source_files: self.path_source_files@,
            alt_directories: self.alt_directories,
            copy_default_ini: self.copy_default_ini,
            move_files: self.move_files,
            make_redirect: self.make_redirect,
            make_release: self.make_release,
        }
    }
}

/// The options that a pair of sections gives: the dependency list split at
/// its commas, every flag present, and the default configuration always
/// copied.
pub open spec fn derived_options(
    global: SectionGlobalView,
    local: SectionLocalView,
) -> CompileOptionsView {
    CompileOptionsView {
        package_name: global.package_name,
        edit_packages: split_segments(local.edit_packages, ','),
        create_int: Some(local.create_int),
        i_compile_outsideof_kf: Some(local.compile_outsideof_kf),
        path_source_files: global.dir_classes,
        alt_directories: Some(local.alt_directories),
        copy_default_ini: Some(true),
        move_files: Some(local.move_files),
        make_redirect: Some(local.make_redirect),
        make_release: Some(local.make_release),
    }
}

impl CompileOptions {
    /// Derives the options from the two sections.
    pub fn new(global_section: &SectionGlobal, local_section: &SectionLocal) -> (r: Self)
        ensures
            r@ == derived_options(global_section@, local_section@),
    {
        Self {
            package_name: global_section.package_name.clone(),
            edit_packages: split_on(local_section.edit_packages.as_str(), ','),
            create_int: Some(local_section.create_int),
            i_compile_outsideof_kf: Some(local_section.compile_outsideof_kf),
            path_source_files: global_section.dir_classes.clone(),
            alt_directories: Some(local_section.alt_directories),
            copy_default_ini: Some(true),
            move_files: Some(local_section.move_files),
            make_redirect: Some(local_section.make_redirect),
            make_release: Some(local_section.make_release),
        }
    }
}

/// How a release is made.
#[derive(Debug, Default, Clone, PartialEq, Eq)]
pub struct ReleaseOptions {
    pub make_zip: bool,
    pub release_path: String,
}

/// The mathematical value of a [`ReleaseOptions`].
pub struct ReleaseOptionsView {
    pub make_zip: bool,
    pub release_path: Seq<char>,
}

impl View for ReleaseOptions {
    type V = ReleaseOptionsView;

    open spec fn view(&self) -> ReleaseOptionsView {
        ReleaseOptionsView { make_zip: self.make_zip, release_path: self.release_path@ }
    }
}

/// A zipped release into `dir`.
pub open spec fn release_into(dir: Seq<char>) -> ReleaseOptionsView {
    ReleaseOptionsView { make_zip: true, release_path: dir }
}

impl ReleaseOptions {
    /// A zipped release into `dir`.
    pub fn new(dir: &String) -> (r: Self)
        ensures
            r@ == release_into(dir@),
    {
        Self { make_zip: true, release_path: dir.clone() }
    }
}

/// Every path that the pipeline touches.
#[derive(Debug, Default, Clone, PartialEq, Eq)]
pub struct CompilationPaths {
    /// The compiler's root, such as `D:\Dedicated Server`.
    pub compile_dir: String,
    /// Its `System` directory.
    pub compile_dir_system: String,
    /// The compiler's executable.
    pub ucc_exe: String,
    /// The temporary configuration handed to the compiler.
    pub temp_compilation_file: Option<String>,
    /// The platform-identity file. It must be gone when the run ends.
    pub hacky_steam_appid_file: String,
    /// The compiled binary package.
    pub package_u: String,
    /// The compiled class table.
    pub package_ucl: String,
    /// The localization file.
    pub package_int: Option<String>,
    /// The redirect file.
    pub package_uz2: Option<String>,
    /// The package's own configuration.
    pub package_ini: Option<String>,
    /// The directory that sources are copied from.
    pub sources_path: Option<String>,
}

/// The mathematical value of a [`CompilationPaths`].
pub struct CompilationPathsView {
    pub compile_dir: Seq<char>,
    pub compile_dir_system: Seq<char>,
    pub ucc_exe: Seq<char>,
    pub temp_compilation_file: Option<Seq<char>>,
    pub hacky_steam_appid_file: Seq<char>,
    pub package_u: Seq<char>,
    pub package_ucl: Seq<char>,
    pub package_int: Option<Seq<char>>,
    pub package_uz2: Option<Seq<char>>,
    pub package_ini: Option<Seq<char>>,
    pub sources_path: Option<Seq<char>>,
}

impl View for CompilationPaths {
    type V = CompilationPathsView;

    open spec fn view(&self) -> CompilationPathsView {
        CompilationPathsView {
            compile_dir: self.compile_dir@,
            compile_dir_system: self.compile_dir_system@,
            ucc_exe: self.ucc_exe@,
            temp_compilation_file: self.temp_compilation_file.deep_view(),
            hacky_steam_appid_file: self.hacky_steam_appid_file@,
            package_u: self.package_u@,
            package_ucl: self.package_ucl@,
            package_int: self.package_int.deep_view(),
            package_uz2: self.package_uz2.deep_view(),
            package_ini: self.package_ini.deep_view(),
            sources_path: self.sources_path.deep_view(),
        }
    }
}

/// The `System` directory of a compiler rooted at `dir_compile`.
pub open spec fn system_dir(dir_compile: Seq<char>) -> Seq<char> {
    path_join(dir_compile, "System"@)
}

/// The path of the output artifact of `package_name` with extension `ext`
/// (the dot included).
pub open spec fn artifact_path(
    dir_compile: Seq<char>,
    package_name: Seq<char>,
    ext: Seq<char>,
) -> Seq<char> {
    path_join(system_dir(dir_compile), package_name + ext)
}

/// The paths of a run. All of them are composed from the compiler's root and
/// the package's name and from nothing else. Every artifact path is present
/// whatever the flags say; no origin of copied sources is composed.
pub open spec fn derived_paths(dir_compile: Seq<char>, package_name: Seq<char>) -> CompilationPathsView {
    CompilationPathsView {
        compile_dir: dir_compile,
        compile_dir_system: system_dir(dir_compile),
        ucc_exe: path_join(system_dir(dir_compile), "UCC.exe"@),
        temp_compilation_file: Some(path_join(system_dir(dir_compile), "kfcompile.ini"@)),
        hacky_steam_appid_file: path_join(system_dir(dir_compile), "steam_appid.txt"@),
        package_u: artifact_path(dir_compile, package_name, ".u"@),
        package_ucl: artifact_path(dir_compile, package_name, ".ucl"@),
        package_int: Some(artifact_path(dir_compile, package_name, ".int"@)),
        package_uz2: Some(artifact_path(dir_compile, package_name, ".uz2"@)),
        package_ini: Some(artifact_path(dir_compile, package_name, ".ini"@)),
        sources_path: None,
    }
}

/// Composes the path of one output artifact.
fn artifact(system: &str, package_name: &str, ext: &str) -> (r: String)
    ensures
        r@ == path_join(system@, package_name@ + ext@),
{
    let file: String = concat_text(package_name, ext);
    join_path(system, file.as_str())
}

impl CompilationPaths {
    /// Derives every path from the global section.
    pub fn new(global_section: &SectionGlobal) -> (r: Self)
        ensures
            r@ == derived_paths(global_section@.dir_compile, global_section@.package_name),
    {
        let system: String = join_path(global_section.dir_compile.as_str(), "System");
        let name: &str = global_section.package_name.as_str();
        Self {
            compile_dir: global_section.dir_compile.clone(),
            ucc_exe: join_path(system.as_str(), "UCC.exe"),
            temp_compilation_file: Some(join_path(system.as_str(), configs::COMPILATION_CONFIG_NAME)),
            hacky_steam_appid_file: join_path(system.as_str(), configs::STEAM_APPID_TXT),
            package_u: artifact(system.as_str(), name, ".u"),
            package_ucl: artifact(system.as_str(), name, ".ucl"),
            package_int: Some(artifact(system.as_str(), name, ".int")),
            package_uz2: Some(artifact(system.as_str(), name, ".uz2")),
            package_ini: Some(artifact(system.as_str(), name, ".ini")),
            sources_path: None,
            compile_dir_system: system,
        }
    }
}

/// Deriving is a function of the sections: two derivations from equal
/// sections agree in every field.
pub proof fn lemma_derivation_is_deterministic(
    global_a: SectionGlobal,
    local_a: SectionLocal,
    global_b: SectionGlobal,
    local_b: SectionLocal,
    first: RuntimeVariables,
    second: RuntimeVariables,
)
    requires
        global_a@ == global_b@,
        local_a@ == local_b@,
        first@ == derived_runtime(global_a@, local_a@),
        second@ == derived_runtime(global_b@, local_b@),
    ensures
        first@ == second@,
        first@.compile_options == second@.compile_options,
        first@.compiled_paths == second@.compiled_paths,
        first@.path_where_to_copy == second@.path_where_to_copy,
        first@.release_options == second@.release_options,
{
}

/// The paths of a run depend on nothing but the compiler's root and the
/// package's name: sections that agree in these two give the same paths,
/// however else they differ.
pub proof fn lemma_paths_ignore_the_rest(
    global_a: SectionGlobalView,
    local_a: SectionLocalView,
    global_b: SectionGlobalView,
    local_b: SectionLocalView,
)
    requires
        global_a.dir_compile == global_b.dir_compile,
        global_a.package_name == global_b.package_name,
    ensures
        derived_runtime(global_a, local_a).compiled_paths == derived_runtime(
            global_b,
            local_b,
        ).compiled_paths,
{
}

/// Every composed path lies under the compiler's root, and the root itself
/// is kept as it was given.
pub proof fn lemma_paths_rooted_under_compile_dir(dir_compile: Seq<char>, package_name: Seq<char>)
    ensures
        ({
            let p = derived_paths(dir_compile, package_name);
            &&& p.compile_dir == dir_compile
            &&& p.sources_path is None
            &&& rooted_under(p.compile_dir_system, dir_compile)
            &&& rooted_under(p.ucc_exe, dir_compile)
            &&& p.temp_compilation_file is Some
            &&& rooted_under(p.temp_compilation_file->0, dir_compile)
            &&& rooted_under(p.hacky_steam_appid_file, dir_compile)
            &&& rooted_under(p.package_u, dir_compile)
            &&& rooted_under(p.package_ucl, dir_compile)
            &&& p.package_int is Some
            &&& rooted_under(p.package_int->0, dir_compile)
            &&& p.package_uz2 is Some
            &&& rooted_under(p.package_uz2->0, dir_compile)
            &&& p.package_ini is Some
            &&& rooted_under(p.package_ini->0, dir_compile)
        }),
{
    let system = system_dir(dir_compile);
    lemma_join_rooted(dir_compile, "System"@);
    lemma_under_system(dir_compile, "UCC.exe"@);
    lemma_under_system(dir_compile, "kfcompile.ini"@);
    lemma_under_system(dir_compile, "steam_appid.txt"@);
    lemma_under_system(dir_compile, package_name + ".u"@);
    lemma_under_system(dir_compile, package_name + ".ucl"@);
    lemma_under_system(dir_compile, package_name + ".int"@);
    lemma_under_system(dir_compile, package_name + ".uz2"@);
    lemma_under_system(dir_compile, package_name + ".ini"@);
}

/// What is composed under the `System` directory lies under the root.
proof fn lemma_under_system(dir_compile: Seq<char>, name: Seq<char>)
    ensures
        rooted_under(path_join(system_dir(dir_compile), name), dir_compile),
{
    lemma_join_rooted(dir_compile, "System"@);
    lemma_join_rooted(system_dir(dir_compile), name);
    lemma_rooted_transitive(
        path_join(system_dir(dir_compile), name),
        system_dir(dir_compile),
        dir_compile,
    );
}

/// `text` begins with `head`.
pub open spec fn begins_with(text: Seq<char>, head: Seq<char>) -> bool {
    text.len() >= head.len() && text.subrange(0, head.len() as int) == head
}

/// The file name of an artifact is the package's name and the extension.
proof fn lemma_artifact_file_name(dir_compile: Seq<char>, package_name: Seq<char>, ext: Seq<char>)
    requires
        !package_name.contains(PATH_SEPARATOR),
        !ext.contains(PATH_SEPARATOR),
    ensures
        file_name(artifact_path(dir_compile, package_name, ext)) == package_name + ext,
        begins_with(file_name(artifact_path(dir_compile, package_name, ext)), package_name),
{
    let name = package_name + ext;
    assert forall|j: int| 0 <= j < name.len() implies name[j] != PATH_SEPARATOR by {
        if j < package_name.len() {
            assert(package_name.contains(name[j]));
        } else {
            assert(ext[j - package_name.len()] == name[j]);
            assert(ext.contains(name[j]));
        }
    }
    lemma_file_name_of_join(system_dir(dir_compile), name);
    assert(name.subrange(0, package_name.len() as int) =~= package_name);
}

/// The file name of every output artifact begins with the package's name:
/// it is that name and the artifact's extension. This holds of names
/// without a path separator; a name with one would put the artifact into a
/// directory of its own.
pub proof fn lemma_artifacts_named_after_package(dir_compile: Seq<char>, package_name: Seq<char>)
    requires
        !package_name.contains(PATH_SEPARATOR),
    ensures
        ({
            let p = derived_paths(dir_compile, package_name);
            &&& file_name(p.package_u) == package_name + ".u"@
            &&& file_name(p.package_ucl) == package_name + ".ucl"@
            &&& file_name(p.package_int->0) == package_name + ".int"@
            &&& file_name(p.package_uz2->0) == package_name + ".uz2"@
            &&& file_name(p.package_ini->0) == package_name + ".ini"@
            &&& begins_with(file_name(p.package_u), package_name)
            &&& begins_with(file_name(p.package_ucl), package_name)
            &&& begins_with(file_name(p.package_int->0), package_name)
            &&& begins_with(file_name(p.package_uz2->0), package_name)
            &&& begins_with(file_name(p.package_ini->0), package_name)
        }),
{
    reveal_strlit(".u");
    reveal_strlit(".ucl");
    reveal_strlit(".int");
    reveal_strlit(".uz2");
    reveal_strlit(".ini");
    lemma_artifact_file_name(dir_compile, package_name, ".u"@);
    lemma_artifact_file_name(dir_compile, package_name, ".ucl"@);
    lemma_artifact_file_name(dir_compile, package_name, ".int"@);
    lemma_artifact_file_name(dir_compile, package_name, ".uz2"@);
    lemma_artifact_file_name(dir_compile, package_name, ".ini"@);
}

/// Once derived, no flag is missing: each holds the value of its section's
/// flag, and the default configuration is always copied.
pub proof fn lemma_derived_flags_present(global: SectionGlobalView, local: SectionLocalView)
    ensures
        ({
            let o = derived_options(global, local);
            &&& o.create_int == Some(local.create_int)
            &&& o.i_compile_outsideof_kf == Some(local.compile_outsideof_kf)
            &&& o.alt_directories == Some(local.alt_directories)
            &&& o.move_files == Some(local.move_files)
            &&& o.make_redirect == Some(local.make_redirect)
            &&& o.make_release == Some(local.make_release)
            &&& o.copy_default_ini == Some(true)
        }),
        derived_runtime(global, local).release_options is Some <==> global.dir_release_output is Some,
        derived_runtime(global, local).path_where_to_copy == global.dir_move_to,
{
}

} // verus!
