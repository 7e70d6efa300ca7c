//! The two sections of the application's configuration, as typed values.

use vstd::prelude::*;
use vstd::string::*;

pub mod helper;

verus! {

/// Name of the global section of the application's configuration.
pub const GLOBAL_SECTION_NAME: &'static str = "global";

/// File name of the temporary configuration handed to the compiler.
pub const COMPILATION_CONFIG_NAME: &'static str = "kfcompile.ini";

/// The fixed head of the compiler's configuration. The dependency lines are
/// written after it, so it ends inside the section that lists packages.
pub const COMPILATION_CONFIG_TEMPLATE: &'static str =
    "[Engine.Engine]\nEditorEngine=Editor.EditorEngine\n\n[Core.System]\nPaths=../System/*.u\n\n[Editor.EditorEngine]\nCacheSizeMegs=32\nEditPackages=Core\nEditPackages=Engine\nEditPackages=Fire\nEditPackages=Editor\nEditPackages=UnrealEd\nEditPackages=IpDrv\nEditPackages=UWeb\nEditPackages=GamePlay\nEditPackages=UnrealGame\nEditPackages=XGame\nEditPackages=XInterface\nEditPackages=GUI2K4\nEditPackages=KFMod\n";

/// File name of the application's configuration.
pub const APP_CONFIG_NAME: &'static str = "CompileSettings.ini";

/// The default application configuration, written where none can be loaded.
pub const APP_CONFIG_TEMPLATE: &'static str =
    "[global]\nmutatorName=MyMod\ndir_Compile=C:\\Dedicated Server\ndir_Classes=C:\\Mods\n;dir_MoveTo=C:\\Mods\\Out\n;dir_ReleaseOutput=C:\\Mods\\Release\n\n[MyMod]\nEditPackages=MyMod\nbICompileOutsideofKF=false\nbAltDirectories=false\nbMoveFiles=false\nbCreateINT=false\nbMakeRedirect=false\nbMakeRelease=false\n";

/// File name of the platform-identity file that the compiler looks for.
pub const STEAM_APPID_TXT: &'static str = "steam_appid.txt";

/// The global section of the configuration.
#[derive(Debug, Clone, PartialEq, Eq)]
pub struct SectionGlobal {
    /// Name of the package, and of the section that describes it.
    pub package_name: String,
    /// Directory of the sources.
    pub dir_classes: String,
    /// Root of the compiler's installation.
    pub dir_compile: String,
    /// Where files are moved after a successful compilation.
    pub dir_move_to: Option<String>,
    /// Release folder.
    pub dir_release_output: Option<String>,
}

/// The mathematical value of a [`SectionGlobal`].
pub struct SectionGlobalView {
    pub package_name: Seq<char>,
    pub dir_classes: Seq<char>,
    pub dir_compile: Seq<char>,
    pub dir_move_to: Option<Seq<char>>,
    pub dir_release_output: Option<Seq<char>>,
}

impl View for SectionGlobal {
    type V = SectionGlobalView;

    open spec fn view(&self) -> SectionGlobalView {
        SectionGlobalView {
            package_name: self.package_name@,
            dir_classes: self.dir_classes@,
            dir_compile: self.dir_compile@,
            dir_move_to: self.dir_move_to.deep_view(),
            dir_release_output: self.dir_release_output.deep_view(),
        }
    }
}

/// The section of the configuration that describes one package.
#[derive(Debug, Clone, PartialEq, Eq)]
pub struct SectionLocal {
    /// The package's dependencies, joined by commas. Not a list yet.
    pub edit_packages: String,
    /// The sources lie outside the compiler's tree.
    pub compile_outsideof_kf: bool,
    /// The sources use the alternative directory layout.
    pub alt_directories: bool,
    /// Move files to the configured directory after the build.
    pub move_files: bool,
    /// Create a localization file.
    pub create_int: bool,
    /// Create a redirect file.
    pub make_redirect: bool,
    /// Make a release build.
    pub make_release: bool,
}

/// The mathematical value of a [`SectionLocal`].
pub struct SectionLocalView {
    pub edit_packages: Seq<char>,
    pub compile_outsideof_kf: bool,
    pub alt_directories: bool,
    pub move_files: bool,
    pub create_int: bool,
    pub make_redirect: bool,
    pub make_release: bool,
}

impl View for SectionLocal {
    type V = SectionLocalView;

    open spec fn view(&self) -> SectionLocalView {
        SectionLocalView {
            edit_packages: self.edit_packages@,
            compile_outsideof_kf: self.compile_outsideof_kf,
            alt_directories: self.alt_directories,
            move_files: self.move_files,
            create_int: self.create_int,
            make_redirect: self.make_redirect,
            make_release: self.make_release,
        }
    }
}

/// The fixed head of the compiler's configuration ends with a line break,
/// so whatever is written after it begins a line of its own.
pub proof fn lemma_template_ends_with_line_break()
    ensures
        COMPILATION_CONFIG_TEMPLATE@.len() > 0,
        COMPILATION_CONFIG_TEMPLATE@.last() == '\n',
{
    reveal_strlit(
        "[Engine.Engine]\nEditorEngine=Editor.EditorEngine\n\n[Core.System]\nPaths=../System/*.u\n\n[Editor.EditorEngine]\nCacheSizeMegs=32\nEditPackages=Core\nEditPackages=Engine\nEditPackages=Fire\nEditPackages=Editor\nEditPackages=UnrealEd\nEditPackages=IpDrv\nEditPackages=UWeb\nEditPackages=GamePlay\nEditPackages=UnrealGame\nEditPackages=XGame\nEditPackages=XInterface\nEditPackages=GUI2K4\nEditPackages=KFMod\n",
    );
}

} // verus!
