//! The short-lived files of a run: what is written, and what is removed
//! again before the run ends.

use crate::errors::{CompileToolErrors, CompileToolErrorsView};
use crate::text::concat_text;
use crate::{ReleaseOptionsView, RuntimeVariables};
use vstd::prelude::*;
use vstd::string::*;

verus! {

/// A file to be written: created or truncated, filled, and then made
/// read-only where `read_only` is set.
#[derive(Debug, Clone, PartialEq, Eq)]
pub struct FileWrite {
    pub path: String,
    pub content: String,
    pub read_only: bool,
}

/// The mathematical value of a [`FileWrite`].
pub struct FileWriteView {
    pub path: Seq<char>,
    pub content: Seq<char>,
    pub read_only: bool,
}

impl View for FileWrite {
    type V = FileWriteView;

    open spec fn view(&self) -> FileWriteView {
        FileWriteView { path: self.path@, content: self.content@, read_only: self.read_only }
    }
}

/// One step of the cleanup.
#[derive(Debug, Clone, PartialEq, Eq)]
pub enum CleanupStep {
    /// Make the file at this path writable again.
    ClearReadOnly(String),
    /// Delete the file at this path.
    RemoveFile(String),
}

/// The mathematical value of a [`CleanupStep`].
pub enum CleanupStepView {
    ClearReadOnly(Seq<char>),
    RemoveFile(Seq<char>),
}

impl View for CleanupStep {
    type V = CleanupStepView;

    open spec fn view(&self) -> CleanupStepView {
        match self {
            CleanupStep::ClearReadOnly(p) => CleanupStepView::ClearReadOnly(p@),
            CleanupStep::RemoveFile(p) => CleanupStepView::RemoveFile(p@),
        }
    }
}

impl DeepView for CleanupStep {
    type V = CleanupStepView;

    open spec fn deep_view(&self) -> CleanupStepView {
        self@
    }
}

/// The identity file of a run: the single character `3`, read-only.
pub open spec fn identity_file(path: Seq<char>) -> FileWriteView {
    FileWriteView { path, content: "3"@, read_only: true }
}

/// The identity file that the compiler's launcher looks for.
pub fn create_hacky_steamappid(runtime_vars: &RuntimeVariables) -> (r: FileWrite)
    ensures
        r@ == identity_file(runtime_vars@.compiled_paths.hacky_steam_appid_file),
{
    FileWrite {
        path: runtime_vars.compiled_paths.hacky_steam_appid_file.clone(),
        content: String::from_str("3"),
        read_only: true,
    }
}

/// The steps that remove the compiler's temporary configuration, where its
/// path is set and the file is there.
pub open spec fn config_removal(
    temp_compilation_file: Option<Seq<char>>,
    config_exists: bool,
) -> Seq<CleanupStepView> {
    match temp_compilation_file {
        Some(path) if config_exists => seq![CleanupStepView::RemoveFile(path)],
        _ => Seq::<CleanupStepView>::empty(),
    }
}

/// The steps that remove the identity file, where it is there: it is made
/// writable first, because a read-only file cannot be deleted everywhere.
pub open spec fn identity_removal(path: Seq<char>, identity_exists: bool) -> Seq<CleanupStepView> {
    if identity_exists {
        seq![CleanupStepView::ClearReadOnly(path), CleanupStepView::RemoveFile(path)]
    } else {
        Seq::<CleanupStepView>::empty()
    }
}

/// The steps of a cleanup, in the order in which they are taken.
pub open spec fn cleanup_steps(
    temp_compilation_file: Option<Seq<char>>,
    identity_path: Seq<char>,
    config_exists: bool,
    identity_exists: bool,
) -> Seq<CleanupStepView> {
    config_removal(temp_compilation_file, config_exists) + identity_removal(
        identity_path,
        identity_exists,
    )
}

/// Plans the removal of the transient files. Every step is to be attempted,
/// whatever became of the steps before it.
pub fn remove_compilation_garbage(
    runtime_vars: &RuntimeVariables,
    config_exists: bool,
    identity_exists: bool,
) -> (r: Vec<CleanupStep>)
    ensures
        r.deep_view() == cleanup_steps(
            runtime_vars@.compiled_paths.temp_compilation_file,
            runtime_vars@.compiled_paths.hacky_steam_appid_file,
            config_exists,
            identity_exists,
        ),
{
    let mut steps: Vec<CleanupStep> = Vec::new();
    if config_exists {
        match &runtime_vars.compiled_paths.temp_compilation_file {
            Some(path) => {
                steps.push(CleanupStep::RemoveFile(path.clone()));
            },
            None => {},
        }
    }
    if identity_exists {
        let path: &String = &runtime_vars.compiled_paths.hacky_steam_appid_file;
        steps.push(CleanupStep::ClearReadOnly(path.clone()));
        steps.push(CleanupStep::RemoveFile(path.clone()));
    }
    proof {
        assert(steps.deep_view() =~= cleanup_steps(
            runtime_vars@.compiled_paths.temp_compilation_file,
            runtime_vars@.compiled_paths.hacky_steam_appid_file,
            config_exists,
            identity_exists,
        ));
    }
    steps
}

/// The messages of `failures`, each followed by a line break.
pub open spec fn failure_report(failures: Seq<Seq<char>>) -> Seq<char>
    decreases failures.len(),
{
    if failures.len() == 0 {
        Seq::<char>::empty()
    } else {
        failure_report(failures.drop_last()) + failures.last() + "\n"@
    }
}

/// What a cleanup comes to, given the messages of the steps that failed.
pub open spec fn cleanup_verdict(failures: Seq<Seq<char>>) -> Result<(), CompileToolErrorsView> {
    if failures.len() == 0 {
        Ok(())
    } else {
        Err(CompileToolErrorsView::IOError(failure_report(failures)))
    }
}

/// Sums a cleanup up: it succeeded if no step failed, and otherwise fails
/// with every failure in one error.
pub fn cleanup_outcome(failures: &Vec<String>) -> (r: Result<(), CompileToolErrors>)
    ensures
        match r {
            Ok(()) => cleanup_verdict(failures.deep_view()) == Ok::<(), CompileToolErrorsView>(()),
            Err(e) => cleanup_verdict(failures.deep_view()) == Err::<(), CompileToolErrorsView>(e@),
        },
{
    if failures.len() == 0 {
        return Ok(());
    }
    let mut report: String = String::new();
    let mut i: usize = 0;
    proof {
        assert(failures.deep_view().take(0) =~= Seq::<Seq<char>>::empty());
    }
    while i < failures.len()
        invariant
            i <= failures.len(),
            report@ == failure_report(failures.deep_view().take(i as int)),
        decreases failures.len() - i,
    {
        proof {
            let next = failures.deep_view().take(i as int + 1);
            assert(next.drop_last() =~= failures.deep_view().take(i as int));
            assert(next.last() == failures[i as int]@);
        }
        report.append(failures[i].as_str());
        report.append("\n");
        i += 1;
    }
    proof {
        assert(failures.deep_view().take(i as int) =~= failures.deep_view());
    }
    Err(CompileToolErrors::IOError(report))
}

/// A directory to archive, and the file that the archive goes to.
#[derive(Debug, Clone, PartialEq, Eq)]
pub struct ArchiveRequest {
    pub source_dir: String,
    pub archive_file: String,
}

/// The mathematical value of an [`ArchiveRequest`].
pub struct ArchiveRequestView {
    pub source_dir: Seq<char>,
    pub archive_file: Seq<char>,
}

impl View for ArchiveRequest {
    type V = ArchiveRequestView;

    open spec fn view(&self) -> ArchiveRequestView {
        ArchiveRequestView { source_dir: self.source_dir@, archive_file: self.archive_file@ }
    }
}

/// What a run archives: nothing without release options or where they ask
/// for no archive; else the release directory, into a file beside it that
/// is named after it.
pub open spec fn archive_of(release_options: Option<ReleaseOptionsView>) -> Option<ArchiveRequestView> {
    match release_options {
        Some(release) if release.make_zip => Some(
            ArchiveRequestView {
                source_dir: release.release_path,
                archive_file: release.release_path + ".zip"@,
            },
        ),
        _ => None,
    }
}

/// Says what the packaging step of this run archives, if anything.
pub fn release_archive(runtime_vars: &RuntimeVariables) -> (r: Option<ArchiveRequest>)
    ensures
        match r {
            Some(request) => archive_of(runtime_vars@.release_options) == Some(request@),
            None => archive_of(runtime_vars@.release_options) is None,
        },
{
    match &runtime_vars.release_options {
        Some(release) => {
            if release.make_zip {
                Some(
                    ArchiveRequest {
                        source_dir: release.release_path.clone(),
                        archive_file: concat_text(release.release_path.as_str(), ".zip"),
                    },
                )
            } else {
                None
            }
        },
        None => None,
    }
}

/// An entry is hidden where its name begins with a dot; hidden entries are
/// left out of a directory walk.
pub fn is_hidden(file_name: &str) -> (r: bool)
    ensures
        r == (file_name@.len() > 0 && file_name@[0] == '.'),
{
    file_name.unicode_len() > 0 && file_name.get_char(0) == '.'
}

/// A cleanup that finds neither file has nothing to do, and so succeeds, as
/// often as it is run.
pub proof fn lemma_cleanup_of_nothing(temp_compilation_file: Option<Seq<char>>, identity_path: Seq<char>)
    ensures
        cleanup_steps(temp_compilation_file, identity_path, false, false)
            == Seq::<CleanupStepView>::empty(),
        cleanup_verdict(Seq::<Seq<char>>::empty()) == Ok::<(), CompileToolErrorsView>(()),
{
    assert(cleanup_steps(temp_compilation_file, identity_path, false, false)
        =~= Seq::<CleanupStepView>::empty());
}

/// The identity file is never deleted while it is read-only: where the
/// cleanup removes it, the step just before makes it writable.
pub proof fn lemma_identity_cleared_before_removed(
    temp_compilation_file: Option<Seq<char>>,
    identity_path: Seq<char>,
    config_exists: bool,
)
    ensures
        ({
            let steps = cleanup_steps(temp_compilation_file, identity_path, config_exists, true);
            &&& steps.len() >= 2
            &&& steps[steps.len() - 2] == CleanupStepView::ClearReadOnly(identity_path)
            &&& steps[steps.len() - 1] == CleanupStepView::RemoveFile(identity_path)
        }),
{
}

} // verus!
