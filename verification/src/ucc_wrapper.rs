//! The compiler: where it must be, and how it is started.

use crate::configs::COMPILATION_CONFIG_NAME;
use crate::errors::{CompileToolErrors, CompileToolErrorsView};
use crate::text::concat_text;
use crate::RuntimeVariables;
use vstd::prelude::*;
use vstd::string::*;

verus! {

/// The mathematical value of what probing a path gave: whether it exists, or
/// the message of the failed probe.
pub open spec fn probe_view(probe: Result<bool, String>) -> Result<bool, Seq<char>> {
    match probe {
        Ok(b) => Ok(b),
        Err(e) => Err(e@),
    }
}

/// Whether the run may go on, given what probing the compile root gave: it
/// may where the root exists; a root that is not there is reported with its
/// path, and a probe that failed with its message.
pub open spec fn directory_verdict(compile_dir: Seq<char>, probe: Result<bool, Seq<char>>) -> Result<
    bool,
    CompileToolErrorsView,
> {
    match probe {
        Ok(true) => Ok(true),
        Ok(false) => Err(CompileToolErrorsView::DirectoryNotFound(compile_dir)),
        Err(message) => Err(CompileToolErrorsView::IOError(message)),
    }
}

/// Judges the compile root from what probing it gave.
pub fn validate_compile_directory(runtime_vars: &RuntimeVariables, probe: Result<bool, String>) -> (r:
    Result<bool, CompileToolErrors>)
    ensures
        match r {
            Ok(b) => directory_verdict(runtime_vars@.compiled_paths.compile_dir, probe_view(probe))
                == Ok::<bool, CompileToolErrorsView>(b),
            Err(e) => directory_verdict(runtime_vars@.compiled_paths.compile_dir, probe_view(probe))
                == Err::<bool, CompileToolErrorsView>(e@),
        },
{
    match probe {
        Ok(true) => Ok(true),
        Ok(false) => Err(
            CompileToolErrors::DirectoryNotFound(runtime_vars.compiled_paths.compile_dir.clone()),
        ),
        Err(message) => Err(CompileToolErrors::IOError(message)),
    }
}

/// A program to start, with its arguments in order.
#[derive(Debug, Clone, PartialEq, Eq)]
pub struct CompilerInvocation {
    pub program: String,
    pub arguments: Vec<String>,
}

/// The mathematical value of a [`CompilerInvocation`].
pub struct CompilerInvocationView {
    pub program: Seq<char>,
    pub arguments: Seq<Seq<char>>,
}

impl View for CompilerInvocation {
    type V = CompilerInvocationView;

    open spec fn view(&self) -> CompilerInvocationView {
        CompilerInvocationView { program: self.program@, arguments: self.arguments.deep_view() }
    }
}

/// The compiler's arguments: its `make` commandlet, the temporary
/// configuration by name, and the switch that makes it export class tables.
pub open spec fn compiler_arguments() -> Seq<Seq<char>> {
    seq!["make"@, "ini="@ + COMPILATION_CONFIG_NAME@, "-EXPORTCACHE"@]
}

/// How the compiler is started for this run.
pub fn start_compilation(runtime_vars: &RuntimeVariables) -> (r: CompilerInvocation)
    ensures
        r@.program == runtime_vars@.compiled_paths.ucc_exe,
        r@.arguments == compiler_arguments(),
{
    let mut arguments: Vec<String> = Vec::new();
    arguments.push(String::from_str("make"));
    arguments.push(concat_text("ini=", COMPILATION_CONFIG_NAME));
    arguments.push(String::from_str("-EXPORTCACHE"));
    proof {
        assert(arguments.deep_view() =~= compiler_arguments());
    }
    CompilerInvocation { program: runtime_vars.compiled_paths.ucc_exe.clone(), arguments }
}

} // verus!
