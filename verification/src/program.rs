//! The program wrapper: holds the textual source of one example and, after
//! compilation, the compiled program together with its public metadata.

use vstd::prelude::*;

use crate::engine;

verus! {

/// One example program: its source text and, once `compile_program` has
/// succeeded, the compiled program handle and its program-info descriptor
/// (execution and proving need the program; verification needs the info).
///
/// The fields are kept inside the crate so that a held program is always the
/// compilation of the held source: the engine calls rely on that.
pub struct MidenProgram {
    pub(crate) source: String,
    pub(crate) program: Option<miden_vm::Program>,
    pub(crate) program_info: Option<miden_vm::ProgramInfo>,
}

impl MidenProgram {
    /// The source text this wrapper was built around.
    pub closed spec fn source_view(&self) -> Seq<char> {
        self.source@
    }

    /// Whether a compiled program (and its info) is held.
    pub closed spec fn is_compiled(&self) -> bool {
        self.program is Some && self.program_info is Some
    }

    /// Whether `compile_program` has succeeded on this wrapper.
    pub fn has_compiled_program(&self) -> (r: bool)
        ensures
            r == self.is_compiled(),
    {
        self.program.is_some() && self.program_info.is_some()
    }

    /// A fresh, not yet compiled wrapper around `source`.
    pub fn new(source: &str) -> (r: Self)
        ensures
            r.source_view() == source@,
            !r.is_compiled(),
    {
        MidenProgram { source: source.to_owned(), program: None, program_info: None }
    }

    /// Compiles the held source with the Miden assembler.
    ///
    /// Compilation is a repeatable function of the source text: it succeeds
    /// exactly when the assembler accepts the source, and then both the
    /// program and its info are held; on failure the assembler's diagnostic
    /// is surfaced unmodified.
    pub fn compile_program(&mut self) -> (r: Result<(), String>)
        ensures
            final(self).source_view() == old(self).source_view(),
            r is Ok <==> engine::compiles(old(self).source_view()),
            r is Ok <==> final(self).is_compiled(),
            r matches Err(d) ==> d@ == engine::compile_diag(old(self).source_view()),
    {
        match engine::assemble_source(self.source.as_str()) {
            Ok(p) => {
                let info = engine::program_info_of(&p);
                self.program = Some(p);
                self.program_info = Some(info);
                Ok(())
            },
            Err(diagnostic) => {
                self.program = None;
                self.program_info = None;
                Err(diagnostic)
            },
        }
    }
}

} // verus!
