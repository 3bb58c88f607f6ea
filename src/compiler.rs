//! Options and argument lists for the external assembler and linker. Running
//! them is left to the caller.
use vstd::prelude::*;
use vstd::string::*;

verus! {

/// std's I/O error, carried opaquely by `CompileError::IoError`; nothing is
/// assumed of its contents.
#[verifier::external_type_specification]
#[verifier::external_body]
pub struct ExIoError(std::io::Error);

/// What the toolchain is invoked with.
pub struct CompilerOptions {
    pub target: String,
    pub sdk_path: String,
    pub min_version: String,
}

impl Default for CompilerOptions {
    /// An ARM64 macOS 11 target with the command-line tools' SDK.
    fn default() -> (r: Self)
        ensures
            r.target@ == "arm64-apple-macos11.0"@,
            r.sdk_path@ == "/Library/Developer/CommandLineTools/SDKs/MacOSX.sdk"@,
            r.min_version@ == "11.0"@,
    {
        Self {
            target: String::from_str("arm64-apple-macos11.0"),
            sdk_path: String::from_str("/Library/Developer/CommandLineTools/SDKs/MacOSX.sdk"),
            min_version: String::from_str("11.0"),
        }
    }
}

/// A failure of the toolchain, by phase, with its diagnostics verbatim.
#[derive(Debug)]
pub enum CompileError {
    IoError(std::io::Error),
    AssemblerError(String),
    LinkerError(String),
}

impl From<std::io::Error> for CompileError {
    fn from(error: std::io::Error) -> Self {
        CompileError::IoError(error)
    }
}

impl vstd::std_specs::convert::FromSpecImpl<std::io::Error> for CompileError {
    open spec fn obeys_from_spec() -> bool {
        true
    }

    open spec fn from_spec(v: std::io::Error) -> Self {
        CompileError::IoError(v)
    }
}

/// The assembler's arguments: output object, input, architecture and target.
pub open spec fn assembler_argv(target: Seq<char>, asm_path: Seq<char>, obj_path: Seq<char>) -> Seq<Seq<char>> {
    seq!["-o"@, obj_path, asm_path, "-arch"@, "arm64"@, "--target"@, target]
}

/// The linker's arguments: output executable, input object, the system
/// library, SDK root, minimum OS version and the `_start` entry symbol.
pub open spec fn linker_argv(
    sdk_path: Seq<char>,
    min_version: Seq<char>,
    obj_path: Seq<char>,
    exe_path: Seq<char>,
) -> Seq<Seq<char>> {
    seq![
        "-o"@,
        exe_path,
        obj_path,
        "-lSystem"@,
        "-syslibroot"@,
        sdk_path,
        "-macos_version_min"@,
        min_version,
        "-e"@,
        "_start"@,
    ]
}

/// Drives the external assembler and linker.
pub struct Compiler {
    options: CompilerOptions,
}

impl Compiler {
    pub closed spec fn spec_options(&self) -> &CompilerOptions {
        &self.options
    }

    pub fn new(options: CompilerOptions) -> (r: Self)
        ensures
            r.spec_options().target@ == options.target@,
            r.spec_options().sdk_path@ == options.sdk_path@,
            r.spec_options().min_version@ == options.min_version@,
    {
        Self { options }
    }

    /// The arguments for assembling `asm_path` into `obj_path`.
    pub fn assembler_args(&self, asm_path: &str, obj_path: &str) -> (r: Vec<String>)
        ensures
            r@.map_values(|s: String| s@) == assembler_argv(self.spec_options().target@, asm_path@, obj_path@),
    {
        let mut v: Vec<String> = Vec::new();
        v.push(String::from_str("-o"));
        v.push(String::from_str(obj_path));
        v.push(String::from_str(asm_path));
        v.push(String::from_str("-arch"));
        v.push(String::from_str("arm64"));
        v.push(String::from_str("--target"));
        v.push(self.options.target.clone());
        assert(v@.map_values(|s: String| s@) =~= assembler_argv(self.options.target@, asm_path@, obj_path@));
        v
    }

    /// The arguments for linking `obj_path` into the executable `exe_path`.
    pub fn linker_args(&self, obj_path: &str, exe_path: &str) -> (r: Vec<String>)
        ensures
            r@.map_values(|s: String| s@) == linker_argv(
                self.spec_options().sdk_path@,
                self.spec_options().min_version@,
                obj_path@,
                exe_path@,
            ),
    {
        let mut v: Vec<String> = Vec::new();
        v.push(String::from_str("-o"));
        v.push(String::from_str(exe_path));
        v.push(String::from_str(obj_path));
        v.push(String::from_str("-lSystem"));
        v.push(String::from_str("-syslibroot"));
        v.push(self.options.sdk_path.clone());
        v.push(String::from_str("-macos_version_min"));
        v.push(self.options.min_version.clone());
        v.push(String::from_str("-e"));
        v.push(String::from_str("_start"));
        assert(v@.map_values(|s: String| s@) =~= linker_argv(
            self.options.sdk_path@,
            self.options.min_version@,
            obj_path@,
            exe_path@,
        ));
        v
    }

    /// The outcome of one phase: success, or that phase's error carrying the
    /// diagnostics verbatim.
    pub fn phase_result(assemble: bool, success: bool, diagnostics: String) -> (r: Result<(), CompileError>)
        ensures
            success ==> r is Ok,
            !success && assemble ==> (r matches Err(CompileError::AssemblerError(d)) && d@ == diagnostics@),
            !success && !assemble ==> (r matches Err(CompileError::LinkerError(d)) && d@ == diagnostics@),
    {
        if success {
            Ok(())
        } else if assemble {
            Err(CompileError::AssemblerError(diagnostics))
        } else {
            Err(CompileError::LinkerError(diagnostics))
        }
    }
}

} // verus!
