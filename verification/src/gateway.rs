//! The witness-generation gateway: which backend a generator reference asks
//! for, and how a generation can fail. Running a generator is left to the
//! caller; what comes back from it is judged here.

use crate::error::ErrorKind;
use std::path::PathBuf;
use vstd::prelude::*;

verus! {

/// Declares `std::path::PathBuf`. A path is carried through; nothing is known
/// of what it holds.
#[verifier::external_type_specification]
#[verifier::external_body]
pub struct ExPathBuf(std::path::PathBuf);

/// Where the witness generator is to be found.
#[derive(Debug, PartialEq, Eq)]
pub enum FileLocation {
    /// A file on this machine.
    PathBuf(PathBuf),
    /// A remote locator.
    URL(String),
}

/// The executor that produces a witness.
#[derive(Clone, Copy, Debug, PartialEq, Eq, Structural)]
pub enum Backend {
    /// A compiled binary, run to completion by a blocking call.
    NativeBinary,
    /// A portable bytecode module, run in process.
    EmbeddedModule,
    /// A bytecode module that is fetched from a remote locator first.
    Remote,
}

impl Backend {
    /// Whether a call to this backend may yield control before it returns.
    /// Only the native binary never does.
    pub open spec fn suspends(self) -> bool {
        !(self is NativeBinary)
    }

    /// Whether a call to this backend may yield control before it returns.
    pub fn may_suspend(&self) -> (yes: bool)
        ensures
            yes == self.suspends(),
    {
        match self {
            Backend::NativeBinary => false,
            Backend::EmbeddedModule => true,
            Backend::Remote => true,
        }
    }
}

/// How a witness generation can fail.
#[derive(Clone, Copy, Debug, PartialEq, Eq, Structural)]
pub enum GatewayError {
    /// The generator is missing or cannot be reached.
    GeneratorUnavailable,
    /// The generator ran and refused the input.
    GeneratorRejected,
    /// Staging the input or reading the output failed.
    IoFailure,
}

impl GatewayError {
    /// The kind under which a run reports this failure.
    pub open spec fn kind_spec(self) -> ErrorKind {
        match self {
            GatewayError::GeneratorUnavailable => ErrorKind::GeneratorUnavailable,
            GatewayError::GeneratorRejected => ErrorKind::GeneratorRejected,
            GatewayError::IoFailure => ErrorKind::IoFailure,
        }
    }

    /// The kind under which a run reports this failure.
    pub fn kind(&self) -> (kind: ErrorKind)
        ensures
            kind == self.kind_spec(),
    {
        match self {
            GatewayError::GeneratorUnavailable => ErrorKind::GeneratorUnavailable,
            GatewayError::GeneratorRejected => ErrorKind::GeneratorRejected,
            GatewayError::IoFailure => ErrorKind::IoFailure,
        }
    }
}

/// What the exit of a generator process says of the witness: a process that
/// ended with status zero has written one; any other status, and an end
/// without a status, is the generator's refusal.
pub open spec fn exit_verdict(status: Option<i32>) -> Result<(), GatewayError> {
    if status == Some(0i32) {
        Ok(())
    } else {
        Err(GatewayError::GeneratorRejected)
    }
}

/// Judges the exit of a generator process.
pub fn judge_exit(status: Option<i32>) -> (verdict: Result<(), GatewayError>)
    ensures
        verdict == exit_verdict(status),
{
    match status {
        Some(code) => {
            if code == 0 {
                Ok(())
            } else {
                Err(GatewayError::GeneratorRejected)
            }
        },
        None => Err(GatewayError::GeneratorRejected),
    }
}

/// The extension that marks a generator file as a bytecode module.
pub open spec fn module_extension() -> Seq<char> {
    seq!['w', 'a', 's', 'm']
}

/// The backend for a generator file with the given extension: a module where
/// the extension is `wasm`, a native binary for any other and for none.
pub open spec fn backend_for_extension_spec(extension: Option<Seq<char>>) -> Backend {
    if extension == Some(module_extension()) {
        Backend::EmbeddedModule
    } else {
        Backend::NativeBinary
    }
}

/// The backend for a generator file with the given extension.
pub fn backend_for_extension(extension: Option<&str>) -> (backend: Backend)
    ensures
        backend == backend_for_extension_spec(
            match extension {
                Some(text) => Some(text@),
                None => None,
            },
        ),
{
    match extension {
        Some(text) => {
            proof {
                reveal_strlit("wasm");
            }
            if str_equal(text, "wasm") {
                assert(text@ =~= module_extension());
                Backend::EmbeddedModule
            } else {
                assert(text@ != module_extension()) by {
                    assert("wasm"@ =~= module_extension());
                }
                Backend::NativeBinary
            }
        },
        None => Backend::NativeBinary,
    }
}

/// The extension of a path as `Path::extension` gives it, taken as text: the
/// part of the file name after its last dot, and none where the path has no
/// file name, the file name has no dot, or its only dot comes first. What is
/// no Unicode in it reads as the replacement character.
pub uninterp spec fn extension_text(path: PathBuf) -> Option<Seq<char>>;

/// Calls `Path::extension` and hands the extension out as text, through
/// `OsStr::to_string_lossy`. The result is the path's `extension_text`: the
/// extension depends on the path alone.
#[verifier::external_body]
fn path_extension(path: &PathBuf) -> (extension: Option<String>)
    ensures
        extension is Some <==> extension_text(*path) is Some,
        extension matches Some(text) ==> Some(text@) == extension_text(*path),
{
    match path.extension() {
        Some(extension) => Some(extension.to_string_lossy().into_owned()),
        None => None,
    }
}

/// Compares two texts.
fn str_equal(a: &str, b: &str) -> (same: bool)
    ensures
        same == (a@ == b@),
{
    let x = a.to_owned();
    let y = b.to_owned();
    x == y
}

/// The backend that a generator reference asks for. It is chosen once for a
/// run. A remote locator always gets the remote backend; a file gets the
/// backend for its extension.
pub fn select_backend(reference: &FileLocation) -> (backend: Backend)
    ensures
        reference is URL ==> backend == Backend::Remote,
        reference matches FileLocation::PathBuf(path) ==> backend == backend_for_extension_spec(
            extension_text(*path),
        ),
{
    match reference {
        FileLocation::URL(_) => Backend::Remote,
        FileLocation::PathBuf(path) => {
            match path_extension(path) {
                Some(text) => backend_for_extension(Some(text.as_str())),
                None => backend_for_extension(None),
            }
        },
    }
}

} // verus!
