//! How the on-device AI runtime (ONNX Runtime) is set up.
//!
//! The runtime is a shared library shipped next to the application. Its
//! place relative to the running binary, its file name and the execution
//! providers to register depend on the target system; the log level depends
//! on whether the build has debug assertions. This module makes those
//! choices; finding the binary, resolving paths on disk and loading the
//! library happen around it.

use vstd::prelude::*;

verus! {

/// The systems the application ships the runtime for.
#[derive(Debug, Clone, Copy, PartialEq, Eq)]
pub enum TargetOs {
    Windows,
    MacOs,
    Ios,
    Linux,
    Android,
}

/// An execution provider that the runtime is asked to use.
#[derive(Debug, Clone, Copy, PartialEq, Eq)]
pub enum ExecutionProvider {
    /// Apple's Core ML.
    CoreMl,
    /// The XNNPACK CPU kernels.
    Xnnpack,
    /// Microsoft's DirectML.
    DirectMl,
}

/// How much the runtime logs.
#[derive(Debug, Clone, Copy, PartialEq, Eq)]
pub enum LogLevel {
    /// Everything.
    Verbose,
    /// Informational messages and above.
    Info,
}

/// The settings of the runtime environment.
pub struct EnvironmentConfig {
    /// The name the environment is registered under.
    pub name: String,
    /// How much the runtime logs.
    pub log_level: LogLevel,
    /// The execution providers to register, in order of preference.
    pub execution_providers: Vec<ExecutionProvider>,
}

/// The directory of the runtime library, relative to the running binary.
pub open spec fn binding_location_of(os: TargetOs) -> Seq<char> {
    match os {
        TargetOs::Windows => "."@,
        TargetOs::MacOs => "../Frameworks/Spacedrive.framework/Libraries"@,
        _ => "../lib/spacedrive"@,
    }
}

/// The file name of the runtime library.
pub open spec fn lib_name_of(os: TargetOs) -> Seq<char> {
    match os {
        TargetOs::Windows => "onnxruntime.dll"@,
        TargetOs::MacOs | TargetOs::Ios => "libonnxruntime.dylib"@,
        TargetOs::Linux | TargetOs::Android => "libonnxruntime.so"@,
    }
}

/// The separator between path components.
pub open spec fn separator_of(os: TargetOs) -> Seq<char> {
    match os {
        TargetOs::Windows => "\\"@,
        _ => "/"@,
    }
}

/// The runtime library's path relative to the running binary's directory.
pub open spec fn relative_library_path_of(os: TargetOs) -> Seq<char> {
    binding_location_of(os) + separator_of(os) + lib_name_of(os)
}

/// The execution providers registered on each system, in order.
pub open spec fn execution_providers_of(os: TargetOs) -> Seq<ExecutionProvider> {
    match os {
        TargetOs::MacOs | TargetOs::Ios => seq![ExecutionProvider::CoreMl, ExecutionProvider::Xnnpack],
        TargetOs::Windows => seq![ExecutionProvider::DirectMl],
        TargetOs::Linux => seq![ExecutionProvider::Xnnpack],
        TargetOs::Android => Seq::empty(),
    }
}

/// The directory of the runtime library, relative to the running binary.
pub fn binding_location(os: TargetOs) -> (r: &'static str)
    ensures
        r@ == binding_location_of(os),
{
    match os {
        TargetOs::Windows => ".",
        TargetOs::MacOs => "../Frameworks/Spacedrive.framework/Libraries",
        _ => "../lib/spacedrive",
    }
}

/// The file name of the runtime library.
pub fn lib_name(os: TargetOs) -> (r: &'static str)
    ensures
        r@ == lib_name_of(os),
{
    match os {
        TargetOs::Windows => "onnxruntime.dll",
        TargetOs::MacOs | TargetOs::Ios => "libonnxruntime.dylib",
        TargetOs::Linux | TargetOs::Android => "libonnxruntime.so",
    }
}

/// The separator between path components.
pub fn separator(os: TargetOs) -> (r: &'static str)
    ensures
        r@ == separator_of(os),
{
    match os {
        TargetOs::Windows => "\\",
        _ => "/",
    }
}

/// The runtime library's path relative to the running binary's directory:
/// its directory, a separator and its file name.
pub fn relative_library_path(os: TargetOs) -> (r: String)
    ensures
        r@ == relative_library_path_of(os),
        r@ == binding_location_of(os) + separator_of(os) + lib_name_of(os),
{
    let path = String::from_str(binding_location(os));
    let path = path.concat(separator(os));
    path.concat(lib_name(os))
}

/// The runtime logs everything in builds with debug assertions and
/// informational messages otherwise.
pub fn log_level(debug_assertions: bool) -> (r: LogLevel)
    ensures
        r == (if debug_assertions {
            LogLevel::Verbose
        } else {
            LogLevel::Info
        }),
{
    if debug_assertions {
        LogLevel::Verbose
    } else {
        LogLevel::Info
    }
}

/// The execution providers registered on `os`, in order of preference.
pub fn execution_providers(os: TargetOs) -> (r: Vec<ExecutionProvider>)
    ensures
        r@ == execution_providers_of(os),
{
    let mut providers: Vec<ExecutionProvider> = Vec::new();
    match os {
        TargetOs::MacOs | TargetOs::Ios => {
            providers.push(ExecutionProvider::CoreMl);
            providers.push(ExecutionProvider::Xnnpack);
        },
        TargetOs::Windows => {
            providers.push(ExecutionProvider::DirectMl);
        },
        TargetOs::Linux => {
            providers.push(ExecutionProvider::Xnnpack);
        },
        TargetOs::Android => {},
    }
    providers
}

/// The settings of the runtime environment on `os`: registered as
/// "spacedrive", logging by the build kind, with the system's providers.
pub fn environment_config(os: TargetOs, debug_assertions: bool) -> (r: EnvironmentConfig)
    ensures
        r.name@ == "spacedrive"@,
        r.log_level == (if debug_assertions {
            LogLevel::Verbose
        } else {
            LogLevel::Info
        }),
        r.execution_providers@ == execution_providers_of(os),
{
    EnvironmentConfig {
        name: String::from_str("spacedrive"),
        log_level: log_level(debug_assertions),
        execution_providers: execution_providers(os),
    }
}

/// Only Windows separates path components with a backslash; every other
/// system uses a slash, and a separator is one character.
pub proof fn only_windows_separates_with_backslash(os: TargetOs)
    ensures
        separator_of(os) == "\\"@ <==> os == TargetOs::Windows,
        os != TargetOs::Windows ==> separator_of(os) == "/"@,
        separator_of(os).len() == 1,
{
    reveal_strlit("\\");
    reveal_strlit("/");
    assert("\\"@[0] != "/"@[0]);
}

/// Windows keeps the runtime next to the binary and macOS in its framework
/// bundle; every other system (iOS, Linux, Android) keeps it in the same
/// library directory, distinct from those two.
pub proof fn library_directory_by_system(os: TargetOs)
    ensures
        binding_location_of(os) == binding_location_of(TargetOs::Windows) <==> os == TargetOs::Windows,
        binding_location_of(os) == binding_location_of(TargetOs::MacOs) <==> os == TargetOs::MacOs,
        os != TargetOs::Windows && os != TargetOs::MacOs ==> binding_location_of(os) == "../lib/spacedrive"@,
{
    reveal_strlit(".");
    reveal_strlit("../Frameworks/Spacedrive.framework/Libraries");
    reveal_strlit("../lib/spacedrive");
    assert("."@.len() != "../lib/spacedrive"@.len());
    assert("."@.len() != "../Frameworks/Spacedrive.framework/Libraries"@.len());
    assert("../lib/spacedrive"@.len() != "../Frameworks/Spacedrive.framework/Libraries"@.len());
}

/// Apple systems load the same `.dylib`, Linux and Android the same `.so`,
/// Windows a `.dll`; the three file names differ.
pub proof fn library_name_by_system(os: TargetOs)
    ensures
        os == TargetOs::MacOs || os == TargetOs::Ios <==> lib_name_of(os) == "libonnxruntime.dylib"@,
        os == TargetOs::Linux || os == TargetOs::Android <==> lib_name_of(os) == "libonnxruntime.so"@,
        os == TargetOs::Windows <==> lib_name_of(os) == "onnxruntime.dll"@,
{
    reveal_strlit("libonnxruntime.dylib");
    reveal_strlit("libonnxruntime.so");
    reveal_strlit("onnxruntime.dll");
    assert("libonnxruntime.dylib"@.len() != "libonnxruntime.so"@.len());
    assert("libonnxruntime.dylib"@.len() != "onnxruntime.dll"@.len());
    assert("libonnxruntime.so"@[14] != "onnxruntime.dll"@[14]);
}

/// The relative path of the runtime starts with the system's library
/// directory, then has exactly one separator, then ends with the system's
/// library file name.
pub proof fn relative_path_is_directory_separator_name(os: TargetOs)
    ensures
        relative_library_path_of(os).len() == binding_location_of(os).len() + 1 + lib_name_of(os).len(),
        relative_library_path_of(os).subrange(0, binding_location_of(os).len() as int) == binding_location_of(os),
        relative_library_path_of(os).subrange(
            binding_location_of(os).len() as int,
            binding_location_of(os).len() + 1int,
        ) == separator_of(os),
        relative_library_path_of(os).subrange(
            binding_location_of(os).len() + 1int,
            relative_library_path_of(os).len() as int,
        ) == lib_name_of(os),
{
    only_windows_separates_with_backslash(os);
    let dir = binding_location_of(os);
    let sep = separator_of(os);
    let name = lib_name_of(os);
    let path = relative_library_path_of(os);
    assert(path.subrange(0, dir.len() as int) =~= dir);
    assert(path.subrange(dir.len() as int, dir.len() + 1int) =~= sep);
    assert(path.subrange(dir.len() + 1int, path.len() as int) =~= name);
}

/// Core ML is registered only on Apple systems and always first there,
/// DirectML only on Windows and alone, XNNPACK on Apple systems and Linux;
/// Android registers none, and no provider is registered twice.
pub proof fn execution_providers_by_system(os: TargetOs)
    ensures
        execution_providers_of(os).contains(ExecutionProvider::CoreMl) <==> os == TargetOs::MacOs
            || os == TargetOs::Ios,
        execution_providers_of(os).contains(ExecutionProvider::CoreMl) ==> execution_providers_of(
            os,
        )[0] == ExecutionProvider::CoreMl,
        execution_providers_of(os).contains(ExecutionProvider::DirectMl) <==> os == TargetOs::Windows,
        os == TargetOs::Windows ==> execution_providers_of(os).len() == 1,
        execution_providers_of(os).contains(ExecutionProvider::Xnnpack) <==> os == TargetOs::MacOs
            || os == TargetOs::Ios || os == TargetOs::Linux,
        os == TargetOs::Android <==> execution_providers_of(os).len() == 0,
        forall|i: int, j: int|
            0 <= i < j < execution_providers_of(os).len() ==> execution_providers_of(os)[i]
                != execution_providers_of(os)[j],
{
    let p = execution_providers_of(os);
    if os == TargetOs::MacOs || os == TargetOs::Ios {
        assert(p[0] == ExecutionProvider::CoreMl);
        assert(p[1] == ExecutionProvider::Xnnpack);
    } else if os == TargetOs::Windows {
        assert(p[0] == ExecutionProvider::DirectMl);
    } else if os == TargetOs::Linux {
        assert(p[0] == ExecutionProvider::Xnnpack);
    }
}

} // verus!
