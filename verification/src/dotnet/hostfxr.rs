//! Values of the hosting library's interface: status codes, delegate kinds,
//! entry symbols and optional initialization parameters.

use vstd::prelude::*;

verus! {

/// Status code: the operation succeeded.
pub const SUCCESS: i32 = 0;

/// Status code: initialization succeeded, the hosting components were already
/// initialized with a compatible configuration.
pub const SUCCESS_HOST_ALREADY_INITIALIZED: i32 = 1;

/// Status code: initialization succeeded, the configuration has runtime
/// properties that differ from the already initialized hosting components.
pub const SUCCESS_DIFFERENT_RUNTIME_PROPERTIES: i32 = 2;

/// Status code: the caller's buffer is too small for the result
/// (`0x80008098` as a signed 32-bit value).
pub const HOST_API_BUFFER_TOO_SMALL: i32 = -2147450728;

/// How the status code of a runtime-config initialization is classified.
#[derive(Clone, Copy, Debug, PartialEq, Eq, Structural)]
pub enum InitStatus {
    /// The hosting components were initialized.
    Success,
    /// Already initialized with a compatible configuration; counts as success.
    AlreadyInitialized,
    /// Already initialized with different runtime properties; counts as
    /// success, the difference is left to the consumer.
    DifferentProperties,
    /// Any other code: initialization failed with that code.
    Failed(i32),
}

impl InitStatus {
    /// Whether this class counts as a successful initialization.
    pub open spec fn spec_is_success(self) -> bool {
        !(self is Failed)
    }

    /// Whether this class counts as a successful initialization.
    #[verifier::when_used_as_spec(spec_is_success)]
    pub fn is_success(self) -> (ok: bool)
        ensures
            ok == self.spec_is_success(),
    {
        match self {
            InitStatus::Failed(_) => false,
            _ => true,
        }
    }
}

/// The classification table of initialization status codes.
pub open spec fn spec_classify_init_status(code: i32) -> InitStatus {
    if code == SUCCESS {
        InitStatus::Success
    } else if code == SUCCESS_HOST_ALREADY_INITIALIZED {
        InitStatus::AlreadyInitialized
    } else if code == SUCCESS_DIFFERENT_RUNTIME_PROPERTIES {
        InitStatus::DifferentProperties
    } else {
        InitStatus::Failed(code)
    }
}

/// Classifies the status code returned by a runtime-config initialization.
#[verifier::when_used_as_spec(spec_classify_init_status)]
pub fn classify_init_status(code: i32) -> (class: InitStatus)
    ensures
        class == spec_classify_init_status(code),
        class.spec_is_success() <==> 0 <= code <= 2,
        class is Failed ==> class->Failed_0 == code,
{
    if code == SUCCESS {
        InitStatus::Success
    } else if code == SUCCESS_HOST_ALREADY_INITIALIZED {
        InitStatus::AlreadyInitialized
    } else if code == SUCCESS_DIFFERENT_RUNTIME_PROPERTIES {
        InitStatus::DifferentProperties
    } else {
        InitStatus::Failed(code)
    }
}

/// The kinds of runtime delegate that a host context can be asked for.
#[derive(Clone, Copy, Debug, PartialEq, Eq, Structural)]
pub enum HostfxrDelegate {
    ComActivation,
    LoadInMemoryAssembly,
    WinrtActivation,
    ComRegistar,
    ComUnregister,
    LoadAssemblyAndGetFunctionPointer,
    GetFunctionPointer,
    LoadAssembly,
    LoadAssemblyBytes,
}

impl HostfxrDelegate {
    /// The number that the hosting library knows this kind by.
    pub open spec fn spec_code(self) -> i32 {
        match self {
            HostfxrDelegate::ComActivation => 0,
            HostfxrDelegate::LoadInMemoryAssembly => 1,
            HostfxrDelegate::WinrtActivation => 2,
            HostfxrDelegate::ComRegistar => 3,
            HostfxrDelegate::ComUnregister => 4,
            HostfxrDelegate::LoadAssemblyAndGetFunctionPointer => 5,
            HostfxrDelegate::GetFunctionPointer => 6,
            HostfxrDelegate::LoadAssembly => 7,
            HostfxrDelegate::LoadAssemblyBytes => 8,
        }
    }

    /// The number that the hosting library knows this kind by.
    #[verifier::when_used_as_spec(spec_code)]
    pub fn code(self) -> (code: i32)
        ensures
            code == self.spec_code(),
            0 <= code <= 8,
    {
        match self {
            HostfxrDelegate::ComActivation => 0,
            HostfxrDelegate::LoadInMemoryAssembly => 1,
            HostfxrDelegate::WinrtActivation => 2,
            HostfxrDelegate::ComRegistar => 3,
            HostfxrDelegate::ComUnregister => 4,
            HostfxrDelegate::LoadAssemblyAndGetFunctionPointer => 5,
            HostfxrDelegate::GetFunctionPointer => 6,
            HostfxrDelegate::LoadAssembly => 7,
            HostfxrDelegate::LoadAssemblyBytes => 8,
        }
    }

    /// The kind with the given number, if there is one.
    pub fn from_code(code: i32) -> (kind: Option<HostfxrDelegate>)
        ensures
            kind is Some <==> 0 <= code <= 8,
            kind is Some ==> kind->Some_0.spec_code() == code,
    {
        match code {
            0 => Some(HostfxrDelegate::ComActivation),
            1 => Some(HostfxrDelegate::LoadInMemoryAssembly),
            2 => Some(HostfxrDelegate::WinrtActivation),
            3 => Some(HostfxrDelegate::ComRegistar),
            4 => Some(HostfxrDelegate::ComUnregister),
            5 => Some(HostfxrDelegate::LoadAssemblyAndGetFunctionPointer),
            6 => Some(HostfxrDelegate::GetFunctionPointer),
            7 => Some(HostfxrDelegate::LoadAssembly),
            8 => Some(HostfxrDelegate::LoadAssemblyBytes),
            _ => None,
        }
    }
}

/// Numbering the delegate kinds loses nothing: two kinds with the same number
/// are the same kind.
pub proof fn lemma_delegate_code_injective(a: HostfxrDelegate, b: HostfxrDelegate)
    requires
        a.spec_code() == b.spec_code(),
    ensures
        a == b,
{
}

/// The entry symbols that the hosting library must export.
#[derive(Clone, Copy, Debug, PartialEq, Eq, Structural)]
pub enum HostSymbol {
    InitializeForDotnetCommandLine,
    InitializeForRuntimeConfig,
    GetRuntimeDelegate,
    RunApp,
    Close,
}

/// How many entry symbols a context resolves.
pub const HOST_SYMBOL_COUNT: usize = 5;

impl HostSymbol {
    /// The exact name that the hosting library exports the symbol under.
    pub open spec fn spec_name(self) -> Seq<char> {
        match self {
            HostSymbol::InitializeForDotnetCommandLine => "hostfxr_initialize_for_dotnet_command_line"@,
            HostSymbol::InitializeForRuntimeConfig => "hostfxr_initialize_for_runtime_config"@,
            HostSymbol::GetRuntimeDelegate => "hostfxr_get_runtime_delegate"@,
            HostSymbol::RunApp => "hostfxr_run_app"@,
            HostSymbol::Close => "hostfxr_close"@,
        }
    }

    /// The exact name that the hosting library exports the symbol under.
    pub fn name(self) -> (name: &'static str)
        ensures
            name@ == self.spec_name(),
    {
        match self {
            HostSymbol::InitializeForDotnetCommandLine => "hostfxr_initialize_for_dotnet_command_line",
            HostSymbol::InitializeForRuntimeConfig => "hostfxr_initialize_for_runtime_config",
            HostSymbol::GetRuntimeDelegate => "hostfxr_get_runtime_delegate",
            HostSymbol::RunApp => "hostfxr_run_app",
            HostSymbol::Close => "hostfxr_close",
        }
    }

    /// The place of the symbol in the order of resolution.
    pub open spec fn spec_index(self) -> int {
        match self {
            HostSymbol::InitializeForDotnetCommandLine => 0,
            HostSymbol::InitializeForRuntimeConfig => 1,
            HostSymbol::GetRuntimeDelegate => 2,
            HostSymbol::RunApp => 3,
            HostSymbol::Close => 4,
        }
    }

    /// The place of the symbol in the order of resolution.
    pub fn index(self) -> (index: usize)
        ensures
            index == self.spec_index(),
            index < HOST_SYMBOL_COUNT,
    {
        match self {
            HostSymbol::InitializeForDotnetCommandLine => 0,
            HostSymbol::InitializeForRuntimeConfig => 1,
            HostSymbol::GetRuntimeDelegate => 2,
            HostSymbol::RunApp => 3,
            HostSymbol::Close => 4,
        }
    }

    /// The symbol at a place in the order of resolution.
    pub open spec fn spec_at(index: int) -> HostSymbol {
        if index == 0 {
            HostSymbol::InitializeForDotnetCommandLine
        } else if index == 1 {
            HostSymbol::InitializeForRuntimeConfig
        } else if index == 2 {
            HostSymbol::GetRuntimeDelegate
        } else if index == 3 {
            HostSymbol::RunApp
        } else {
            HostSymbol::Close
        }
    }

    /// The symbol at a place in the order of resolution.
    pub fn at(index: usize) -> (symbol: HostSymbol)
        requires
            index < HOST_SYMBOL_COUNT,
        ensures
            symbol == HostSymbol::spec_at(index as int),
            symbol.spec_index() == index,
    {
        if index == 0 {
            HostSymbol::InitializeForDotnetCommandLine
        } else if index == 1 {
            HostSymbol::InitializeForRuntimeConfig
        } else if index == 2 {
            HostSymbol::GetRuntimeDelegate
        } else if index == 3 {
            HostSymbol::RunApp
        } else {
            HostSymbol::Close
        }
    }
}

} // verus!
