//! The failures of the bridge.

use crate::dotnet::hostfxr::{HostSymbol, HostfxrDelegate};
use crate::runtime_interface::facade::FacadeMember;
use vstd::prelude::*;

verus! {

/// Why an operation of the bridge failed.
#[derive(Debug, PartialEq, Eq)]
pub enum HostError {
    /// The host location protocol reported the given non-zero status.
    HostLocationFailed(i32),
    /// The hosting library could not be loaded; the system's message.
    LibraryLoadFailed(String),
    /// The hosting library does not export the given entry symbol.
    SymbolResolutionFailed(HostSymbol),
    /// The runtime-config initializer returned the given failure code.
    HostInitializationFailed(i32),
    /// Another context is being initialized in this process.
    HostAlreadyInitializing,
    /// The session refused to hand out the delegate of the given kind.
    DelegateResolutionFailed(HostfxrDelegate),
    /// The assembly at the given path could not be loaded.
    AssemblyLoadFailed(String),
    /// The runtime has no function by the given names.
    FunctionNotFound { class_name: String, method_name: String, delegate_type_name: String },
    /// The hosted application publishes no entry type.
    EntrypointNotFound,
    /// The given member of the facade could not be resolved.
    FacadeBindingFailed(FacadeMember),
}

/// A failure as a plain value: texts as sequences of characters.
pub enum HostFailure {
    HostLocationFailed(i32),
    LibraryLoadFailed(Seq<char>),
    SymbolResolutionFailed(HostSymbol),
    HostInitializationFailed(i32),
    HostAlreadyInitializing,
    DelegateResolutionFailed(HostfxrDelegate),
    AssemblyLoadFailed(Seq<char>),
    FunctionNotFound { class_name: Seq<char>, method_name: Seq<char>, delegate_type_name: Seq<char> },
    EntrypointNotFound,
    FacadeBindingFailed(FacadeMember),
}

impl View for HostError {
    type V = HostFailure;

    open spec fn view(&self) -> HostFailure {
        match self {
            HostError::HostLocationFailed(code) => HostFailure::HostLocationFailed(*code),
            HostError::LibraryLoadFailed(message) => HostFailure::LibraryLoadFailed(message@),
            HostError::SymbolResolutionFailed(symbol) => HostFailure::SymbolResolutionFailed(
                *symbol,
            ),
            HostError::HostInitializationFailed(code) => HostFailure::HostInitializationFailed(
                *code,
            ),
            HostError::HostAlreadyInitializing => HostFailure::HostAlreadyInitializing,
            HostError::DelegateResolutionFailed(kind) => HostFailure::DelegateResolutionFailed(
                *kind,
            ),
            HostError::AssemblyLoadFailed(path) => HostFailure::AssemblyLoadFailed(path@),
            HostError::FunctionNotFound { class_name, method_name, delegate_type_name } =>
                HostFailure::FunctionNotFound {
                class_name: class_name@,
                method_name: method_name@,
                delegate_type_name: delegate_type_name@,
            },
            HostError::EntrypointNotFound => HostFailure::EntrypointNotFound,
            HostError::FacadeBindingFailed(member) => HostFailure::FacadeBindingFailed(*member),
        }
    }
}

} // verus!
