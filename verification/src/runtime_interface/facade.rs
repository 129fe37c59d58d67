//! The fixed functions that a hosted application exposes, by name.

use crate::dotnet::function_ptr::{CallingConvention, InvocationShape};
use vstd::prelude::*;

verus! {

/// The functions of the facade symbol contract.
#[derive(Clone, Copy, Debug, PartialEq, Eq, Structural)]
pub enum FacadeMember {
    IdentifyEntrypoint,
    FreeHstr,
    Initialize,
    Shutdown,
    Update,
    Draw,
    GetConfig,
    BindRenderServer,
    UnbindRenderServer,
}

impl FacadeMember {
    /// The name of the method that implements the member.
    pub open spec fn spec_method_name(self) -> Seq<char> {
        match self {
            FacadeMember::IdentifyEntrypoint => "IdentifyEntrypoint"@,
            FacadeMember::FreeHstr => "FreeHstr"@,
            FacadeMember::Initialize => "Initialize"@,
            FacadeMember::Shutdown => "Shutdown"@,
            FacadeMember::Update => "Update"@,
            FacadeMember::Draw => "Draw"@,
            FacadeMember::GetConfig => "SetupAndGetConfig"@,
            FacadeMember::BindRenderServer => "BindRenderServer"@,
            FacadeMember::UnbindRenderServer => "UnbindRenderServer"@,
        }
    }

    /// The name of the method that implements the member.
    pub fn method_name(self) -> (name: &'static str)
        ensures
            name@ == self.spec_method_name(),
    {
        match self {
            FacadeMember::IdentifyEntrypoint => "IdentifyEntrypoint",
            FacadeMember::FreeHstr => "FreeHstr",
            FacadeMember::Initialize => "Initialize",
            FacadeMember::Shutdown => "Shutdown",
            FacadeMember::Update => "Update",
            FacadeMember::Draw => "Draw",
            FacadeMember::GetConfig => "SetupAndGetConfig",
            FacadeMember::BindRenderServer => "BindRenderServer",
            FacadeMember::UnbindRenderServer => "UnbindRenderServer",
        }
    }

    /// The qualified name of the delegate type that the member is resolved
    /// as.
    pub open spec fn spec_delegate_type_name(self) -> Seq<char> {
        match self {
            FacadeMember::IdentifyEntrypoint => "NTF.FindEntrypointFn, NT"@,
            FacadeMember::FreeHstr => "NTF.FreeHstrFn, NT"@,
            FacadeMember::Initialize => "NTF.InitializeFn, NT"@,
            FacadeMember::Shutdown => "NTF.ShutdownFn, NT"@,
            FacadeMember::Update => "NTF.UpdateFn, NT"@,
            FacadeMember::Draw => "NTF.DrawFn, NT"@,
            FacadeMember::GetConfig => "NTF.GetConfigFn, NT"@,
            FacadeMember::BindRenderServer => "NTF.BindRenderServerFn, NT"@,
            FacadeMember::UnbindRenderServer => "NTF.UnbindRenderServerFn, NT"@,
        }
    }

    /// The qualified name of the delegate type that the member is resolved
    /// as.
    pub fn delegate_type_name(self) -> (name: &'static str)
        ensures
            name@ == self.spec_delegate_type_name(),
    {
        match self {
            FacadeMember::IdentifyEntrypoint => "NTF.FindEntrypointFn, NT",
            FacadeMember::FreeHstr => "NTF.FreeHstrFn, NT",
            FacadeMember::Initialize => "NTF.InitializeFn, NT",
            FacadeMember::Shutdown => "NTF.ShutdownFn, NT",
            FacadeMember::Update => "NTF.UpdateFn, NT",
            FacadeMember::Draw => "NTF.DrawFn, NT",
            FacadeMember::GetConfig => "NTF.GetConfigFn, NT",
            FacadeMember::BindRenderServer => "NTF.BindRenderServerFn, NT",
            FacadeMember::UnbindRenderServer => "NTF.UnbindRenderServerFn, NT",
        }
    }

    /// How many arguments the member takes: the delta time of an update, the
    /// string to free, the server to bind; the others take none.
    pub open spec fn spec_arity(self) -> u8 {
        match self {
            FacadeMember::FreeHstr => 1,
            FacadeMember::Update => 1,
            FacadeMember::BindRenderServer => 1,
            _ => 0,
        }
    }

    /// The shape under which the hosted runtime implements the member.
    pub open spec fn spec_shape(self) -> InvocationShape {
        InvocationShape { arity: self.spec_arity(), convention: CallingConvention::System }
    }

    /// The shape under which the hosted runtime implements the member.
    #[verifier::when_used_as_spec(spec_shape)]
    pub fn shape(self) -> (shape: InvocationShape)
        ensures
            shape == self.spec_shape(),
            shape.spec_is_supported(),
    {
        let arity: u8 = match self {
            FacadeMember::FreeHstr => 1,
            FacadeMember::Update => 1,
            FacadeMember::BindRenderServer => 1,
            _ => 0,
        };
        InvocationShape { arity, convention: CallingConvention::System }
    }
}

} // verus!
