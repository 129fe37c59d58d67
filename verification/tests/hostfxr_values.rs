use newtoast_core::dotnet::function_ptr::{
    CallingConvention, DotnetFunctionPtr, InvocationError, InvocationShape, MAX_ARITY,
};
use newtoast_core::dotnet::hostfxr::{
    classify_init_status, HostSymbol, HostfxrDelegate, InitStatus, HOST_API_BUFFER_TOO_SMALL,
    HOST_SYMBOL_COUNT, SUCCESS, SUCCESS_DIFFERENT_RUNTIME_PROPERTIES,
    SUCCESS_HOST_ALREADY_INITIALIZED,
};
use newtoast_core::runtime_interface::facade::FacadeMember;

#[test]
fn status_constants_have_the_documented_values() {
    assert_eq!(SUCCESS, 0);
    assert_eq!(SUCCESS_HOST_ALREADY_INITIALIZED, 1);
    assert_eq!(SUCCESS_DIFFERENT_RUNTIME_PROPERTIES, 2);
    assert_eq!(HOST_API_BUFFER_TOO_SMALL as u32, 0x8000_8098);
}

#[test]
fn classify_init_status_counts_three_codes_as_success() {
    assert_eq!(classify_init_status(0), InitStatus::Success);
    assert_eq!(classify_init_status(1), InitStatus::AlreadyInitialized);
    assert_eq!(classify_init_status(2), InitStatus::DifferentProperties);
    assert!(classify_init_status(0).is_success());
    assert!(classify_init_status(1).is_success());
    assert!(classify_init_status(2).is_success());
}

#[test]
fn classify_init_status_fails_every_other_code_with_the_code() {
    for code in [3, -1, i32::MIN, i32::MAX, HOST_API_BUFFER_TOO_SMALL, -2147450751] {
        assert_eq!(classify_init_status(code), InitStatus::Failed(code));
        assert!(!classify_init_status(code).is_success());
    }
}

#[test]
fn delegate_kinds_are_numbered_in_their_order() {
    assert_eq!(HostfxrDelegate::ComActivation.code(), 0);
    assert_eq!(HostfxrDelegate::LoadInMemoryAssembly.code(), 1);
    assert_eq!(HostfxrDelegate::WinrtActivation.code(), 2);
    assert_eq!(HostfxrDelegate::ComRegistar.code(), 3);
    assert_eq!(HostfxrDelegate::ComUnregister.code(), 4);
    assert_eq!(HostfxrDelegate::LoadAssemblyAndGetFunctionPointer.code(), 5);
    assert_eq!(HostfxrDelegate::GetFunctionPointer.code(), 6);
    assert_eq!(HostfxrDelegate::LoadAssembly.code(), 7);
    assert_eq!(HostfxrDelegate::LoadAssemblyBytes.code(), 8);
}

#[test]
fn delegate_from_code_inverts_code() {
    for code in 0..=8 {
        let kind = HostfxrDelegate::from_code(code).unwrap();
        assert_eq!(kind.code(), code);
    }
    assert_eq!(HostfxrDelegate::from_code(9), None);
    assert_eq!(HostfxrDelegate::from_code(-1), None);
}

#[test]
fn host_symbols_have_their_exact_names() {
    assert_eq!(
        HostSymbol::InitializeForDotnetCommandLine.name(),
        "hostfxr_initialize_for_dotnet_command_line"
    );
    assert_eq!(
        HostSymbol::InitializeForRuntimeConfig.name(),
        "hostfxr_initialize_for_runtime_config"
    );
    assert_eq!(HostSymbol::GetRuntimeDelegate.name(), "hostfxr_get_runtime_delegate");
    assert_eq!(HostSymbol::RunApp.name(), "hostfxr_run_app");
    assert_eq!(HostSymbol::Close.name(), "hostfxr_close");
}

#[test]
fn host_symbol_at_inverts_index() {
    for index in 0..HOST_SYMBOL_COUNT {
        assert_eq!(HostSymbol::at(index).index(), index);
    }
    assert_eq!(HostSymbol::at(0), HostSymbol::InitializeForDotnetCommandLine);
    assert_eq!(HostSymbol::at(4), HostSymbol::Close);
}

#[test]
fn facade_members_have_their_names() {
    assert_eq!(FacadeMember::IdentifyEntrypoint.method_name(), "IdentifyEntrypoint");
    assert_eq!(FacadeMember::IdentifyEntrypoint.delegate_type_name(), "NTF.FindEntrypointFn, NT");
    assert_eq!(FacadeMember::FreeHstr.method_name(), "FreeHstr");
    assert_eq!(FacadeMember::FreeHstr.delegate_type_name(), "NTF.FreeHstrFn, NT");
    assert_eq!(FacadeMember::Initialize.method_name(), "Initialize");
    assert_eq!(FacadeMember::Initialize.delegate_type_name(), "NTF.InitializeFn, NT");
    assert_eq!(FacadeMember::Shutdown.method_name(), "Shutdown");
    assert_eq!(FacadeMember::Shutdown.delegate_type_name(), "NTF.ShutdownFn, NT");
    assert_eq!(FacadeMember::Update.method_name(), "Update");
    assert_eq!(FacadeMember::Update.delegate_type_name(), "NTF.UpdateFn, NT");
    assert_eq!(FacadeMember::Draw.method_name(), "Draw");
    assert_eq!(FacadeMember::Draw.delegate_type_name(), "NTF.DrawFn, NT");
    assert_eq!(FacadeMember::GetConfig.method_name(), "SetupAndGetConfig");
    assert_eq!(FacadeMember::GetConfig.delegate_type_name(), "NTF.GetConfigFn, NT");
    assert_eq!(FacadeMember::BindRenderServer.method_name(), "BindRenderServer");
    assert_eq!(
        FacadeMember::BindRenderServer.delegate_type_name(),
        "NTF.BindRenderServerFn, NT"
    );
    assert_eq!(FacadeMember::UnbindRenderServer.method_name(), "UnbindRenderServer");
    assert_eq!(
        FacadeMember::UnbindRenderServer.delegate_type_name(),
        "NTF.UnbindRenderServerFn, NT"
    );
}

#[test]
fn facade_members_have_the_shapes_of_the_symbol_contract() {
    let one = [FacadeMember::FreeHstr, FacadeMember::Update, FacadeMember::BindRenderServer];
    let none = [
        FacadeMember::IdentifyEntrypoint,
        FacadeMember::Initialize,
        FacadeMember::Shutdown,
        FacadeMember::Draw,
        FacadeMember::GetConfig,
        FacadeMember::UnbindRenderServer,
    ];
    for member in one {
        assert_eq!(
            member.shape(),
            InvocationShape { arity: 1, convention: CallingConvention::System }
        );
    }
    for member in none {
        assert_eq!(
            member.shape(),
            InvocationShape { arity: 0, convention: CallingConvention::System }
        );
    }
}

#[test]
fn shapes_are_supported_up_to_twelve_arguments() {
    assert_eq!(MAX_ARITY, 12);
    for arity in 0..=12u8 {
        for convention in [CallingConvention::Native, CallingConvention::System] {
            let shape = InvocationShape::new(arity, convention).unwrap();
            assert_eq!(shape, InvocationShape { arity, convention });
            assert!(shape.is_supported());
        }
    }
    assert_eq!(InvocationShape::new(13, CallingConvention::System), None);
    assert!(!InvocationShape { arity: 13, convention: CallingConvention::Native }.is_supported());
}

#[test]
fn managed_shape_keeps_the_arity_under_the_runtime_convention() {
    let shape = InvocationShape { arity: 5, convention: CallingConvention::Native };
    assert_eq!(
        shape.managed(),
        InvocationShape { arity: 5, convention: CallingConvention::System }
    );
    assert_eq!(shape.managed().managed(), shape.managed());
}

#[test]
fn reify_serves_every_arity_under_both_conventions() {
    for arity in 0..=12u8 {
        let recorded = InvocationShape { arity, convention: CallingConvention::System };
        let ptr = DotnetFunctionPtr::with_shape(0x4000 + arity as usize, recorded);
        for convention in [CallingConvention::Native, CallingConvention::System] {
            let requested = InvocationShape { arity, convention };
            assert_eq!(ptr.reify(requested), Ok(0x4000 + arity as usize));
        }
    }
}

#[test]
fn reify_refuses_another_arity() {
    let recorded = InvocationShape { arity: 1, convention: CallingConvention::System };
    let requested = InvocationShape { arity: 2, convention: CallingConvention::System };
    let ptr = DotnetFunctionPtr::with_shape(0x4000, recorded);
    assert_eq!(
        ptr.reify(requested),
        Err(InvocationError::ShapeMismatch { recorded, requested })
    );
}

#[test]
fn reify_refuses_the_null_reference_first() {
    let shape = InvocationShape { arity: 0, convention: CallingConvention::System };
    assert_eq!(DotnetFunctionPtr::null().reify(shape), Err(InvocationError::NullReference));
    assert!(DotnetFunctionPtr::null().is_null());
    let too_many = InvocationShape { arity: 200, convention: CallingConvention::System };
    assert_eq!(DotnetFunctionPtr::new(0).reify(too_many), Err(InvocationError::NullReference));
}

#[test]
fn reify_refuses_an_unsupported_arity() {
    let too_many = InvocationShape { arity: 13, convention: CallingConvention::Native };
    assert_eq!(
        DotnetFunctionPtr::new(0x10).reify(too_many),
        Err(InvocationError::UnsupportedArity(13))
    );
}

#[test]
fn reify_of_an_untyped_reference_takes_any_supported_shape() {
    let ptr = DotnetFunctionPtr::new(0x77);
    assert!(!ptr.is_null());
    assert_eq!(ptr.shape, None);
    for arity in 0..=12u8 {
        let shape = InvocationShape { arity, convention: CallingConvention::Native };
        assert_eq!(ptr.reify(shape), Ok(0x77));
    }
}
