use newtoast_core::dotnet::function_ptr::{DotnetFunctionPtr, InvocationShape};
use newtoast_core::error::HostError;
use newtoast_core::runtime_interface::config::{InitConfig, RawInitConfig};
use newtoast_core::runtime_interface::entrypoint::{
    qualified_class_name, EntrypointResolver, EntrypointSpecifier, FacadeKind, FunctionRequest,
    ResolverPhase, ResolverReply, ResolverRequest, ResolverStep, RuntimeEntrypoints,
    RuntimeInterface,
};
use newtoast_core::runtime_interface::facade::FacadeMember;
use newtoast_core::util::wide::HostString;

const MODULE_AT: usize = 0xA000;
const CLASS_AT: usize = 0xB000;

fn wide(text: &str) -> Vec<u16> {
    text.encode_utf16().collect()
}

fn specifier(is_set: bool) -> EntrypointSpecifier {
    EntrypointSpecifier {
        asm_name: HostString { address: MODULE_AT, units: wide("Game") },
        class_name: HostString { address: CLASS_AT, units: wide("Game.Main") },
        is_set,
    }
}

/// A hosted runtime behind an instrumented stub: it records what was asked
/// of it and how often each string was freed.
struct Stub {
    is_set: bool,
    module_at: usize,
    class_at: usize,
    missing: Option<FacadeMember>,
    resolved: Vec<(String, FacadeMember)>,
    identified: usize,
    freed: Vec<usize>,
}

fn stub(is_set: bool, missing: Option<FacadeMember>) -> Stub {
    Stub {
        is_set,
        module_at: MODULE_AT,
        class_at: CLASS_AT,
        missing,
        resolved: Vec::new(),
        identified: 0,
        freed: Vec::new(),
    }
}

/// A stub whose specifier is set and carries its names at the given
/// addresses; zero is the null pointer.
fn stub_naming(module_at: usize, class_at: usize) -> Stub {
    Stub { module_at, class_at, ..stub(true, None) }
}

fn specifier_of(stub: &Stub) -> EntrypointSpecifier {
    let name = |address: usize, text: &str| {
        if address == 0 {
            HostString::null()
        } else {
            HostString { address, units: wide(text) }
        }
    };
    EntrypointSpecifier {
        asm_name: name(stub.module_at, "Game"),
        class_name: name(stub.class_at, "Game.Main"),
        is_set: stub.is_set,
    }
}

fn address_of(member: FacadeMember) -> usize {
    0x7000 + 0x8 * (member.method_name().len() + member.delegate_type_name().len())
}

fn perform(stub: &mut Stub, request: ResolverRequest) -> ResolverReply {
    match request {
        ResolverRequest::ResolveFunction(FunctionRequest { class_name, member }) => {
            stub.resolved.push((class_name, member));
            if stub.missing == Some(member) {
                ResolverReply::Function(DotnetFunctionPtr::null())
            } else {
                ResolverReply::Function(DotnetFunctionPtr::new(address_of(member)))
            }
        }
        ResolverRequest::Identify(ptr) => {
            assert_eq!(ptr.address, address_of(FacadeMember::IdentifyEntrypoint));
            stub.identified += 1;
            ResolverReply::Specifier(specifier_of(stub))
        }
        ResolverRequest::FreeString { free, address } => {
            assert_eq!(free.address, address_of(FacadeMember::FreeHstr));
            assert_ne!(address, 0);
            stub.freed.push(address);
            ResolverReply::Freed
        }
    }
}

fn drive(
    started: (EntrypointResolver, ResolverRequest),
    stub: &mut Stub,
) -> (EntrypointResolver, Result<(), HostError>) {
    let (mut resolver, mut request) = started;
    loop {
        let reply = perform(stub, request);
        assert!(resolver.expects(&reply));
        match resolver.advance(reply) {
            ResolverStep::Request(next) => request = next,
            ResolverStep::Bound => return (resolver, Ok(())),
            ResolverStep::Failed(error) => return (resolver, Err(error)),
        }
    }
}

#[test]
fn qualified_class_name_puts_the_class_before_the_module() {
    assert_eq!(qualified_class_name("Game.Main", "Game"), "Game.Main, Game");
    assert_eq!(qualified_class_name("", ""), ", ");
}

#[test]
fn to_strings_gives_module_then_class() {
    let (module, class_name) = specifier(true).to_strings().unwrap();
    assert_eq!(module, "Game");
    assert_eq!(class_name, "Game.Main");
    assert!(specifier(false).to_strings().is_some());
}

#[test]
fn to_strings_gives_nothing_where_a_name_is_null() {
    let mut no_class = specifier(true);
    no_class.class_name = HostString::null();
    assert_eq!(no_class.to_strings(), None);
    let mut no_module = specifier(true);
    no_module.asm_name = HostString::null();
    assert_eq!(no_module.to_strings(), None);
    let mut neither = specifier(true);
    neither.asm_name = HostString::null();
    neither.class_name = HostString::null();
    assert_eq!(neither.to_strings(), None);
}

#[test]
fn a_specifier_without_a_class_has_its_module_released_once_and_fails() {
    for started in [
        RuntimeInterface::find_entrypoint_and_build(),
        RuntimeEntrypoints::find_entrypoint_and_build(),
    ] {
        let mut host = stub_naming(MODULE_AT, 0);
        let (resolver, outcome) = drive(started, &mut host);
        assert_eq!(outcome, Err(HostError::EntrypointNotFound));
        assert_eq!(resolver.phase(), ResolverPhase::Failed);
        assert_eq!(host.freed, vec![MODULE_AT]);
        assert_eq!(host.resolved.len(), 2);
    }
}

#[test]
fn a_specifier_without_a_module_has_its_class_released_once_and_fails() {
    for started in [
        RuntimeInterface::find_entrypoint_and_build(),
        RuntimeEntrypoints::find_entrypoint_and_build(),
    ] {
        let mut host = stub_naming(0, CLASS_AT);
        let (resolver, outcome) = drive(started, &mut host);
        assert_eq!(outcome, Err(HostError::EntrypointNotFound));
        assert_eq!(resolver.phase(), ResolverPhase::Failed);
        assert_eq!(host.freed, vec![CLASS_AT]);
    }
}

#[test]
fn a_set_specifier_without_names_fails_and_frees_nothing() {
    let mut host = stub_naming(0, 0);
    let (resolver, outcome) = drive(RuntimeEntrypoints::find_entrypoint_and_build(), &mut host);
    assert_eq!(outcome, Err(HostError::EntrypointNotFound));
    assert_eq!(resolver.phase(), ResolverPhase::Failed);
    assert_eq!(host.freed.len(), 0);
}

#[test]
fn the_release_of_a_lone_name_is_awaited_before_the_failure() {
    let (mut resolver, _) = RuntimeEntrypoints::find_entrypoint_and_build();
    let _ = resolver.advance(ResolverReply::Function(DotnetFunctionPtr::new(0x10)));
    let _ = resolver.advance(ResolverReply::Function(DotnetFunctionPtr::new(0x20)));
    let mut no_class = specifier(true);
    no_class.class_name = HostString::null();
    assert!(resolver.expects(&ResolverReply::Specifier(no_class)));
    let mut no_class = specifier(true);
    no_class.class_name = HostString::null();
    let step = resolver.advance(ResolverReply::Specifier(no_class));
    assert_eq!(
        step,
        ResolverStep::Request(ResolverRequest::FreeString {
            free: DotnetFunctionPtr::with_shape(0x20, FacadeMember::FreeHstr.shape()),
            address: MODULE_AT,
        })
    );
    assert_eq!(resolver.phase(), ResolverPhase::ReleasingLoneName);
    assert!(resolver.expects(&ResolverReply::Freed));
    assert!(!resolver.expects(&ResolverReply::Function(DotnetFunctionPtr::new(1))));
    assert_eq!(
        resolver.advance(ResolverReply::Freed),
        ResolverStep::Failed(HostError::EntrypointNotFound)
    );
    assert!(!resolver.expects(&ResolverReply::Freed));
}

#[test]
fn discovery_starts_with_the_identifying_function() {
    let (resolver, request) = RuntimeInterface::find_entrypoint_and_build();
    assert_eq!(resolver.kind(), FacadeKind::Interface);
    assert_eq!(resolver.phase(), ResolverPhase::ResolvingIdentify);
    assert_eq!(
        request,
        ResolverRequest::ResolveFunction(FunctionRequest {
            class_name: "NTF.NTEntryPoint, NT".to_string(),
            member: FacadeMember::IdentifyEntrypoint,
        })
    );
}

#[test]
fn unset_specifier_is_entrypoint_not_found_with_no_free() {
    let mut host = stub(false, None);
    let (resolver, outcome) = drive(RuntimeInterface::find_entrypoint_and_build(), &mut host);
    assert_eq!(outcome, Err(HostError::EntrypointNotFound));
    assert_eq!(resolver.phase(), ResolverPhase::Failed);
    assert_eq!(host.freed.len(), 0);
    assert_eq!(host.identified, 1);
    assert_eq!(resolver.runtime_interface(), None);
}

#[test]
fn unset_specifier_fails_the_whole_facade_with_no_free() {
    let mut host = stub(false, None);
    let (resolver, outcome) = drive(RuntimeEntrypoints::find_entrypoint_and_build(), &mut host);
    assert_eq!(outcome, Err(HostError::EntrypointNotFound));
    assert_eq!(resolver.phase(), ResolverPhase::Failed);
    assert_eq!(host.freed.len(), 0);
    assert_eq!(host.identified, 1);
    assert_eq!(
        host.resolved,
        vec![
            ("NTF.NTEntryPoint, NT".to_string(), FacadeMember::IdentifyEntrypoint),
            ("NTF.NTEntryPoint, NT".to_string(), FacadeMember::FreeHstr),
        ]
    );
    assert_eq!(resolver.runtime_entrypoints(), None);
}

#[test]
fn the_whole_facade_starts_with_the_identifying_function() {
    let (resolver, request) = RuntimeEntrypoints::find_entrypoint_and_build();
    assert_eq!(resolver.kind(), FacadeKind::Entrypoints);
    assert_eq!(resolver.phase(), ResolverPhase::ResolvingIdentify);
    assert_eq!(
        request,
        ResolverRequest::ResolveFunction(FunctionRequest {
            class_name: "NTF.NTEntryPoint, NT".to_string(),
            member: FacadeMember::IdentifyEntrypoint,
        })
    );
}

#[test]
fn set_specifier_frees_each_string_exactly_once() {
    let mut host = stub(true, None);
    let (_, outcome) = drive(RuntimeInterface::find_entrypoint_and_build(), &mut host);
    assert_eq!(outcome, Ok(()));
    assert_eq!(host.freed, vec![MODULE_AT, CLASS_AT]);
    assert_eq!(host.identified, 1);
}

#[test]
fn strings_are_freed_once_even_when_binding_fails() {
    for missing in [
        FacadeMember::Initialize,
        FacadeMember::Shutdown,
        FacadeMember::Update,
        FacadeMember::Draw,
    ] {
        let mut host = stub(true, Some(missing));
        let (resolver, outcome) = drive(RuntimeInterface::find_entrypoint_and_build(), &mut host);
        assert_eq!(outcome, Err(HostError::FacadeBindingFailed(missing)));
        assert_eq!(resolver.phase(), ResolverPhase::Failed);
        assert_eq!(host.freed, vec![MODULE_AT, CLASS_AT]);
        assert_eq!(resolver.runtime_interface(), None);
    }
}

#[test]
fn discovery_resolves_the_members_on_the_published_class() {
    let mut host = stub(true, None);
    let (resolver, outcome) = drive(RuntimeInterface::find_entrypoint_and_build(), &mut host);
    assert_eq!(outcome, Ok(()));
    assert_eq!(resolver.phase(), ResolverPhase::Bound);
    let entry = "NTF.NTEntryPoint, NT".to_string();
    let class_name = "Game.Main, Game".to_string();
    assert_eq!(
        host.resolved,
        vec![
            (entry.clone(), FacadeMember::IdentifyEntrypoint),
            (entry, FacadeMember::FreeHstr),
            (class_name.clone(), FacadeMember::Initialize),
            (class_name.clone(), FacadeMember::Shutdown),
            (class_name.clone(), FacadeMember::Update),
            (class_name, FacadeMember::Draw),
        ]
    );
}

#[test]
fn the_interface_holds_each_member_with_its_shape() {
    let mut host = stub(true, None);
    let (resolver, _) = drive(RuntimeInterface::find_entrypoint_and_build(), &mut host);
    let facade = resolver.runtime_interface().unwrap();
    for member in [
        FacadeMember::Initialize,
        FacadeMember::Shutdown,
        FacadeMember::Update,
        FacadeMember::Draw,
    ] {
        assert_eq!(
            facade.reference(member),
            Some(DotnetFunctionPtr::with_shape(address_of(member), member.shape()))
        );
    }
    for other in [
        FacadeMember::IdentifyEntrypoint,
        FacadeMember::FreeHstr,
        FacadeMember::GetConfig,
        FacadeMember::BindRenderServer,
        FacadeMember::UnbindRenderServer,
    ] {
        assert_eq!(facade.reference(other), None);
    }
    assert_eq!(resolver.runtime_entrypoints(), None);
}

#[test]
fn a_missing_discovery_function_is_function_not_found() {
    for missing in [FacadeMember::IdentifyEntrypoint, FacadeMember::FreeHstr] {
        let mut host = stub(true, Some(missing));
        let (resolver, outcome) = drive(RuntimeInterface::find_entrypoint_and_build(), &mut host);
        assert_eq!(
            outcome,
            Err(HostError::FunctionNotFound {
                class_name: "NTF.NTEntryPoint, NT".to_string(),
                method_name: missing.method_name().to_string(),
                delegate_type_name: missing.delegate_type_name().to_string(),
            })
        );
        assert_eq!(resolver.phase(), ResolverPhase::Failed);
        assert_eq!(host.identified, 0);
        assert_eq!(host.freed.len(), 0);
    }
}

#[test]
fn a_failed_or_bound_resolver_expects_nothing() {
    let mut host = stub(false, None);
    let (failed, _) = drive(RuntimeInterface::find_entrypoint_and_build(), &mut host);
    let mut host = stub(true, None);
    let (bound, _) = drive(RuntimeInterface::find_entrypoint_and_build(), &mut host);
    for resolver in [failed, bound] {
        assert!(!resolver.expects(&ResolverReply::Freed));
        assert!(!resolver.expects(&ResolverReply::Function(DotnetFunctionPtr::new(1))));
        assert!(!resolver.expects(&ResolverReply::Specifier(specifier(true))));
    }
}

#[test]
fn a_resolver_expects_only_the_reply_to_its_request() {
    let (mut resolver, _) = RuntimeInterface::find_entrypoint_and_build();
    assert!(resolver.expects(&ResolverReply::Function(DotnetFunctionPtr::null())));
    assert!(!resolver.expects(&ResolverReply::Freed));
    assert!(!resolver.expects(&ResolverReply::Specifier(specifier(true))));
    let _ = resolver.advance(ResolverReply::Function(DotnetFunctionPtr::new(0x10)));
    let _ = resolver.advance(ResolverReply::Function(DotnetFunctionPtr::new(0x20)));
    assert_eq!(resolver.phase(), ResolverPhase::Identifying);
    assert!(resolver.expects(&ResolverReply::Specifier(specifier(true))));
    assert!(resolver.expects(&ResolverReply::Specifier(specifier(false))));
    let mut nameless = specifier(true);
    nameless.asm_name = HostString::null();
    assert!(resolver.expects(&ResolverReply::Specifier(nameless)));
    assert!(!resolver.expects(&ResolverReply::Function(DotnetFunctionPtr::new(1))));
    let step = resolver.advance(ResolverReply::Specifier(specifier(true)));
    assert_eq!(
        step,
        ResolverStep::Request(ResolverRequest::FreeString {
            free: DotnetFunctionPtr::with_shape(0x20, FacadeMember::FreeHstr.shape()),
            address: MODULE_AT,
        })
    );
    assert_eq!(resolver.phase(), ResolverPhase::ReleasingModuleName);
    assert!(resolver.expects(&ResolverReply::Freed));
    assert!(!resolver.expects(&ResolverReply::Function(DotnetFunctionPtr::new(1))));
}

#[test]
fn the_whole_facade_binds_its_eight_members_on_the_published_class() {
    let mut host = stub(true, None);
    let (resolver, outcome) = drive(RuntimeEntrypoints::find_entrypoint_and_build(), &mut host);
    assert_eq!(outcome, Ok(()));
    assert_eq!(resolver.kind(), FacadeKind::Entrypoints);
    assert_eq!(resolver.phase(), ResolverPhase::Bound);
    let members = vec![
        FacadeMember::GetConfig,
        FacadeMember::Initialize,
        FacadeMember::Shutdown,
        FacadeMember::Update,
        FacadeMember::Draw,
        FacadeMember::FreeHstr,
        FacadeMember::BindRenderServer,
        FacadeMember::UnbindRenderServer,
    ];
    let mut expected = vec![
        ("NTF.NTEntryPoint, NT".to_string(), FacadeMember::IdentifyEntrypoint),
        ("NTF.NTEntryPoint, NT".to_string(), FacadeMember::FreeHstr),
    ];
    for member in &members {
        expected.push(("Game.Main, Game".to_string(), *member));
    }
    assert_eq!(host.resolved, expected);
    assert_eq!(host.identified, 1);
    assert_eq!(host.freed, vec![MODULE_AT, CLASS_AT]);
    let facade = resolver.runtime_entrypoints().unwrap();
    for member in members {
        assert_eq!(
            facade.reference(member),
            Some(DotnetFunctionPtr::with_shape(address_of(member), member.shape()))
        );
    }
    assert_eq!(facade.reference(FacadeMember::IdentifyEntrypoint), None);
    assert_eq!(resolver.runtime_interface(), None);
}

#[test]
fn the_whole_facade_fails_with_the_first_member_that_is_missing() {
    for missing in [
        FacadeMember::GetConfig,
        FacadeMember::Draw,
        FacadeMember::BindRenderServer,
        FacadeMember::UnbindRenderServer,
    ] {
        let mut host = stub(true, Some(missing));
        let (resolver, outcome) = drive(RuntimeEntrypoints::find_entrypoint_and_build(), &mut host);
        assert_eq!(outcome, Err(HostError::FacadeBindingFailed(missing)));
        assert_eq!(host.resolved.last().unwrap().1, missing);
        assert_eq!(host.freed, vec![MODULE_AT, CLASS_AT]);
        assert_eq!(resolver.runtime_entrypoints(), None);
    }
}

#[test]
fn bound_references_can_be_reified_under_their_member_shape_only() {
    let mut host = stub(true, None);
    let (resolver, _) = drive(RuntimeEntrypoints::find_entrypoint_and_build(), &mut host);
    let facade = resolver.runtime_entrypoints().unwrap();
    let update = facade.reference(FacadeMember::Update).unwrap();
    assert_eq!(update.reify(FacadeMember::Update.shape()), Ok(address_of(FacadeMember::Update)));
    assert!(update.reify(FacadeMember::Draw.shape()).is_err());
    let draw = facade.reference(FacadeMember::Draw).unwrap();
    let one_argument = InvocationShape { arity: 1, ..FacadeMember::Draw.shape() };
    assert!(draw.reify(one_argument).is_err());
    assert_eq!(draw.reify(FacadeMember::Draw.shape()), Ok(address_of(FacadeMember::Draw)));
}

#[test]
fn cook_defaults_a_null_title_and_frees_nothing() {
    let raw = RawInitConfig {
        window_title: HostString::null(),
        window_width: 1280,
        window_height: 720,
        vsync: true,
        windowed: false,
    };
    let (config, release) = raw.cook();
    assert_eq!(
        config,
        InitConfig {
            window_title: "NT".to_string(),
            window_width: 1280,
            window_height: 720,
            vsync: true,
            windowed: false,
        }
    );
    assert_eq!(release, None);
}

#[test]
fn cook_decodes_the_title_and_owes_its_release() {
    let raw = RawInitConfig {
        window_title: HostString { address: 0x5150, units: wide("Sp\u{00EF}el \u{1F3AE}") },
        window_width: -1,
        window_height: 0,
        vsync: false,
        windowed: true,
    };
    let (config, release) = raw.cook();
    assert_eq!(config.window_title, "Sp\u{00EF}el \u{1F3AE}");
    assert_eq!(config.window_width, -1);
    assert_eq!(config.window_height, 0);
    assert!(!config.vsync);
    assert!(config.windowed);
    assert_eq!(release, Some(0x5150));
}

#[test]
fn cook_keeps_an_empty_title_empty() {
    let raw = RawInitConfig {
        window_title: HostString { address: 0x10, units: vec![] },
        window_width: 1,
        window_height: 2,
        vsync: false,
        windowed: false,
    };
    let (config, release) = raw.cook();
    assert_eq!(config.window_title, "");
    assert_eq!(release, Some(0x10));
}
