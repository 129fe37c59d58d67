//! Discovering the entry type of the hosted application and binding its
//! facade.
//!
//! The resolver never calls into the runtime. It says what to resolve,
//! invoke or release next, as a request, and is told what that gave, as a
//! reply.

use crate::dotnet::function_ptr::DotnetFunctionPtr;
use crate::error::{HostError, HostFailure};
use crate::runtime_interface::facade::FacadeMember;
use crate::util::wide::{parse_hstr_wide, HostString};
use vstd::prelude::*;
use vstd::string::StringExecFns;

verus! {

/// The type whose functions identify the entry type of the application.
pub open spec fn entry_point_class() -> Seq<char> {
    "NTF.NTEntryPoint, NT"@
}

/// The name by which the runtime knows a class of a module: the class, a
/// comma and a blank, the module.
pub open spec fn qualified_name(class_name: Seq<char>, module: Seq<char>) -> Seq<char> {
    class_name + ", "@ + module
}

/// What the hosted runtime answers when asked for its entry type: the names
/// of the module and the class, as strings of the runtime, and whether they
/// are set at all.
#[derive(Debug, PartialEq, Eq)]
pub struct EntrypointSpecifier {
    pub asm_name: HostString,
    pub class_name: HostString,
    pub is_set: bool,
}

impl EntrypointSpecifier {
    /// The names of the module and of the class, decoded, in that order;
    /// nothing where one of the two is null.
    pub fn to_strings(&self) -> (names: Option<(String, String)>)
        ensures
            names is Some <==> !self.asm_name.spec_is_null() && !self.class_name.spec_is_null(),
            names is Some ==> names->Some_0.0@ == self.asm_name.text() && names->Some_0.1@
                == self.class_name.text(),
    {
        match (parse_hstr_wide(&self.asm_name), parse_hstr_wide(&self.class_name)) {
            (Some(module), Some(class_name)) => Some((module, class_name)),
            _ => None,
        }
    }

    /// The qualified name of the entry class that the specifier stands for.
    pub open spec fn entry_class(&self) -> Seq<char> {
        qualified_name(self.class_name.text(), self.asm_name.text())
    }
}

/// Joins a class and its module to the name the runtime knows the class by.
pub fn qualified_class_name(class_name: &str, module: &str) -> (name: String)
    ensures
        name@ == qualified_name(class_name@, module@),
{
    let mut name = String::from_str(class_name);
    name.append(", ");
    name.append(module);
    name
}

/// The two facades that can be bound.
#[derive(Clone, Copy, Debug, PartialEq, Eq, Structural)]
pub enum FacadeKind {
    /// The core of the facade: initialize, shutdown, update and draw.
    Interface,
    /// The whole facade: the core, and with it the getter of the
    /// configuration, the function that frees strings, and the pair that
    /// binds and unbinds the render server.
    Entrypoints,
}

impl FacadeKind {
    /// The members of the facade, in the order in which they are bound.
    pub open spec fn members(self) -> Seq<FacadeMember> {
        match self {
            FacadeKind::Interface => seq![
                FacadeMember::Initialize,
                FacadeMember::Shutdown,
                FacadeMember::Update,
                FacadeMember::Draw,
            ],
            FacadeKind::Entrypoints => seq![
                FacadeMember::GetConfig,
                FacadeMember::Initialize,
                FacadeMember::Shutdown,
                FacadeMember::Update,
                FacadeMember::Draw,
                FacadeMember::FreeHstr,
                FacadeMember::BindRenderServer,
                FacadeMember::UnbindRenderServer,
            ],
        }
    }

    /// How many members the facade has.
    pub fn member_count(self) -> (count: usize)
        ensures
            count == self.members().len(),
            count > 0,
    {
        match self {
            FacadeKind::Interface => 4,
            FacadeKind::Entrypoints => 8,
        }
    }

    /// The member at a place in the order of binding.
    pub fn member(self, index: usize) -> (member: FacadeMember)
        requires
            index < self.members().len(),
        ensures
            member == self.members()[index as int],
    {
        match self {
            FacadeKind::Interface => {
                if index == 0 {
                    FacadeMember::Initialize
                } else if index == 1 {
                    FacadeMember::Shutdown
                } else if index == 2 {
                    FacadeMember::Update
                } else {
                    FacadeMember::Draw
                }
            },
            FacadeKind::Entrypoints => {
                if index == 0 {
                    FacadeMember::GetConfig
                } else if index == 1 {
                    FacadeMember::Initialize
                } else if index == 2 {
                    FacadeMember::Shutdown
                } else if index == 3 {
                    FacadeMember::Update
                } else if index == 4 {
                    FacadeMember::Draw
                } else if index == 5 {
                    FacadeMember::FreeHstr
                } else if index == 6 {
                    FacadeMember::BindRenderServer
                } else {
                    FacadeMember::UnbindRenderServer
                }
            },
        }
    }
}

/// Where a resolver stands.
#[derive(Clone, Copy, Debug, PartialEq, Eq, Structural)]
pub enum ResolverPhase {
    /// Waiting for the function that identifies the entry type.
    ResolvingIdentify,
    /// Waiting for the function that frees strings of the runtime.
    ResolvingFreeHstr,
    /// Waiting for the specifier of the entry type.
    Identifying,
    /// Waiting for the release of the module's name.
    ReleasingModuleName,
    /// Waiting for the release of the class's name.
    ReleasingClassName,
    /// Waiting for the release of the one name of a specifier that is set
    /// and yet names no module or no class; the resolution fails after it.
    ReleasingLoneName,
    /// Waiting for the next member of the facade.
    Binding,
    /// Every member is bound.
    Bound,
    /// The resolution failed.
    Failed,
}

/// A function to resolve: a member of the facade symbol contract on a class.
#[derive(Debug, PartialEq, Eq)]
pub struct FunctionRequest {
    /// The qualified name of the class.
    pub class_name: String,
    /// The member, which gives the names of the method and of its delegate
    /// type.
    pub member: FacadeMember,
}

/// What the resolver asks for next.
#[derive(Debug, PartialEq, Eq)]
pub enum ResolverRequest {
    /// Resolve this function through the host context.
    ResolveFunction(FunctionRequest),
    /// Invoke the identifying function, with no arguments.
    Identify(DotnetFunctionPtr),
    /// Release the runtime's string at `address` by invoking `free` on it.
    FreeString { free: DotnetFunctionPtr, address: usize },
}

/// What the last request gave.
#[derive(Debug, PartialEq, Eq)]
pub enum ResolverReply {
    /// The resolved function; the null reference where there is none.
    Function(DotnetFunctionPtr),
    /// What the identifying function returned.
    Specifier(EntrypointSpecifier),
    /// The string was released.
    Freed,
}

/// How the resolution goes on after a reply.
#[derive(Debug, PartialEq, Eq)]
pub enum ResolverStep {
    /// Do this next.
    Request(ResolverRequest),
    /// The facade is bound.
    Bound,
    /// The resolution failed.
    Failed(HostError),
}

/// A request as a plain value.
pub enum RequestModel {
    ResolveFunction { class_name: Seq<char>, member: FacadeMember },
    Identify(DotnetFunctionPtr),
    FreeString { free: DotnetFunctionPtr, address: usize },
}

/// A reply as a plain value: of a specifier, the addresses and texts of its
/// names.
pub enum ReplyModel {
    Function(DotnetFunctionPtr),
    Specifier {
        module_address: usize,
        module: Seq<char>,
        class_address: usize,
        class_name: Seq<char>,
        is_set: bool,
    },
    Freed,
}

/// A step as a plain value.
pub enum StepModel {
    Request(RequestModel),
    Bound,
    Failed(HostFailure),
}

impl View for ResolverRequest {
    type V = RequestModel;

    open spec fn view(&self) -> RequestModel {
        match self {
            ResolverRequest::ResolveFunction(function) => RequestModel::ResolveFunction {
                class_name: function.class_name@,
                member: function.member,
            },
            ResolverRequest::Identify(ptr) => RequestModel::Identify(*ptr),
            ResolverRequest::FreeString { free, address } => RequestModel::FreeString {
                free: *free,
                address: *address,
            },
        }
    }
}

impl View for ResolverReply {
    type V = ReplyModel;

    open spec fn view(&self) -> ReplyModel {
        match self {
            ResolverReply::Function(ptr) => ReplyModel::Function(*ptr),
            ResolverReply::Specifier(specifier) => ReplyModel::Specifier {
                module_address: specifier.asm_name.address,
                module: specifier.asm_name.text(),
                class_address: specifier.class_name.address,
                class_name: specifier.class_name.text(),
                is_set: specifier.is_set,
            },
            ResolverReply::Freed => ReplyModel::Freed,
        }
    }
}

impl View for ResolverStep {
    type V = StepModel;

    open spec fn view(&self) -> StepModel {
        match self {
            ResolverStep::Request(request) => StepModel::Request(request@),
            ResolverStep::Bound => StepModel::Bound,
            ResolverStep::Failed(error) => StepModel::Failed(error@),
        }
    }
}

/// A reference as the facade keeps it: the resolved address, recorded with
/// the shape that the symbol contract gives the member.
pub open spec fn bound_reference(member: FacadeMember, ptr: DotnetFunctionPtr)
    -> DotnetFunctionPtr {
    DotnetFunctionPtr { address: ptr.address, shape: Some(member.spec_shape()) }
}

/// The failure of resolving a discovery function.
pub open spec fn discovery_failure(member: FacadeMember) -> HostFailure {
    HostFailure::FunctionNotFound {
        class_name: entry_point_class(),
        method_name: member.spec_method_name(),
        delegate_type_name: member.spec_delegate_type_name(),
    }
}

/// What a resolver is.
pub struct ResolverModel {
    pub kind: FacadeKind,
    pub phase: ResolverPhase,
    /// The function that identifies the entry type; null until resolved.
    pub identify: DotnetFunctionPtr,
    /// The function that frees strings of the runtime; null until resolved.
    pub free_hstr: DotnetFunctionPtr,
    /// The address of the class's name, which is released last.
    pub class_address: usize,
    /// The qualified name of the class that the members are bound on.
    pub class_name: Seq<char>,
    /// The members bound so far, in the order of binding.
    pub bound: Seq<DotnetFunctionPtr>,
}

impl ResolverModel {
    /// Well-formedness: nothing is bound before the binding begins; while
    /// members are being bound, one is still missing; once bound, none is;
    /// every bound reference is non-null and carries the shape of its
    /// member; and the class's name that waits for its release is not null.
    pub open spec fn wf(self) -> bool {
        &&& self.bound.len() <= self.kind.members().len()
        &&& forall|i: int|
            0 <= i < self.bound.len() ==> {
                &&& (#[trigger] self.bound[i]).address != 0
                &&& self.bound[i].shape == Some(self.kind.members()[i].spec_shape())
            }
        &&& match self.phase {
            ResolverPhase::Binding => self.bound.len() < self.kind.members().len(),
            ResolverPhase::Bound => self.bound.len() == self.kind.members().len(),
            ResolverPhase::Failed => true,
            ResolverPhase::ReleasingModuleName => self.bound.len() == 0 && self.class_address != 0,
            _ => self.bound.len() == 0,
        }
    }

    /// Whether the reply is the one that the resolver waits for. Every
    /// specifier is taken, whatever it names.
    pub open spec fn expects(self, reply: ReplyModel) -> bool {
        match self.phase {
            ResolverPhase::ResolvingIdentify | ResolverPhase::ResolvingFreeHstr
            | ResolverPhase::Binding => reply is Function,
            ResolverPhase::Identifying => reply is Specifier,
            ResolverPhase::ReleasingModuleName | ResolverPhase::ReleasingClassName
            | ResolverPhase::ReleasingLoneName => reply is Freed,
            ResolverPhase::Bound | ResolverPhase::Failed => false,
        }
    }

    /// The resolver as it fails.
    pub open spec fn failed(self) -> ResolverModel {
        ResolverModel { phase: ResolverPhase::Failed, ..self }
    }

    /// The request for the member that is bound next.
    pub open spec fn next_member_request(self) -> RequestModel {
        RequestModel::ResolveFunction {
            class_name: self.class_name,
            member: self.kind.members()[self.bound.len() as int],
        }
    }

    /// The resolver and the step after a reply that it expects.
    ///
    /// A discovery function that cannot be resolved fails with
    /// `FunctionNotFound`. A specifier that is not set fails with
    /// `EntrypointNotFound`, and nothing is released. For one that is set
    /// and names both, the name of the module and then the name of the class
    /// are released, each by one request, and then the members are bound on
    /// the class the specifier names, in their order. One that is set and
    /// names only a module or only a class has that one name released and
    /// then fails with `EntrypointNotFound`; one that names neither fails so
    /// at once. The first member that cannot be resolved fails the binding
    /// with `FacadeBindingFailed` of that member.
    pub open spec fn after(self, reply: ReplyModel) -> (ResolverModel, StepModel) {
        match (self.phase, reply) {
            (ResolverPhase::ResolvingIdentify, ReplyModel::Function(ptr)) => {
                if ptr.address == 0 {
                    (
                        self.failed(),
                        StepModel::Failed(discovery_failure(FacadeMember::IdentifyEntrypoint)),
                    )
                } else {
                    (
                        ResolverModel {
                            phase: ResolverPhase::ResolvingFreeHstr,
                            identify: bound_reference(FacadeMember::IdentifyEntrypoint, ptr),
                            ..self
                        },
                        StepModel::Request(
                            RequestModel::ResolveFunction {
                                class_name: entry_point_class(),
                                member: FacadeMember::FreeHstr,
                            },
                        ),
                    )
                }
            },
            (ResolverPhase::ResolvingFreeHstr, ReplyModel::Function(ptr)) => {
                if ptr.address == 0 {
                    (self.failed(), StepModel::Failed(discovery_failure(FacadeMember::FreeHstr)))
                } else {
                    (
                        ResolverModel {
                            phase: ResolverPhase::Identifying,
                            free_hstr: bound_reference(FacadeMember::FreeHstr, ptr),
                            ..self
                        },
                        StepModel::Request(RequestModel::Identify(self.identify)),
                    )
                }
            },
            (
                ResolverPhase::Identifying,
                ReplyModel::Specifier { module_address, module, class_address, class_name, is_set },
            ) => {
                if !is_set || (module_address == 0 && class_address == 0) {
                    (self.failed(), StepModel::Failed(HostFailure::EntrypointNotFound))
                } else if module_address != 0 && class_address != 0 {
                    (
                        ResolverModel {
                            phase: ResolverPhase::ReleasingModuleName,
                            class_address,
                            class_name: qualified_name(class_name, module),
                            ..self
                        },
                        StepModel::Request(
                            RequestModel::FreeString {
                                free: self.free_hstr,
                                address: module_address,
                            },
                        ),
                    )
                } else {
                    (
                        ResolverModel { phase: ResolverPhase::ReleasingLoneName, ..self },
                        StepModel::Request(
                            RequestModel::FreeString {
                                free: self.free_hstr,
                                address: if module_address != 0 {
                                    module_address
                                } else {
                                    class_address
                                },
                            },
                        ),
                    )
                }
            },
            (ResolverPhase::ReleasingLoneName, ReplyModel::Freed) => (
                self.failed(),
                StepModel::Failed(HostFailure::EntrypointNotFound),
            ),
            (ResolverPhase::ReleasingModuleName, ReplyModel::Freed) => (
                ResolverModel { phase: ResolverPhase::ReleasingClassName, ..self },
                StepModel::Request(
                    RequestModel::FreeString { free: self.free_hstr, address: self.class_address },
                ),
            ),
            (ResolverPhase::ReleasingClassName, ReplyModel::Freed) => (
                ResolverModel { phase: ResolverPhase::Binding, ..self },
                StepModel::Request(self.next_member_request()),
            ),
            (ResolverPhase::Binding, ReplyModel::Function(ptr)) => {
                let member = self.kind.members()[self.bound.len() as int];
                if ptr.address == 0 {
                    (self.failed(), StepModel::Failed(HostFailure::FacadeBindingFailed(member)))
                } else {
                    let bound = self.bound.push(bound_reference(member, ptr));
                    if bound.len() < self.kind.members().len() {
                        let next = ResolverModel { bound, ..self };
                        (next, StepModel::Request(next.next_member_request()))
                    } else {
                        (ResolverModel { phase: ResolverPhase::Bound, bound, ..self }, StepModel::Bound)
                    }
                }
            },
            _ => (self, StepModel::Bound),
        }
    }

    /// The resolver in which the resolution of a facade starts: with the
    /// discovery of the entry class, whichever facade is bound on it.
    pub open spec fn start(kind: FacadeKind) -> ResolverModel {
        ResolverModel {
            kind,
            phase: ResolverPhase::ResolvingIdentify,
            identify: DotnetFunctionPtr { address: 0, shape: None },
            free_hstr: DotnetFunctionPtr { address: 0, shape: None },
            class_address: 0,
            class_name: Seq::empty(),
            bound: Seq::empty(),
        }
    }

    /// The first request of every resolution: the function that identifies
    /// the entry type.
    pub open spec fn first_request() -> RequestModel {
        RequestModel::ResolveFunction {
            class_name: entry_point_class(),
            member: FacadeMember::IdentifyEntrypoint,
        }
    }
}

/// Resolves the entry functions of the hosted application, step by step.
#[derive(Debug)]
pub struct EntrypointResolver {
    kind: FacadeKind,
    phase: ResolverPhase,
    identify: DotnetFunctionPtr,
    free_hstr: DotnetFunctionPtr,
    class_address: usize,
    class_name: String,
    bound: Vec<DotnetFunctionPtr>,
}

impl View for EntrypointResolver {
    type V = ResolverModel;

    closed spec fn view(&self) -> ResolverModel {
        ResolverModel {
            kind: self.kind,
            phase: self.phase,
            identify: self.identify,
            free_hstr: self.free_hstr,
            class_address: self.class_address,
            class_name: self.class_name@,
            bound: self.bound@,
        }
    }
}

impl EntrypointResolver {
    /// Starts the resolution of a facade, and says what to do first: resolve
    /// the function that identifies the entry type.
    pub fn new(kind: FacadeKind) -> (started: (EntrypointResolver, ResolverRequest))
        ensures
            started.0@ == ResolverModel::start(kind),
            started.0@.wf(),
            started.1@ == ResolverModel::first_request(),
    {
        let resolver = EntrypointResolver {
            kind,
            phase: ResolverPhase::ResolvingIdentify,
            identify: DotnetFunctionPtr::null(),
            free_hstr: DotnetFunctionPtr::null(),
            class_address: 0,
            class_name: String::new(),
            bound: Vec::new(),
        };
        let request = ResolverRequest::ResolveFunction(
            FunctionRequest {
                class_name: "NTF.NTEntryPoint, NT".to_owned(),
                member: FacadeMember::IdentifyEntrypoint,
            },
        );
        (resolver, request)
    }

    /// The facade that is being resolved.
    pub fn kind(&self) -> (kind: FacadeKind)
        ensures
            kind == self@.kind,
    {
        self.kind
    }

    /// Where the resolver stands.
    pub fn phase(&self) -> (phase: ResolverPhase)
        ensures
            phase == self@.phase,
    {
        self.phase
    }

    /// Whether the reply is the one that the resolver waits for.
    pub fn expects(&self, reply: &ResolverReply) -> (expected: bool)
        ensures
            expected == self@.expects(reply@),
    {
        match self.phase {
            ResolverPhase::ResolvingIdentify | ResolverPhase::ResolvingFreeHstr
            | ResolverPhase::Binding => match reply {
                ResolverReply::Function(_) => true,
                _ => false,
            },
            ResolverPhase::Identifying => match reply {
                ResolverReply::Specifier(_) => true,
                _ => false,
            },
            ResolverPhase::ReleasingModuleName | ResolverPhase::ReleasingClassName
            | ResolverPhase::ReleasingLoneName => match reply {
                ResolverReply::Freed => true,
                _ => false,
            },
            ResolverPhase::Bound | ResolverPhase::Failed => false,
        }
    }

    /// The request for the member that is bound next.
    fn member_request(&self) -> (request: ResolverRequest)
        requires
            self@.bound.len() < self@.kind.members().len(),
        ensures
            request@ == self@.next_member_request(),
    {
        ResolverRequest::ResolveFunction(
            FunctionRequest {
                class_name: self.class_name.clone(),
                member: self.kind.member(self.bound.len()),
            },
        )
    }

    /// The failure of resolving a discovery function.
    fn discovery_error(member: FacadeMember) -> (error: HostError)
        ensures
            error@ == discovery_failure(member),
    {
        HostError::FunctionNotFound {
            class_name: "NTF.NTEntryPoint, NT".to_owned(),
            method_name: member.method_name().to_owned(),
            delegate_type_name: member.delegate_type_name().to_owned(),
        }
    }

    /// Takes the reply to the last request and says how the resolution goes
    /// on.
    pub fn advance(&mut self, reply: ResolverReply) -> (step: ResolverStep)
        requires
            old(self)@.wf(),
            old(self)@.expects(reply@),
        ensures
            final(self)@.wf(),
            (final(self)@, step@) == old(self)@.after(reply@),
    {
        match (self.phase, reply) {
            (ResolverPhase::ResolvingIdentify, ResolverReply::Function(ptr)) => {
                if ptr.is_null() {
                    self.phase = ResolverPhase::Failed;
                    ResolverStep::Failed(Self::discovery_error(FacadeMember::IdentifyEntrypoint))
                } else {
                    self.phase = ResolverPhase::ResolvingFreeHstr;
                    self.identify = DotnetFunctionPtr::with_shape(
                        ptr.address,
                        FacadeMember::IdentifyEntrypoint.shape(),
                    );
                    ResolverStep::Request(
                        ResolverRequest::ResolveFunction(
                            FunctionRequest {
                                class_name: "NTF.NTEntryPoint, NT".to_owned(),
                                member: FacadeMember::FreeHstr,
                            },
                        ),
                    )
                }
            },
            (ResolverPhase::ResolvingFreeHstr, ResolverReply::Function(ptr)) => {
                if ptr.is_null() {
                    self.phase = ResolverPhase::Failed;
                    ResolverStep::Failed(Self::discovery_error(FacadeMember::FreeHstr))
                } else {
                    self.phase = ResolverPhase::Identifying;
                    self.free_hstr = DotnetFunctionPtr::with_shape(
                        ptr.address,
                        FacadeMember::FreeHstr.shape(),
                    );
                    ResolverStep::Request(ResolverRequest::Identify(self.identify))
                }
            },
            (ResolverPhase::Identifying, ResolverReply::Specifier(specifier)) => {
                if !specifier.is_set {
                    self.phase = ResolverPhase::Failed;
                    ResolverStep::Failed(HostError::EntrypointNotFound)
                } else {
                    match specifier.to_strings() {
                        Some((module, class_name)) => {
                            self.phase = ResolverPhase::ReleasingModuleName;
                            self.class_address = specifier.class_name.address;
                            self.class_name = qualified_class_name(
                                class_name.as_str(),
                                module.as_str(),
                            );
                            ResolverStep::Request(
                                ResolverRequest::FreeString {
                                    free: self.free_hstr,
                                    address: specifier.asm_name.address,
                                },
                            )
                        },
                        None => {
                            if !specifier.asm_name.is_null() {
                                self.phase = ResolverPhase::ReleasingLoneName;
                                ResolverStep::Request(
                                    ResolverRequest::FreeString {
                                        free: self.free_hstr,
                                        address: specifier.asm_name.address,
                                    },
                                )
                            } else if !specifier.class_name.is_null() {
                                self.phase = ResolverPhase::ReleasingLoneName;
                                ResolverStep::Request(
                                    ResolverRequest::FreeString {
                                        free: self.free_hstr,
                                        address: specifier.class_name.address,
                                    },
                                )
                            } else {
                                self.phase = ResolverPhase::Failed;
                                ResolverStep::Failed(HostError::EntrypointNotFound)
                            }
                        },
                    }
                }
            },
            (ResolverPhase::ReleasingLoneName, ResolverReply::Freed) => {
                self.phase = ResolverPhase::Failed;
                ResolverStep::Failed(HostError::EntrypointNotFound)
            },
            (ResolverPhase::ReleasingModuleName, ResolverReply::Freed) => {
                self.phase = ResolverPhase::ReleasingClassName;
                ResolverStep::Request(
                    ResolverRequest::FreeString {
                        free: self.free_hstr,
                        address: self.class_address,
                    },
                )
            },
            (ResolverPhase::ReleasingClassName, ResolverReply::Freed) => {
                self.phase = ResolverPhase::Binding;
                ResolverStep::Request(self.member_request())
            },
            (ResolverPhase::Binding, ResolverReply::Function(ptr)) => {
                let member = self.kind.member(self.bound.len());
                if ptr.is_null() {
                    self.phase = ResolverPhase::Failed;
                    ResolverStep::Failed(HostError::FacadeBindingFailed(member))
                } else {
                    self.bound.push(DotnetFunctionPtr::with_shape(ptr.address, member.shape()));
                    if self.bound.len() < self.kind.member_count() {
                        ResolverStep::Request(self.member_request())
                    } else {
                        self.phase = ResolverPhase::Bound;
                        ResolverStep::Bound
                    }
                }
            },
            _ => ResolverStep::Bound,
        }
    }

    /// The facade of the application's entry class, once the resolver has
    /// bound it.
    pub fn runtime_interface(&self) -> (facade: Option<RuntimeInterface>)
        requires
            self@.wf(),
        ensures
            facade is Some <==> self@.phase is Bound && self@.kind is Interface,
            facade is Some ==> facade->Some_0@ == self@.bound,
    {
        match (self.phase, self.kind) {
            (ResolverPhase::Bound, FacadeKind::Interface) => Some(
                RuntimeInterface {
                    initialize_fptr: self.bound[0],
                    shutdown_fptr: self.bound[1],
                    update_fptr: self.bound[2],
                    draw_fptr: self.bound[3],
                },
            ),
            _ => None,
        }
    }

    /// The whole facade, once the resolver has bound it.
    pub fn runtime_entrypoints(&self) -> (facade: Option<RuntimeEntrypoints>)
        requires
            self@.wf(),
        ensures
            facade is Some <==> self@.phase is Bound && self@.kind is Entrypoints,
            facade is Some ==> facade->Some_0@ == self@.bound,
    {
        match (self.phase, self.kind) {
            (ResolverPhase::Bound, FacadeKind::Entrypoints) => Some(
                RuntimeEntrypoints {
                    get_config_fptr: self.bound[0],
                    initialize_fptr: self.bound[1],
                    shutdown_fptr: self.bound[2],
                    update_fptr: self.bound[3],
                    draw_fptr: self.bound[4],
                    free_hstr_fptr: self.bound[5],
                    bind_render_server: self.bound[6],
                    unbind_render_server: self.bound[7],
                },
            ),
            _ => None,
        }
    }
}

/// The core of the facade of the entry class that the application
/// publishes: its four functions, resolved.
#[derive(Clone, Copy, Debug, PartialEq, Eq)]
pub struct RuntimeInterface {
    initialize_fptr: DotnetFunctionPtr,
    shutdown_fptr: DotnetFunctionPtr,
    update_fptr: DotnetFunctionPtr,
    draw_fptr: DotnetFunctionPtr,
}

impl View for RuntimeInterface {
    type V = Seq<DotnetFunctionPtr>;

    /// The references, in the order of the facade's members.
    closed spec fn view(&self) -> Seq<DotnetFunctionPtr> {
        seq![self.initialize_fptr, self.shutdown_fptr, self.update_fptr, self.draw_fptr]
    }
}

/// The place of a member among the members of a facade, if it is one.
pub open spec fn member_index(kind: FacadeKind, member: FacadeMember) -> Option<int> {
    match kind {
        FacadeKind::Interface => match member {
            FacadeMember::Initialize => Some(0),
            FacadeMember::Shutdown => Some(1),
            FacadeMember::Update => Some(2),
            FacadeMember::Draw => Some(3),
            _ => None,
        },
        FacadeKind::Entrypoints => match member {
            FacadeMember::GetConfig => Some(0),
            FacadeMember::Initialize => Some(1),
            FacadeMember::Shutdown => Some(2),
            FacadeMember::Update => Some(3),
            FacadeMember::Draw => Some(4),
            FacadeMember::FreeHstr => Some(5),
            FacadeMember::BindRenderServer => Some(6),
            FacadeMember::UnbindRenderServer => Some(7),
            _ => None,
        },
    }
}

/// The index of a member is its place in the order of binding, and only the
/// members of a facade have one.
pub proof fn lemma_member_index(kind: FacadeKind, member: FacadeMember)
    ensures
        match member_index(kind, member) {
            Some(i) => 0 <= i < kind.members().len() && kind.members()[i] == member,
            None => !kind.members().contains(member),
        },
{
    if member_index(kind, member) is None {
        assert forall|i: int| 0 <= i < kind.members().len() implies kind.members()[i]
            != member by {}
    }
}

impl RuntimeInterface {
    /// Starts the discovery of the application's entry class and the binding
    /// of its facade, and says what to do first: resolve the function that
    /// identifies the entry type.
    pub fn find_entrypoint_and_build() -> (started: (EntrypointResolver, ResolverRequest))
        ensures
            started.0@ == ResolverModel::start(FacadeKind::Interface),
            started.0@.wf(),
            started.1@ == ResolverModel::first_request(),
    {
        EntrypointResolver::new(FacadeKind::Interface)
    }

    /// The reference that a member of the facade is bound to; none for what
    /// is no member of this facade.
    pub fn reference(&self, member: FacadeMember) -> (ptr: Option<DotnetFunctionPtr>)
        ensures
            ptr == match member_index(FacadeKind::Interface, member) {
                Some(i) => Some(self@[i]),
                None => None,
            },
    {
        match member {
            FacadeMember::Initialize => Some(self.initialize_fptr),
            FacadeMember::Shutdown => Some(self.shutdown_fptr),
            FacadeMember::Update => Some(self.update_fptr),
            FacadeMember::Draw => Some(self.draw_fptr),
            _ => None,
        }
    }
}

/// The whole facade of the entry class that the application publishes: its
/// eight functions, resolved.
#[derive(Clone, Copy, Debug, PartialEq, Eq)]
pub struct RuntimeEntrypoints {
    get_config_fptr: DotnetFunctionPtr,
    initialize_fptr: DotnetFunctionPtr,
    shutdown_fptr: DotnetFunctionPtr,
    update_fptr: DotnetFunctionPtr,
    draw_fptr: DotnetFunctionPtr,
    free_hstr_fptr: DotnetFunctionPtr,
    bind_render_server: DotnetFunctionPtr,
    unbind_render_server: DotnetFunctionPtr,
}

impl View for RuntimeEntrypoints {
    type V = Seq<DotnetFunctionPtr>;

    /// The references, in the order of the facade's members.
    closed spec fn view(&self) -> Seq<DotnetFunctionPtr> {
        seq![
            self.get_config_fptr,
            self.initialize_fptr,
            self.shutdown_fptr,
            self.update_fptr,
            self.draw_fptr,
            self.free_hstr_fptr,
            self.bind_render_server,
            self.unbind_render_server,
        ]
    }
}

impl RuntimeEntrypoints {
    /// Starts the discovery of the application's entry class and the binding
    /// of the whole facade on it, and says what to do first: resolve the
    /// function that identifies the entry type.
    pub fn find_entrypoint_and_build() -> (started: (EntrypointResolver, ResolverRequest))
        ensures
            started.0@ == ResolverModel::start(FacadeKind::Entrypoints),
            started.0@.wf(),
            started.1@ == ResolverModel::first_request(),
    {
        EntrypointResolver::new(FacadeKind::Entrypoints)
    }

    /// The reference that a member of the facade is bound to; none for what
    /// is no member of this facade.
    pub fn reference(&self, member: FacadeMember) -> (ptr: Option<DotnetFunctionPtr>)
        ensures
            ptr == match member_index(FacadeKind::Entrypoints, member) {
                Some(i) => Some(self@[i]),
                None => None,
            },
    {
        match member {
            FacadeMember::GetConfig => Some(self.get_config_fptr),
            FacadeMember::Initialize => Some(self.initialize_fptr),
            FacadeMember::Shutdown => Some(self.shutdown_fptr),
            FacadeMember::Update => Some(self.update_fptr),
            FacadeMember::Draw => Some(self.draw_fptr),
            FacadeMember::FreeHstr => Some(self.free_hstr_fptr),
            FacadeMember::BindRenderServer => Some(self.bind_render_server),
            FacadeMember::UnbindRenderServer => Some(self.unbind_render_server),
            _ => None,
        }
    }
}

/// The steps that a sequence of replies draws from a resolver, one for each
/// reply up to the first that the resolver does not expect.
pub open spec fn trace(resolver: ResolverModel, replies: Seq<ReplyModel>) -> Seq<StepModel>
    decreases replies.len(),
{
    if replies.len() == 0 || !resolver.expects(replies[0]) {
        Seq::empty()
    } else {
        seq![resolver.after(replies[0]).1] + trace(resolver.after(replies[0]).0, replies.skip(1))
    }
}

/// The resolver that a sequence of replies leads to.
pub open spec fn resolver_after(resolver: ResolverModel, replies: Seq<ReplyModel>) -> ResolverModel
    decreases replies.len(),
{
    if replies.len() == 0 || !resolver.expects(replies[0]) {
        resolver
    } else {
        resolver_after(resolver.after(replies[0]).0, replies.skip(1))
    }
}

/// The address that a step asks to release, if it asks for a release.
pub open spec fn released_by(step: StepModel) -> Seq<usize> {
    match step {
        StepModel::Request(RequestModel::FreeString { address, .. }) => seq![address],
        _ => Seq::empty(),
    }
}

/// The addresses that the steps ask to release, in their order.
pub open spec fn released(steps: Seq<StepModel>) -> Seq<usize>
    decreases steps.len(),
{
    if steps.len() == 0 {
        Seq::empty()
    } else {
        released_by(steps[0]) + released(steps.skip(1))
    }
}

/// A step keeps a resolver well-formed.
pub proof fn lemma_after_preserves_wf(resolver: ResolverModel, reply: ReplyModel)
    requires
        resolver.wf(),
        resolver.expects(reply),
    ensures
        resolver.after(reply).0.wf(),
{
}

/// Unfolds the trace by its first reply.
proof fn lemma_trace_step(resolver: ResolverModel, first: ReplyModel, rest: Seq<ReplyModel>)
    requires
        resolver.expects(first),
    ensures
        trace(resolver, seq![first] + rest) == seq![resolver.after(first).1] + trace(
            resolver.after(first).0,
            rest,
        ),
        resolver_after(resolver, seq![first] + rest) == resolver_after(
            resolver.after(first).0,
            rest,
        ),
{
    let replies = seq![first] + rest;
    assert(replies[0] == first);
    assert(replies.skip(1) == rest);
}

/// Unfolds the released addresses by the first step.
proof fn lemma_released_step(first: StepModel, rest: Seq<StepModel>)
    ensures
        released(seq![first] + rest) == released_by(first) + released(rest),
{
    let steps = seq![first] + rest;
    assert(steps[0] == first);
    assert(steps.skip(1) == rest);
}

/// Once the members are being bound, nothing more is released, whatever
/// replies follow.
pub proof fn lemma_binding_releases_nothing(resolver: ResolverModel, replies: Seq<ReplyModel>)
    requires
        resolver.wf(),
        resolver.phase is Binding || resolver.phase is Bound || resolver.phase is Failed,
    ensures
        released(trace(resolver, replies)) == Seq::<usize>::empty(),
    decreases replies.len(),
{
    if replies.len() == 0 || !resolver.expects(replies[0]) {
    } else {
        let (next, step) = resolver.after(replies[0]);
        lemma_binding_releases_nothing(next, replies.skip(1));
        lemma_released_step(step, trace(next, replies.skip(1)));
        assert(Seq::<usize>::empty() + Seq::<usize>::empty() == Seq::<usize>::empty());
    }
}

/// How many releases a resolver can still ask for from where it stands.
pub open spec fn releases_ahead(phase: ResolverPhase) -> nat {
    match phase {
        ResolverPhase::ResolvingIdentify | ResolverPhase::ResolvingFreeHstr
        | ResolverPhase::Identifying => 2,
        ResolverPhase::ReleasingModuleName => 1,
        _ => 0,
    }
}

/// No string is released twice: whatever replies a resolver is given, it
/// asks for no more releases than are ahead of where it stands, two in all
/// from the start.
pub proof fn lemma_releases_are_bounded(resolver: ResolverModel, replies: Seq<ReplyModel>)
    requires
        resolver.wf(),
    ensures
        released(trace(resolver, replies)).len() <= releases_ahead(resolver.phase),
    decreases replies.len(),
{
    if replies.len() == 0 || !resolver.expects(replies[0]) {
    } else {
        let (next, step) = resolver.after(replies[0]);
        lemma_releases_are_bounded(next, replies.skip(1));
        lemma_released_step(step, trace(next, replies.skip(1)));
    }
}

/// Where the application declines to publish an entry type, the resolution
/// of either facade ends with `EntrypointNotFound` at the specifier, and in
/// all its steps, whatever replies are offered afterwards, it asks for no
/// string to be released.
pub proof fn lemma_unset_specifier_releases_nothing(
    kind: FacadeKind,
    identify: DotnetFunctionPtr,
    free: DotnetFunctionPtr,
    specifier: ReplyModel,
    later: Seq<ReplyModel>,
)
    requires
        identify.address != 0,
        free.address != 0,
        specifier matches ReplyModel::Specifier { is_set, .. } && !is_set,
    ensures
        ({
            let replies = seq![ReplyModel::Function(identify), ReplyModel::Function(free), specifier]
                + later;
            let start = ResolverModel::start(kind);
            &&& trace(start, replies).len() == 3
            &&& trace(start, replies)[2] == StepModel::Failed(HostFailure::EntrypointNotFound)
            &&& resolver_after(start, replies).phase is Failed
            &&& released(trace(start, replies)) == Seq::<usize>::empty()
        }),
{
    lemma_nameless_specifier(kind, identify, free, specifier, later);
}

/// The names of a specifier that are there to be released: the module's and
/// the class's, each unless it is null.
pub open spec fn named_addresses(module_address: usize, class_address: usize) -> Seq<usize> {
    if module_address != 0 && class_address != 0 {
        seq![module_address, class_address]
    } else if module_address != 0 {
        seq![module_address]
    } else if class_address != 0 {
        seq![class_address]
    } else {
        Seq::empty()
    }
}

/// A specifier that is not set, or names neither module nor class, ends the
/// resolution with `EntrypointNotFound` at once, and nothing is released.
proof fn lemma_nameless_specifier(
    kind: FacadeKind,
    identify: DotnetFunctionPtr,
    free: DotnetFunctionPtr,
    specifier: ReplyModel,
    later: Seq<ReplyModel>,
)
    requires
        identify.address != 0,
        free.address != 0,
        specifier matches ReplyModel::Specifier { module_address, class_address, is_set, .. }
            && (!is_set || (module_address == 0 && class_address == 0)),
    ensures
        ({
            let replies = seq![ReplyModel::Function(identify), ReplyModel::Function(free), specifier]
                + later;
            let start = ResolverModel::start(kind);
            &&& trace(start, replies).len() == 3
            &&& trace(start, replies)[2] == StepModel::Failed(HostFailure::EntrypointNotFound)
            &&& resolver_after(start, replies).phase is Failed
            &&& released(trace(start, replies)) == Seq::<usize>::empty()
        }),
{
    let r0 = ReplyModel::Function(identify);
    let r1 = ReplyModel::Function(free);
    let replies = seq![r0, r1, specifier] + later;
    let m0 = ResolverModel::start(kind);
    let (m1, s1) = m0.after(r0);
    let (m2, s2) = m1.after(r1);
    let (m3, s3) = m2.after(specifier);
    assert(replies == seq![r0] + (seq![r1] + (seq![specifier] + later)));
    lemma_trace_step(m0, r0, seq![r1] + (seq![specifier] + later));
    lemma_trace_step(m1, r1, seq![specifier] + later);
    lemma_trace_step(m2, specifier, later);
    assert(trace(m3, later) == Seq::<StepModel>::empty());
    assert(resolver_after(m3, later) == m3);
    let t = trace(m0, replies);
    assert(t == seq![s1] + (seq![s2] + (seq![s3] + Seq::<StepModel>::empty())));
    lemma_released_step(s1, seq![s2] + (seq![s3] + Seq::<StepModel>::empty()));
    lemma_released_step(s2, seq![s3] + Seq::<StepModel>::empty());
    lemma_released_step(s3, Seq::<StepModel>::empty());
    assert(Seq::<usize>::empty() + Seq::<usize>::empty() == Seq::<usize>::empty());
}

/// Release on the failing path too: a specifier that is set and yet does
/// not name both a module and a class ends the resolution with
/// `EntrypointNotFound`, and on the way the name that it does carry is
/// released, exactly once; the null pointer is never released, and where
/// neither name is there nothing is.
pub proof fn lemma_half_named_specifier_releases_its_name(
    kind: FacadeKind,
    identify: DotnetFunctionPtr,
    free: DotnetFunctionPtr,
    specifier: ReplyModel,
    later: Seq<ReplyModel>,
)
    requires
        identify.address != 0,
        free.address != 0,
        specifier matches ReplyModel::Specifier { module_address, class_address, is_set, .. }
            && is_set && (module_address == 0 || class_address == 0),
    ensures
        ({
            let head = seq![ReplyModel::Function(identify), ReplyModel::Function(free), specifier];
            let named = named_addresses(specifier->module_address, specifier->class_address);
            let replies = if named.len() == 0 {
                head + later
            } else {
                head + seq![ReplyModel::Freed] + later
            };
            let start = ResolverModel::start(kind);
            &&& named.len() <= 1
            &&& released(trace(start, replies)) == named
            &&& trace(start, replies).last() == StepModel::Failed(HostFailure::EntrypointNotFound)
            &&& resolver_after(start, replies).phase is Failed
        }),
{
    let named = named_addresses(specifier->module_address, specifier->class_address);
    if named.len() == 0 {
        lemma_nameless_specifier(kind, identify, free, specifier, later);
        let replies = seq![ReplyModel::Function(identify), ReplyModel::Function(free), specifier]
            + later;
        assert(trace(ResolverModel::start(kind), replies).last() == trace(
            ResolverModel::start(kind),
            replies,
        )[2]);
    } else {
        let r0 = ReplyModel::Function(identify);
        let r1 = ReplyModel::Function(free);
        let fr = ReplyModel::Freed;
        let replies = seq![r0, r1, specifier] + seq![fr] + later;
        let m0 = ResolverModel::start(kind);
        let (m1, s1) = m0.after(r0);
        let (m2, s2) = m1.after(r1);
        let (m3, s3) = m2.after(specifier);
        let (m4, s4) = m3.after(fr);
        let q3 = seq![fr] + later;
        let q2 = seq![specifier] + q3;
        let q1 = seq![r1] + q2;
        assert(replies == seq![r0] + q1);
        lemma_trace_step(m0, r0, q1);
        lemma_trace_step(m1, r1, q2);
        lemma_trace_step(m2, specifier, q3);
        lemma_trace_step(m3, fr, later);
        assert(m4.phase is Failed);
        assert(trace(m4, later) == Seq::<StepModel>::empty());
        assert(resolver_after(m4, later) == m4);
        let t4 = Seq::<StepModel>::empty();
        let t3 = seq![s4] + t4;
        let t2 = seq![s3] + t3;
        let t1 = seq![s2] + t2;
        let t0 = seq![s1] + t1;
        assert(trace(m0, replies) == t0);
        assert(t0.last() == s4);
        lemma_released_step(s4, t4);
        lemma_released_step(s3, t3);
        lemma_released_step(s2, t2);
        lemma_released_step(s1, t1);
        assert(released(t3) == Seq::<usize>::empty()) by {
            assert(Seq::<usize>::empty() + Seq::<usize>::empty() == Seq::<usize>::empty());
        }
        assert(released(t2) == named) by {
            assert(named + Seq::<usize>::empty() == named);
        }
        assert(Seq::<usize>::empty() + named == named);
    }
}

/// The null pointer is never released: whatever replies a resolver is
/// given, every address it asks to release is that of a string.
pub proof fn lemma_never_releases_null(resolver: ResolverModel, replies: Seq<ReplyModel>)
    requires
        resolver.wf(),
    ensures
        forall|i: int|
            0 <= i < released(trace(resolver, replies)).len() ==> released(
                trace(resolver, replies),
            )[i] != 0,
    decreases replies.len(),
{
    if replies.len() == 0 || !resolver.expects(replies[0]) {
    } else {
        let (next, step) = resolver.after(replies[0]);
        let rest = trace(next, replies.skip(1));
        lemma_never_releases_null(next, replies.skip(1));
        lemma_released_step(step, rest);
        assert forall|i: int| 0 <= i < released(trace(resolver, replies)).len() implies released(
            trace(resolver, replies),
        )[i] != 0 by {
            if i >= released_by(step).len() {
                assert(released(trace(resolver, replies))[i] == released(rest)[i - released_by(
                    step,
                ).len()]);
            }
        }
    }
}

/// Where the application publishes an entry type, the resolution of either
/// facade releases each of the two names exactly once: first the module's,
/// then the class's, and never anything else, whatever the binding that
/// follows brings.
pub proof fn lemma_set_specifier_releases_each_once(
    kind: FacadeKind,
    identify: DotnetFunctionPtr,
    free: DotnetFunctionPtr,
    specifier: ReplyModel,
    later: Seq<ReplyModel>,
)
    requires
        identify.address != 0,
        free.address != 0,
        specifier matches ReplyModel::Specifier { module_address, class_address, is_set, .. }
            && is_set && module_address != 0 && class_address != 0,
    ensures
        ({
            let replies = seq![
                ReplyModel::Function(identify),
                ReplyModel::Function(free),
                specifier,
                ReplyModel::Freed,
                ReplyModel::Freed,
            ] + later;
            let start = ResolverModel::start(kind);
            released(trace(start, replies)) == seq![
                specifier->module_address,
                specifier->class_address,
            ]
        }),
{
    let r0 = ReplyModel::Function(identify);
    let r1 = ReplyModel::Function(free);
    let fr = ReplyModel::Freed;
    let replies = seq![r0, r1, specifier, fr, fr] + later;
    let m0 = ResolverModel::start(kind);
    let (m1, s1) = m0.after(r0);
    let (m2, s2) = m1.after(r1);
    let (m3, s3) = m2.after(specifier);
    let (m4, s4) = m3.after(fr);
    let (m5, s5) = m4.after(fr);
    let q4 = seq![fr] + later;
    let q3 = seq![fr] + q4;
    let q2 = seq![specifier] + q3;
    let q1 = seq![r1] + q2;
    assert(replies == seq![r0] + q1);
    lemma_trace_step(m0, r0, q1);
    lemma_trace_step(m1, r1, q2);
    lemma_trace_step(m2, specifier, q3);
    lemma_trace_step(m3, fr, q4);
    lemma_trace_step(m4, fr, later);
    assert(m5.wf() && m5.phase is Binding);
    lemma_binding_releases_nothing(m5, later);
    let t5 = trace(m5, later);
    let t4 = seq![s5] + t5;
    let t3 = seq![s4] + t4;
    let t2 = seq![s3] + t3;
    let t1 = seq![s2] + t2;
    lemma_released_step(s5, t5);
    lemma_released_step(s4, t4);
    lemma_released_step(s3, t3);
    lemma_released_step(s2, t2);
    lemma_released_step(s1, t1);
    assert(released(t4) == Seq::<usize>::empty());
    assert(released(t3) == seq![specifier->class_address]) by {
        assert(seq![specifier->class_address] + Seq::<usize>::empty() == seq![
            specifier->class_address,
        ]);
    }
    assert(released(t2) == seq![specifier->module_address, specifier->class_address]) by {
        assert(seq![specifier->module_address] + seq![specifier->class_address] == seq![
            specifier->module_address,
            specifier->class_address,
        ]);
    }
    assert(Seq::<usize>::empty() + released(t2) == released(t2));
}

/// A specifier that names both a module and a class leads to the binding on
/// the class it names: once its two names are released, the resolver asks
/// for the first member of its facade on the qualified name of that class,
/// with nothing bound yet.
pub proof fn lemma_discovery_reaches_binding(
    kind: FacadeKind,
    identify: DotnetFunctionPtr,
    free: DotnetFunctionPtr,
    specifier: ReplyModel,
)
    requires
        identify.address != 0,
        free.address != 0,
        specifier matches ReplyModel::Specifier { module_address, class_address, is_set, .. }
            && is_set && module_address != 0 && class_address != 0,
    ensures
        ({
            let replies = seq![
                ReplyModel::Function(identify),
                ReplyModel::Function(free),
                specifier,
                ReplyModel::Freed,
                ReplyModel::Freed,
            ];
            let start = ResolverModel::start(kind);
            let reached = resolver_after(start, replies);
            let class_name = qualified_name(specifier->class_name, specifier->module);
            &&& reached.wf()
            &&& reached.kind == kind
            &&& reached.phase is Binding
            &&& reached.class_name == class_name
            &&& reached.bound.len() == 0
            &&& trace(start, replies).len() == 5
            &&& trace(start, replies)[4] == StepModel::Request(
                RequestModel::ResolveFunction { class_name, member: kind.members()[0] },
            )
        }),
{
    let r0 = ReplyModel::Function(identify);
    let r1 = ReplyModel::Function(free);
    let fr = ReplyModel::Freed;
    let none = Seq::<ReplyModel>::empty();
    let replies = seq![r0, r1, specifier, fr, fr];
    let m0 = ResolverModel::start(kind);
    let (m1, s1) = m0.after(r0);
    let (m2, s2) = m1.after(r1);
    let (m3, s3) = m2.after(specifier);
    let (m4, s4) = m3.after(fr);
    let (m5, s5) = m4.after(fr);
    let q4 = seq![fr] + none;
    let q3 = seq![fr] + q4;
    let q2 = seq![specifier] + q3;
    let q1 = seq![r1] + q2;
    assert(replies == seq![r0] + q1);
    lemma_trace_step(m0, r0, q1);
    lemma_trace_step(m1, r1, q2);
    lemma_trace_step(m2, specifier, q3);
    lemma_trace_step(m3, fr, q4);
    lemma_trace_step(m4, fr, none);
    assert(trace(m5, none) == Seq::<StepModel>::empty());
    assert(resolver_after(m5, none) == m5);
    let t = trace(m0, replies);
    assert(t == seq![s1] + (seq![s2] + (seq![s3] + (seq![s4] + (seq![s5]
        + Seq::<StepModel>::empty())))));
}

/// Success is owed: where every function asked for resolves, the binding
/// ends bound, and the facade holds, for each member in its order, the
/// address that was given for it, recorded with the member's shape.
pub proof fn lemma_binding_succeeds(resolver: ResolverModel, functions: Seq<DotnetFunctionPtr>)
    requires
        resolver.wf(),
        resolver.phase is Binding,
        functions.len() == resolver.kind.members().len() - resolver.bound.len(),
        forall|i: int| 0 <= i < functions.len() ==> (#[trigger] functions[i]).address != 0,
    ensures
        ({
            let replies = functions.map_values(|ptr: DotnetFunctionPtr| ReplyModel::Function(ptr));
            let end = resolver_after(resolver, replies);
            &&& end.wf()
            &&& end.phase is Bound
            &&& end.kind == resolver.kind
            &&& end.bound.len() == resolver.kind.members().len()
            &&& forall|i: int|
                0 <= i < resolver.bound.len() ==> end.bound[i] == resolver.bound[i]
            &&& forall|i: int|
                0 <= i < functions.len() ==> (#[trigger] end.bound[resolver.bound.len() + i])
                    == bound_reference(
                    resolver.kind.members()[resolver.bound.len() + i],
                    functions[i],
                )
        }),
    decreases functions.len(),
{
    let replies = functions.map_values(|ptr: DotnetFunctionPtr| ReplyModel::Function(ptr));
    assert(replies.len() == functions.len());
    assert(replies[0] == ReplyModel::Function(functions[0]));
    let (next, step) = resolver.after(replies[0]);
    let rest = functions.skip(1);
    let rest_replies = rest.map_values(|ptr: DotnetFunctionPtr| ReplyModel::Function(ptr));
    assert(replies.skip(1) == rest_replies);
    assert(functions[0].address != 0);
    if functions.len() == 1 {
        assert(next.phase is Bound);
        assert(resolver_after(next, rest_replies) == next);
    } else {
        assert(next.phase is Binding);
        assert forall|i: int| 0 <= i < rest.len() implies (#[trigger] rest[i]).address != 0 by {
            assert(rest[i] == functions[i + 1]);
        }
        lemma_binding_succeeds(next, rest);
        let end = resolver_after(next, rest_replies);
        assert forall|i: int| 0 <= i < functions.len() implies (#[trigger] end.bound[resolver.bound.len()
            + i]) == bound_reference(
            resolver.kind.members()[resolver.bound.len() + i],
            functions[i],
        ) by {
            if i == 0 {
                assert(end.bound[resolver.bound.len() as int] == next.bound[
                    resolver.bound.len() as int
                ]);
            } else {
                assert(rest[i - 1] == functions[i]);
                assert(end.bound[next.bound.len() + (i - 1)] == bound_reference(
                    next.kind.members()[next.bound.len() + (i - 1)],
                    rest[i - 1],
                ));
            }
        }
    }
}

} // verus!
