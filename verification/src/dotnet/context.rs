//! The host context: one hosting session, from its initialization to its
//! close.
//!
//! A context never calls the hosting library itself. It says which native
//! call to make, as a request, and is told what the call gave, as a reply.

use crate::dotnet::function_ptr::{DotnetFunctionPtr, InvocationError, InvocationShape};
use crate::dotnet::hostfxr::{
    classify_init_status,
    spec_classify_init_status,
    HostSymbol,
    HostfxrDelegate,
    HOST_SYMBOL_COUNT,
    SUCCESS,
};
use crate::error::{HostError, HostFailure};
use crate::util::wide::{encode_utf16, encode_wide_nul};
use vstd::prelude::*;

verus! {

/// The states of a host context.
#[derive(Clone, Copy, Debug, PartialEq, Eq, Structural)]
pub enum HostState {
    /// Nothing is initialized.
    Unloaded,
    /// The entry symbols are being resolved or the initializer is running.
    Initializing,
    /// The session is initialized: delegates can be resolved and called.
    Ready,
    /// The session is closed. Every reference it issued is invalid.
    Closed,
}

/// What a context waits for.
#[derive(Clone, Copy, Debug, PartialEq, Eq, Structural)]
pub enum Awaited {
    /// No reply is due.
    Nothing,
    /// The address of an entry symbol.
    Symbol(HostSymbol),
    /// The outcome of the runtime-config initializer.
    Initialization,
    /// One of the delegates that every context resolves at startup.
    Delegate(HostfxrDelegate),
}

/// The process-wide slot of initialization: the hosting library supports one
/// initializing context at a time. The embedding program keeps one slot and
/// hands it to every context.
#[derive(Clone, Copy, Debug, PartialEq, Eq, Structural)]
pub struct HostSlot {
    pub initializing: bool,
}

impl HostSlot {
    /// Whether a context may begin its initialization: the slot is free.
    pub open spec fn is_free(self) -> bool {
        !self.initializing
    }

    /// The slot once a context has taken it.
    pub open spec fn taken(self) -> HostSlot {
        HostSlot { initializing: true }
    }

    /// The slot once the context that held it has given it up.
    pub open spec fn released(self) -> HostSlot {
        HostSlot { initializing: false }
    }

    /// A free slot.
    pub fn new() -> (slot: HostSlot)
        ensures
            !slot.initializing,
    {
        HostSlot { initializing: false }
    }

    /// Whether a context holds the slot.
    pub fn is_initializing(&self) -> (busy: bool)
        ensures
            busy == self.initializing,
    {
        self.initializing
    }
}

/// A call to "get runtime delegate".
#[derive(Clone, Copy, Debug, PartialEq, Eq, Structural)]
pub struct DelegateCall {
    /// The address of the hosting library's entry to call.
    pub entry: usize,
    /// The handle of the session.
    pub handle: usize,
    /// The kind of delegate to ask for.
    pub kind: HostfxrDelegate,
}

/// A call to "close".
#[derive(Clone, Copy, Debug, PartialEq, Eq, Structural)]
pub struct CloseCall {
    /// The address of the hosting library's entry to call.
    pub entry: usize,
    /// The handle of the session to close.
    pub handle: usize,
}

/// A call of the "load assembly" delegate.
#[derive(Debug, PartialEq, Eq)]
pub struct LoadAssemblyCall {
    /// The delegate to invoke.
    pub delegate: DotnetFunctionPtr,
    /// The path of the assembly, as terminated wide text.
    pub path: Vec<u16>,
}

/// A call of the "get function pointer" delegate.
#[derive(Debug, PartialEq, Eq)]
pub struct FunctionPointerCall {
    /// The delegate to invoke.
    pub delegate: DotnetFunctionPtr,
    /// The qualified name of the type, as terminated wide text.
    pub class_name: Vec<u16>,
    /// The name of the method, as terminated wide text.
    pub method_name: Vec<u16>,
    /// The qualified name of the delegate type, as terminated wide text.
    pub delegate_type_name: Vec<u16>,
}

/// A native call that the initialization of a context asks for.
#[derive(Debug, PartialEq, Eq)]
pub enum HostRequest {
    /// Look the symbol up in the hosting library, by its exact name.
    ResolveSymbol(HostSymbol),
    /// Call the initializer at `entry` with the path of the runtime
    /// configuration, as terminated wide text, and no parameters.
    InitializeForRuntimeConfig { entry: usize, config_path: Vec<u16> },
    /// Ask the session for a delegate.
    GetRuntimeDelegate(DelegateCall),
}

/// What a native call of the initialization gave.
#[derive(Clone, Copy, Debug, PartialEq, Eq, Structural)]
pub enum HostReply {
    /// The address of the symbol; zero where the library does not export it.
    Symbol(usize),
    /// The initializer's status and the session handle it wrote.
    Initialized { status: i32, handle: usize },
    /// The status of "get runtime delegate" and the address it wrote.
    Delegate { status: i32, address: usize },
}

/// How the initialization goes on after a reply.
#[derive(Debug, PartialEq, Eq)]
pub enum HostStep {
    /// Make this call next.
    Request(HostRequest),
    /// The context is ready and its startup delegates are resolved.
    Done,
    /// The initialization failed.
    Failed(HostError),
}

/// A request as a plain value.
pub enum HostRequestModel {
    ResolveSymbol(HostSymbol),
    InitializeForRuntimeConfig { entry: usize, config_path: Seq<u16> },
    GetRuntimeDelegate(DelegateCall),
}

/// A step as a plain value.
pub enum HostStepModel {
    Request(HostRequestModel),
    Done,
    Failed(HostFailure),
}

impl View for HostRequest {
    type V = HostRequestModel;

    open spec fn view(&self) -> HostRequestModel {
        match self {
            HostRequest::ResolveSymbol(symbol) => HostRequestModel::ResolveSymbol(*symbol),
            HostRequest::InitializeForRuntimeConfig { entry, config_path } =>
                HostRequestModel::InitializeForRuntimeConfig {
                entry: *entry,
                config_path: config_path@,
            },
            HostRequest::GetRuntimeDelegate(call) => HostRequestModel::GetRuntimeDelegate(*call),
        }
    }
}

impl View for HostStep {
    type V = HostStepModel;

    open spec fn view(&self) -> HostStepModel {
        match self {
            HostStep::Request(request) => HostStepModel::Request(request@),
            HostStep::Done => HostStepModel::Done,
            HostStep::Failed(error) => HostStepModel::Failed(error@),
        }
    }
}

/// The delegate that startup resolves after the given one, if any: first
/// "get function pointer", then "load assembly", then "load assembly
/// bytes".
pub open spec fn next_startup_delegate(kind: HostfxrDelegate) -> Option<HostfxrDelegate> {
    match kind {
        HostfxrDelegate::GetFunctionPointer => Some(HostfxrDelegate::LoadAssembly),
        HostfxrDelegate::LoadAssembly => Some(HostfxrDelegate::LoadAssemblyBytes),
        _ => None,
    }
}

/// Whether startup resolves the delegate of the given kind.
pub open spec fn is_startup_delegate(kind: HostfxrDelegate) -> bool {
    kind is GetFunctionPointer || kind is LoadAssembly || kind is LoadAssemblyBytes
}

/// What a context is.
pub struct ContextModel {
    pub state: HostState,
    pub awaited: Awaited,
    /// The path of the runtime configuration, as terminated wide text.
    pub config_path: Seq<u16>,
    /// The addresses of the entry symbols resolved so far, in their order.
    pub symbols: Seq<usize>,
    /// The handle of the session; zero while there is none.
    pub handle: usize,
    /// The "get function pointer" delegate; null until resolved.
    pub get_fptr: DotnetFunctionPtr,
    /// The "load assembly" delegate; null until resolved.
    pub load_assembly: DotnetFunctionPtr,
    /// The "load assembly bytes" delegate; null until resolved.
    pub load_assembly_bytes: DotnetFunctionPtr,
}

impl ContextModel {
    /// Well-formedness: what is awaited fits the state, and the symbols
    /// resolved so far are those before the awaited one.
    pub open spec fn wf(self) -> bool {
        &&& forall|i: int| 0 <= i < self.symbols.len() ==> self.symbols[i] != 0
        &&& match self.state {
            HostState::Unloaded => self.awaited is Nothing && self.symbols.len() == 0,
            HostState::Initializing => match self.awaited {
                Awaited::Symbol(symbol) => self.symbols.len() == symbol.spec_index(),
                Awaited::Initialization => self.symbols.len() == HOST_SYMBOL_COUNT,
                _ => false,
            },
            HostState::Ready => self.symbols.len() == HOST_SYMBOL_COUNT && match self.awaited {
                Awaited::Nothing => true,
                Awaited::Delegate(kind) => is_startup_delegate(kind),
                _ => false,
            },
            HostState::Closed => self.awaited is Nothing,
        }
    }

    /// Whether the reply is the one that the context waits for.
    pub open spec fn expects(self, reply: HostReply) -> bool {
        match self.awaited {
            Awaited::Nothing => false,
            Awaited::Symbol(_) => reply is Symbol,
            Awaited::Initialization => reply is Initialized,
            Awaited::Delegate(_) => reply is Delegate,
        }
    }

    /// The address of a resolved entry symbol.
    pub open spec fn entry(self, symbol: HostSymbol) -> usize {
        self.symbols[symbol.spec_index()]
    }

    /// The context with a startup delegate recorded.
    pub open spec fn with_delegate(self, kind: HostfxrDelegate, ptr: DotnetFunctionPtr)
        -> ContextModel {
        match kind {
            HostfxrDelegate::GetFunctionPointer => ContextModel { get_fptr: ptr, ..self },
            HostfxrDelegate::LoadAssembly => ContextModel { load_assembly: ptr, ..self },
            HostfxrDelegate::LoadAssemblyBytes => ContextModel { load_assembly_bytes: ptr, ..self },
            _ => self,
        }
    }

    /// The context thrown back to where nothing is initialized.
    pub open spec fn unloaded(self) -> ContextModel {
        ContextModel {
            state: HostState::Unloaded,
            awaited: Awaited::Nothing,
            symbols: Seq::empty(),
            handle: 0,
            ..self
        }
    }

    /// The context and the step after a reply that it expects.
    ///
    /// A missing symbol fails the initialization with that symbol. A resolved
    /// one is recorded, and the next is asked for; after the last, the
    /// initializer is called. An initializer status that counts as success
    /// makes the context ready with the handle, and startup goes on to ask
    /// for its delegates; any other status fails with that code. A delegate
    /// reply with a non-zero status fails with its kind and leaves the
    /// context ready; otherwise the delegate is recorded and the next one
    /// asked for, until startup is done.
    pub open spec fn after(self, reply: HostReply) -> (ContextModel, HostStepModel) {
        match (self.awaited, reply) {
            (Awaited::Symbol(symbol), HostReply::Symbol(address)) => {
                if address == 0 {
                    (
                        self.unloaded(),
                        HostStepModel::Failed(HostFailure::SymbolResolutionFailed(symbol)),
                    )
                } else if symbol.spec_index() + 1 < HOST_SYMBOL_COUNT {
                    let next = HostSymbol::spec_at(symbol.spec_index() + 1);
                    (
                        ContextModel {
                            awaited: Awaited::Symbol(next),
                            symbols: self.symbols.push(address),
                            ..self
                        },
                        HostStepModel::Request(HostRequestModel::ResolveSymbol(next)),
                    )
                } else {
                    let symbols = self.symbols.push(address);
                    (
                        ContextModel { awaited: Awaited::Initialization, symbols, ..self },
                        HostStepModel::Request(
                            HostRequestModel::InitializeForRuntimeConfig {
                                entry: symbols[HostSymbol::InitializeForRuntimeConfig.spec_index()],
                                config_path: self.config_path,
                            },
                        ),
                    )
                }
            },
            (Awaited::Initialization, HostReply::Initialized { status, handle }) => {
                if spec_classify_init_status(status).spec_is_success() {
                    (
                        ContextModel {
                            state: HostState::Ready,
                            awaited: Awaited::Delegate(HostfxrDelegate::GetFunctionPointer),
                            handle,
                            ..self
                        },
                        HostStepModel::Request(
                            HostRequestModel::GetRuntimeDelegate(
                                DelegateCall {
                                    entry: self.entry(HostSymbol::GetRuntimeDelegate),
                                    handle,
                                    kind: HostfxrDelegate::GetFunctionPointer,
                                },
                            ),
                        ),
                    )
                } else {
                    (
                        self.unloaded(),
                        HostStepModel::Failed(HostFailure::HostInitializationFailed(status)),
                    )
                }
            },
            (Awaited::Delegate(kind), HostReply::Delegate { status, address }) => {
                if status != SUCCESS {
                    (
                        ContextModel { awaited: Awaited::Nothing, ..self },
                        HostStepModel::Failed(HostFailure::DelegateResolutionFailed(kind)),
                    )
                } else {
                    let recorded = self.with_delegate(
                        kind,
                        DotnetFunctionPtr { address, shape: None },
                    );
                    match next_startup_delegate(kind) {
                        Some(next) => (
                            ContextModel { awaited: Awaited::Delegate(next), ..recorded },
                            HostStepModel::Request(
                                HostRequestModel::GetRuntimeDelegate(
                                    DelegateCall {
                                        entry: self.entry(HostSymbol::GetRuntimeDelegate),
                                        handle: self.handle,
                                        kind: next,
                                    },
                                ),
                            ),
                        ),
                        None => (
                            ContextModel { awaited: Awaited::Nothing, ..recorded },
                            HostStepModel::Done,
                        ),
                    }
                }
            },
            _ => (self, HostStepModel::Done),
        }
    }

    /// The context after its close.
    pub open spec fn closed(self) -> ContextModel {
        ContextModel { state: HostState::Closed, awaited: Awaited::Nothing, ..self }
    }

    /// Whether, and where, a reference may be invoked through this context:
    /// only while the context is ready, and then as the reference itself
    /// allows.
    pub open spec fn invocation_target(self, ptr: DotnetFunctionPtr, shape: InvocationShape)
        -> Result<usize, InvocationError> {
        if self.state is Ready {
            ptr.spec_reify(shape)
        } else {
            Err(InvocationError::ContextNotReady)
        }
    }
}

/// One hosting session.
#[derive(Debug)]
pub struct DotnetContext {
    state: HostState,
    awaited: Awaited,
    config_path: Vec<u16>,
    symbols: Vec<usize>,
    hostfxr_handle: usize,
    delegate_get_fptr: DotnetFunctionPtr,
    delegate_load_assembly: DotnetFunctionPtr,
    delegate_load_assembly_bytes: DotnetFunctionPtr,
}

impl View for DotnetContext {
    type V = ContextModel;

    closed spec fn view(&self) -> ContextModel {
        ContextModel {
            state: self.state,
            awaited: self.awaited,
            config_path: self.config_path@,
            symbols: self.symbols@,
            handle: self.hostfxr_handle,
            get_fptr: self.delegate_get_fptr,
            load_assembly: self.delegate_load_assembly,
            load_assembly_bytes: self.delegate_load_assembly_bytes,
        }
    }
}

/// Begins the initialization of a context against the runtime configuration
/// at the given path.
///
/// Fails with `HostAlreadyInitializing`, and leaves the slot as it is, while
/// another context holds the slot. Otherwise the slot is taken, and the
/// context waits for the first entry symbol, which the returned request asks
/// for.
pub fn create_context(slot: &mut HostSlot, runtimeconfig_path: &str) -> (started: Result<
    (DotnetContext, HostRequest),
    HostError,
>)
    ensures
        started is Ok <==> old(slot).is_free(),
        started is Err ==> started->Err_0@ == HostFailure::HostAlreadyInitializing && *final(slot)
            == *old(slot),
        started is Ok ==> {
            let (context, request) = started->Ok_0;
            &&& *final(slot) == old(slot).taken()
            &&& context@.wf()
            &&& context@ == (ContextModel {
                state: HostState::Initializing,
                awaited: Awaited::Symbol(HostSymbol::InitializeForDotnetCommandLine),
                config_path: encode_utf16(runtimeconfig_path@).push(0u16),
                symbols: Seq::empty(),
                handle: 0,
                get_fptr: DotnetFunctionPtr { address: 0, shape: None },
                load_assembly: DotnetFunctionPtr { address: 0, shape: None },
                load_assembly_bytes: DotnetFunctionPtr { address: 0, shape: None },
            })
            &&& request@ == HostRequestModel::ResolveSymbol(
                HostSymbol::InitializeForDotnetCommandLine,
            )
        },
{
    if slot.initializing {
        return Err(HostError::HostAlreadyInitializing);
    }
    slot.initializing = true;
    let context = DotnetContext {
        state: HostState::Initializing,
        awaited: Awaited::Symbol(HostSymbol::InitializeForDotnetCommandLine),
        config_path: encode_wide_nul(runtimeconfig_path),
        symbols: Vec::new(),
        hostfxr_handle: 0,
        delegate_get_fptr: DotnetFunctionPtr::null(),
        delegate_load_assembly: DotnetFunctionPtr::null(),
        delegate_load_assembly_bytes: DotnetFunctionPtr::null(),
    };
    Ok((context, HostRequest::ResolveSymbol(HostSymbol::InitializeForDotnetCommandLine)))
}

impl DotnetContext {
    /// The state of the context.
    pub fn state(&self) -> (state: HostState)
        ensures
            state == self@.state,
    {
        self.state
    }

    /// What the context waits for.
    pub fn awaited(&self) -> (awaited: Awaited)
        ensures
            awaited == self@.awaited,
    {
        self.awaited
    }

    /// Whether the reply is the one that the context waits for.
    pub fn expects(&self, reply: &HostReply) -> (expected: bool)
        ensures
            expected == self@.expects(*reply),
    {
        match self.awaited {
            Awaited::Nothing => false,
            Awaited::Symbol(_) => match reply {
                HostReply::Symbol(_) => true,
                _ => false,
            },
            Awaited::Initialization => match reply {
                HostReply::Initialized { .. } => true,
                _ => false,
            },
            Awaited::Delegate(_) => match reply {
                HostReply::Delegate { .. } => true,
                _ => false,
            },
        }
    }

    /// The handle of the session; zero while there is none.
    pub fn handle(&self) -> (handle: usize)
        ensures
            handle == self@.handle,
    {
        self.hostfxr_handle
    }

    /// The address of an entry symbol, once it is resolved.
    pub fn symbol(&self, symbol: HostSymbol) -> (address: Option<usize>)
        ensures
            address == if symbol.spec_index() < self@.symbols.len() {
                Some(self@.symbols[symbol.spec_index()])
            } else {
                None
            },
    {
        let index = symbol.index();
        if index < self.symbols.len() {
            Some(self.symbols[index])
        } else {
            None
        }
    }

    /// The startup delegate of the given kind as the context holds it: null
    /// until it is resolved, and for a kind that startup does not resolve.
    pub fn startup_delegate(&self, kind: HostfxrDelegate) -> (ptr: DotnetFunctionPtr)
        ensures
            ptr == match kind {
                HostfxrDelegate::GetFunctionPointer => self@.get_fptr,
                HostfxrDelegate::LoadAssembly => self@.load_assembly,
                HostfxrDelegate::LoadAssemblyBytes => self@.load_assembly_bytes,
                _ => DotnetFunctionPtr { address: 0, shape: None },
            },
    {
        match kind {
            HostfxrDelegate::GetFunctionPointer => self.delegate_get_fptr,
            HostfxrDelegate::LoadAssembly => self.delegate_load_assembly,
            HostfxrDelegate::LoadAssemblyBytes => self.delegate_load_assembly_bytes,
            _ => DotnetFunctionPtr::null(),
        }
    }

    /// Throws the context back to unloaded and gives the slot up.
    fn fail_initialization(&mut self, slot: &mut HostSlot)
        ensures
            final(self)@ == old(self)@.unloaded(),
            !final(slot).initializing,
    {
        self.state = HostState::Unloaded;
        self.awaited = Awaited::Nothing;
        self.symbols = Vec::new();
        self.hostfxr_handle = 0;
        slot.initializing = false;
    }

    /// Keeps a startup delegate in its place.
    fn record_delegate(&mut self, kind: HostfxrDelegate, ptr: DotnetFunctionPtr)
        ensures
            final(self)@ == old(self)@.with_delegate(kind, ptr),
    {
        match kind {
            HostfxrDelegate::GetFunctionPointer => {
                self.delegate_get_fptr = ptr;
            },
            HostfxrDelegate::LoadAssembly => {
                self.delegate_load_assembly = ptr;
            },
            HostfxrDelegate::LoadAssemblyBytes => {
                self.delegate_load_assembly_bytes = ptr;
            },
            _ => {},
        }
    }

    /// Takes the reply to the call that the context asked for, and says how
    /// the initialization goes on.
    ///
    /// The slot is given up where the context stops initializing, ready or
    /// failed, and is otherwise kept as it is.
    pub fn advance(&mut self, slot: &mut HostSlot, reply: HostReply) -> (step: HostStep)
        requires
            old(self)@.wf(),
            old(self)@.expects(reply),
            old(self)@.state is Initializing ==> old(slot).initializing,
        ensures
            final(self)@.wf(),
            (final(self)@, step@) == old(self)@.after(reply),
            *final(slot) == slot_after(old(self)@, *old(slot), reply),
    {
        match (self.awaited, reply) {
            (Awaited::Symbol(symbol), HostReply::Symbol(address)) => {
                if address == 0 {
                    self.fail_initialization(slot);
                    HostStep::Failed(HostError::SymbolResolutionFailed(symbol))
                } else {
                    self.symbols.push(address);
                    let index = symbol.index();
                    if index + 1 < HOST_SYMBOL_COUNT {
                        let next = HostSymbol::at(index + 1);
                        self.awaited = Awaited::Symbol(next);
                        HostStep::Request(HostRequest::ResolveSymbol(next))
                    } else {
                        self.awaited = Awaited::Initialization;
                        let config_path = self.config_path.clone();
                        assert(config_path@ =~= self.config_path@);
                        HostStep::Request(
                            HostRequest::InitializeForRuntimeConfig {
                                entry: self.symbols[HostSymbol::InitializeForRuntimeConfig.index()],
                                config_path,
                            },
                        )
                    }
                }
            },
            (Awaited::Initialization, HostReply::Initialized { status, handle }) => {
                if classify_init_status(status).is_success() {
                    self.state = HostState::Ready;
                    self.awaited = Awaited::Delegate(HostfxrDelegate::GetFunctionPointer);
                    self.hostfxr_handle = handle;
                    slot.initializing = false;
                    HostStep::Request(
                        HostRequest::GetRuntimeDelegate(
                            DelegateCall {
                                entry: self.symbols[HostSymbol::GetRuntimeDelegate.index()],
                                handle,
                                kind: HostfxrDelegate::GetFunctionPointer,
                            },
                        ),
                    )
                } else {
                    self.fail_initialization(slot);
                    HostStep::Failed(HostError::HostInitializationFailed(status))
                }
            },
            (Awaited::Delegate(kind), HostReply::Delegate { status, address }) => {
                if status != SUCCESS {
                    self.awaited = Awaited::Nothing;
                    HostStep::Failed(HostError::DelegateResolutionFailed(kind))
                } else {
                    self.record_delegate(kind, DotnetFunctionPtr::new(address));
                    let next = match kind {
                        HostfxrDelegate::GetFunctionPointer => Some(HostfxrDelegate::LoadAssembly),
                        HostfxrDelegate::LoadAssembly => Some(HostfxrDelegate::LoadAssemblyBytes),
                        _ => None,
                    };
                    match next {
                        Some(next) => {
                            self.awaited = Awaited::Delegate(next);
                            HostStep::Request(
                                HostRequest::GetRuntimeDelegate(
                                    DelegateCall {
                                        entry: self.symbols[HostSymbol::GetRuntimeDelegate.index()],
                                        handle: self.hostfxr_handle,
                                        kind: next,
                                    },
                                ),
                            )
                        },
                        None => {
                            self.awaited = Awaited::Nothing;
                            HostStep::Done
                        },
                    }
                }
            },
            _ => HostStep::Done,
        }
    }

    /// The call that asks the session for a delegate of the given kind.
    pub fn get_delegate(&self, kind: HostfxrDelegate) -> (call: DelegateCall)
        requires
            self@.wf(),
            self@.state is Ready,
        ensures
            call == (DelegateCall {
                entry: self@.entry(HostSymbol::GetRuntimeDelegate),
                handle: self@.handle,
                kind,
            }),
            call.entry != 0,
    {
        DelegateCall {
            entry: self.symbols[HostSymbol::GetRuntimeDelegate.index()],
            handle: self.hostfxr_handle,
            kind,
        }
    }

    /// What the answer to a delegate call means: the delegate, as a
    /// reference, for status zero, and `DelegateResolutionFailed` with the
    /// kind for every other status.
    pub fn delegate_resolved(&self, kind: HostfxrDelegate, status: i32, address: usize) -> (resolved:
        Result<DotnetFunctionPtr, HostError>)
        requires
            self@.state is Ready,
        ensures
            resolved is Ok <==> status == SUCCESS,
            resolved is Ok ==> resolved->Ok_0 == (DotnetFunctionPtr { address, shape: None }),
            resolved is Err ==> resolved->Err_0@ == HostFailure::DelegateResolutionFailed(kind),
    {
        if status == SUCCESS {
            Ok(DotnetFunctionPtr::new(address))
        } else {
            Err(HostError::DelegateResolutionFailed(kind))
        }
    }

    /// The call that loads the assembly at the given path: the "load
    /// assembly" delegate, with the path as terminated wide text.
    pub fn load_assembly(&self, path: &str) -> (call: LoadAssemblyCall)
        requires
            self@.state is Ready,
            !self@.load_assembly.spec_is_null(),
        ensures
            call.delegate == self@.load_assembly,
            call.path@ == encode_utf16(path@).push(0u16),
    {
        LoadAssemblyCall { delegate: self.delegate_load_assembly, path: encode_wide_nul(path) }
    }

    /// What the status of a "load assembly" call means: the assembly is
    /// loaded for status zero, and `AssemblyLoadFailed` with the path for
    /// every other status.
    pub fn assembly_loaded(&self, path: &str, status: i32) -> (loaded: Result<(), HostError>)
        requires
            self@.state is Ready,
        ensures
            loaded is Ok <==> status == SUCCESS,
            loaded is Err ==> loaded->Err_0@ == HostFailure::AssemblyLoadFailed(path@),
    {
        if status == SUCCESS {
            Ok(())
        } else {
            Err(HostError::AssemblyLoadFailed(path.to_owned()))
        }
    }

    /// The call that resolves a function of the hosted runtime by the names
    /// of its type, its method and its delegate type: the "get function
    /// pointer" delegate, with the names as terminated wide text.
    pub fn get_fn_pointer(&self, class_name: &str, method_name: &str, delegate_type_name: &str) -> (call:
        FunctionPointerCall)
        requires
            self@.state is Ready,
            !self@.get_fptr.spec_is_null(),
        ensures
            call.delegate == self@.get_fptr,
            call.class_name@ == encode_utf16(class_name@).push(0u16),
            call.method_name@ == encode_utf16(method_name@).push(0u16),
            call.delegate_type_name@ == encode_utf16(delegate_type_name@).push(0u16),
    {
        FunctionPointerCall {
            delegate: self.delegate_get_fptr,
            class_name: encode_wide_nul(class_name),
            method_name: encode_wide_nul(method_name),
            delegate_type_name: encode_wide_nul(delegate_type_name),
        }
    }

    /// What the address written by a "get function pointer" call means: a
    /// reference to it, or `FunctionNotFound` with the three names where it
    /// is null.
    pub fn function_resolved(
        &self,
        class_name: &str,
        method_name: &str,
        delegate_type_name: &str,
        address: usize,
    ) -> (resolved: Result<DotnetFunctionPtr, HostError>)
        requires
            self@.state is Ready,
        ensures
            resolved is Ok <==> address != 0,
            resolved is Ok ==> resolved->Ok_0 == (DotnetFunctionPtr { address, shape: None }),
            resolved is Err ==> resolved->Err_0@ == (HostFailure::FunctionNotFound {
                class_name: class_name@,
                method_name: method_name@,
                delegate_type_name: delegate_type_name@,
            }),
    {
        if address != 0 {
            Ok(DotnetFunctionPtr::new(address))
        } else {
            Err(
                HostError::FunctionNotFound {
                    class_name: class_name.to_owned(),
                    method_name: method_name.to_owned(),
                    delegate_type_name: delegate_type_name.to_owned(),
                },
            )
        }
    }

    /// Closes the session: the context is closed from here on, and the
    /// returned call tells the hosting library so.
    pub fn close(&mut self) -> (call: CloseCall)
        requires
            old(self)@.wf(),
            old(self)@.state is Ready,
        ensures
            final(self)@.wf(),
            final(self)@ == old(self)@.closed(),
            call == (CloseCall {
                entry: old(self)@.entry(HostSymbol::Close),
                handle: old(self)@.handle,
            }),
            forall|ptr: DotnetFunctionPtr, shape: InvocationShape|
                #[trigger] final(self)@.invocation_target(ptr, shape) == Err::<
                    usize,
                    InvocationError,
                >(InvocationError::ContextNotReady),
    {
        self.state = HostState::Closed;
        self.awaited = Awaited::Nothing;
        CloseCall {
            entry: self.symbols[HostSymbol::Close.index()],
            handle: self.hostfxr_handle,
        }
    }

    /// Where to call to invoke a reference under a shape, or why no call may
    /// be made: references are valid only while the context is ready.
    pub fn invocation_target(&self, ptr: &DotnetFunctionPtr, shape: InvocationShape) -> (target:
        Result<usize, InvocationError>)
        ensures
            target == self@.invocation_target(*ptr, shape),
    {
        match self.state {
            HostState::Ready => ptr.reify(shape),
            _ => Err(InvocationError::ContextNotReady),
        }
    }
}

/// The slot after a step of a context: a context that was initializing
/// holds it for as long as it still is, and another context leaves it
/// alone.
pub open spec fn slot_after(context: ContextModel, slot: HostSlot, reply: HostReply) -> HostSlot {
    if context.state is Initializing {
        HostSlot { initializing: context.after(reply).0.state is Initializing }
    } else {
        slot
    }
}

/// The context and the slot that a sequence of replies leads to. The run
/// stops at the first reply that is not the expected one.
pub open spec fn run_with_slot(context: ContextModel, slot: HostSlot, replies: Seq<HostReply>) -> (
    ContextModel,
    HostSlot,
)
    decreases replies.len(),
{
    if replies.len() == 0 || !context.expects(replies[0]) {
        (context, slot)
    } else {
        run_with_slot(
            context.after(replies[0]).0,
            slot_after(context, slot, replies[0]),
            replies.skip(1),
        )
    }
}

/// One initializer at a time: however far the initialization of a context
/// has come, the slot it took is held exactly while the context is
/// initializing. So of two initializations that overlap, the second is
/// refused, and once the first is ready or has failed the slot is free
/// again.
pub proof fn lemma_slot_holds_one(context: ContextModel, slot: HostSlot, replies: Seq<HostReply>)
    requires
        context.wf(),
        slot.initializing == (context.state is Initializing),
    ensures
        ({
            let (reached, held) = run_with_slot(context, slot, replies);
            &&& reached.wf()
            &&& held.initializing == (reached.state is Initializing)
            &&& held.is_free() == !(reached.state is Initializing)
        }),
    decreases replies.len(),
{
    if replies.len() == 0 || !context.expects(replies[0]) {
    } else {
        lemma_slot_holds_one(
            context.after(replies[0]).0,
            slot_after(context, slot, replies[0]),
            replies.skip(1),
        );
    }
}

/// A closed context stays closed and refuses every reference: it expects no
/// reply, and whatever reference is presented under whatever shape, no
/// invocation target is given.
pub proof fn lemma_closed_context_is_inert(
    context: ContextModel,
    reply: HostReply,
    ptr: DotnetFunctionPtr,
    shape: InvocationShape,
)
    requires
        context.wf(),
    ensures
        context.closed().wf(),
        context.closed().state is Closed,
        !context.closed().expects(reply),
        context.closed().invocation_target(ptr, shape) == Err::<usize, InvocationError>(
            InvocationError::ContextNotReady,
        ),
{
}

/// The context that a sequence of replies leads to, and the last step. Each
/// reply must be the expected one; the run stops at the first that is not.
pub open spec fn run(context: ContextModel, replies: Seq<HostReply>) -> (ContextModel, HostStepModel)
    decreases replies.len(),
{
    if replies.len() == 0 || !context.expects(replies[0]) {
        (context, HostStepModel::Done)
    } else {
        let (next, step) = context.after(replies[0]);
        if replies.len() == 1 {
            (next, step)
        } else {
            run(next, replies.skip(1))
        }
    }
}

/// The context in which an initialization begins.
pub open spec fn starting_context(config_path: Seq<u16>) -> ContextModel {
    ContextModel {
        state: HostState::Initializing,
        awaited: Awaited::Symbol(HostSymbol::InitializeForDotnetCommandLine),
        config_path,
        symbols: Seq::empty(),
        handle: 0,
        get_fptr: DotnetFunctionPtr { address: 0, shape: None },
        load_assembly: DotnetFunctionPtr { address: 0, shape: None },
        load_assembly_bytes: DotnetFunctionPtr { address: 0, shape: None },
    }
}

/// Success is owed: where the library exports every entry symbol, the
/// initializer reports a status that counts as success, and the session
/// hands out the three startup delegates, the initialization ends with the
/// context ready, holding the handle, the symbols and the delegates it was
/// given.
pub proof fn lemma_initialization_succeeds(
    config_path: Seq<u16>,
    symbols: Seq<usize>,
    status: i32,
    handle: usize,
    delegates: Seq<usize>,
)
    requires
        symbols.len() == HOST_SYMBOL_COUNT,
        forall|i: int| 0 <= i < symbols.len() ==> symbols[i] != 0,
        0 <= status <= 2,
        delegates.len() == 3,
    ensures
        ({
            let replies = seq![
                HostReply::Symbol(symbols[0]),
                HostReply::Symbol(symbols[1]),
                HostReply::Symbol(symbols[2]),
                HostReply::Symbol(symbols[3]),
                HostReply::Symbol(symbols[4]),
                HostReply::Initialized { status, handle },
                HostReply::Delegate { status: SUCCESS, address: delegates[0] },
                HostReply::Delegate { status: SUCCESS, address: delegates[1] },
                HostReply::Delegate { status: SUCCESS, address: delegates[2] },
            ];
            let (context, step) = run(starting_context(config_path), replies);
            &&& step == HostStepModel::Done
            &&& context.wf()
            &&& context.state is Ready
            &&& context.awaited is Nothing
            &&& context.handle == handle
            &&& context.symbols == symbols
            &&& context.get_fptr == (DotnetFunctionPtr { address: delegates[0], shape: None })
            &&& context.load_assembly == (DotnetFunctionPtr { address: delegates[1], shape: None })
            &&& context.load_assembly_bytes == (DotnetFunctionPtr {
                address: delegates[2],
                shape: None,
            })
        }),
{
    let replies = seq![
        HostReply::Symbol(symbols[0]),
        HostReply::Symbol(symbols[1]),
        HostReply::Symbol(symbols[2]),
        HostReply::Symbol(symbols[3]),
        HostReply::Symbol(symbols[4]),
        HostReply::Initialized { status, handle },
        HostReply::Delegate { status: SUCCESS, address: delegates[0] },
        HostReply::Delegate { status: SUCCESS, address: delegates[1] },
        HostReply::Delegate { status: SUCCESS, address: delegates[2] },
    ];
    let c0 = starting_context(config_path);
    let (c1, _) = c0.after(replies[0]);
    let (c2, _) = c1.after(replies[1]);
    let (c3, _) = c2.after(replies[2]);
    let (c4, _) = c3.after(replies[3]);
    let (c5, _) = c4.after(replies[4]);
    let (c6, _) = c5.after(replies[5]);
    let (c7, _) = c6.after(replies[6]);
    let (c8, _) = c7.after(replies[7]);
    let (c9, s9) = c8.after(replies[8]);
    let r1 = replies.skip(1);
    let r2 = r1.skip(1);
    let r3 = r2.skip(1);
    let r4 = r3.skip(1);
    let r5 = r4.skip(1);
    let r6 = r5.skip(1);
    let r7 = r6.skip(1);
    let r8 = r7.skip(1);
    assert(r8.len() == 1 && r8[0] == replies[8]);
    assert(run(c8, r8) == (c9, s9));
    assert(r7[0] == replies[7]);
    assert(run(c7, r7) == run(c8, r8));
    assert(r6[0] == replies[6]);
    assert(run(c6, r6) == run(c7, r7));
    assert(r5[0] == replies[5]);
    assert(run(c5, r5) == run(c6, r6));
    assert(r4[0] == replies[4]);
    assert(run(c4, r4) == run(c5, r5));
    assert(r3[0] == replies[3]);
    assert(run(c3, r3) == run(c4, r4));
    assert(r2[0] == replies[2]);
    assert(run(c2, r2) == run(c3, r3));
    assert(r1[0] == replies[1]);
    assert(run(c1, r1) == run(c2, r2));
    assert(run(c0, replies) == run(c1, r1));
    assert(c9.symbols =~= symbols);
}

/// A step keeps a context well-formed, and only a reply that ends the
/// initialization moves it out of the initializing state: to ready on
/// success, back to unloaded on failure.
pub proof fn lemma_step_preserves_wf(context: ContextModel, reply: HostReply)
    requires
        context.wf(),
        context.expects(reply),
    ensures
        context.after(reply).0.wf(),
        context.after(reply).1 is Failed && context.state is Initializing ==> context.after(
            reply,
        ).0.state is Unloaded,
        context.state is Ready ==> context.after(reply).0.state is Ready,
        !(context.after(reply).0.state is Closed),
{
}

} // verus!
