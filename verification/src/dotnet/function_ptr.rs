//! Opaque references to functions of the hosted runtime, and the shapes under
//! which they may be invoked.

use vstd::prelude::*;

verus! {

/// The largest number of arguments that an invocation can carry.
pub const MAX_ARITY: u8 = 12;

/// The two calling conventions under which a reference can be invoked.
#[derive(Clone, Copy, Debug, PartialEq, Eq, Structural)]
pub enum CallingConvention {
    /// The platform's default convention.
    Native,
    /// The convention that the hosted runtime requires for calls across the
    /// boundary.
    System,
}

/// The shape of an invocation: how many arguments it carries and under which
/// convention it is made.
#[derive(Clone, Copy, Debug, PartialEq, Eq, Structural)]
pub struct InvocationShape {
    pub arity: u8,
    pub convention: CallingConvention,
}

impl InvocationShape {
    /// A shape is supported when its arity is within the maximum.
    pub open spec fn spec_is_supported(self) -> bool {
        self.arity <= MAX_ARITY
    }

    /// Whether an invocation of this shape has a trampoline.
    #[verifier::when_used_as_spec(spec_is_supported)]
    pub fn is_supported(self) -> (ok: bool)
        ensures
            ok == self.spec_is_supported(),
    {
        self.arity <= MAX_ARITY
    }

    /// The shape of the given arity and convention, where it is supported.
    pub fn new(arity: u8, convention: CallingConvention) -> (shape: Option<InvocationShape>)
        ensures
            shape is Some <==> arity <= MAX_ARITY,
            shape is Some ==> shape->Some_0 == (InvocationShape { arity, convention }),
    {
        if arity <= MAX_ARITY {
            Some(InvocationShape { arity, convention })
        } else {
            None
        }
    }

    /// The shape under which the hosted runtime implements a function of this
    /// shape.
    pub open spec fn spec_managed(self) -> InvocationShape {
        InvocationShape { arity: self.arity, convention: CallingConvention::System }
    }

    /// The shape under which the hosted runtime implements a function of this
    /// shape: the same arguments, under the runtime's convention.
    #[verifier::when_used_as_spec(spec_managed)]
    pub fn managed(self) -> (shape: InvocationShape)
        ensures
            shape == self.spec_managed(),
    {
        InvocationShape { arity: self.arity, convention: CallingConvention::System }
    }
}

/// Why a reference may not be invoked.
#[derive(Clone, Copy, Debug, PartialEq, Eq, Structural)]
pub enum InvocationError {
    /// The reference is null.
    NullReference,
    /// The requested shape carries more arguments than any trampoline takes.
    UnsupportedArity(u8),
    /// The reference was recorded with another shape than the requested one.
    ShapeMismatch { recorded: InvocationShape, requested: InvocationShape },
    /// The context that issued the reference is not ready, so the reference
    /// is no longer, or not yet, valid.
    ContextNotReady,
}

/// An untyped reference to code of the hosted runtime: an address, and the
/// shape it was recorded with, if any. The address zero is the null
/// reference.
#[derive(Clone, Copy, Debug, PartialEq, Eq, Structural)]
pub struct DotnetFunctionPtr {
    pub address: usize,
    pub shape: Option<InvocationShape>,
}

impl DotnetFunctionPtr {
    /// A reference to the given address, with no shape recorded.
    pub fn new(address: usize) -> (ptr: DotnetFunctionPtr)
        ensures
            ptr == (DotnetFunctionPtr { address, shape: None }),
    {
        DotnetFunctionPtr { address, shape: None }
    }

    /// A reference to the given address, recorded with the shape that the
    /// hosted runtime implements there.
    pub fn with_shape(address: usize, shape: InvocationShape) -> (ptr: DotnetFunctionPtr)
        ensures
            ptr == (DotnetFunctionPtr { address, shape: Some(shape) }),
    {
        DotnetFunctionPtr { address, shape: Some(shape) }
    }

    /// The null reference.
    pub fn null() -> (ptr: DotnetFunctionPtr)
        ensures
            ptr == (DotnetFunctionPtr { address: 0, shape: None }),
    {
        DotnetFunctionPtr { address: 0, shape: None }
    }

    /// Whether this is the null reference.
    pub open spec fn spec_is_null(&self) -> bool {
        self.address == 0
    }

    /// Whether this is the null reference.
    #[verifier::when_used_as_spec(spec_is_null)]
    pub fn is_null(&self) -> (null: bool)
        ensures
            null == self.spec_is_null(),
    {
        self.address == 0
    }

    /// What reinterpreting the reference under a shape gives: the address to
    /// call, or the reason why no call may be made. A null reference is
    /// refused first, then an unsupported arity, then a recorded shape whose
    /// managed form differs from that of the requested one. Every call goes
    /// through the managed form, so the two conventions of one arity are
    /// served alike.
    pub open spec fn spec_reify(&self, requested: InvocationShape) -> Result<
        usize,
        InvocationError,
    > {
        if self.address == 0 {
            Err(InvocationError::NullReference)
        } else if requested.arity > MAX_ARITY {
            Err(InvocationError::UnsupportedArity(requested.arity))
        } else if self.shape is Some && self.shape->Some_0.spec_managed()
            != requested.spec_managed() {
            Err(InvocationError::ShapeMismatch { recorded: self.shape->Some_0, requested })
        } else {
            Ok(self.address)
        }
    }

    /// Reinterprets the reference as a function of the requested shape and
    /// gives the address to call.
    pub fn reify(&self, requested: InvocationShape) -> (target: Result<usize, InvocationError>)
        ensures
            target == self.spec_reify(requested),
            target is Ok <==> !self.spec_is_null() && requested.spec_is_supported() && (
            self.shape is None || self.shape->Some_0.arity == requested.arity),
            target is Ok ==> target->Ok_0 == self.address,
    {
        if self.address == 0 {
            Err(InvocationError::NullReference)
        } else if requested.arity > MAX_ARITY {
            Err(InvocationError::UnsupportedArity(requested.arity))
        } else {
            match self.shape {
                Some(recorded) => {
                    if recorded.arity == requested.arity {
                        Ok(self.address)
                    } else {
                        Err(InvocationError::ShapeMismatch { recorded, requested })
                    }
                },
                None => Ok(self.address),
            }
        }
    }
}

/// For every arity up to the maximum, a non-null reference recorded with a
/// shape of that arity can be reified under either convention of that arity,
/// to its own address, and under no shape of another arity.
pub proof fn lemma_matching_shape_is_invocable(
    address: usize,
    recorded: InvocationShape,
    requested: InvocationShape,
)
    requires
        address != 0,
        recorded.arity <= MAX_ARITY,
    ensures
        ({
            let ptr = DotnetFunctionPtr { address, shape: Some(recorded) };
            &&& requested.arity == recorded.arity ==> ptr.spec_reify(requested) == Ok::<
                usize,
                InvocationError,
            >(address)
            &&& requested.arity != recorded.arity ==> ptr.spec_reify(requested) is Err
        }),
{
}

/// A null reference can be reified under no shape.
pub proof fn lemma_null_is_never_invocable(shape: Option<InvocationShape>, requested: InvocationShape)
    ensures
        (DotnetFunctionPtr { address: 0, shape }).spec_reify(requested) == Err::<
            usize,
            InvocationError,
        >(InvocationError::NullReference),
{
}

} // verus!
