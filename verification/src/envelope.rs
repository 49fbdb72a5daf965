//! The two envelopes that may cross the yield channel.
//!
//! The channel carries one erased type with a runtime type identity. A
//! `YieldedFuture` travels from a hostcall to the driver and stands for a
//! suspended computation; a `ResumeVal` travels back and carries its outcome.
//! Their fields are private: only `Vmctx::block_on` makes a `YieldedFuture`,
//! and only resolving one makes a `ResumeVal`.

use vstd::prelude::*;

verus! {

/// The runtime identity of a type.
#[derive(Clone, Copy, Debug, PartialEq, Eq, Structural)]
pub struct TypeTag(pub u64);

/// A boxed outcome of an awaited computation, with the identity of its type.
#[derive(Debug, PartialEq, Eq)]
pub struct ResumeVal<T> {
    tag: TypeTag,
    value: T,
}

/// A suspended computation whose outcome will be a `ResumeVal` of the output
/// type that `block_on` was called for.
#[derive(Clone, Copy, Debug, PartialEq, Eq, Structural)]
pub struct YieldedFuture {
    output: TypeTag,
}

/// A value on the yield channel.
#[derive(Debug, PartialEq, Eq)]
pub enum Payload<T> {
    /// A computation that a hostcall waits for.
    Future(YieldedFuture),
    /// The outcome of such a computation.
    Resume(ResumeVal<T>),
    /// Anything else a guest may yield, known by its type only.
    Other(TypeTag),
}

impl<T> ResumeVal<T> {
    /// The identity of the type that is boxed.
    pub closed spec fn tag(&self) -> TypeTag {
        self.tag
    }

    /// The boxed value.
    pub closed spec fn value(&self) -> T {
        self.value
    }

    /// Whether the boxed value is of the type `tag`.
    pub fn is(&self, tag: TypeTag) -> (r: bool)
        ensures
            r == (self.tag() == tag),
    {
        self.tag.0 == tag.0
    }

    /// Unboxes the value as one of the type `tag`: it comes back when that is
    /// its type, and the envelope comes back untouched when it is not.
    pub fn downcast(self, tag: TypeTag) -> (r: Result<T, ResumeVal<T>>)
        ensures
            self.tag() == tag ==> r == Ok::<T, ResumeVal<T>>(self.value()),
            self.tag() != tag ==> r == Err::<T, ResumeVal<T>>(self),
    {
        if self.tag.0 == tag.0 {
            Ok(self.value)
        } else {
            Err(self)
        }
    }
}

impl YieldedFuture {
    /// The identity of the type that the computation produces.
    pub closed spec fn output(&self) -> TypeTag {
        self.output
    }

    /// The envelope of a computation with the given output type.
    pub closed spec fn pending(output: TypeTag) -> YieldedFuture {
        YieldedFuture { output }
    }

    /// The output type of `pending` is the one it was given.
    pub proof fn lemma_pending(output: TypeTag)
        ensures
            Self::pending(output).output() == output,
    {
    }

    /// Wraps a computation with the given output type.
    pub(crate) fn wrap(output: TypeTag) -> (r: YieldedFuture)
        ensures
            r == Self::pending(output),
            r.output() == output,
    {
        YieldedFuture { output }
    }

    /// The output type, for the host that has to box the outcome.
    pub fn output_tag(&self) -> (r: TypeTag)
        ensures
            r == self.output(),
    {
        self.output
    }

    /// The outcome `value` of the computation, boxed under its output type.
    pub closed spec fn resolved<T>(self, value: T) -> ResumeVal<T> {
        ResumeVal { tag: self.output, value }
    }

    /// Completes the computation with `value`: the outcome is boxed under the
    /// output type that the computation was suspended with.
    pub fn resolve<T>(self, value: T) -> (r: ResumeVal<T>)
        ensures
            r == self.resolved(value),
            r.tag() == self.output(),
            r.value() == value,
    {
        ResumeVal { tag: self.output, value }
    }

    /// What `resolved` boxes, and under which type.
    pub proof fn lemma_resolved<T>(self, value: T)
        ensures
            self.resolved(value).tag() == self.output(),
            self.resolved(value).value() == value,
    {
    }
}

impl<T> Payload<T> {
    /// Whether the value is a pending future.
    pub open spec fn is_future(&self) -> bool {
        self is Future
    }

    /// Takes the pending future out of the value, or hands the value back
    /// when it is none.
    pub fn downcast_future(self) -> (r: Result<YieldedFuture, Payload<T>>)
        ensures
            r == (match self {
                Payload::Future(f) => Ok::<YieldedFuture, Payload<T>>(f),
                _ => Err::<YieldedFuture, Payload<T>>(self),
            }),
    {
        match self {
            Payload::Future(f) => Ok(f),
            other => Err(other),
        }
    }
}

} // verus!
