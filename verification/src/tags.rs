//! Marker types: capability tags of values, versions of the backend and
//! kinds of backend objects.

use vstd::prelude::*;
use core::marker::PhantomData;
use crate::private::Sealed;

verus! {

/// Tag of a plain value, and payload of every handle that needs none.
#[derive(Clone, Copy, Debug, PartialEq, Eq)]
pub struct Normal;

/// Tag of a value that is a function: the only values that take basic blocks.
#[derive(Clone, Copy, Debug, PartialEq, Eq)]
pub struct FuncTag;

/// A capability tag. The set of tags is closed. A tag can be made from
/// nothing, so that a raw address coming back from the backend can be given
/// its tag.
pub trait Tag: Sealed + Sized {
    /// The one value of the tag.
    spec fn tag_of() -> Self;

    /// The one value of the tag.
    fn tag() -> (t: Self)
        ensures
            t == Self::tag_of(),
    ;
}

impl Sealed for Normal {
}

impl Sealed for FuncTag {
}

impl Tag for Normal {
    open spec fn tag_of() -> Self {
        Normal
    }

    fn tag() -> (t: Self) {
        Normal
    }
}

impl Tag for FuncTag {
    open spec fn tag_of() -> Self {
        FuncTag
    }

    fn tag() -> (t: Self) {
        FuncTag
    }
}

/// The versions of the backend that the layer is made for.
#[derive(Clone, Copy, Debug, PartialEq, Eq, Structural)]
pub enum Ver {
    V190,
    V180,
    V200,
    V210,
}

/// A version of the backend as a type. The kinds of backend objects carry
/// it, so that handles of two versions are of two types and cannot stand in
/// for each other.
pub trait Version: Sealed + Sized {
    /// The version that the type stands for.
    spec fn ver_of() -> Ver;

    /// The version that the type stands for.
    fn ver() -> (v: Ver)
        ensures
            v == Self::ver_of(),
    ;
}

/// Version 19 of the backend.
#[derive(Debug)]
pub struct V190;

/// Version 18 of the backend.
#[derive(Debug)]
pub struct V180;

/// Version 20 of the backend.
#[derive(Debug)]
pub struct V200;

/// Version 21 of the backend.
#[derive(Debug)]
pub struct V210;

impl Sealed for V190 {
}

impl Sealed for V180 {
}

impl Sealed for V200 {
}

impl Sealed for V210 {
}

impl Version for V190 {
    open spec fn ver_of() -> Ver {
        Ver::V190
    }

    fn ver() -> (v: Ver) {
        Ver::V190
    }
}

impl Version for V180 {
    open spec fn ver_of() -> Ver {
        Ver::V180
    }

    fn ver() -> (v: Ver) {
        Ver::V180
    }
}

impl Version for V200 {
    open spec fn ver_of() -> Ver {
        Ver::V200
    }

    fn ver() -> (v: Ver) {
        Ver::V200
    }
}

impl Version for V210 {
    open spec fn ver_of() -> Ver {
        Ver::V210
    }

    fn ver() -> (v: Ver) {
        Ver::V210
    }
}

/// The context object of backend version `V`.
#[derive(Debug)]
pub struct LLVMContext<V> {
    version: PhantomData<V>,
}

/// The module object of backend version `V`.
#[derive(Debug)]
pub struct LLVMModule<V> {
    version: PhantomData<V>,
}

/// The type object of backend version `V`.
#[derive(Debug)]
pub struct LLVMType<V> {
    version: PhantomData<V>,
}

/// The value object of backend version `V`; also the selector of the value
/// family of that version.
#[derive(Debug)]
pub struct LLVMValue<V> {
    version: PhantomData<V>,
}

/// The basic block object of backend version `V`.
#[derive(Debug)]
pub struct LLVMBasicBlock<V> {
    version: PhantomData<V>,
}

/// The instruction builder object of backend version `V`.
#[derive(Debug)]
pub struct LLVMBuilder<V> {
    version: PhantomData<V>,
}

} // verus!
