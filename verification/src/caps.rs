//! The capability interfaces: what can be done with each kind of handle.
//!
//! No operation touches the backend. Each one marshals its arguments and
//! returns the call that the backend has to carry out, with the contract
//! saying which entry point is called on which arguments.

use vstd::prelude::*;
use crate::cname::CName;
use crate::private::Sealed;
use crate::inst::Inst;
use crate::predicate::{native, ICmp};
use crate::raw::{built, flag_of, Arg, Call, Entry, RawCall, Request};
use crate::tags::{FuncTag, Normal, Ver};

verus! {

/// What every handle type offers: the address it stands for, and a way to
/// make a handle from an address that the backend gave.
pub trait Handle: Sealed + Sized {
    /// The address of the backend object.
    spec fn addr(&self) -> usize;

    /// Whether the handle owns the backend object.
    spec fn owns(&self) -> bool;

    /// The number of live references to the handle's ownership block.
    spec fn references(&self) -> nat;

    /// The backend version that the object belongs to.
    spec fn ver(&self) -> Ver;

    /// The backend version that the object belongs to.
    fn version(&self) -> (v: Ver)
        ensures
            v == self.ver(),
    ;

    /// The address of the backend object.
    fn raw(&self) -> (p: usize)
        ensures
            p == self.addr(),
    ;

    /// A handle for the object at `raw`, owning it or not, with the one
    /// reference that the caller gets.
    fn adopt(raw: usize, owning: bool) -> (h: Self)
        requires
            owning ==> raw != 0,
        ensures
            h.addr() == raw,
            h.owns() == owning,
            h.references() == 1,
    ;
}

/// The addresses of a list of handles.
pub open spec fn addrs<H: Handle>(hs: Seq<H>) -> Seq<usize> {
    Seq::new(hs.len(), |i: int| hs[i].addr())
}

impl<H: Handle> Request<H> {
    /// Wraps the address that the backend answered with. The handle owns the
    /// object exactly when the request says so, and holds one reference.
    pub fn complete(self, raw: usize) -> (h: H)
        requires
            self.owning() ==> raw != 0,
        ensures
            h.addr() == raw,
            h.owns() == self.owning(),
            h.references() == 1,
    {
        H::adopt(raw, self.is_owning())
    }
}

/// A context: the top-level container of backend state.
pub trait Ctx: Handle {
}

/// A module: a container of functions and globals.
pub trait Mod: Handle {
    type Ctx: Ctx;

    /// Asks for the context that the module lives in. The context stays
    /// owned by whoever made it.
    fn ctx(&self) -> (r: Request<Self::Ctx>)
        ensures
            r@ == (Call {
                version: self.ver(),
                entry: Entry::GetModuleContext,
                args: seq![Arg::Ptr(self.addr())],
            }),
            !r.owning(),
    ;

    /// Asks for a new module named `a` in `ctx`. The handle made from the
    /// answer owns the module.
    fn create_mod(a: &CName, ctx: &Self::Ctx) -> (r: Request<Self>)
        ensures
            r@ == (Call {
                version: ctx.ver(),
                entry: Entry::ModuleCreateWithNameInContext,
                args: seq![Arg::Name(a.terminated()), Arg::Ptr(ctx.addr())],
            }),
            r.owning(),
    ;
}

/// A type. Types belong to their context and are never released one by one.
pub trait Ty: Handle {
    type Ctx: Ctx;

    /// Asks for the integer type of `size` bits.
    fn int_ty(ctx: &Self::Ctx, size: u32) -> (r: Request<Self>)
        ensures
            r@ == (Call {
                version: ctx.ver(),
                entry: Entry::IntTypeInContext,
                args: seq![Arg::Ptr(ctx.addr()), Arg::U32(size)],
            }),
            !r.owning(),
    ;

    /// Asks for the pointer type of an address space.
    fn ptr_ty(ctx: &Self::Ctx, address_space: u32) -> (r: Request<Self>)
        ensures
            r@ == (Call {
                version: ctx.ver(),
                entry: Entry::PointerTypeInContext,
                args: seq![Arg::Ptr(ctx.addr()), Arg::U32(address_space)],
            }),
            !r.owning(),
    ;

    /// Asks for the struct type with the given field types.
    fn struct_ty(ctx: &Self::Ctx, fields: &[Self], packed: bool) -> (r: Request<Self>)
        requires
            fields@.len() <= u32::MAX,
        ensures
            r@ == (Call {
                version: ctx.ver(),
                entry: Entry::StructTypeInContext,
                args: seq![
                    Arg::Ptr(ctx.addr()),
                    Arg::Ptrs(addrs(fields@)),
                    Arg::U32(fields@.len() as u32),
                    Arg::Flag(flag_of(packed)),
                ],
            }),
            !r.owning(),
    ;

    /// Asks for the type of functions that take `params` and return `self`.
    /// Such a function takes no further arguments.
    fn fun_ty(&self, params: &[Self]) -> (r: Request<Self>)
        requires
            params@.len() <= u32::MAX,
        ensures
            r@ == (Call {
                version: self.ver(),
                entry: Entry::FunctionType,
                args: seq![
                    Arg::Ptr(self.addr()),
                    Arg::Ptrs(addrs(params@)),
                    Arg::U32(params@.len() as u32),
                    Arg::Flag(0),
                ],
            }),
            !r.owning(),
    ;
}

/// A value: a constant, an argument, the result of an instruction. Its tag
/// says what may be done with it.
pub trait Value: Handle {
    type Tag;

    type Mod: Mod;

    /// Asks for the module that the value lives in. The module stays owned
    /// by whoever made it.
    fn module(&self) -> (r: Request<Self::Mod>)
        ensures
            r@ == (Call {
                version: self.ver(),
                entry: Entry::GetGlobalParent,
                args: seq![Arg::Ptr(self.addr())],
            }),
            !r.owning(),
    ;
}

/// A value that is a function: the only values that take basic blocks.
pub trait Func: Value<Tag = FuncTag> {
}

/// A family of value types that belong together, with the two ways to make
/// a value without a builder.
pub trait ValueKind: Sealed {
    type Mod: Mod;

    type Val: Value<Tag = Normal, Mod = Self::Mod>;

    type Func: Func<Mod = Self::Mod>;

    type Ty: Ty;

    /// Asks for the constant `n` of an integer type, sign-extended to the
    /// type's width if `sext` is set. Constants are never released one by one.
    fn const_int(ty: &Self::Ty, n: u64, sext: bool) -> (r: Request<Self::Val>)
        ensures
            r@ == (Call {
                version: ty.ver(),
                entry: Entry::ConstInt,
                args: seq![Arg::Ptr(ty.addr()), Arg::U64(n), Arg::Flag(flag_of(sext))],
            }),
            !r.owning(),
    ;

    /// Asks for a new function named `name` of type `ty` in `module`. The
    /// function belongs to the module.
    fn function(module: &Self::Mod, name: &CName, ty: &Self::Ty) -> (r: Request<Self::Func>)
        ensures
            r@ == (Call {
                version: module.ver(),
                entry: Entry::AddFunction,
                args: seq![
                    Arg::Ptr(module.addr()),
                    Arg::Name(name.terminated()),
                    Arg::Ptr(ty.addr()),
                ],
            }),
            !r.owning(),
    ;
}

/// A basic block: a sequence of instructions that can be appended to.
pub trait BB: Handle {
    type Func: Func;

    /// Asks for a new block named `name` at the end of `f`. Only a value
    /// tagged as a function is taken. The block belongs to the function.
    fn new(f: &Self::Func, name: &CName) -> (r: Request<Self>)
        ensures
            r@ == (Call {
                version: f.ver(),
                entry: Entry::AppendBasicBlock,
                args: seq![Arg::Ptr(f.addr()), Arg::Name(name.terminated())],
            }),
            !r.owning(),
    ;
}

/// A builder: a cursor that appends instructions to the block it stands at.
///
/// Every instruction that gives a value gives a plain one, which belongs to
/// the function it was built in and is never released by itself.
#[allow(non_snake_case)]
pub trait Builder: Handle {
    type BB: BB<Func = <Self::ValKind as ValueKind>::Func>;

    type ValKind: ValueKind<Ty = Self::Ty, Mod = Self::Mod>;

    type Mod: Mod<Ctx = Self::Ctx>;

    type Ty: Ty<Ctx = Self::Ctx>;

    type Ctx: Ctx;

    /// Asks for a new builder in `ctx`. The handle made from the answer owns
    /// the builder, and nothing else.
    fn new_in_ctx(ctx: &Self::Ctx) -> (r: Request<Self>)
        ensures
            r@ == (Call {
                version: ctx.ver(),
                entry: Entry::CreateBuilderInContext,
                args: seq![Arg::Ptr(ctx.addr())],
            }),
            r.owning(),
    ;

    /// Moves the builder to the end of `bb`.
    fn continue_at(&self, bb: &Self::BB) -> (c: RawCall)
        ensures
            c@ == (Call {
                version: self.ver(),
                entry: Entry::PositionBuilderAtEnd,
                args: seq![Arg::Ptr(self.addr()), Arg::Ptr(bb.addr())],
            }),
    ;

    /// Calls `callee` on `args`; `resty` is the type of the callee.
    fn call(
        &self,
        resty: &Self::Ty,
        callee: &<Self::ValKind as ValueKind>::Val,
        args: &[<Self::ValKind as ValueKind>::Val],
        name: &CName,
    ) -> (r: Request<<Self::ValKind as ValueKind>::Val>)
        requires
            args@.len() <= u32::MAX,
        ensures
            r@ == built(
                self.ver(),
                Inst::Call2,
                self.addr(),
                seq![
                    Arg::Ptr(resty.addr()),
                    Arg::Ptr(callee.addr()),
                    Arg::Ptrs(addrs(args@)),
                    Arg::U32(args@.len() as u32),
                    Arg::Name(name.terminated()),
                ],
            ),
            !r.owning(),
            r@.conforms(),
    ;

    /// Computes the address of an element: `ptr` is taken as a pointer to
    /// `resty`, and `args` are the indices.
    fn gep2(
        &self,
        resty: &Self::Ty,
        ptr: &<Self::ValKind as ValueKind>::Val,
        args: &[<Self::ValKind as ValueKind>::Val],
        name: &CName,
    ) -> (r: Request<<Self::ValKind as ValueKind>::Val>)
        requires
            args@.len() <= u32::MAX,
        ensures
            r@ == built(
                self.ver(),
                Inst::GEP2,
                self.addr(),
                seq![
                    Arg::Ptr(resty.addr()),
                    Arg::Ptr(ptr.addr()),
                    Arg::Ptrs(addrs(args@)),
                    Arg::U32(args@.len() as u32),
                    Arg::Name(name.terminated()),
                ],
            ),
            !r.owning(),
            r@.conforms(),
    ;

    /// Reserves a stack slot for a value of type `ty`; gives its address.
    fn Alloca(&self, ty: &Self::Ty, name: &CName) -> (r: Request<
        <Self::ValKind as ValueKind>::Val,
    >)
        ensures
            r@ == built(
                self.ver(),
                Inst::Alloca,
                self.addr(),
                seq![Arg::Ptr(ty.addr()), Arg::Name(name.terminated())],
            ),
            !r.owning(),
            r@.conforms(),
    ;

    /// Loads a value of type `ty` from `pointer`.
    fn Load2(
        &self,
        ty: &Self::Ty,
        pointer: &<Self::ValKind as ValueKind>::Val,
        name: &CName,
    ) -> (r: Request<<Self::ValKind as ValueKind>::Val>)
        ensures
            r@ == built(
                self.ver(),
                Inst::Load2,
                self.addr(),
                seq![Arg::Ptr(ty.addr()), Arg::Ptr(pointer.addr()), Arg::Name(name.terminated())],
            ),
            !r.owning(),
            r@.conforms(),
    ;

    /// Gives the address of field `idx` of the struct of type `ty` that
    /// `pointer` points to.
    fn StructGEP2(
        &self,
        ty: &Self::Ty,
        pointer: &<Self::ValKind as ValueKind>::Val,
        idx: u32,
        name: &CName,
    ) -> (r: Request<<Self::ValKind as ValueKind>::Val>)
        ensures
            r@ == built(
                self.ver(),
                Inst::StructGEP2,
                self.addr(),
                seq![
                    Arg::Ptr(ty.addr()),
                    Arg::Ptr(pointer.addr()),
                    Arg::U32(idx),
                    Arg::Name(name.terminated()),
                ],
            ),
            !r.owning(),
            r@.conforms(),
    ;

    /// Stores `value` to `pointer`. Gives no value.
    fn Store(
        &self,
        value: &<Self::ValKind as ValueKind>::Val,
        pointer: &<Self::ValKind as ValueKind>::Val,
    ) -> (c: RawCall)
        ensures
            c@ == built(
                self.ver(),
                Inst::Store,
                self.addr(),
                seq![Arg::Ptr(value.addr()), Arg::Ptr(pointer.addr())],
            ),
            c@.conforms(),
    ;

    /// Adds two integers.
    fn Add(
        &self,
        lhs: &<Self::ValKind as ValueKind>::Val,
        rhs: &<Self::ValKind as ValueKind>::Val,
        name: &CName,
    ) -> (r: Request<<Self::ValKind as ValueKind>::Val>)
        ensures
            r@ == built(
                self.ver(),
                Inst::Add,
                self.addr(),
                seq![Arg::Ptr(lhs.addr()), Arg::Ptr(rhs.addr()), Arg::Name(name.terminated())],
            ),
            !r.owning(),
            r@.conforms(),
    ;

    /// Bitwise and.
    fn And(
        &self,
        lhs: &<Self::ValKind as ValueKind>::Val,
        rhs: &<Self::ValKind as ValueKind>::Val,
        name: &CName,
    ) -> (r: Request<<Self::ValKind as ValueKind>::Val>)
        ensures
            r@ == built(
                self.ver(),
                Inst::And,
                self.addr(),
                seq![Arg::Ptr(lhs.addr()), Arg::Ptr(rhs.addr()), Arg::Name(name.terminated())],
            ),
            !r.owning(),
            r@.conforms(),
    ;

    /// The two's complement of an integer.
    fn Neg(&self, lhs: &<Self::ValKind as ValueKind>::Val, name: &CName) -> (r: Request<
        <Self::ValKind as ValueKind>::Val,
    >)
        ensures
            r@ == built(
                self.ver(),
                Inst::Neg,
                self.addr(),
                seq![Arg::Ptr(lhs.addr()), Arg::Name(name.terminated())],
            ),
            !r.owning(),
            r@.conforms(),
    ;

    /// Bitwise not.
    fn Not(&self, lhs: &<Self::ValKind as ValueKind>::Val, name: &CName) -> (r: Request<
        <Self::ValKind as ValueKind>::Val,
    >)
        ensures
            r@ == built(
                self.ver(),
                Inst::Not,
                self.addr(),
                seq![Arg::Ptr(lhs.addr()), Arg::Name(name.terminated())],
            ),
            !r.owning(),
            r@.conforms(),
    ;

    /// Truncates `lhs` to `ty`, or reinterprets it where the widths agree.
    fn TruncOrBitCast(
        &self,
        lhs: &<Self::ValKind as ValueKind>::Val,
        ty: &Self::Ty,
        name: &CName,
    ) -> (r: Request<<Self::ValKind as ValueKind>::Val>)
        ensures
            r@ == built(
                self.ver(),
                Inst::TruncOrBitCast,
                self.addr(),
                seq![Arg::Ptr(lhs.addr()), Arg::Ptr(ty.addr()), Arg::Name(name.terminated())],
            ),
            !r.owning(),
            r@.conforms(),
    ;

    /// Multiplies two integers.
    fn Mul(
        &self,
        lhs: &<Self::ValKind as ValueKind>::Val,
        rhs: &<Self::ValKind as ValueKind>::Val,
        name: &CName,
    ) -> (r: Request<<Self::ValKind as ValueKind>::Val>)
        ensures
            r@ == built(
                self.ver(),
                Inst::Mul,
                self.addr(),
                seq![Arg::Ptr(lhs.addr()), Arg::Ptr(rhs.addr()), Arg::Name(name.terminated())],
            ),
            !r.owning(),
            r@.conforms(),
    ;

    /// Bitwise or.
    fn Or(
        &self,
        lhs: &<Self::ValKind as ValueKind>::Val,
        rhs: &<Self::ValKind as ValueKind>::Val,
        name: &CName,
    ) -> (r: Request<<Self::ValKind as ValueKind>::Val>)
        ensures
            r@ == built(
                self.ver(),
                Inst::Or,
                self.addr(),
                seq![Arg::Ptr(lhs.addr()), Arg::Ptr(rhs.addr()), Arg::Name(name.terminated())],
            ),
            !r.owning(),
            r@.conforms(),
    ;

    /// Subtracts `rhs` from `lhs`.
    fn Sub(
        &self,
        lhs: &<Self::ValKind as ValueKind>::Val,
        rhs: &<Self::ValKind as ValueKind>::Val,
        name: &CName,
    ) -> (r: Request<<Self::ValKind as ValueKind>::Val>)
        ensures
            r@ == built(
                self.ver(),
                Inst::Sub,
                self.addr(),
                seq![Arg::Ptr(lhs.addr()), Arg::Ptr(rhs.addr()), Arg::Name(name.terminated())],
            ),
            !r.owning(),
            r@.conforms(),
    ;

    /// Bitwise exclusive or.
    fn Xor(
        &self,
        lhs: &<Self::ValKind as ValueKind>::Val,
        rhs: &<Self::ValKind as ValueKind>::Val,
        name: &CName,
    ) -> (r: Request<<Self::ValKind as ValueKind>::Val>)
        ensures
            r@ == built(
                self.ver(),
                Inst::Xor,
                self.addr(),
                seq![Arg::Ptr(lhs.addr()), Arg::Ptr(rhs.addr()), Arg::Name(name.terminated())],
            ),
            !r.owning(),
            r@.conforms(),
    ;

    /// Compares two integers by `op`; gives a one-bit value.
    fn ICmp(
        &self,
        op: ICmp,
        lhs: &<Self::ValKind as ValueKind>::Val,
        rhs: &<Self::ValKind as ValueKind>::Val,
        name: &CName,
    ) -> (r: Request<<Self::ValKind as ValueKind>::Val>)
        ensures
            r@ == built(
                self.ver(),
                Inst::ICmp,
                self.addr(),
                seq![
                    Arg::Pred(native(op)),
                    Arg::Ptr(lhs.addr()),
                    Arg::Ptr(rhs.addr()),
                    Arg::Name(name.terminated()),
                ],
            ),
            !r.owning(),
            r@.conforms(),
    ;

    /// Jumps to `dest`. Gives no value.
    fn Br(&self, dest: &Self::BB) -> (c: RawCall)
        ensures
            c@ == built(self.ver(), Inst::Br, self.addr(), seq![Arg::Ptr(dest.addr())]),
            c@.conforms(),
    ;

    /// Jumps to `on_true` if the one-bit value `cond` is set, to `on_false`
    /// if not. Gives no value.
    fn CondBr(
        &self,
        cond: &<Self::ValKind as ValueKind>::Val,
        on_true: &Self::BB,
        on_false: &Self::BB,
    ) -> (c: RawCall)
        ensures
            c@ == built(
                self.ver(),
                Inst::CondBr,
                self.addr(),
                seq![Arg::Ptr(cond.addr()), Arg::Ptr(on_true.addr()), Arg::Ptr(on_false.addr())],
            ),
            c@.conforms(),
    ;
}

} // verus!
