//! Marshaled calls: what the layer hands to the backend, how the calls that
//! build instructions follow the table of instructions, and how the layer
//! takes the answer back.

use vstd::prelude::*;
use core::marker::PhantomData;
use crate::cname::{zero_free, CName};
use crate::predicate::{native, ICmp, LLVMIntPredicate};
use crate::inst::{Inst, Param};
use crate::tags::Ver;

verus! {

/// The backend's raw entry points that the layer uses.
#[derive(Clone, Copy, Debug, PartialEq, Eq, Structural)]
pub enum Entry {
    ContextCreate,
    ContextDispose,
    ModuleCreateWithNameInContext,
    GetModuleContext,
    DisposeModule,
    GetGlobalParent,
    IntTypeInContext,
    PointerTypeInContext,
    StructTypeInContext,
    FunctionType,
    ConstInt,
    AddFunction,
    AppendBasicBlock,
    CreateBuilderInContext,
    DisposeBuilder,
    PositionBuilderAtEnd,
    /// The constructor of one instruction.
    Build(Inst),
}

impl Entry {
    /// Whether the entry point makes an object that its caller has to
    /// dispose of: a context, a module or a builder. Everything else that an
    /// entry point answers with belongs to such an object.
    pub open spec fn makes_owned(self) -> bool {
        self is ContextCreate || self is ModuleCreateWithNameInContext
            || self is CreateBuilderInContext
    }
}

/// One marshaled argument.
#[derive(Debug, PartialEq, Eq)]
pub enum RawArg {
    /// The address of a backend object.
    Ptr(usize),
    /// A 32-bit number, passed as it is.
    U32(u32),
    /// A 64-bit number, passed as it is.
    U64(u64),
    /// A truth value in the backend's form: 1 or 0.
    Flag(i32),
    /// A comparison predicate of the backend.
    Pred(LLVMIntPredicate),
    /// A name, closed by a zero byte.
    Name(CName),
    /// An array of addresses; its length follows as a `U32`.
    Ptrs(Vec<usize>),
}

/// The mathematical content of a marshaled argument.
pub enum Arg {
    Ptr(usize),
    U32(u32),
    U64(u64),
    Flag(i32),
    Pred(LLVMIntPredicate),
    /// The bytes of the name with the closing zero byte.
    Name(Seq<u8>),
    Ptrs(Seq<usize>),
}

impl View for RawArg {
    type V = Arg;

    open spec fn view(&self) -> Arg {
        match *self {
            RawArg::Ptr(p) => Arg::Ptr(p),
            RawArg::U32(n) => Arg::U32(n),
            RawArg::U64(n) => Arg::U64(n),
            RawArg::Flag(b) => Arg::Flag(b),
            RawArg::Pred(p) => Arg::Pred(p),
            RawArg::Name(n) => Arg::Name(n.terminated()),
            RawArg::Ptrs(v) => Arg::Ptrs(v@),
        }
    }
}

/// The backend's form of a truth value.
pub open spec fn flag_of(b: bool) -> i32 {
    if b {
        1
    } else {
        0
    }
}

/// The backend's form of a truth value.
pub fn flag(b: bool) -> (f: i32)
    ensures
        f == flag_of(b),
{
    if b {
        1
    } else {
        0
    }
}

/// The mathematical content of a marshaled call.
pub struct Call {
    pub version: Ver,
    pub entry: Entry,
    pub args: Seq<Arg>,
}

/// The call that builds `inst` through the builder at `builder`, which is of
/// backend version `version`: the builder's address goes first, the
/// marshaled operands follow.
pub open spec fn built(version: Ver, inst: Inst, builder: usize, operands: Seq<Arg>) -> Call {
    Call { version, entry: Entry::Build(inst), args: seq![Arg::Ptr(builder)] + operands }
}

/// A name in marshaled form: bytes that are not zero, and a closing zero
/// byte.
pub open spec fn is_name(a: Arg) -> bool {
    a is Name && a->Name_0.len() > 0 && a->Name_0.last() == 0 && zero_free(
        a->Name_0.drop_last(),
    )
}

/// A list in marshaled form: the array of addresses, and its length in the
/// backend's length type.
pub open spec fn is_list(a: Arg, len: Arg) -> bool {
    a is Ptrs && a->Ptrs_0.len() <= u32::MAX && len == Arg::U32(a->Ptrs_0.len() as u32)
}

/// A truth value in marshaled form: 1 or 0.
pub open spec fn is_flag(a: Arg) -> bool {
    a == Arg::Flag(1) || a == Arg::Flag(0)
}

/// A predicate in marshaled form: one of the backend's three predicates
/// that the layer uses.
pub open spec fn is_native(a: Arg) -> bool {
    a == Arg::Pred(LLVMIntPredicate::LLVMIntEQ) || a == Arg::Pred(LLVMIntPredicate::LLVMIntULT)
        || a == Arg::Pred(LLVMIntPredicate::LLVMIntSLT)
}

/// The rule of marshaling, parameter by parameter: whether the arguments
/// from position `j` on are what the parameters from position `i` on turn
/// into. A type, a value or a block turns into its address; an index passes
/// as it is; a predicate turns into one of the backend's three predicates
/// that the layer uses; a name turns into its bytes and a closing zero byte;
/// a list of values turns into the array of their addresses, followed by
/// its length in the backend's length type.
pub open spec fn fits(ps: Seq<Param>, i: int, args: Seq<Arg>, j: int) -> bool
    decreases ps.len() - i,
{
    if i < 0 || j < 0 {
        false
    } else if i >= ps.len() {
        j == args.len()
    } else if j >= args.len() {
        false
    } else {
        match ps[i] {
            Param::Type | Param::Value | Param::Block => args[j] is Ptr && fits(
                ps,
                i + 1,
                args,
                j + 1,
            ),
            Param::Index => args[j] is U32 && fits(ps, i + 1, args, j + 1),
            Param::Predicate => is_native(args[j]) && fits(ps, i + 1, args, j + 1),
            Param::Name => is_name(args[j]) && fits(ps, i + 1, args, j + 1),
            Param::Values => j + 1 < args.len() && is_list(args[j], args[j + 1]) && fits(
                ps,
                i + 1,
                args,
                j + 2,
            ),
        }
    }
}

impl Call {
    /// Whether the call is made as its entry point takes it. A call that
    /// builds an instruction holds the builder's address first, then each
    /// parameter of the instruction by the rule of marshaling, as the table
    /// of instructions lists them, and nothing else. Every other call holds
    /// the arguments of its entry point, each in its marshaled form.
    pub open spec fn conforms(self) -> bool {
        let a = self.args;
        match self.entry {
            Entry::Build(inst) => a.len() > 0 && a[0] is Ptr && fits(inst.params_of(), 0, a, 1),
            Entry::ContextCreate => a.len() == 0,
            Entry::ContextDispose
            | Entry::DisposeModule
            | Entry::DisposeBuilder
            | Entry::GetModuleContext
            | Entry::GetGlobalParent
            | Entry::CreateBuilderInContext => a.len() == 1 && a[0] is Ptr,
            Entry::ModuleCreateWithNameInContext => a.len() == 2 && is_name(a[0]) && a[1] is Ptr,
            Entry::IntTypeInContext | Entry::PointerTypeInContext => a.len() == 2 && a[0] is Ptr
                && a[1] is U32,
            Entry::StructTypeInContext | Entry::FunctionType => a.len() == 4 && a[0] is Ptr
                && is_list(a[1], a[2]) && is_flag(a[3]),
            Entry::ConstInt => a.len() == 3 && a[0] is Ptr && a[1] is U64 && is_flag(a[2]),
            Entry::AddFunction => a.len() == 3 && a[0] is Ptr && is_name(a[1]) && a[2] is Ptr,
            Entry::AppendBasicBlock => a.len() == 2 && a[0] is Ptr && is_name(a[1]),
            Entry::PositionBuilderAtEnd => a.len() == 2 && a[0] is Ptr && a[1] is Ptr,
        }
    }
}

/// The bytes of a name and a closing zero byte are a name in marshaled form.
pub proof fn lemma_is_name(name: Seq<u8>)
    requires
        zero_free(name),
    ensures
        is_name(Arg::Name(name.push(0))),
{
    assert(name.push(0).drop_last() =~= name);
}

/// Every call that a builder returns is made as the table of instructions
/// says, whatever the version, the addresses, the index, the comparison, the
/// name and the list of values are.
pub proof fn lemma_built_conforms(
    v: Ver,
    b: usize,
    x: usize,
    y: usize,
    z: usize,
    idx: u32,
    op: ICmp,
    name: Seq<u8>,
    list: Seq<usize>,
)
    requires
        zero_free(name),
        list.len() <= u32::MAX,
    ensures
        built(v, Inst::Alloca, b, seq![Arg::Ptr(x), Arg::Name(name.push(0))]).conforms(),
        built(
            v,
            Inst::Load2,
            b,
            seq![Arg::Ptr(x), Arg::Ptr(y), Arg::Name(name.push(0))],
        ).conforms(),
        built(
            v,
            Inst::StructGEP2,
            b,
            seq![Arg::Ptr(x), Arg::Ptr(y), Arg::U32(idx), Arg::Name(name.push(0))],
        ).conforms(),
        built(v, Inst::Store, b, seq![Arg::Ptr(x), Arg::Ptr(y)]).conforms(),
        built(v, Inst::Add, b, seq![Arg::Ptr(x), Arg::Ptr(y), Arg::Name(name.push(0))]).conforms(),
        built(v, Inst::And, b, seq![Arg::Ptr(x), Arg::Ptr(y), Arg::Name(name.push(0))]).conforms(),
        built(v, Inst::Mul, b, seq![Arg::Ptr(x), Arg::Ptr(y), Arg::Name(name.push(0))]).conforms(),
        built(v, Inst::Or, b, seq![Arg::Ptr(x), Arg::Ptr(y), Arg::Name(name.push(0))]).conforms(),
        built(v, Inst::Sub, b, seq![Arg::Ptr(x), Arg::Ptr(y), Arg::Name(name.push(0))]).conforms(),
        built(v, Inst::Xor, b, seq![Arg::Ptr(x), Arg::Ptr(y), Arg::Name(name.push(0))]).conforms(),
        built(v, Inst::Neg, b, seq![Arg::Ptr(x), Arg::Name(name.push(0))]).conforms(),
        built(v, Inst::Not, b, seq![Arg::Ptr(x), Arg::Name(name.push(0))]).conforms(),
        built(
            v,
            Inst::TruncOrBitCast,
            b,
            seq![Arg::Ptr(x), Arg::Ptr(y), Arg::Name(name.push(0))],
        ).conforms(),
        built(
            v,
            Inst::ICmp,
            b,
            seq![Arg::Pred(native(op)), Arg::Ptr(x), Arg::Ptr(y), Arg::Name(name.push(0))],
        ).conforms(),
        built(v, Inst::Br, b, seq![Arg::Ptr(x)]).conforms(),
        built(v, Inst::CondBr, b, seq![Arg::Ptr(x), Arg::Ptr(y), Arg::Ptr(z)]).conforms(),
        built(
            v,
            Inst::Call2,
            b,
            seq![
                Arg::Ptr(x),
                Arg::Ptr(y),
                Arg::Ptrs(list),
                Arg::U32(list.len() as u32),
                Arg::Name(name.push(0)),
            ],
        ).conforms(),
        built(
            v,
            Inst::GEP2,
            b,
            seq![
                Arg::Ptr(x),
                Arg::Ptr(y),
                Arg::Ptrs(list),
                Arg::U32(list.len() as u32),
                Arg::Name(name.push(0)),
            ],
        ).conforms(),
{
    reveal_with_fuel(fits, 6);
    lemma_is_name(name);
}

/// Arguments that follow the rule of marshaling hold no predicate but the
/// three that the layer uses.
pub proof fn lemma_fits_predicates(ps: Seq<Param>, i: int, args: Seq<Arg>, j: int)
    requires
        fits(ps, i, args, j),
    ensures
        forall|k: int| j <= k < args.len() && args[k] is Pred ==> is_native(#[trigger] args[k]),
    decreases ps.len() - i,
{
    if i < ps.len() {
        match ps[i] {
            Param::Values => {
                lemma_fits_predicates(ps, i + 1, args, j + 2);
            },
            _ => {
                lemma_fits_predicates(ps, i + 1, args, j + 1);
            },
        }
    }
}

/// No call that is made as its entry point takes it holds a predicate
/// other than equal, unsigned less and signed less.
pub proof fn lemma_conforming_predicates(c: Call)
    requires
        c.conforms(),
    ensures
        forall|k: int|
            0 <= k < c.args.len() && c.args[k] is Pred ==> is_native(#[trigger] c.args[k]),
{
    match c.entry {
        Entry::Build(inst) => {
            lemma_fits_predicates(inst.params_of(), 0, c.args, 1);
        },
        _ => {},
    }
}

/// The mathematical content of a list of marshaled arguments.
pub open spec fn views(args: Seq<RawArg>) -> Seq<Arg> {
    Seq::new(args.len(), |i: int| args[i]@)
}

/// A call of one raw entry point with its arguments in the backend's order.
/// Only the layer makes calls, and every call is made as its entry point
/// takes it: the calls that build instructions as the table of instructions
/// says.
#[derive(Debug, PartialEq, Eq)]
pub struct RawCall {
    version: Ver,
    entry: Entry,
    args: Vec<RawArg>,
}

impl View for RawCall {
    type V = Call;

    closed spec fn view(&self) -> Call {
        Call {
            version: self.version,
            entry: self.entry,
            args: views(self.args@),
        }
    }
}

impl RawCall {
    #[verifier::type_invariant]
    closed spec fn inv(self) -> bool {
        self@.conforms()
    }

    /// The backend version whose entry point is called.
    pub fn version(&self) -> (v: Ver)
        ensures
            v == self@.version,
    {
        self.version
    }

    /// The entry point that is called.
    pub fn entry(&self) -> (e: Entry)
        ensures
            e == self@.entry,
    {
        self.entry
    }

    /// The marshaled arguments, in the backend's order. They are as the
    /// entry point takes them.
    pub fn args(&self) -> (a: &Vec<RawArg>)
        ensures
            views(a@) == self@.args,
            self@.conforms(),
    {
        proof {
            use_type_invariant(self);
        }
        &self.args
    }
}

/// A marshaled call whose answer is the address of a backend object, to be
/// wrapped as a handle of type `H`. The request knows whether the handle will
/// own the object: it will if the entry point makes an object that its
/// caller has to dispose of, and not otherwise.
pub struct Request<H> {
    call: RawCall,
    owning: bool,
    phantom: PhantomData<H>,
}

impl<H> View for Request<H> {
    type V = Call;

    closed spec fn view(&self) -> Call {
        self.call@
    }
}

impl<H> Request<H> {
    #[verifier::type_invariant]
    closed spec fn inv(self) -> bool {
        self.owning == self.call@.entry.makes_owned()
    }

    /// Whether the handle made from the answer owns the object.
    pub closed spec fn owning(&self) -> bool {
        self.owning
    }

    /// A request for `call` whose answer nobody has to release.
    pub(crate) fn borrowed(call: RawCall) -> (r: Self)
        requires
            !call@.entry.makes_owned(),
        ensures
            r@ == call@,
            !r.owning(),
    {
        Request { call, owning: false, phantom: PhantomData }
    }

    /// A request for `call` whose answer is owned by the handle made from it.
    pub(crate) fn owned(call: RawCall) -> (r: Self)
        requires
            call@.entry.makes_owned(),
        ensures
            r@ == call@,
            r.owning(),
    {
        Request { call, owning: true, phantom: PhantomData }
    }

    /// The call to carry out.
    pub fn call(&self) -> (c: &RawCall)
        ensures
            c@ == self@,
    {
        &self.call
    }

    /// Whether the handle made from the answer owns the object: it does
    /// exactly if the entry point makes an object that its caller has to
    /// dispose of.
    pub fn is_owning(&self) -> (b: bool)
        ensures
            b == self.owning(),
            b == self@.entry.makes_owned(),
    {
        proof {
            use_type_invariant(self);
        }
        self.owning
    }
}

/// Puts a call together from the version, the entry point and the marshaled
/// arguments.
pub(crate) fn pack(version: Ver, entry: Entry, args: Vec<RawArg>) -> (c: RawCall)
    requires
        (Call { version, entry, args: views(args@) }).conforms(),
    ensures
        c@ == (Call { version, entry, args: views(args@) }),
{
    RawCall { version, entry, args }
}

/// A length in the backend's native length type.
pub fn count(len: usize) -> (n: u32)
    requires
        len <= u32::MAX,
    ensures
        n == len,
{
    len as u32
}

} // verus!
