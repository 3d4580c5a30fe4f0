//! The handle types of the backend and what they can do: every capability
//! interface, carried out by marshaling.

use vstd::prelude::*;
use crate::caps::{
    addrs,
    BB,
    Builder,
    Ctx,
    Func,
    Handle,
    Mod,
    Ty,
    Value,
    ValueKind,
};
use crate::cname::{zero_free, CName};
use crate::handle::{Block, Event, LLHandle};
use crate::inst::Inst;
use crate::predicate::{native, ICmp, LLVMIntPredicate};
use crate::private::Sealed;
use crate::raw::{
    built,
    count,
    flag,
    flag_of,
    is_name,
    lemma_built_conforms,
    lemma_is_name,
    pack,
    views,
    Arg,
    Call,
    Entry,
    RawArg,
    RawCall,
    Request,
};
use crate::tags::{
    FuncTag,
    LLVMBasicBlock,
    LLVMBuilder,
    LLVMContext,
    LLVMModule,
    LLVMType,
    LLVMValue,
    Normal,
    Tag,
    Ver,
    Version,
};

verus! {

impl<K: Tag, T: Resource> Sealed for LLHandle<K, T> {
}

impl<V: Version> Sealed for LLVMValue<V> {
}

impl<K: Tag, T: Resource> Handle for LLHandle<K, T> {
    open spec fn addr(&self) -> usize {
        self@.ptr
    }

    open spec fn owns(&self) -> bool {
        self@.owning
    }

    open spec fn references(&self) -> nat {
        self@.refs
    }

    open spec fn ver(&self) -> Ver {
        T::ver_of()
    }

    fn version(&self) -> (v: Ver) {
        T::ver()
    }

    fn raw(&self) -> (p: usize) {
        self.ptr()
    }

    /// The new handle holds the one reference there is, and the tag's value
    /// as its payload.
    fn adopt(raw: usize, owning: bool) -> (h: Self)
        ensures
            h@ == (Block { ptr: raw, key: K::tag_of(), owning, refs: 1 }),
    {
        if owning {
            LLHandle::from_raw_parts(raw, K::tag())
        } else {
            LLHandle::leaked(raw, K::tag())
        }
    }
}

/// The addresses of a list of handles, in order.
pub fn raws<H: Handle>(hs: &[H]) -> (v: Vec<usize>)
    ensures
        v@ == addrs(hs@),
{
    let mut v: Vec<usize> = Vec::new();
    let mut i: usize = 0;
    while i < hs.len()
        invariant
            i <= hs@.len(),
            v@ == addrs(hs@.take(i as int)),
        decreases hs@.len() - i,
    {
        v.push(hs[i].raw());
        proof {
            assert(v@ =~= addrs(hs@.take(i + 1)));
        }
        i = i + 1;
    }
    proof {
        assert(hs@.take(i as int) =~= hs@);
    }
    v
}

/// A name as a marshaled argument.
fn named(name: &CName) -> (a: RawArg)
    ensures
        a@ == Arg::Name(name.terminated()),
        zero_free(name@),
        is_name(a@),
{
    let n = name.clone();
    proof {
        lemma_is_name(name@);
    }
    RawArg::Name(n)
}

/// The call that builds `inst` through the builder at `builder`.
fn build(version: Ver, inst: Inst, builder: usize, operands: Vec<RawArg>) -> (c: RawCall)
    requires
        built(version, inst, builder, views(operands@)).conforms(),
    ensures
        c@ == built(version, inst, builder, views(operands@)),
{
    let mut args: Vec<RawArg> = Vec::new();
    args.push(RawArg::Ptr(builder));
    let mut operands = operands;
    let ghost given = operands@;
    args.append(&mut operands);
    proof {
        assert(views(args@) =~= seq![Arg::Ptr(builder)] + views(given));
    }
    pack(version, Entry::Build(inst), args)
}

/// A kind of backend object, with the entry point that disposes of one.
/// Types, values and basic blocks have none: they go with the context, the
/// module or the function that they belong to.
pub trait Resource: Sealed {
    /// The backend version that objects of this kind belong to.
    spec fn ver_of() -> Ver;

    /// The backend version that objects of this kind belong to.
    fn ver() -> (v: Ver)
        ensures
            v == Self::ver_of(),
    ;

    /// The entry point that disposes of an object of this kind.
    spec fn disposer_of() -> Option<Entry>;

    /// The entry point that disposes of an object of this kind: one of the
    /// three that dispose of a context, a module or a builder, or none.
    fn disposer() -> (e: Option<Entry>)
        ensures
            e == Self::disposer_of(),
            e is Some ==> e->0 is ContextDispose || e->0 is DisposeModule || e->0
                is DisposeBuilder,
    ;
}

impl<V: Version> Sealed for LLVMContext<V> {
}

impl<V: Version> Resource for LLVMContext<V> {
    open spec fn ver_of() -> Ver {
        V::ver_of()
    }

    fn ver() -> (v: Ver) {
        V::ver()
    }

    open spec fn disposer_of() -> Option<Entry> {
        Some(Entry::ContextDispose)
    }

    fn disposer() -> (e: Option<Entry>) {
        Some(Entry::ContextDispose)
    }
}

impl<V: Version> Sealed for LLVMModule<V> {
}

impl<V: Version> Resource for LLVMModule<V> {
    open spec fn ver_of() -> Ver {
        V::ver_of()
    }

    fn ver() -> (v: Ver) {
        V::ver()
    }

    open spec fn disposer_of() -> Option<Entry> {
        Some(Entry::DisposeModule)
    }

    fn disposer() -> (e: Option<Entry>) {
        Some(Entry::DisposeModule)
    }
}

impl<V: Version> Sealed for LLVMBuilder<V> {
}

impl<V: Version> Resource for LLVMBuilder<V> {
    open spec fn ver_of() -> Ver {
        V::ver_of()
    }

    fn ver() -> (v: Ver) {
        V::ver()
    }

    open spec fn disposer_of() -> Option<Entry> {
        Some(Entry::DisposeBuilder)
    }

    fn disposer() -> (e: Option<Entry>) {
        Some(Entry::DisposeBuilder)
    }
}

impl<V: Version> Sealed for LLVMType<V> {
}

impl<V: Version> Resource for LLVMType<V> {
    open spec fn ver_of() -> Ver {
        V::ver_of()
    }

    fn ver() -> (v: Ver) {
        V::ver()
    }

    open spec fn disposer_of() -> Option<Entry> {
        None
    }

    fn disposer() -> (e: Option<Entry>) {
        None
    }
}

impl<V: Version> Resource for LLVMValue<V> {
    open spec fn ver_of() -> Ver {
        V::ver_of()
    }

    fn ver() -> (v: Ver) {
        V::ver()
    }

    open spec fn disposer_of() -> Option<Entry> {
        None
    }

    fn disposer() -> (e: Option<Entry>) {
        None
    }
}

impl<V: Version> Sealed for LLVMBasicBlock<V> {
}

impl<V: Version> Resource for LLVMBasicBlock<V> {
    open spec fn ver_of() -> Ver {
        V::ver_of()
    }

    fn ver() -> (v: Ver) {
        V::ver()
    }

    open spec fn disposer_of() -> Option<Entry> {
        None
    }

    fn disposer() -> (e: Option<Entry>) {
        None
    }
}

/// The disposal call that is due when one reference of a block in state `b`
/// goes: the disposer of the object's kind, in the object's version, on the
/// object's address, if this is the last reference of an owning block and
/// the kind has a disposer.
pub open spec fn disposal<K>(b: Block<K>, version: Ver, disposer: Option<Entry>) -> Option<
    Call,
> {
    if b.fires() && disposer is Some {
        Some(Call { version, entry: disposer->0, args: seq![Arg::Ptr(b.ptr)] })
    } else {
        None
    }
}

/// Gives one reference of `h` up and returns the disposal call that is due,
/// if one is. The caller carries the call out; the handle's payload stays
/// readable through `key`. A disposal call never goes to address 0.
pub fn release<K, T: Resource>(h: &mut LLHandle<K, T>) -> (c: Option<RawCall>)
    ensures
        final(h)@ == old(h)@.step(Event::Drop),
        c is Some <==> disposal(old(h)@, T::ver_of(), T::disposer_of()) is Some,
        c is Some ==> c->0@ == disposal(old(h)@, T::ver_of(), T::disposer_of())->0,
        c is Some ==> old(h)@.ptr != 0,
{
    let fired = h.release();
    match T::disposer() {
        Some(entry) => {
            if fired {
                let args = vec![RawArg::Ptr(h.ptr())];
                proof {
                    assert(views(args@) =~= seq![Arg::Ptr(old(h)@.ptr)]);
                }
                let c = pack(T::ver(), entry, args);
                Some(c)
            } else {
                None
            }
        },
        None => None,
    }
}

/// An owning handle that is cloned `n` times is disposed of by the last of
/// its `n + 1` drops and by none before it: the `k`-th drop after the clones
/// makes a disposal call exactly if `k` is `n`, and the call is then the
/// disposer on the address that the handle was made with.
pub proof fn lemma_owned_disposed_at_last_drop<K>(
    b: Block<K>,
    version: Ver,
    entry: Entry,
    n: nat,
    k: nat,
)
    requires
        b.owning,
        b.refs == 1,
        k <= n,
    ensures
        disposal(
            b.run(crate::handle::repeat(Event::Clone, n) + crate::handle::repeat(Event::Drop, k)),
            version,
            Some(entry),
        ) == if k == n {
            Some(Call { version, entry, args: seq![Arg::Ptr(b.ptr)] })
        } else {
            None
        },
{
    let clones = crate::handle::repeat(Event::Clone, n);
    crate::handle::lemma_clones(b, n);
    crate::handle::lemma_drops(b.run(clones), k);
    crate::handle::lemma_run_concat(b, clones, crate::handle::repeat(Event::Drop, k));
}

/// Handles made from requests that own nothing run no release routine,
/// however they are cloned and dropped. Values, functions and basic blocks
/// are always such handles: they are released with their module, by its one
/// disposal call, and never one by one.
pub proof fn lemma_borrowed_never_disposed<K: Tag, T: Resource>(
    h: LLHandle<K, T>,
    evs: Seq<Event>,
)
    requires
        !h.owns(),
    ensures
        h@.released(evs) == 0,
        disposal(h@.run(evs), T::ver_of(), T::disposer_of()) is None,
{
    crate::handle::lemma_released_at_most_once(h@, evs);
}

/// The handles of one backend version all answer with that version,
/// whatever they stand for; so a call marshaled from handles of version `V`
/// goes to version `V` and to no other.
pub proof fn lemma_family_of_one_version<V: Version, K: Tag>(
    ctx: LLHandle<Normal, LLVMContext<V>>,
    module: LLHandle<Normal, LLVMModule<V>>,
    ty: LLHandle<Normal, LLVMType<V>>,
    value: LLHandle<K, LLVMValue<V>>,
    block: LLHandle<Normal, LLVMBasicBlock<V>>,
    builder: LLHandle<Normal, LLVMBuilder<V>>,
)
    ensures
        ctx.ver() == V::ver_of(),
        module.ver() == V::ver_of(),
        ty.ver() == V::ver_of(),
        value.ver() == V::ver_of(),
        block.ver() == V::ver_of(),
        builder.ver() == V::ver_of(),
{
}

/// Asks for a new context of backend version `V`. The handle made from the
/// answer owns it.
pub fn context_create<V: Version>() -> (r: Request<LLHandle<Normal, LLVMContext<V>>>)
    ensures
        r@ == (Call {
            version: V::ver_of(),
            entry: Entry::ContextCreate,
            args: Seq::<Arg>::empty(),
        }),
        r.owning(),
{
    let args: Vec<RawArg> = Vec::new();
    proof {
        assert(views(args@) =~= Seq::<Arg>::empty());
    }
    Request::owned(pack(V::ver(), Entry::ContextCreate, args))
}

impl<V: Version> Ctx for LLHandle<Normal, LLVMContext<V>> {
}

impl<V: Version> Mod for LLHandle<Normal, LLVMModule<V>> {
    type Ctx = LLHandle<Normal, LLVMContext<V>>;

    fn ctx(&self) -> (r: Request<Self::Ctx>) {
        let args = vec![RawArg::Ptr(self.ptr())];
        proof {
            assert(views(args@) =~= seq![Arg::Ptr(self.addr())]);
        }
        let c = pack(self.version(), Entry::GetModuleContext, args);
        Request::borrowed(c)
    }

    fn create_mod(a: &CName, ctx: &Self::Ctx) -> (r: Request<Self>) {
        let args = vec![named(a), RawArg::Ptr(ctx.ptr())];
        proof {
            assert(views(args@) =~= seq![Arg::Name(a.terminated()), Arg::Ptr(ctx.addr())]);
        }
        let c = pack(ctx.version(), Entry::ModuleCreateWithNameInContext, args);
        Request::owned(c)
    }
}

/// An instruction on one address, with a name for its value.
fn unary(version: Ver, inst: Inst, builder: usize, x: usize, name: &CName) -> (c: RawCall)
    requires
        inst == Inst::Alloca || inst == Inst::Neg || inst == Inst::Not,
    ensures
        c@ == built(version, inst, builder, seq![Arg::Ptr(x), Arg::Name(name.terminated())]),
        c@.conforms(),
{
    let ops = vec![RawArg::Ptr(x), named(name)];
    proof {
        assert(views(ops@) =~= seq![Arg::Ptr(x), Arg::Name(name.terminated())]);
        lemma_built_conforms(version, builder, x, 0, 0, 0, ICmp::Eq, name@, Seq::empty());
    }
    build(version, inst, builder, ops)
}

/// An instruction on two addresses, with a name for its value.
fn binary(version: Ver, inst: Inst, builder: usize, x: usize, y: usize, name: &CName) -> (c:
    RawCall)
    requires
        inst.params_of().len() == 3,
        inst != Inst::CondBr,
    ensures
        c@ == built(
            version,
            inst,
            builder,
            seq![Arg::Ptr(x), Arg::Ptr(y), Arg::Name(name.terminated())],
        ),
        c@.conforms(),
{
    let ops = vec![RawArg::Ptr(x), RawArg::Ptr(y), named(name)];
    proof {
        assert(views(ops@) =~= seq![Arg::Ptr(x), Arg::Ptr(y), Arg::Name(name.terminated())]);
        lemma_built_conforms(version, builder, x, y, 0, 0, ICmp::Eq, name@, Seq::empty());
    }
    build(version, inst, builder, ops)
}

/// An instruction on a type, an address and a list of addresses, whose
/// length goes along, with a name for its value.
fn listed(
    version: Ver,
    inst: Inst,
    builder: usize,
    ty: usize,
    x: usize,
    list: Vec<usize>,
    name: &CName,
) -> (c: RawCall)
    requires
        inst == Inst::Call2 || inst == Inst::GEP2,
        list@.len() <= u32::MAX,
    ensures
        c@ == built(
            version,
            inst,
            builder,
            seq![
                Arg::Ptr(ty),
                Arg::Ptr(x),
                Arg::Ptrs(list@),
                Arg::U32(list@.len() as u32),
                Arg::Name(name.terminated()),
            ],
        ),
        c@.conforms(),
{
    let n = count(list.len());
    let ghost l = list@;
    let ops = vec![
        RawArg::Ptr(ty),
        RawArg::Ptr(x),
        RawArg::Ptrs(list),
        RawArg::U32(n),
        named(name),
    ];
    proof {
        assert(views(ops@) =~= seq![
            Arg::Ptr(ty),
            Arg::Ptr(x),
            Arg::Ptrs(l),
            Arg::U32(l.len() as u32),
            Arg::Name(name.terminated()),
        ]);
        lemma_built_conforms(version, builder, ty, x, 0, 0, ICmp::Eq, name@, l);
    }
    build(version, inst, builder, ops)
}

impl<K: Tag, V: Version> Value for LLHandle<K, LLVMValue<V>> {
    type Tag = K;

    type Mod = LLHandle<Normal, LLVMModule<V>>;

    fn module(&self) -> (r: Request<Self::Mod>) {
        let args = vec![RawArg::Ptr(self.ptr())];
        proof {
            assert(views(args@) =~= seq![Arg::Ptr(self.addr())]);
        }
        let c = pack(self.version(), Entry::GetGlobalParent, args);
        Request::borrowed(c)
    }
}

impl<V: Version> Func for LLHandle<FuncTag, LLVMValue<V>> {
}

impl<V: Version> Ty for LLHandle<Normal, LLVMType<V>> {
    type Ctx = LLHandle<Normal, LLVMContext<V>>;

    fn int_ty(ctx: &Self::Ctx, size: u32) -> (r: Request<Self>) {
        let args = vec![RawArg::Ptr(ctx.ptr()), RawArg::U32(size)];
        proof {
            assert(views(args@) =~= seq![Arg::Ptr(ctx.addr()), Arg::U32(size)]);
        }
        let c = pack(ctx.version(), Entry::IntTypeInContext, args);
        Request::borrowed(c)
    }

    fn ptr_ty(ctx: &Self::Ctx, address_space: u32) -> (r: Request<Self>) {
        let args = vec![RawArg::Ptr(ctx.ptr()), RawArg::U32(address_space)];
        proof {
            assert(views(args@) =~= seq![Arg::Ptr(ctx.addr()), Arg::U32(address_space)]);
        }
        let c = pack(ctx.version(), Entry::PointerTypeInContext, args);
        Request::borrowed(c)
    }

    fn struct_ty(ctx: &Self::Ctx, fields: &[Self], packed: bool) -> (r: Request<Self>) {
        let n = count(fields.len());
        let args = vec![
            RawArg::Ptr(ctx.ptr()),
            RawArg::Ptrs(raws(fields)),
            RawArg::U32(n),
            RawArg::Flag(flag(packed)),
        ];
        proof {
            assert(views(args@) =~= seq![
                Arg::Ptr(ctx.addr()),
                Arg::Ptrs(addrs(fields@)),
                Arg::U32(fields@.len() as u32),
                Arg::Flag(flag_of(packed)),
            ]);
        }
        let c = pack(ctx.version(), Entry::StructTypeInContext, args);
        Request::borrowed(c)
    }

    fn fun_ty(&self, params: &[Self]) -> (r: Request<Self>) {
        let n = count(params.len());
        let args = vec![
            RawArg::Ptr(self.ptr()),
            RawArg::Ptrs(raws(params)),
            RawArg::U32(n),
            RawArg::Flag(flag(false)),
        ];
        proof {
            assert(views(args@) =~= seq![
                Arg::Ptr(self.addr()),
                Arg::Ptrs(addrs(params@)),
                Arg::U32(params@.len() as u32),
                Arg::Flag(0),
            ]);
        }
        let c = pack(self.version(), Entry::FunctionType, args);
        Request::borrowed(c)
    }
}

impl<V: Version> ValueKind for LLVMValue<V> {
    type Mod = LLHandle<Normal, LLVMModule<V>>;

    type Val = LLHandle<Normal, LLVMValue<V>>;

    type Func = LLHandle<FuncTag, LLVMValue<V>>;

    type Ty = LLHandle<Normal, LLVMType<V>>;

    fn const_int(ty: &Self::Ty, n: u64, sext: bool) -> (r: Request<Self::Val>) {
        let args = vec![RawArg::Ptr(ty.ptr()), RawArg::U64(n), RawArg::Flag(flag(sext))];
        proof {
            assert(views(args@) =~= seq![
                Arg::Ptr(ty.addr()),
                Arg::U64(n),
                Arg::Flag(flag_of(sext)),
            ]);
        }
        let c = pack(ty.version(), Entry::ConstInt, args);
        Request::borrowed(c)
    }

    fn function(module: &Self::Mod, name: &CName, ty: &Self::Ty) -> (r: Request<Self::Func>) {
        let args = vec![RawArg::Ptr(module.ptr()), named(name), RawArg::Ptr(ty.ptr())];
        proof {
            assert(views(args@) =~= seq![
                Arg::Ptr(module.addr()),
                Arg::Name(name.terminated()),
                Arg::Ptr(ty.addr()),
            ]);
        }
        let c = pack(module.version(), Entry::AddFunction, args);
        Request::borrowed(c)
    }
}

impl<V: Version> BB for LLHandle<Normal, LLVMBasicBlock<V>> {
    type Func = LLHandle<FuncTag, LLVMValue<V>>;

    fn new(f: &Self::Func, name: &CName) -> (r: Request<Self>) {
        let args = vec![RawArg::Ptr(f.ptr()), named(name)];
        proof {
            assert(views(args@) =~= seq![Arg::Ptr(f.addr()), Arg::Name(name.terminated())]);
        }
        let c = pack(f.version(), Entry::AppendBasicBlock, args);
        Request::borrowed(c)
    }
}

#[allow(non_snake_case)]
impl<V: Version> Builder for LLHandle<Normal, LLVMBuilder<V>> {
    type BB = LLHandle<Normal, LLVMBasicBlock<V>>;

    type ValKind = LLVMValue<V>;

    type Mod = LLHandle<Normal, LLVMModule<V>>;

    type Ty = LLHandle<Normal, LLVMType<V>>;

    type Ctx = LLHandle<Normal, LLVMContext<V>>;

    fn new_in_ctx(ctx: &Self::Ctx) -> (r: Request<Self>) {
        let args = vec![RawArg::Ptr(ctx.ptr())];
        proof {
            assert(views(args@) =~= seq![Arg::Ptr(ctx.addr())]);
        }
        let c = pack(ctx.version(), Entry::CreateBuilderInContext, args);
        Request::owned(c)
    }

    fn continue_at(&self, bb: &Self::BB) -> (c: RawCall) {
        let args = vec![RawArg::Ptr(self.ptr()), RawArg::Ptr(bb.ptr())];
        proof {
            assert(views(args@) =~= seq![Arg::Ptr(self.addr()), Arg::Ptr(bb.addr())]);
        }
        let c = pack(self.version(), Entry::PositionBuilderAtEnd, args);
        c
    }

    fn call(
        &self,
        resty: &Self::Ty,
        callee: &LLHandle<Normal, LLVMValue<V>>,
        args: &[LLHandle<Normal, LLVMValue<V>>],
        name: &CName,
    ) -> (r: Request<LLHandle<Normal, LLVMValue<V>>>) {
        Request::borrowed(
            listed(
                self.version(),
                Inst::Call2,
                self.ptr(),
                resty.ptr(),
                callee.ptr(),
                raws(args),
                name,
            ),
        )
    }

    fn gep2(
        &self,
        resty: &Self::Ty,
        ptr: &LLHandle<Normal, LLVMValue<V>>,
        args: &[LLHandle<Normal, LLVMValue<V>>],
        name: &CName,
    ) -> (r: Request<LLHandle<Normal, LLVMValue<V>>>) {
        Request::borrowed(
            listed(
                self.version(),
                Inst::GEP2,
                self.ptr(),
                resty.ptr(),
                ptr.ptr(),
                raws(args),
                name,
            ),
        )
    }

    fn Alloca(&self, ty: &Self::Ty, name: &CName) -> (r: Request<LLHandle<Normal, LLVMValue<V>>>) {
        Request::borrowed(unary(self.version(), Inst::Alloca, self.ptr(), ty.ptr(), name))
    }

    fn Load2(&self, ty: &Self::Ty, pointer: &LLHandle<Normal, LLVMValue<V>>, name: &CName) -> (r:
        Request<LLHandle<Normal, LLVMValue<V>>>) {
        Request::borrowed(
            binary(self.version(), Inst::Load2, self.ptr(), ty.ptr(), pointer.ptr(), name),
        )
    }

    fn StructGEP2(
        &self,
        ty: &Self::Ty,
        pointer: &LLHandle<Normal, LLVMValue<V>>,
        idx: u32,
        name: &CName,
    ) -> (r: Request<LLHandle<Normal, LLVMValue<V>>>) {
        let ops = vec![
            RawArg::Ptr(ty.ptr()),
            RawArg::Ptr(pointer.ptr()),
            RawArg::U32(idx),
            named(name),
        ];
        proof {
            assert(views(ops@) =~= seq![
                Arg::Ptr(ty.addr()),
                Arg::Ptr(pointer.addr()),
                Arg::U32(idx),
                Arg::Name(name.terminated()),
            ]);
            lemma_built_conforms(
                self.ver(),
                self.addr(),
                ty.addr(),
                pointer.addr(),
                0,
                idx,
                ICmp::Eq,
                name@,
                Seq::empty(),
            );
        }
        let c = build(self.version(), Inst::StructGEP2, self.ptr(), ops);
        Request::borrowed(c)
    }

    fn Store(
        &self,
        value: &LLHandle<Normal, LLVMValue<V>>,
        pointer: &LLHandle<Normal, LLVMValue<V>>,
    ) -> (c: RawCall) {
        let ops = vec![RawArg::Ptr(value.ptr()), RawArg::Ptr(pointer.ptr())];
        proof {
            assert(views(ops@) =~= seq![
                Arg::Ptr(value.addr()),
                Arg::Ptr(pointer.addr()),
            ]);
            lemma_built_conforms(
                self.ver(),
                self.addr(),
                value.addr(),
                pointer.addr(),
                0,
                0,
                ICmp::Eq,
                Seq::empty(),
                Seq::empty(),
            );
        }
        let c = build(self.version(), Inst::Store, self.ptr(), ops);
        c
    }

    fn Add(
        &self,
        lhs: &LLHandle<Normal, LLVMValue<V>>,
        rhs: &LLHandle<Normal, LLVMValue<V>>,
        name: &CName,
    ) -> (r: Request<LLHandle<Normal, LLVMValue<V>>>) {
        Request::borrowed(binary(self.version(), Inst::Add, self.ptr(), lhs.ptr(), rhs.ptr(), name))
    }

    fn And(
        &self,
        lhs: &LLHandle<Normal, LLVMValue<V>>,
        rhs: &LLHandle<Normal, LLVMValue<V>>,
        name: &CName,
    ) -> (r: Request<LLHandle<Normal, LLVMValue<V>>>) {
        Request::borrowed(binary(self.version(), Inst::And, self.ptr(), lhs.ptr(), rhs.ptr(), name))
    }

    fn Neg(&self, lhs: &LLHandle<Normal, LLVMValue<V>>, name: &CName) -> (r: Request<
        LLHandle<Normal, LLVMValue<V>>,
    >) {
        Request::borrowed(unary(self.version(), Inst::Neg, self.ptr(), lhs.ptr(), name))
    }

    fn Not(&self, lhs: &LLHandle<Normal, LLVMValue<V>>, name: &CName) -> (r: Request<
        LLHandle<Normal, LLVMValue<V>>,
    >) {
        Request::borrowed(unary(self.version(), Inst::Not, self.ptr(), lhs.ptr(), name))
    }

    fn TruncOrBitCast(
        &self,
        lhs: &LLHandle<Normal, LLVMValue<V>>,
        ty: &Self::Ty,
        name: &CName,
    ) -> (r: Request<LLHandle<Normal, LLVMValue<V>>>) {
        Request::borrowed(
            binary(self.version(), Inst::TruncOrBitCast, self.ptr(), lhs.ptr(), ty.ptr(), name),
        )
    }

    fn Mul(
        &self,
        lhs: &LLHandle<Normal, LLVMValue<V>>,
        rhs: &LLHandle<Normal, LLVMValue<V>>,
        name: &CName,
    ) -> (r: Request<LLHandle<Normal, LLVMValue<V>>>) {
        Request::borrowed(binary(self.version(), Inst::Mul, self.ptr(), lhs.ptr(), rhs.ptr(), name))
    }

    fn Or(
        &self,
        lhs: &LLHandle<Normal, LLVMValue<V>>,
        rhs: &LLHandle<Normal, LLVMValue<V>>,
        name: &CName,
    ) -> (r: Request<LLHandle<Normal, LLVMValue<V>>>) {
        Request::borrowed(binary(self.version(), Inst::Or, self.ptr(), lhs.ptr(), rhs.ptr(), name))
    }

    fn Sub(
        &self,
        lhs: &LLHandle<Normal, LLVMValue<V>>,
        rhs: &LLHandle<Normal, LLVMValue<V>>,
        name: &CName,
    ) -> (r: Request<LLHandle<Normal, LLVMValue<V>>>) {
        Request::borrowed(binary(self.version(), Inst::Sub, self.ptr(), lhs.ptr(), rhs.ptr(), name))
    }

    fn Xor(
        &self,
        lhs: &LLHandle<Normal, LLVMValue<V>>,
        rhs: &LLHandle<Normal, LLVMValue<V>>,
        name: &CName,
    ) -> (r: Request<LLHandle<Normal, LLVMValue<V>>>) {
        Request::borrowed(binary(self.version(), Inst::Xor, self.ptr(), lhs.ptr(), rhs.ptr(), name))
    }

    fn ICmp(
        &self,
        op: ICmp,
        lhs: &LLHandle<Normal, LLVMValue<V>>,
        rhs: &LLHandle<Normal, LLVMValue<V>>,
        name: &CName,
    ) -> (r: Request<LLHandle<Normal, LLVMValue<V>>>) {
        let ops = vec![
            RawArg::Pred(LLVMIntPredicate::from(op)),
            RawArg::Ptr(lhs.ptr()),
            RawArg::Ptr(rhs.ptr()),
            named(name),
        ];
        proof {
            assert(views(ops@) =~= seq![
                Arg::Pred(native(op)),
                Arg::Ptr(lhs.addr()),
                Arg::Ptr(rhs.addr()),
                Arg::Name(name.terminated()),
            ]);
            lemma_built_conforms(
                self.ver(),
                self.addr(),
                lhs.addr(),
                rhs.addr(),
                0,
                0,
                op,
                name@,
                Seq::empty(),
            );
        }
        let c = build(self.version(), Inst::ICmp, self.ptr(), ops);
        Request::borrowed(c)
    }

    fn Br(&self, dest: &Self::BB) -> (c: RawCall) {
        let ops = vec![RawArg::Ptr(dest.ptr())];
        proof {
            assert(views(ops@) =~= seq![Arg::Ptr(dest.addr())]);
            lemma_built_conforms(
                self.ver(),
                self.addr(),
                dest.addr(),
                0,
                0,
                0,
                ICmp::Eq,
                Seq::empty(),
                Seq::empty(),
            );
        }
        let c = build(self.version(), Inst::Br, self.ptr(), ops);
        c
    }

    fn CondBr(
        &self,
        cond: &LLHandle<Normal, LLVMValue<V>>,
        on_true: &Self::BB,
        on_false: &Self::BB,
    ) -> (c: RawCall) {
        let ops = vec![
            RawArg::Ptr(cond.ptr()),
            RawArg::Ptr(on_true.ptr()),
            RawArg::Ptr(on_false.ptr()),
        ];
        proof {
            assert(views(ops@) =~= seq![
                Arg::Ptr(cond.addr()),
                Arg::Ptr(on_true.addr()),
                Arg::Ptr(on_false.addr()),
            ]);
            lemma_built_conforms(
                self.ver(),
                self.addr(),
                cond.addr(),
                on_true.addr(),
                on_false.addr(),
                0,
                ICmp::Eq,
                Seq::empty(),
                Seq::empty(),
            );
        }
        let c = build(self.version(), Inst::CondBr, self.ptr(), ops);
        c
    }
}

} // verus!
