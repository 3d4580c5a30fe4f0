use llvm_codegen_utils_core::caps::{Builder, Handle, Mod, Ty, Value, ValueKind, BB};
use llvm_codegen_utils_core::cname::CName;
use llvm_codegen_utils_core::handle::LLHandle;
use llvm_codegen_utils_core::inst::Inst;
use llvm_codegen_utils_core::llvm::{context_create, raws, release, Resource};
use llvm_codegen_utils_core::predicate::{ICmp, LLVMIntPredicate};
use llvm_codegen_utils_core::raw::{Entry, RawArg, RawCall};
use llvm_codegen_utils_core::tags::{
    FuncTag, LLVMBasicBlock, LLVMBuilder, LLVMContext, LLVMModule, LLVMType, LLVMValue, Normal, Ver,
    Version, V180, V190, V200, V210,
};

/// What a marshaled call is expected to be.
#[derive(Debug)]
struct Expect {
    version: Ver,
    entry: Entry,
    args: Vec<RawArg>,
}

impl PartialEq<Expect> for RawCall {
    fn eq(&self, other: &Expect) -> bool {
        self.version() == other.version
            && self.entry() == other.entry
            && self.args() == &other.args
    }
}

type CtxH = LLHandle<Normal, LLVMContext<V190>>;
type ModH = LLHandle<Normal, LLVMModule<V190>>;
type TyH = LLHandle<Normal, LLVMType<V190>>;
type ValH = LLHandle<Normal, LLVMValue<V190>>;
type FunH = LLHandle<FuncTag, LLVMValue<V190>>;
type BlockH = LLHandle<Normal, LLVMBasicBlock<V190>>;
type BuilderH = LLHandle<Normal, LLVMBuilder<V190>>;

fn name(s: &[u8]) -> CName {
    CName::new(s).unwrap()
}

fn val(p: usize) -> ValH {
    LLHandle::leaked(p, Normal)
}

fn ty(p: usize) -> TyH {
    LLHandle::leaked(p, Normal)
}

fn block(p: usize) -> BlockH {
    LLHandle::leaked(p, Normal)
}

fn builder(p: usize) -> BuilderH {
    LLHandle::from_raw_parts(p, Normal)
}

fn built(inst: Inst, args: Vec<RawArg>) -> Expect {
    Expect { version: Ver::V190, entry: Entry::Build(inst), args }
}

#[test]
fn context_request_owns_its_answer() {
    let r = context_create::<V190>();
    assert!(r.is_owning());
    assert_eq!(r.call(), &Expect { version: Ver::V190, entry: Entry::ContextCreate, args: vec![] });
    let ctx: CtxH = r.complete(0x10);
    assert_eq!(ctx.ptr(), 0x10);
    assert!(ctx.is_owning());
    assert_eq!(ctx.refs(), 1);
}

#[test]
fn module_is_created_owned_and_context_is_borrowed_back() {
    let ctx: CtxH = LLHandle::from_raw_parts(0x10, Normal);
    let r = ModH::create_mod(&name(b"m"), &ctx);
    assert!(r.is_owning());
    assert_eq!(
        r.call(),
        &Expect {
            version: Ver::V190,
            entry: Entry::ModuleCreateWithNameInContext,
            args: vec![RawArg::Name(name(b"m")), RawArg::Ptr(0x10)],
        }
    );
    let m: ModH = r.complete(0x20);
    assert!(m.is_owning());
    assert_eq!(m.ptr(), 0x20);
    let back = m.ctx();
    assert!(!back.is_owning());
    assert_eq!(
        back.call(),
        &Expect { version: Ver::V190, entry: Entry::GetModuleContext, args: vec![RawArg::Ptr(0x20)] }
    );
    let c: CtxH = back.complete(0x10);
    assert!(!c.is_owning());
    assert_eq!(c.ptr(), 0x10);
}

#[test]
fn types_are_marshaled_and_never_owned() {
    let ctx: CtxH = LLHandle::leaked(0x10, Normal);
    let r = TyH::int_ty(&ctx, 32);
    assert!(!r.is_owning());
    assert_eq!(
        r.call(),
        &Expect { version: Ver::V190, entry: Entry::IntTypeInContext, args: vec![RawArg::Ptr(0x10), RawArg::U32(32)] }
    );
    let r = TyH::ptr_ty(&ctx, 3);
    assert!(!r.is_owning());
    assert_eq!(
        r.call(),
        &Expect {
            version: Ver::V190,
            entry: Entry::PointerTypeInContext,
            args: vec![RawArg::Ptr(0x10), RawArg::U32(3)],
        }
    );
    let fields = [ty(0x31), ty(0x32), ty(0x33)];
    let r = TyH::struct_ty(&ctx, &fields, true);
    assert!(!r.is_owning());
    assert_eq!(
        r.call(),
        &Expect {
            version: Ver::V190,
            entry: Entry::StructTypeInContext,
            args: vec![
                RawArg::Ptr(0x10),
                RawArg::Ptrs(vec![0x31, 0x32, 0x33]),
                RawArg::U32(3),
                RawArg::Flag(1),
            ],
        }
    );
    let r = TyH::struct_ty(&ctx, &[], false);
    assert_eq!(
        r.call(),
        &Expect {
            version: Ver::V190,
            entry: Entry::StructTypeInContext,
            args: vec![
                RawArg::Ptr(0x10),
                RawArg::Ptrs(vec![]),
                RawArg::U32(0),
                RawArg::Flag(0),
            ],
        }
    );
    let ret = ty(0x40);
    let r = ret.fun_ty(&fields[..2]);
    assert!(!r.is_owning());
    assert_eq!(
        r.call(),
        &Expect {
            version: Ver::V190,
            entry: Entry::FunctionType,
            args: vec![
                RawArg::Ptr(0x40),
                RawArg::Ptrs(vec![0x31, 0x32]),
                RawArg::U32(2),
                RawArg::Flag(0),
            ],
        }
    );
}

#[test]
fn constants_and_functions_belong_to_their_module() {
    let i32t = ty(0x30);
    let r = LLVMValue::<V190>::const_int(&i32t, 1, false);
    assert!(!r.is_owning());
    assert_eq!(
        r.call(),
        &Expect {
            version: Ver::V190,
            entry: Entry::ConstInt,
            args: vec![RawArg::Ptr(0x30), RawArg::U64(1), RawArg::Flag(0)],
        }
    );
    let r = LLVMValue::<V190>::const_int(&i32t, u64::MAX, true);
    assert_eq!(
        r.call(),
        &Expect {
            version: Ver::V190,
            entry: Entry::ConstInt,
            args: vec![RawArg::Ptr(0x30), RawArg::U64(u64::MAX), RawArg::Flag(1)],
        }
    );
    let m: ModH = LLHandle::from_raw_parts(0x20, Normal);
    let r = LLVMValue::<V190>::function(&m, &name(b"f"), &ty(0x41));
    assert!(!r.is_owning());
    assert_eq!(
        r.call(),
        &Expect {
            version: Ver::V190,
            entry: Entry::AddFunction,
            args: vec![RawArg::Ptr(0x20), RawArg::Name(name(b"f")), RawArg::Ptr(0x41)],
        }
    );
    let f: FunH = r.complete(0x50);
    assert!(!f.is_owning());
    let parent = f.module();
    assert!(!parent.is_owning());
    assert_eq!(
        parent.call(),
        &Expect { version: Ver::V190, entry: Entry::GetGlobalParent, args: vec![RawArg::Ptr(0x50)] }
    );
    let parent = val(0x51).module();
    assert_eq!(
        parent.call(),
        &Expect { version: Ver::V190, entry: Entry::GetGlobalParent, args: vec![RawArg::Ptr(0x51)] }
    );
}

#[test]
fn block_is_appended_to_a_function() {
    let f: FunH = LLHandle::leaked(0x50, FuncTag);
    let r = BlockH::new(&f, &name(b"entry"));
    assert!(!r.is_owning());
    assert_eq!(
        r.call(),
        &Expect {
            version: Ver::V190,
            entry: Entry::AppendBasicBlock,
            args: vec![RawArg::Ptr(0x50), RawArg::Name(name(b"entry"))],
        }
    );
    let b: BlockH = r.complete(0x60);
    assert_eq!(b.ptr(), 0x60);
    assert!(!b.is_owning());
}

#[test]
fn builder_is_owned_and_can_be_moved() {
    let ctx: CtxH = LLHandle::leaked(0x10, Normal);
    let r = BuilderH::new_in_ctx(&ctx);
    assert!(r.is_owning());
    assert_eq!(
        r.call(),
        &Expect { version: Ver::V190, entry: Entry::CreateBuilderInContext, args: vec![RawArg::Ptr(0x10)] }
    );
    let b: BuilderH = r.complete(0x70);
    assert!(b.is_owning());
    let c = b.continue_at(&block(0x60));
    assert_eq!(
        c,
        Expect {
            version: Ver::V190,
            entry: Entry::PositionBuilderAtEnd,
            args: vec![RawArg::Ptr(0x70), RawArg::Ptr(0x60)],
        }
    );
}

#[test]
fn memory_instructions() {
    let b = builder(0x70);
    let r = b.Alloca(&ty(0x30), &name(b"slot"));
    assert!(!r.is_owning());
    assert_eq!(
        r.call(),
        &built(
            Inst::Alloca,
            vec![RawArg::Ptr(0x70), RawArg::Ptr(0x30), RawArg::Name(name(b"slot"))]
        )
    );
    let r = b.Load2(&ty(0x30), &val(0x80), &name(b"v"));
    assert!(!r.is_owning());
    assert_eq!(
        r.call(),
        &built(
            Inst::Load2,
            vec![
                RawArg::Ptr(0x70),
                RawArg::Ptr(0x30),
                RawArg::Ptr(0x80),
                RawArg::Name(name(b"v")),
            ]
        )
    );
    let c = b.Store(&val(0x81), &val(0x80));
    assert_eq!(
        c,
        built(Inst::Store, vec![RawArg::Ptr(0x70), RawArg::Ptr(0x81), RawArg::Ptr(0x80)])
    );
    let r = b.StructGEP2(&ty(0x33), &val(0x80), 2, &name(b"p"));
    assert!(!r.is_owning());
    assert_eq!(
        r.call(),
        &built(
            Inst::StructGEP2,
            vec![
                RawArg::Ptr(0x70),
                RawArg::Ptr(0x33),
                RawArg::Ptr(0x80),
                RawArg::U32(2),
                RawArg::Name(name(b"p")),
            ]
        )
    );
    let r = b.StructGEP2(&ty(0x33), &val(0x80), u32::MAX, &name(b""));
    assert_eq!(
        r.call(),
        &built(
            Inst::StructGEP2,
            vec![
                RawArg::Ptr(0x70),
                RawArg::Ptr(0x33),
                RawArg::Ptr(0x80),
                RawArg::U32(u32::MAX),
                RawArg::Name(name(b"")),
            ]
        )
    );
}

#[test]
fn binary_instructions_keep_operand_order() {
    let b = builder(0x70);
    let (l, r, n) = (val(0x81), val(0x82), name(b"r"));
    let expect = |inst: Inst| {
        built(
            inst,
            vec![
                RawArg::Ptr(0x70),
                RawArg::Ptr(0x81),
                RawArg::Ptr(0x82),
                RawArg::Name(name(b"r")),
            ],
        )
    };
    assert_eq!(b.Add(&l, &r, &n).call(), &expect(Inst::Add));
    assert_eq!(b.Sub(&l, &r, &n).call(), &expect(Inst::Sub));
    assert_eq!(b.Mul(&l, &r, &n).call(), &expect(Inst::Mul));
    assert_eq!(b.And(&l, &r, &n).call(), &expect(Inst::And));
    assert_eq!(b.Or(&l, &r, &n).call(), &expect(Inst::Or));
    assert_eq!(b.Xor(&l, &r, &n).call(), &expect(Inst::Xor));
    assert!(!b.Add(&l, &r, &n).is_owning());
    assert!(!b.Sub(&l, &r, &n).is_owning());
}

#[test]
fn unary_and_cast_instructions() {
    let b = builder(0x70);
    let (x, n) = (val(0x81), name(b"u"));
    assert_eq!(
        b.Neg(&x, &n).call(),
        &built(Inst::Neg, vec![RawArg::Ptr(0x70), RawArg::Ptr(0x81), RawArg::Name(name(b"u"))])
    );
    assert_eq!(
        b.Not(&x, &n).call(),
        &built(Inst::Not, vec![RawArg::Ptr(0x70), RawArg::Ptr(0x81), RawArg::Name(name(b"u"))])
    );
    assert_eq!(
        b.TruncOrBitCast(&x, &ty(0x30), &n).call(),
        &built(
            Inst::TruncOrBitCast,
            vec![
                RawArg::Ptr(0x70),
                RawArg::Ptr(0x81),
                RawArg::Ptr(0x30),
                RawArg::Name(name(b"u")),
            ]
        )
    );
}

#[test]
fn comparison_carries_the_native_predicate() {
    let b = builder(0x70);
    let cases = [
        (ICmp::Eq, LLVMIntPredicate::LLVMIntEQ),
        (ICmp::Lt, LLVMIntPredicate::LLVMIntULT),
        (ICmp::Lts, LLVMIntPredicate::LLVMIntSLT),
    ];
    for (op, native) in cases {
        let r = b.ICmp(op, &val(0x81), &val(0x82), &name(b"c"));
        assert!(!r.is_owning());
        assert_eq!(
            r.call(),
            &built(
                Inst::ICmp,
                vec![
                    RawArg::Ptr(0x70),
                    RawArg::Pred(native),
                    RawArg::Ptr(0x81),
                    RawArg::Ptr(0x82),
                    RawArg::Name(name(b"c")),
                ]
            )
        );
    }
}

#[test]
fn branches_give_no_value() {
    let b = builder(0x70);
    assert_eq!(
        b.Br(&block(0x61)),
        built(Inst::Br, vec![RawArg::Ptr(0x70), RawArg::Ptr(0x61)])
    );
    assert_eq!(
        b.CondBr(&val(0x81), &block(0x61), &block(0x62)),
        built(
            Inst::CondBr,
            vec![
                RawArg::Ptr(0x70),
                RawArg::Ptr(0x81),
                RawArg::Ptr(0x61),
                RawArg::Ptr(0x62),
            ]
        )
    );
}

#[test]
fn calls_and_element_pointers_pass_the_list_with_its_length() {
    let b = builder(0x70);
    let args = [val(0x91), val(0x92)];
    let r = b.call(&ty(0x41), &val(0x50), &args, &name(b"x"));
    assert!(!r.is_owning());
    assert_eq!(
        r.call(),
        &built(
            Inst::Call2,
            vec![
                RawArg::Ptr(0x70),
                RawArg::Ptr(0x41),
                RawArg::Ptr(0x50),
                RawArg::Ptrs(vec![0x91, 0x92]),
                RawArg::U32(2),
                RawArg::Name(name(b"x")),
            ]
        )
    );
    let r = b.gep2(&ty(0x30), &val(0x80), &args[..1], &name(b"e"));
    assert!(!r.is_owning());
    assert_eq!(
        r.call(),
        &built(
            Inst::GEP2,
            vec![
                RawArg::Ptr(0x70),
                RawArg::Ptr(0x30),
                RawArg::Ptr(0x80),
                RawArg::Ptrs(vec![0x91]),
                RawArg::U32(1),
                RawArg::Name(name(b"e")),
            ]
        )
    );
    let r = b.call(&ty(0x41), &val(0x50), &[], &name(b""));
    assert_eq!(
        r.call(),
        &built(
            Inst::Call2,
            vec![
                RawArg::Ptr(0x70),
                RawArg::Ptr(0x41),
                RawArg::Ptr(0x50),
                RawArg::Ptrs(vec![]),
                RawArg::U32(0),
                RawArg::Name(name(b"")),
            ]
        )
    );
}

#[test]
fn raws_lists_addresses_in_order() {
    let hs = [val(3), val(1), val(2)];
    assert_eq!(raws(&hs), vec![3, 1, 2]);
    let none: [ValH; 0] = [];
    assert_eq!(raws(&none), Vec::<usize>::new());
    assert_eq!(hs[0].raw(), 3);
}

#[test]
fn calls_are_read_through_their_parts() {
    let b = builder(0x70);
    let c = b.continue_at(&block(0x60));
    assert_eq!(c.version(), Ver::V190);
    assert_eq!(c.entry(), Entry::PositionBuilderAtEnd);
    assert_eq!(c.args(), &vec![RawArg::Ptr(0x70), RawArg::Ptr(0x60)]);
}

#[test]
fn requests_wrap_by_their_policy() {
    let r = context_create::<V190>();
    let h: CtxH = r.complete(0x99);
    assert!(h.is_owning());
    assert_eq!(h.ptr(), 0x99);
    assert_eq!(h.refs(), 1);
    let m: ModH = LLHandle::leaked(1, Normal);
    let r = m.ctx();
    let h: CtxH = r.complete(0);
    assert!(!h.is_owning());
    assert_eq!(h.ptr(), 0);
    assert_eq!(h.refs(), 1);
    let a: CtxH = Handle::adopt(5, true);
    assert!(a.is_owning());
    assert_eq!(*a.key(), Normal);
}

#[test]
fn disposers_by_kind() {
    assert_eq!(LLVMContext::<V190>::disposer(), Some(Entry::ContextDispose));
    assert_eq!(LLVMModule::<V190>::disposer(), Some(Entry::DisposeModule));
    assert_eq!(LLVMBuilder::<V190>::disposer(), Some(Entry::DisposeBuilder));
    assert_eq!(LLVMType::<V190>::disposer(), None);
    assert_eq!(LLVMValue::<V190>::disposer(), None);
    assert_eq!(LLVMBasicBlock::<V190>::disposer(), None);
}

#[test]
fn module_is_disposed_of_once_at_the_last_release() {
    let mut m: ModH = LLHandle::from_raw_parts(0x20, Normal);
    m.retain();
    m.retain();
    assert_eq!(release(&mut m), None);
    assert_eq!(release(&mut m), None);
    assert_eq!(
        release(&mut m).unwrap(),
        Expect { version: Ver::V190, entry: Entry::DisposeModule, args: vec![RawArg::Ptr(0x20)] }
    );
    assert_eq!(release(&mut m), None);
    assert_eq!(m.refs(), 0);
}

#[test]
fn builder_and_context_have_their_own_disposers() {
    let mut b = builder(0x70);
    assert_eq!(
        release(&mut b).unwrap(),
        Expect { version: Ver::V190, entry: Entry::DisposeBuilder, args: vec![RawArg::Ptr(0x70)] }
    );
    let mut c: CtxH = LLHandle::from_raw_parts(0x10, Normal);
    assert_eq!(
        release(&mut c).unwrap(),
        Expect { version: Ver::V190, entry: Entry::ContextDispose, args: vec![RawArg::Ptr(0x10)] }
    );
}

#[test]
fn children_of_a_module_are_never_disposed_of() {
    let mut v = val(0x81);
    v.retain();
    assert_eq!(release(&mut v), None);
    assert_eq!(release(&mut v), None);
    let mut f: FunH = LLHandle::leaked(0x50, FuncTag);
    assert_eq!(release(&mut f), None);
    let mut b = block(0x60);
    assert_eq!(release(&mut b), None);
    let mut t = ty(0x30);
    assert_eq!(release(&mut t), None);
    let mut borrowed_module: ModH = LLHandle::leaked(0x20, Normal);
    assert_eq!(release(&mut borrowed_module), None);
}

#[test]
fn calls_carry_the_version_of_their_handles() {
    let ctx: LLHandle<Normal, LLVMContext<V180>> = context_create::<V180>().complete(0x10);
    assert_eq!(ctx.version(), Ver::V180);
    let r = LLHandle::<Normal, LLVMType<V180>>::int_ty(&ctx, 8);
    assert_eq!(
        r.call(),
        &Expect {
            version: Ver::V180,
            entry: Entry::IntTypeInContext,
            args: vec![RawArg::Ptr(0x10), RawArg::U32(8)],
        }
    );
    let b: LLHandle<Normal, LLVMBuilder<V210>> = LLHandle::from_raw_parts(0x70, Normal);
    let dest: LLHandle<Normal, LLVMBasicBlock<V210>> = LLHandle::leaked(0x60, Normal);
    let c = b.Br(&dest);
    assert_eq!(c.version(), Ver::V210);
    let mut m: LLHandle<Normal, LLVMModule<V200>> = LLHandle::from_raw_parts(0x20, Normal);
    assert_eq!(
        release(&mut m).unwrap(),
        Expect {
            version: Ver::V200,
            entry: Entry::DisposeModule,
            args: vec![RawArg::Ptr(0x20)],
        }
    );
    assert_eq!(context_create::<V200>().call().version(), Ver::V200);
}

#[test]
fn each_version_type_stands_for_its_version() {
    assert_eq!(V190::ver(), Ver::V190);
    assert_eq!(V180::ver(), Ver::V180);
    assert_eq!(V200::ver(), Ver::V200);
    assert_eq!(V210::ver(), Ver::V210);
    assert_eq!(LLVMValue::<V210>::ver(), Ver::V210);
    assert_eq!(LLVMContext::<V180>::ver(), Ver::V180);
}
