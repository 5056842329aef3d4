//! Builds representative control-flow programs through the public API
//! and checks the recorded model — block counts, parameter arities,
//! emitted calls — and that the backend compiles each program.

use lego::control_flow::If;
use lego::ctx::{BuildError, Ctx, NamedHostFn};
use lego::eval::Outcome;
use lego::func::ParamVal;
use lego::iterator::{JExpr, Pipeline};
use lego::signal::ControlFlow;
use lego::types::{AbiShape, BinOp, CmpOp, LogicalType};
use lego::while_loop::do_while;

fn new_ctx() -> Ctx {
    Ctx::new().ok().expect("host machine supported by the backend")
}

fn scalar_pair(pv: &Vec<ParamVal>) -> (lego::model::Var, lego::model::Var) {
    match (&pv[0], &pv[1]) {
        (ParamVal::Scalar(a), ParamVal::Scalar(b)) => (*a, *b),
        _ => panic!("scalar parameters expected"),
    }
}

#[test]
fn branch_merge_shape() {
    let mut ctx = new_ctx();
    let params = vec![
        AbiShape::Scalar(LogicalType::U64),
        AbiShape::Scalar(LogicalType::U64),
    ];
    let (mut fx, pv) = ctx.func(&params, Some(LogicalType::U64));
    let (va, vb) = scalar_pair(&pv);
    let a = fx.read_var(va);
    let b = fx.read_var(vb);
    let c = fx.icmp(CmpOp::Gt, a, b);
    let iff = If::new(&mut fx, c, vec![LogicalType::U64]);
    let els = iff.first(&mut fx, ControlFlow::Break(vec![a]));
    let merged = match els.finish(&mut fx, ControlFlow::Break(vec![b])) {
        ControlFlow::Break(v) => v,
        _ => panic!("both paths fell through, so the conditional must merge"),
    };
    // entry + then + else + merge
    assert_eq!(fx.block_count(), 4);
    // the merge block joins exactly one value
    assert_eq!(fx.block_param_count(3), 1);
    assert_eq!(merged.len(), 1);
    fx.emit_return(&merged);
    // called on inputs selecting each path, the program yields exactly
    // that path's value
    assert_eq!(fx.interp(&vec![5, 3], 1000), Outcome::Returned(vec![5]));
    assert_eq!(fx.interp(&vec![3, 5], 1000), Outcome::Returned(vec![5]));
    assert_eq!(fx.interp(&vec![4, 4], 1000), Outcome::Returned(vec![4]));
    let sig = fx.finalize();
    let f = ctx.define(sig).ok().expect("backend compiles the branch program");
    let cf = ctx.get_compiled_function(&f);
    assert!(cf.addr != 0);
    assert_eq!(cf.params.len(), 2);
}

#[test]
fn branch_builds_deterministically() {
    // Building the same program twice yields models of identical
    // control-flow-graph shape: same block count, same parameter
    // arities, same instruction counts.
    let mut shapes: Vec<Vec<(usize, usize)>> = Vec::new();
    for _ in 0..2 {
        let mut ctx = new_ctx();
        let params = vec![
            AbiShape::Scalar(LogicalType::U64),
            AbiShape::Scalar(LogicalType::U64),
        ];
        let (mut fx, pv) = ctx.func(&params, Some(LogicalType::U64));
        let (va, vb) = scalar_pair(&pv);
        let a = fx.read_var(va);
        let b = fx.read_var(vb);
        let c = fx.icmp(CmpOp::Gt, a, b);
        let iff = If::new(&mut fx, c, vec![LogicalType::U64]);
        let els = iff.first(&mut fx, ControlFlow::Break(vec![a]));
        let merged = match els.finish(&mut fx, ControlFlow::Break(vec![b])) {
            ControlFlow::Break(v) => v,
            _ => panic!("merge expected"),
        };
        fx.emit_return(&merged);
        let mut shape = Vec::new();
        for bi in 0..fx.block_count() {
            shape.push((fx.block_param_count(bi), fx.block_inst_count(bi)));
        }
        shapes.push(shape);
        let sig = fx.finalize();
        ctx.define(sig).ok().expect("compiles");
    }
    assert_eq!(shapes[0], shapes[1]);
}

#[test]
fn loop_sum_shape() {
    // sum = 0; for i in 0..n { sum += i }; return sum
    let mut ctx = new_ctx();
    let params = vec![AbiShape::Scalar(LogicalType::U64)];
    let (mut fx, pv) = ctx.func(&params, Some(LogicalType::U64));
    let nv = match &pv[0] {
        ParamVal::Scalar(v) => *v,
        _ => panic!("scalar parameter expected"),
    };
    let zero = fx.iconst(LogicalType::U64, 0);
    let init = vec![zero, zero];
    let wc = do_while(&mut fx, &init);
    let st = wc.state(&fx, wc.header);
    let n = fx.read_var(nv);
    let c = fx.icmp(CmpOp::Lt, st[0], n);
    let bst = wc.cond(&mut fx, c, &st);
    let one = fx.iconst(LogicalType::U64, 1);
    let ni = fx.binop(BinOp::Add, bst[0], one);
    let nsum = fx.binop(BinOp::Add, bst[1], bst[0]);
    let out = wc.finish(&mut fx, ControlFlow::Break(vec![ni, nsum]));
    // entry + header + body + exit
    assert_eq!(fx.block_count(), 4);
    // header carries the two-value loop state
    assert_eq!(fx.block_param_count(wc.header), 2);
    fx.emit_return(&vec![out[1]]);
    // sum of 0..n equals n*(n-1)/2, including the empty and one-step
    // loops
    for n in [0u64, 1, 2, 5, 10] {
        assert_eq!(
            fx.interp(&vec![n], 100_000),
            Outcome::Returned(vec![n * (n.saturating_sub(1)) / 2])
        );
    }
    let sig = fx.finalize();
    ctx.define(sig).ok().expect("backend compiles the loop program");
}

#[test]
fn fusion_pipeline_shape() {
    // range(0,30).filter(item % 2 == 0).map(item * 2).fold(0, acc + item)
    let mut ctx = new_ctx();
    let (mut fx, _pv) = ctx.func(&vec![], Some(LogicalType::U64));
    let start = fx.iconst(LogicalType::U64, 0);
    let end = fx.iconst(LogicalType::U64, 30);
    let even = JExpr::Cmp(
        CmpOp::Eq,
        Box::new(JExpr::Bin(
            BinOp::Rem,
            Box::new(JExpr::Item),
            Box::new(JExpr::Lit(2)),
        )),
        Box::new(JExpr::Lit(0)),
    );
    let double = JExpr::Bin(BinOp::Mul, Box::new(JExpr::Item), Box::new(JExpr::Lit(2)));
    let p = Pipeline::range(start, end).filtered(even).mapped(double);
    let acc0 = fx.iconst(LogicalType::U64, 0);
    let sum = p.fold(
        &mut fx,
        acc0,
        JExpr::Bin(BinOp::Add, Box::new(JExpr::Acc), Box::new(JExpr::Item)),
    );
    // entry + (header + body + exit) + one continuation per filter:
    // the whole chain fused into a single loop.
    assert_eq!(fx.block_count(), 1 + 3 + 1);
    fx.emit_return(&vec![sum]);
    // the fused pipeline computes what the host-side chain computes:
    // sum of 2*i for even i in 0..30
    let expected: u64 = (0u64..30).filter(|i| i % 2 == 0).map(|i| i * 2).fold(0, |a, b| a + b);
    assert_eq!(expected, 420);
    assert_eq!(fx.interp(&vec![], 100_000), Outcome::Returned(vec![420]));
    let sig = fx.finalize();
    ctx.define(sig).ok().expect("backend compiles the fused pipeline");
}

#[test]
fn fusion_block_count_independent_of_maps() {
    // Three maps and two filters: still one loop; each filter adds one
    // block, the maps add none.
    let mut ctx = new_ctx();
    let (mut fx, _pv) = ctx.func(&vec![], Some(LogicalType::U64));
    let start = fx.iconst(LogicalType::U64, 0);
    let end = fx.iconst(LogicalType::U64, 10);
    let inc = |n: i64| JExpr::Bin(BinOp::Add, Box::new(JExpr::Item), Box::new(JExpr::Lit(n)));
    let pos = JExpr::Cmp(CmpOp::Gt, Box::new(JExpr::Item), Box::new(JExpr::Lit(0)));
    let under = JExpr::Cmp(CmpOp::Lt, Box::new(JExpr::Item), Box::new(JExpr::Lit(100)));
    let p = Pipeline::range(start, end)
        .mapped(inc(1))
        .filtered(pos)
        .mapped(inc(2))
        .filtered(under)
        .mapped(inc(3));
    let acc0 = fx.iconst(LogicalType::U64, 0);
    let sum = p.fold(
        &mut fx,
        acc0,
        JExpr::Bin(BinOp::Add, Box::new(JExpr::Acc), Box::new(JExpr::Item)),
    );
    assert_eq!(fx.block_count(), 1 + 3 + 2);
    fx.emit_return(&vec![sum]);
    let sig = fx.finalize();
    ctx.define(sig).ok().expect("compiles");
}

#[test]
fn fusion_over_slice_shape() {
    // a slice-sourced pipeline: the index variable steps through the
    // elements, checked against the length, in the same single loop
    let mut ctx = new_ctx();
    let params = vec![AbiShape::Slice(LogicalType::U64)];
    let (mut fx, pv) = ctx.func(&params, Some(LogicalType::U64));
    let sl = match &pv[0] {
        ParamVal::SlicePair { len, ptr } => {
            lego::slice::Slice::new(*len, *ptr, LogicalType::U64)
        }
        _ => panic!("slice parameter expected"),
    };
    let p = Pipeline::over_slice(sl);
    let acc0 = fx.iconst(LogicalType::U64, 0);
    let sum = p.fold(
        &mut fx,
        acc0,
        JExpr::Bin(BinOp::Add, Box::new(JExpr::Acc), Box::new(JExpr::Item)),
    );
    assert_eq!(fx.block_count(), 1 + 3);
    fx.emit_return(&vec![sum]);
    let sig = fx.finalize();
    ctx.define(sig).ok().expect("backend compiles the slice pipeline");
}

#[test]
fn host_call_argument_order() {
    // A host function of arity three: the emitted call passes the
    // arguments in exactly the declared order.
    let mut b = Ctx::builder();
    b.register_host_functions(vec![NamedHostFn {
        name: String::from("combine3"),
        addr: 0x4000,
        params: vec![LogicalType::U64, LogicalType::U64, LogicalType::U64],
        ret: Some(LogicalType::U64),
    }]);
    let mut ctx = b.build().ok().expect("host machine supported");
    let hf = ctx.host_fn(0x4000).ok().expect("registered address resolves");
    let (mut fx, _pv) = ctx.func(&vec![], Some(LogicalType::U64));
    let x = fx.iconst(LogicalType::U64, 11);
    let y = fx.iconst(LogicalType::U64, 22);
    let z = fx.iconst(LogicalType::U64, 33);
    let args = vec![x, y, z];
    let r = hf.call(&mut fx, &args).expect("returning callee yields a value");
    fx.emit_return(&vec![r]);
    // entry block: three argument iconsts, the callee-address iconst,
    // then the call.
    let ids = fx.call_arg_ids(0, 4).expect("instruction four is the indirect call");
    assert_eq!(ids, vec![x.id, y.id, z.id]);
    let sig = fx.finalize();
    ctx.define(sig).ok().expect("compiles");
}

#[test]
fn unsigned_add_emits_trap_signed_does_not() {
    let mut ctx = new_ctx();
    let params = vec![
        AbiShape::Scalar(LogicalType::U64),
        AbiShape::Scalar(LogicalType::U64),
    ];
    let (mut fx, pv) = ctx.func(&params, Some(LogicalType::U64));
    let (va, vb) = scalar_pair(&pv);
    let a = fx.read_var(va);
    let b = fx.read_var(vb);
    let s = fx.binop(BinOp::Add, a, b);
    // the unsigned addition's overflow test is the last thing emitted
    assert!(fx.block_ends_in_overflow_trap(0));
    fx.emit_return(&vec![s]);
    // operands whose sum exceeds the type's range trap instead of
    // wrapping silently; in-range sums return normally
    assert_eq!(fx.interp(&vec![u64::MAX, 1], 1000), Outcome::Trapped);
    assert_eq!(fx.interp(&vec![u64::MAX, 0], 1000), Outcome::Returned(vec![u64::MAX]));
    assert_eq!(fx.interp(&vec![2, 3], 1000), Outcome::Returned(vec![5]));
    let sig = fx.finalize();
    ctx.define(sig).ok().expect("compiles");

    let params_s = vec![
        AbiShape::Scalar(LogicalType::I64),
        AbiShape::Scalar(LogicalType::I64),
    ];
    let (mut fx2, pv2) = ctx.func(&params_s, Some(LogicalType::I64));
    let (va2, vb2) = scalar_pair(&pv2);
    let a2 = fx2.read_var(va2);
    let b2 = fx2.read_var(vb2);
    let s2 = fx2.binop(BinOp::Add, a2, b2);
    // signed addition wraps: a single add, no trap test
    assert!(!fx2.block_ends_in_overflow_trap(0));
    fx2.emit_return(&vec![s2]);
    assert_eq!(
        fx2.interp(&vec![i64::MAX as u64, 1], 1000),
        Outcome::Returned(vec![i64::MIN as u64])
    );
    let sig2 = fx2.finalize();
    ctx.define(sig2).ok().expect("compiles");
}

#[test]
fn return_signal_propagation() {
    // A conditional nested two levels deep inside a loop body returns
    // early; the return stands in the innermost path, each builder
    // layer emits no merge jump for it, and the program still compiles
    // with every reachable block sealed and filled.
    let mut ctx = new_ctx();
    let params = vec![AbiShape::Scalar(LogicalType::U64)];
    let (mut fx, pv) = ctx.func(&params, Some(LogicalType::U64));
    let nv = match &pv[0] {
        ParamVal::Scalar(v) => *v,
        _ => panic!("scalar parameter expected"),
    };
    let zero = fx.iconst(LogicalType::U64, 0);
    let wc = do_while(&mut fx, &vec![zero]);
    let st = wc.state(&fx, wc.header);
    let n = fx.read_var(nv);
    let c = fx.icmp(CmpOp::Lt, st[0], n);
    let bst = wc.cond(&mut fx, c, &st);
    let three = fx.iconst(LogicalType::U64, 3);
    let c1 = fx.icmp(CmpOp::Ge, bst[0], three);
    let if1 = If::new(&mut fx, c1, vec![]);
    let five = fx.iconst(LogicalType::U64, 5);
    let c2 = fx.icmp(CmpOp::Ne, bst[0], five);
    let if2 = If::new(&mut fx, c2, vec![]);
    let ret42 = fx.iconst(LogicalType::U64, 42);
    let flow2 = wc.ret(&mut fx, &vec![ret42]);
    let els2 = if2.first(&mut fx, flow2);
    let f2 = els2.finish(&mut fx, ControlFlow::Break(vec![]));
    let els1 = if1.first(&mut fx, f2);
    let f1 = els1.finish(&mut fx, ControlFlow::Break(vec![]));
    assert!(matches!(f1, ControlFlow::Break(_)));
    let one = fx.iconst(LogicalType::U64, 1);
    let ni = fx.binop(BinOp::Add, bst[0], one);
    let out = wc.finish(&mut fx, ControlFlow::Break(vec![ni]));
    fx.emit_return(&vec![out[0]]);
    // blocks: entry, loop header/body/exit, two nested conditionals of
    // three blocks each
    assert_eq!(fx.block_count(), 10);
    // the early return was emitted inside the innermost taken path
    assert!(fx.block_has_ret(7));
    // inputs reaching the nested return yield the early value,
    // bypassing all further iterations; others run the loop to its end
    assert_eq!(fx.interp(&vec![10], 100_000), Outcome::Returned(vec![42]));
    assert_eq!(fx.interp(&vec![2], 100_000), Outcome::Returned(vec![2]));
    let sig = fx.finalize();
    ctx.define(sig).ok().expect("backend compiles the early-return program");
}

#[test]
fn for_each_calls_consumer_in_fused_loop() {
    // range(0,5).filter(item > 2).for_each(consumer): one loop, one
    // continuation block for the filter, and exactly one emitted call,
    // receiving the item as its single argument.
    let mut b = Ctx::builder();
    b.register_host_functions(vec![NamedHostFn {
        name: String::from("consume"),
        addr: 0x6000,
        params: vec![LogicalType::U64],
        ret: None,
    }]);
    let mut ctx = b.build().ok().expect("host machine supported");
    let hf = ctx.host_fn(0x6000).ok().expect("registered");
    let (mut fx, _pv) = ctx.func(&vec![], None);
    let start = fx.iconst(LogicalType::U64, 0);
    let end = fx.iconst(LogicalType::U64, 5);
    let big = JExpr::Cmp(CmpOp::Gt, Box::new(JExpr::Item), Box::new(JExpr::Lit(2)));
    let p = Pipeline::range(start, end).filtered(big);
    p.for_each(&mut fx, LogicalType::U64, &hf);
    assert_eq!(fx.block_count(), 1 + 3 + 1);
    let mut calls = 0;
    for bi in 0..fx.block_count() {
        for ii in 0..fx.block_inst_count(bi) {
            if fx.call_arg_ids(bi, ii).is_some() {
                calls += 1;
            }
        }
    }
    assert_eq!(calls, 1);
    let ret: Vec<lego::model::Val> = Vec::new();
    fx.emit_return(&ret);
    let sig = fx.finalize();
    ctx.define(sig).ok().expect("compiles");
}

#[test]
fn both_paths_return_preempts_the_merge() {
    // When both paths of a conditional return, the conditional
    // propagates the preempt signal: no merge jump is emitted, the
    // merge block stays pristine, and the function — every live path
    // terminated — still finalizes and compiles.
    let mut ctx = new_ctx();
    let params = vec![AbiShape::Scalar(LogicalType::U64)];
    let (mut fx, pv) = ctx.func(&params, Some(LogicalType::U64));
    let nv = match &pv[0] {
        ParamVal::Scalar(v) => *v,
        _ => panic!("scalar parameter expected"),
    };
    let n = fx.read_var(nv);
    let zero = fx.iconst(LogicalType::U64, 0);
    let c = fx.icmp(CmpOp::Eq, n, zero);
    let iff = If::new(&mut fx, c, vec![]);
    let one = fx.iconst(LogicalType::U64, 1);
    fx.emit_return(&vec![one]);
    let els = iff.first(&mut fx, ControlFlow::Preempt);
    let two = fx.iconst(LogicalType::U64, 2);
    fx.emit_return(&vec![two]);
    let flow = els.finish(&mut fx, ControlFlow::Preempt);
    assert!(matches!(flow, ControlFlow::Preempt));
    // the merge block exists but nothing jumped to it
    assert_eq!(fx.block_inst_count(3), 0);
    assert_eq!(fx.interp(&vec![0], 1000), Outcome::Returned(vec![1]));
    assert_eq!(fx.interp(&vec![7], 1000), Outcome::Returned(vec![2]));
    let sig = fx.finalize();
    ctx.define(sig).ok().expect("backend compiles with the pristine merge block");
}

#[test]
fn host_lookup_failure_is_exact() {
    let ctx = new_ctx();
    match ctx.host_fn(0xdead) {
        Err(BuildError::HostFnNotRegistered) => {}
        _ => panic!("an unregistered address must fail the lookup"),
    }
}

#[test]
fn registered_hosts_resolve() {
    let mut b = Ctx::builder();
    b.register_host_functions(vec![
        NamedHostFn {
            name: String::from("one"),
            addr: 0x1000,
            params: vec![LogicalType::U64],
            ret: Some(LogicalType::U64),
        },
        NamedHostFn {
            name: String::from("two"),
            addr: 0x2000,
            params: vec![],
            ret: None,
        },
    ]);
    b.register_host_functions(vec![NamedHostFn {
        name: String::from("three"),
        addr: 0x3000,
        params: vec![LogicalType::Ptr],
        ret: None,
    }]);
    let ctx = b.build().ok().expect("host machine supported");
    let h1 = ctx.host_fn(0x1000).ok().expect("first registration resolves");
    assert_eq!(h1.params, vec![LogicalType::U64]);
    assert_eq!(h1.ret, Some(LogicalType::U64));
    assert!(ctx.host_fn(0x2000).is_ok());
    assert!(ctx.host_fn(0x3000).is_ok());
    assert!(ctx.host_fn(0x5000).is_err());
}
