//! The JIT context: owns the backend module, the host-function
//! registry, and the entry points for building functions.
//!
//! A [`CtxBuilder`] collects the host functions the generated code is
//! allowed to call — plain machine addresses with explicit signature
//! descriptors — and builds a [`Ctx`].  A [`Ctx`] then builds functions
//! one at a time: [`Ctx::func`] opens a build (borrowing the context
//! exclusively, so a second build cannot start while one is open),
//! [`crate::func::FnCtx::finalize`] closes it, and [`Ctx::define`]
//! compiles it into directly callable machine code.

use vstd::prelude::*;

use crate::backend;
use crate::func::{backend_ty, param_matches, FnCtx, Func, FuncSig, HostFunc, ParamVal};
use crate::model::Val;
use crate::types::{slots_of, spec_slots_of, AbiShape, LogicalType};

verus! {

/// Why a build step failed.
#[derive(Clone, Copy, Debug, PartialEq, Eq, Structural)]
pub enum BuildError {
    /// The backend cannot target the host machine.
    Backend,
    /// The backend refused to declare the function.
    Declare,
    /// The backend refused to compile the function body.
    Define,
    /// The backend failed to finalize the module's definitions.
    Finalize,
    /// A host function was named by an address that was never
    /// registered.
    HostFnNotRegistered,
}

/// A host function registered for calling from generated code: a name,
/// a machine address, and its explicit signature descriptor.
pub struct NamedHostFn {
    /// A human-readable name for the binding.
    pub name: String,
    /// The machine address of the host function.  It must be the
    /// address of a plain `extern "C"` function whose parameters and
    /// return match the declared slots; the registrar upholds that.
    pub addr: usize,
    /// The parameter slot types, in declaration order.
    pub params: Vec<LogicalType>,
    /// The return type, if any.
    pub ret: Option<LogicalType>,
}

/// Collects host-function registrations before the context is built.
pub struct CtxBuilder {
    registered_functions: Vec<NamedHostFn>,
}

impl View for CtxBuilder {
    type V = Seq<NamedHostFn>;

    closed spec fn view(&self) -> Seq<NamedHostFn> {
        self.registered_functions@
    }
}

impl CtxBuilder {
    /// Registers host functions the generated code may call, in order,
    /// after those already registered.
    pub fn register_host_functions(&mut self, f: Vec<NamedHostFn>)
        ensures
            final(self)@ == old(self)@ + f@,
    {
        let mut f = f;
        self.registered_functions.append(&mut f);
    }

    /// Builds the context.  On success it carries exactly the
    /// registered host functions.  An error reports a backend
    /// configuration failure; an unsupported host machine aborts
    /// inside the backend instead of returning.
    pub fn build(self) -> (r: Result<Ctx, BuildError>)
        ensures
            r matches Ok(c) ==> c.hosts() == self@,
            r matches Err(e) ==> e == BuildError::Backend,
    {
        match backend::make_jit_builder() {
            Result::Err(_) => Result::Err(BuildError::Backend),
            Result::Ok(b) => {
                let module = backend::jit_module_new(b);
                let cl = backend::module_make_context(&module);
                let fbx = backend::new_fn_builder_ctx();
                Result::Ok(Ctx { module, cl, fbx, host_fns: self.registered_functions })
            }
        }
    }
}

/// The JIT context.
pub struct Ctx {
    pub(crate) module: cranelift_jit::JITModule,
    pub(crate) cl: cranelift::codegen::Context,
    pub(crate) fbx: cranelift_frontend::FunctionBuilderContext,
    pub(crate) host_fns: Vec<NamedHostFn>,
}

impl Ctx {
    /// The registered host functions, in registration order.
    pub closed spec fn hosts(self) -> Seq<NamedHostFn> {
        self.host_fns@
    }

    /// A fresh builder with no host functions registered.
    pub fn builder() -> (r: CtxBuilder)
        ensures
            r@ == Seq::<NamedHostFn>::empty(),
    {
        CtxBuilder { registered_functions: Vec::new() }
    }

    /// A context with no host functions registered.  An error reports
    /// a backend configuration failure.
    pub fn new() -> (r: Result<Ctx, BuildError>)
        ensures
            r matches Ok(c) ==> c.hosts() == Seq::<NamedHostFn>::empty(),
            r matches Err(e) ==> e == BuildError::Backend,
    {
        Ctx::builder().build()
    }

    /// Looks up the host function registered at the given machine
    /// address.  Succeeds if and only if some registration carries that
    /// address, and then yields a callable handle with that entry's
    /// signature; referencing an address that was never registered is a
    /// fatal lookup failure for the function under construction.
    pub fn host_fn(&self, addr: usize) -> (r: Result<HostFunc, BuildError>)
        ensures
            (exists|i: int| 0 <= i < self.hosts().len() && (#[trigger] self.hosts()[i]).addr == addr)
                <==> r is Ok,
            r matches Err(e) ==> e == BuildError::HostFnNotRegistered,
            r matches Ok(h) ==> exists|i: int|
                0 <= i < self.hosts().len() && (#[trigger] self.hosts()[i]).addr == addr
                    && h.spec_addr() == addr && h.param_tys() == self.hosts()[i].params@
                    && h.ret_ty() == self.hosts()[i].ret,
    {
        let n = self.host_fns.len();
        let mut i: usize = 0;
        while i < n
            invariant
                n == self.hosts().len(),
                i <= n,
                forall|j: int| 0 <= j < i ==> (#[trigger] self.hosts()[j]).addr != addr,
            decreases n - i,
        {
            if self.host_fns[i].addr == addr {
                let h = HostFunc {
                    addr,
                    params: clone_tys(&self.host_fns[i].params),
                    ret: self.host_fns[i].ret,
                };
                proof {
                    assert(0 <= i < self.hosts().len() && self.hosts()[i as int].addr == addr
                        && h.spec_addr() == addr && h.param_tys() == self.hosts()[i as int].params@
                        && h.ret_ty() == self.hosts()[i as int].ret);
                }
                return Result::Ok(h);
            }
            i = i + 1;
        }
        Result::Err(BuildError::HostFnNotRegistered)
    }

    /// Opens the build of one function with the given parameter shapes
    /// and return type.
    ///
    /// The context is borrowed exclusively for the whole build, so no
    /// second function can be opened until the returned build context
    /// is finalized.  The entry block is created with one parameter per
    /// calling-convention slot — a slice contributing its length slot
    /// first, then its data pointer — sealed at once, and the cursor
    /// placed in it.  The returned handles give the body access to the
    /// parameters: scalars as mutable variables, slices as their two
    /// slot values, pointers as a single value.
    pub fn func<'b>(&'b mut self, params: &Vec<AbiShape>, ret: Option<LogicalType>) -> (r: (
        FnCtx<'b>,
        Vec<ParamVal>,
    ))
        ensures
            final(self).hosts() == old(self).hosts(),
            r.0.wf(),
            r.0@.cursor_open(),
            r.0@.sig_params == params@,
            r.0@.ret == ret,
            r.0@.blocks.len() == 1,
            r.0@.current == 0,
            r.0@.blocks[0 as int].params == spec_slots_of(params@),
            r.0@.blocks[0 as int].param_base == 0,
            r.0@.blocks[0 as int].sealed,
            r.0@.vals == spec_slots_of(params@),
            r.1@.len() == params@.len(),
            forall|i: int|
                0 <= i < params@.len() ==> param_matches(
                    r.0@,
                    #[trigger] r.1@[i],
                    params@[i],
                    spec_slots_of(params@.take(i)).len() as int,
                ),
    {
        let cfg = backend::module_target_config(&self.module);
        // a build abandoned without finalizing leaves stale state in the
        // backend contexts; both are reset so every build starts fresh
        backend::module_clear_context(&self.module, &mut self.cl);
        self.fbx = backend::new_fn_builder_ctx();
        let slots = slots_of(params);
        let mut i: usize = 0;
        while i < slots.len()
            invariant
                self.host_fns == old(self).host_fns,
            decreases slots@.len() - i,
        {
            backend::ctx_sig_push_param(&mut self.cl, backend_ty(slots[i]));
            i = i + 1;
        }
        match ret {
            Option::Some(t) => backend::ctx_sig_push_return(&mut self.cl, backend_ty(t)),
            Option::None => {}
        }
        let builder = backend::new_function_builder(&mut self.cl, &mut self.fbx);
        let mut fx = FnCtx::fresh(builder, cfg, clone_shapes(params), ret);
        let entry = fx.new_block(&slots);
        fx.enter_initial();
        fx.seal(entry);
        let pvals = fx.block_params(entry);
        let mut out: Vec<ParamVal> = Vec::new();
        let mut si: usize = 0;
        let mut pi: usize = 0;
        while pi < params.len()
            invariant
                fx.wf(),
                fx@.cursor_open(),
                fx@.current == 0,
                fx@.blocks.len() == 1,
                fx@.vals == spec_slots_of(params@),
                fx@.blocks[0 as int].params == spec_slots_of(params@),
                fx@.blocks[0 as int].param_base == 0,
                fx@.blocks[0 as int].sealed,
                fx@.sig_params == params@,
                fx@.ret == ret,
                pvals@.len() == spec_slots_of(params@).len(),
                forall|j: int|
                    0 <= j < pvals@.len() ==> #[trigger] pvals@[j] == (Val {
                        id: j as usize,
                        ty: spec_slots_of(params@)[j],
                    }),
                pi <= params@.len(),
                si == spec_slots_of(params@.take(pi as int)).len(),
                si <= pvals@.len(),
                self.host_fns == old(self).host_fns,
                out@.len() == pi,
                forall|k: int|
                    0 <= k < pi ==> param_matches(
                        fx@,
                        #[trigger] out@[k],
                        params@[k],
                        spec_slots_of(params@.take(k)).len() as int,
                    ),
            decreases params@.len() - pi,
        {
            let ghost pre = fx@;
            let ghost si0 = si as int;
            proof {
                vstd::std_specs::vec::axiom_spec_len(&pvals);
                crate::types::lemma_slots_take_bounds(params@, pi as int);
            }
            let shape = params[pi];
            match shape {
                AbiShape::Scalar(t) => {
                    let var = fx.new_var(pvals[si]);
                    out.push(ParamVal::Scalar(var));
                    si = si + 1;
                }
                AbiShape::Slice(_) => {
                    out.push(ParamVal::SlicePair { len: pvals[si], ptr: pvals[si + 1] });
                    si = si + 2;
                }
                AbiShape::Pointer => {
                    out.push(ParamVal::Opaque(pvals[si]));
                    si = si + 1;
                }
            }
            proof {
                assert forall|k: int| 0 <= k < pi + 1 implies param_matches(
                    fx@,
                    #[trigger] out@[k],
                    params@[k],
                    spec_slots_of(params@.take(k)).len() as int,
                ) by {
                    if k < pi {
                        crate::func::lemma_param_matches_mono(
                            pre,
                            fx@,
                            out@[k],
                            params@[k],
                            spec_slots_of(params@.take(k)).len() as int,
                        );
                    } else {
                        assert(spec_slots_of(params@)[si0 + 0] == params@[pi as int].spec_slots()[0]);
                        if params@[pi as int] is Slice {
                            assert(spec_slots_of(params@)[si0 + 1] == params@[
                                pi as int
                            ].spec_slots()[1]);
                        }
                    }
                }
            }
            pi = pi + 1;
        }
        (fx, out)
    }

    /// Compiles the function whose build was just finalized, under the
    /// signature the build declared.  On success the function is
    /// defined, relocated, and directly callable at its address.
    pub fn define(&mut self, sig: FuncSig) -> (r: Result<Func, BuildError>)
        ensures
            final(self).hosts() == old(self).hosts(),
            r matches Ok(f) ==> f.param_shapes() == sig.params@ && f.ret_ty() == sig.ret,
            r matches Err(e) ==> (e == BuildError::Declare || e == BuildError::Define
                || e == BuildError::Finalize),
    {
        let id = match backend::module_declare_anon(&mut self.module, &self.cl) {
            Result::Ok(i) => i,
            Result::Err(_) => {
                return Result::Err(BuildError::Declare);
            }
        };
        match backend::module_define_function(&mut self.module, id, &mut self.cl) {
            Result::Ok(u) => u,
            Result::Err(_) => {
                return Result::Err(BuildError::Define);
            }
        };
        backend::module_clear_context(&self.module, &mut self.cl);
        match backend::module_finalize_definitions(&mut self.module) {
            Result::Ok(u) => u,
            Result::Err(_) => {
                return Result::Err(BuildError::Finalize);
            }
        };
        let addr = backend::module_get_finalized_function(&self.module, id);
        Result::Ok(Func { id: backend::func_id_index(id), addr, params: sig.params, ret: sig.ret })
    }

    /// A host-callable handle for a defined function: its machine
    /// address together with the declared shapes, which the embedder
    /// uses to invoke it under the matching calling convention.
    pub fn get_compiled_function(&self, f: &Func) -> (r: CompiledFunc)
        ensures
            r.addr == f.spec_addr(),
            r.params@ == f.param_shapes(),
            r.ret == f.ret_ty(),
    {
        CompiledFunc { addr: f.addr(), params: clone_shapes(&f.params), ret: f.ret_of() }
    }
}

/// A compiled function as the host sees it: a machine address and the
/// declared calling-convention shapes.  Once obtained it is an
/// immutable value; invoking it is the embedder's task, through a
/// calling sequence matching the shapes.
pub struct CompiledFunc {
    /// The machine address of the compiled code.
    pub addr: usize,
    /// The declared parameter shapes, in order.
    pub params: Vec<AbiShape>,
    /// The declared return type, if any.
    pub ret: Option<LogicalType>,
}

/// Copies a slot-type list.
fn clone_tys(v: &Vec<LogicalType>) -> (r: Vec<LogicalType>)
    ensures
        r@ == v@,
{
    let mut r: Vec<LogicalType> = Vec::new();
    let mut i: usize = 0;
    while i < v.len()
        invariant
            i <= v@.len(),
            r@ == v@.take(i as int),
        decreases v@.len() - i,
    {
        r.push(v[i]);
        proof {
            assert(r@ =~= v@.take(i + 1));
        }
        i = i + 1;
    }
    proof {
        assert(v@.take(v@.len() as int) =~= v@);
    }
    r
}

/// Copies a shape list.
fn clone_shapes(v: &Vec<AbiShape>) -> (r: Vec<AbiShape>)
    ensures
        r@ == v@,
{
    let mut r: Vec<AbiShape> = Vec::new();
    let mut i: usize = 0;
    while i < v.len()
        invariant
            i <= v@.len(),
            r@ == v@.take(i as int),
        decreases v@.len() - i,
    {
        r.push(v[i]);
        proof {
            assert(r@ =~= v@.take(i + 1));
        }
        i = i + 1;
    }
    proof {
        assert(v@.take(v@.len() as int) =~= v@);
    }
    r
}

} // verus!
