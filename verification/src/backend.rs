//! The trusted boundary to the machine-code emission backend.
//!
//! Everything the code generator needs from the backend — block creation
//! and sealing, instruction emission, variable declaration and use,
//! signature construction, function definition and finalization — passes
//! through the declarations and wrappers in this module.  Each wrapper
//! holds exactly the outside call (and any argument or result
//! conversion); all bookkeeping and all decisions stay in the verified
//! code that calls it.
//!
//! The backend's handles (blocks, values, variables, types) are opaque
//! here.  The verified build context mirrors them index for index in its
//! own model, and the construction invariants are stated and proved over
//! that model.

use cranelift::codegen::ir::InstBuilder;
use vstd::prelude::*;

verus! {

#[verifier::external_type_specification]
#[verifier::external_body]
pub struct ExBlock(cranelift::codegen::ir::Block);

#[verifier::external_type_specification]
#[verifier::external_body]
pub struct ExValue(cranelift::codegen::ir::Value);

#[verifier::external_type_specification]
#[verifier::external_body]
pub struct ExType(cranelift::codegen::ir::Type);

#[verifier::external_type_specification]
#[verifier::external_body]
pub struct ExSignature(cranelift::codegen::ir::Signature);

#[verifier::external_type_specification]
#[verifier::external_body]
pub struct ExSigRef(cranelift::codegen::ir::SigRef);

#[verifier::external_type_specification]
#[verifier::external_body]
pub struct ExInst(cranelift::codegen::ir::Inst);

#[verifier::external_type_specification]
#[verifier::external_body]
pub struct ExStackSlot(cranelift::codegen::ir::StackSlot);

#[verifier::external_type_specification]
#[verifier::external_body]
pub struct ExBlockArg(cranelift::codegen::ir::BlockArg);

#[verifier::external_type_specification]
pub struct ExIntCC(cranelift::codegen::ir::condcodes::IntCC);

#[verifier::external_type_specification]
#[verifier::external_body]
pub struct ExVariable(cranelift_frontend::Variable);

#[verifier::external_type_specification]
#[verifier::external_body]
pub struct ExFunctionBuilderContext(cranelift_frontend::FunctionBuilderContext);

#[verifier::external_type_specification]
#[verifier::external_body]
pub struct ExFunctionBuilder<'a>(cranelift_frontend::FunctionBuilder<'a>);

#[verifier::external_type_specification]
#[verifier::external_body]
pub struct ExContext(cranelift::codegen::Context);

#[verifier::external_type_specification]
#[verifier::external_body]
pub struct ExTargetFrontendConfig(cranelift::codegen::isa::TargetFrontendConfig);

#[verifier::external_type_specification]
#[verifier::external_body]
pub struct ExJITBuilder(cranelift_jit::JITBuilder);

#[verifier::external_type_specification]
#[verifier::external_body]
pub struct ExJITModule(cranelift_jit::JITModule);

#[verifier::external_type_specification]
#[verifier::external_body]
pub struct ExFuncId(cranelift_module::FuncId);

#[verifier::external_type_specification]
#[verifier::external_body]
pub struct ExModuleError(cranelift_module::ModuleError);

#[verifier::external_type_specification]
#[verifier::external_body]
pub struct ExCallConv(cranelift::codegen::isa::CallConv);

/// Relies on cranelift_jit::JITBuilder::with_flags: builds a JIT module
/// builder for the host machine with optimization disabled.  Returns
/// an error for flag or instruction-set configuration failures; on a
/// host the backend cannot target at all, the callee aborts the
/// process instead of returning.
#[verifier::external_body]
pub(crate) fn make_jit_builder() -> Result<cranelift_jit::JITBuilder, cranelift_module::ModuleError> {
    cranelift_jit::JITBuilder::with_flags(
        &[("opt_level", "none")],
        cranelift_module::default_libcall_names(),
    )
}

/// Relies on cranelift_jit::JITModule::new: consumes the builder and
/// yields the module that owns all generated code.
#[verifier::external_body]
pub(crate) fn jit_module_new(b: cranelift_jit::JITBuilder) -> cranelift_jit::JITModule {
    cranelift_jit::JITModule::new(b)
}

/// Relies on cranelift_module::Module::make_context: a fresh codegen
/// context for the module.
#[verifier::external_body]
pub(crate) fn module_make_context(m: &cranelift_jit::JITModule) -> cranelift::codegen::Context {
    cranelift_module::Module::make_context(m)
}

/// Relies on cranelift_frontend::FunctionBuilderContext::new.
#[verifier::external_body]
pub(crate) fn new_fn_builder_ctx() -> cranelift_frontend::FunctionBuilderContext {
    cranelift_frontend::FunctionBuilderContext::new()
}

/// Relies on cranelift_module::Module::target_config: the target's
/// frontend configuration (pointer width, default calling convention).
#[verifier::external_body]
pub(crate) fn module_target_config(
    m: &cranelift_jit::JITModule,
) -> cranelift::codegen::isa::TargetFrontendConfig {
    cranelift_module::Module::target_config(m)
}

/// Relies on TargetFrontendConfig::pointer_type: the backend type of a
/// pointer on the target.
#[verifier::external_body]
pub(crate) fn config_pointer_type(
    c: &cranelift::codegen::isa::TargetFrontendConfig,
) -> cranelift::codegen::ir::Type {
    c.pointer_type()
}

/// Relies on TargetFrontendConfig::default_call_conv: the module's
/// calling convention.
#[verifier::external_body]
pub(crate) fn config_call_conv(
    c: &cranelift::codegen::isa::TargetFrontendConfig,
) -> cranelift::codegen::isa::CallConv {
    c.default_call_conv
}

/// Relies on Signature::new: an empty signature under the given calling
/// convention.
#[verifier::external_body]
pub(crate) fn new_signature(
    cc: cranelift::codegen::isa::CallConv,
) -> cranelift::codegen::ir::Signature {
    cranelift::codegen::ir::Signature::new(cc)
}

/// Relies on Signature::params being the ordered parameter slot list:
/// appends one slot of the given backend type.
#[verifier::external_body]
pub(crate) fn sig_push_param(
    s: &mut cranelift::codegen::ir::Signature,
    t: cranelift::codegen::ir::Type,
) {
    s.params.push(cranelift::codegen::ir::AbiParam::new(t));
}

/// Relies on Signature::returns being the ordered return slot list:
/// appends one slot of the given backend type.
#[verifier::external_body]
pub(crate) fn sig_push_return(
    s: &mut cranelift::codegen::ir::Signature,
    t: cranelift::codegen::ir::Type,
) {
    s.returns.push(cranelift::codegen::ir::AbiParam::new(t));
}

/// Relies on Context::func::signature: appends one parameter slot to the
/// signature of the function under construction.
#[verifier::external_body]
pub(crate) fn ctx_sig_push_param(
    c: &mut cranelift::codegen::Context,
    t: cranelift::codegen::ir::Type,
) {
    c.func.signature.params.push(cranelift::codegen::ir::AbiParam::new(t));
}

/// Relies on Context::func::signature: appends one return slot to the
/// signature of the function under construction.
#[verifier::external_body]
pub(crate) fn ctx_sig_push_return(
    c: &mut cranelift::codegen::Context,
    t: cranelift::codegen::ir::Type,
) {
    c.func.signature.returns.push(cranelift::codegen::ir::AbiParam::new(t));
}

/// Relies on cranelift_frontend::FunctionBuilder::new: a builder over the
/// context's function.  The frontend context must not be mid-build;
/// the build context type enforces that a single build is open at a time.
#[verifier::external_body]
pub(crate) fn new_function_builder<'a>(
    c: &'a mut cranelift::codegen::Context,
    x: &'a mut cranelift_frontend::FunctionBuilderContext,
) -> cranelift_frontend::FunctionBuilder<'a> {
    cranelift_frontend::FunctionBuilder::new(&mut c.func, x)
}

/// Relies on FunctionBuilder::finalize: ends the build.  The backend
/// requires every non-pristine block to be sealed and filled; the build
/// context's invariants establish that before this is called.
#[verifier::external_body]
pub(crate) fn builder_finalize(
    b: cranelift_frontend::FunctionBuilder<'_>,
    cfg: &cranelift::codegen::isa::TargetFrontendConfig,
) {
    b.finalize(*cfg);
}

/// Relies on cranelift_module::Module::declare_anonymous_function for the
/// signature held by the codegen context.
#[verifier::external_body]
pub(crate) fn module_declare_anon(
    m: &mut cranelift_jit::JITModule,
    c: &cranelift::codegen::Context,
) -> Result<cranelift_module::FuncId, cranelift_module::ModuleError> {
    cranelift_module::Module::declare_anonymous_function(m, &c.func.signature)
}

/// Relies on cranelift_module::Module::define_function: compiles the
/// function held by the context under the given id.
#[verifier::external_body]
pub(crate) fn module_define_function(
    m: &mut cranelift_jit::JITModule,
    id: cranelift_module::FuncId,
    c: &mut cranelift::codegen::Context,
) -> Result<(), cranelift_module::ModuleError> {
    cranelift_module::Module::define_function(m, id, c)
}

/// Relies on cranelift_module::Module::clear_context: resets the codegen
/// context for the next function.
#[verifier::external_body]
pub(crate) fn module_clear_context(
    m: &cranelift_jit::JITModule,
    c: &mut cranelift::codegen::Context,
) {
    cranelift_module::Module::clear_context(m, c);
}

/// Relies on cranelift_jit::JITModule::finalize_definitions: performs
/// relocations and makes defined functions callable.
#[verifier::external_body]
pub(crate) fn module_finalize_definitions(
    m: &mut cranelift_jit::JITModule,
) -> Result<(), cranelift_module::ModuleError> {
    m.finalize_definitions()
}

/// Relies on cranelift_jit::JITModule::get_finalized_function: the
/// machine address of a function that was defined and finalized.  Must
/// only be called for such a function; the library hands out compiled
/// handles only after definition and finalization succeeded.
#[verifier::external_body]
pub(crate) fn module_get_finalized_function(
    m: &cranelift_jit::JITModule,
    id: cranelift_module::FuncId,
) -> usize {
    m.get_finalized_function(id) as usize
}

/// Relies on cranelift_module::FuncId::as_u32: the numeric index of a
/// declared function.
#[verifier::external_body]
pub(crate) fn func_id_index(id: cranelift_module::FuncId) -> u32 {
    id.as_u32()
}

/// Relies on FunctionBuilder::create_block: a fresh, empty block.
#[verifier::external_body]
pub(crate) fn fb_create_block(
    b: &mut cranelift_frontend::FunctionBuilder<'_>,
) -> cranelift::codegen::ir::Block {
    b.create_block()
}

/// Relies on FunctionBuilder::append_block_param: appends one parameter
/// of the given backend type to the block and returns its value.
#[verifier::external_body]
pub(crate) fn fb_append_block_param(
    b: &mut cranelift_frontend::FunctionBuilder<'_>,
    blk: cranelift::codegen::ir::Block,
    t: cranelift::codegen::ir::Type,
) -> cranelift::codegen::ir::Value {
    b.append_block_param(blk, t)
}

/// Relies on FunctionBuilder::switch_to_block: subsequent instructions
/// are appended to the given block.  The backend requires the block not
/// to be filled yet; the build context's model enforces that.
#[verifier::external_body]
pub(crate) fn fb_switch_to_block(
    b: &mut cranelift_frontend::FunctionBuilder<'_>,
    blk: cranelift::codegen::ir::Block,
) {
    b.switch_to_block(blk);
}

/// Relies on FunctionBuilder::seal_block: declares that all predecessors
/// of the block are known.  The backend requires a block to be sealed at
/// most once; the build context's model enforces that.
#[verifier::external_body]
pub(crate) fn fb_seal_block(
    b: &mut cranelift_frontend::FunctionBuilder<'_>,
    blk: cranelift::codegen::ir::Block,
) {
    b.seal_block(blk);
}

/// Relies on FunctionBuilder::declare_var: declares a variable of the
/// given backend type and returns its handle.
#[verifier::external_body]
pub(crate) fn fb_declare_var(
    b: &mut cranelift_frontend::FunctionBuilder<'_>,
    t: cranelift::codegen::ir::Type,
) -> cranelift_frontend::Variable {
    b.declare_var(t)
}

/// Relies on FunctionBuilder::def_var: records a new definition of the
/// variable.  This is SSA renaming, not a store.
#[verifier::external_body]
pub(crate) fn fb_def_var(
    b: &mut cranelift_frontend::FunctionBuilder<'_>,
    var: cranelift_frontend::Variable,
    v: cranelift::codegen::ir::Value,
) {
    b.def_var(var, v);
}

/// Relies on FunctionBuilder::use_var: a value carrying the variable's
/// latest definition.  The variable must have a definition on every path;
/// the build context defines every variable at declaration.
#[verifier::external_body]
pub(crate) fn fb_use_var(
    b: &mut cranelift_frontend::FunctionBuilder<'_>,
    var: cranelift_frontend::Variable,
) -> cranelift::codegen::ir::Value {
    b.use_var(var)
}

/// Relies on FunctionBuilder::import_signature.
#[verifier::external_body]
pub(crate) fn fb_import_signature(
    b: &mut cranelift_frontend::FunctionBuilder<'_>,
    s: cranelift::codegen::ir::Signature,
) -> cranelift::codegen::ir::SigRef {
    b.import_signature(s)
}

/// Relies on InstBuilder::iconst: materializes an integer constant of the
/// given backend type.
#[verifier::external_body]
pub(crate) fn ins_iconst(
    b: &mut cranelift_frontend::FunctionBuilder<'_>,
    t: cranelift::codegen::ir::Type,
    imm: i64,
) -> cranelift::codegen::ir::Value {
    b.ins().iconst(t, imm)
}

/// Relies on InstBuilder::iadd: wrapping integer addition.
#[verifier::external_body]
pub(crate) fn ins_iadd(
    b: &mut cranelift_frontend::FunctionBuilder<'_>,
    x: cranelift::codegen::ir::Value,
    y: cranelift::codegen::ir::Value,
) -> cranelift::codegen::ir::Value {
    b.ins().iadd(x, y)
}

/// Relies on InstBuilder::isub: wrapping integer subtraction.
#[verifier::external_body]
pub(crate) fn ins_isub(
    b: &mut cranelift_frontend::FunctionBuilder<'_>,
    x: cranelift::codegen::ir::Value,
    y: cranelift::codegen::ir::Value,
) -> cranelift::codegen::ir::Value {
    b.ins().isub(x, y)
}

/// Relies on InstBuilder::imul: wrapping integer multiplication.
#[verifier::external_body]
pub(crate) fn ins_imul(
    b: &mut cranelift_frontend::FunctionBuilder<'_>,
    x: cranelift::codegen::ir::Value,
    y: cranelift::codegen::ir::Value,
) -> cranelift::codegen::ir::Value {
    b.ins().imul(x, y)
}

/// Relies on InstBuilder::udiv: unsigned division, trapping at run time
/// on a zero divisor.
#[verifier::external_body]
pub(crate) fn ins_udiv(
    b: &mut cranelift_frontend::FunctionBuilder<'_>,
    x: cranelift::codegen::ir::Value,
    y: cranelift::codegen::ir::Value,
) -> cranelift::codegen::ir::Value {
    b.ins().udiv(x, y)
}

/// Relies on InstBuilder::sdiv: signed division, trapping at run time on
/// a zero divisor or overflow.
#[verifier::external_body]
pub(crate) fn ins_sdiv(
    b: &mut cranelift_frontend::FunctionBuilder<'_>,
    x: cranelift::codegen::ir::Value,
    y: cranelift::codegen::ir::Value,
) -> cranelift::codegen::ir::Value {
    b.ins().sdiv(x, y)
}

/// Relies on InstBuilder::urem: unsigned remainder.
#[verifier::external_body]
pub(crate) fn ins_urem(
    b: &mut cranelift_frontend::FunctionBuilder<'_>,
    x: cranelift::codegen::ir::Value,
    y: cranelift::codegen::ir::Value,
) -> cranelift::codegen::ir::Value {
    b.ins().urem(x, y)
}

/// Relies on InstBuilder::srem: signed remainder.
#[verifier::external_body]
pub(crate) fn ins_srem(
    b: &mut cranelift_frontend::FunctionBuilder<'_>,
    x: cranelift::codegen::ir::Value,
    y: cranelift::codegen::ir::Value,
) -> cranelift::codegen::ir::Value {
    b.ins().srem(x, y)
}

/// Relies on InstBuilder::ishl: shift left.
#[verifier::external_body]
pub(crate) fn ins_ishl(
    b: &mut cranelift_frontend::FunctionBuilder<'_>,
    x: cranelift::codegen::ir::Value,
    y: cranelift::codegen::ir::Value,
) -> cranelift::codegen::ir::Value {
    b.ins().ishl(x, y)
}

/// Relies on InstBuilder::ushr: logical shift right.
#[verifier::external_body]
pub(crate) fn ins_ushr(
    b: &mut cranelift_frontend::FunctionBuilder<'_>,
    x: cranelift::codegen::ir::Value,
    y: cranelift::codegen::ir::Value,
) -> cranelift::codegen::ir::Value {
    b.ins().ushr(x, y)
}

/// Relies on InstBuilder::sshr: arithmetic shift right.
#[verifier::external_body]
pub(crate) fn ins_sshr(
    b: &mut cranelift_frontend::FunctionBuilder<'_>,
    x: cranelift::codegen::ir::Value,
    y: cranelift::codegen::ir::Value,
) -> cranelift::codegen::ir::Value {
    b.ins().sshr(x, y)
}

/// Relies on InstBuilder::band: bitwise and.
#[verifier::external_body]
pub(crate) fn ins_band(
    b: &mut cranelift_frontend::FunctionBuilder<'_>,
    x: cranelift::codegen::ir::Value,
    y: cranelift::codegen::ir::Value,
) -> cranelift::codegen::ir::Value {
    b.ins().band(x, y)
}

/// Relies on InstBuilder::bor: bitwise or.
#[verifier::external_body]
pub(crate) fn ins_bor(
    b: &mut cranelift_frontend::FunctionBuilder<'_>,
    x: cranelift::codegen::ir::Value,
    y: cranelift::codegen::ir::Value,
) -> cranelift::codegen::ir::Value {
    b.ins().bor(x, y)
}

/// Relies on InstBuilder::bxor: bitwise exclusive or.
#[verifier::external_body]
pub(crate) fn ins_bxor(
    b: &mut cranelift_frontend::FunctionBuilder<'_>,
    x: cranelift::codegen::ir::Value,
    y: cranelift::codegen::ir::Value,
) -> cranelift::codegen::ir::Value {
    b.ins().bxor(x, y)
}

/// Relies on InstBuilder::icmp: integer comparison under the given
/// condition, yielding a boolean value.
#[verifier::external_body]
pub(crate) fn ins_icmp(
    b: &mut cranelift_frontend::FunctionBuilder<'_>,
    cc: cranelift::codegen::ir::condcodes::IntCC,
    x: cranelift::codegen::ir::Value,
    y: cranelift::codegen::ir::Value,
) -> cranelift::codegen::ir::Value {
    b.ins().icmp(cc, x, y)
}

/// Relies on InstBuilder::trapnz with the integer-overflow trap code:
/// the generated code traps at this point when the operand is non-zero.
#[verifier::external_body]
pub(crate) fn ins_trapnz_overflow(
    b: &mut cranelift_frontend::FunctionBuilder<'_>,
    c: cranelift::codegen::ir::Value,
) {
    b.ins().trapnz(c, cranelift::codegen::ir::TrapCode::INTEGER_OVERFLOW);
}

/// Relies on BlockArg::Value: wraps a value for use as a block argument.
#[verifier::external_body]
pub(crate) fn block_arg_of(v: cranelift::codegen::ir::Value) -> cranelift::codegen::ir::BlockArg {
    cranelift::codegen::ir::BlockArg::Value(v)
}

/// Relies on InstBuilder::jump: an unconditional jump passing the given
/// block arguments, in order.  A terminator.
#[verifier::external_body]
pub(crate) fn ins_jump(
    b: &mut cranelift_frontend::FunctionBuilder<'_>,
    target: cranelift::codegen::ir::Block,
    args: &Vec<cranelift::codegen::ir::BlockArg>,
) {
    b.ins().jump(target, args);
}

/// Relies on InstBuilder::brif: branches to the first block when the
/// condition is non-zero, else to the second, passing each target its
/// arguments in order.  A terminator.
#[verifier::external_body]
pub(crate) fn ins_brif(
    b: &mut cranelift_frontend::FunctionBuilder<'_>,
    c: cranelift::codegen::ir::Value,
    t: cranelift::codegen::ir::Block,
    targs: &Vec<cranelift::codegen::ir::BlockArg>,
    e: cranelift::codegen::ir::Block,
    eargs: &Vec<cranelift::codegen::ir::BlockArg>,
) {
    b.ins().brif(c, t, targs, e, eargs);
}

/// Relies on InstBuilder::return_: returns from the generated function
/// with the given values, which must match the signature.  A terminator.
#[verifier::external_body]
pub(crate) fn ins_return(
    b: &mut cranelift_frontend::FunctionBuilder<'_>,
    vals: &Vec<cranelift::codegen::ir::Value>,
) {
    b.ins().return_(vals.as_slice());
}

/// Relies on InstBuilder::call_indirect and
/// FunctionBuilder::inst_results: calls the function at the callee
/// address under the imported signature, passing the arguments in order,
/// and yields the call's single result value.  The signature must have
/// exactly one return; every call site builds it that way.
#[verifier::external_body]
pub(crate) fn emit_call_indirect_ret(
    b: &mut cranelift_frontend::FunctionBuilder<'_>,
    sig: cranelift::codegen::ir::SigRef,
    callee: cranelift::codegen::ir::Value,
    args: &Vec<cranelift::codegen::ir::Value>,
) -> cranelift::codegen::ir::Value {
    let call = b.ins().call_indirect(sig, callee, args.as_slice());
    b.inst_results(call)[0]
}

/// Relies on InstBuilder::call_indirect: calls the function at the callee
/// address under the imported signature, passing the arguments in order.
/// For signatures with no returns; any results are ignored.
#[verifier::external_body]
pub(crate) fn emit_call_indirect_noret(
    b: &mut cranelift_frontend::FunctionBuilder<'_>,
    sig: cranelift::codegen::ir::SigRef,
    callee: cranelift::codegen::ir::Value,
    args: &Vec<cranelift::codegen::ir::Value>,
) {
    b.ins().call_indirect(sig, callee, args.as_slice());
}

/// Relies on InstBuilder::load with empty memory flags: loads a value of
/// the given backend type from the address plus a constant byte offset.
#[verifier::external_body]
pub(crate) fn ins_load(
    b: &mut cranelift_frontend::FunctionBuilder<'_>,
    t: cranelift::codegen::ir::Type,
    addr: cranelift::codegen::ir::Value,
    offset: i32,
) -> cranelift::codegen::ir::Value {
    b.ins().load(t, cranelift::codegen::ir::MemFlagsData::new(), addr, offset)
}

/// Relies on InstBuilder::store with empty memory flags: stores the value
/// at the address plus a constant byte offset.
#[verifier::external_body]
pub(crate) fn ins_store(
    b: &mut cranelift_frontend::FunctionBuilder<'_>,
    v: cranelift::codegen::ir::Value,
    addr: cranelift::codegen::ir::Value,
    offset: i32,
) {
    b.ins().store(cranelift::codegen::ir::MemFlagsData::new(), v, addr, offset);
}

/// Relies on FunctionBuilder::create_sized_stack_slot with an explicit
/// slot of the given size and alignment.
#[verifier::external_body]
pub(crate) fn fb_create_stack_slot(
    b: &mut cranelift_frontend::FunctionBuilder<'_>,
    size: u32,
    align_log2: u8,
) -> cranelift::codegen::ir::StackSlot {
    b.create_sized_stack_slot(cranelift::codegen::ir::StackSlotData::new(
        cranelift::codegen::ir::StackSlotKind::ExplicitSlot,
        size,
        align_log2,
    ))
}

/// Relies on InstBuilder::stack_addr: the address of a stack slot plus a
/// constant byte offset, as a pointer-typed value.
#[verifier::external_body]
pub(crate) fn ins_stack_addr(
    b: &mut cranelift_frontend::FunctionBuilder<'_>,
    t: cranelift::codegen::ir::Type,
    slot: cranelift::codegen::ir::StackSlot,
    offset: i32,
) -> cranelift::codegen::ir::Value {
    b.ins().stack_addr(t, slot, offset)
}

/// Relies on the backend type constant for 8-bit integers.
#[verifier::external_body]
pub(crate) fn ty_i8() -> cranelift::codegen::ir::Type {
    cranelift::codegen::ir::types::I8
}

/// Relies on the backend type constant for 16-bit integers.
#[verifier::external_body]
pub(crate) fn ty_i16() -> cranelift::codegen::ir::Type {
    cranelift::codegen::ir::types::I16
}

/// Relies on the backend type constant for 32-bit integers.
#[verifier::external_body]
pub(crate) fn ty_i32() -> cranelift::codegen::ir::Type {
    cranelift::codegen::ir::types::I32
}

/// Relies on the backend type constant for 64-bit integers.
#[verifier::external_body]
pub(crate) fn ty_i64() -> cranelift::codegen::ir::Type {
    cranelift::codegen::ir::types::I64
}

} // verus!
