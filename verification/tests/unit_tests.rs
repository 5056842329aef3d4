//! Unit checks of the pure layers: calling-convention shapes, object
//! layouts, host-side marshaling, and the control-flow signal algebra.

use lego::datatype::StructLayout;
use lego::ffi::{Bottom, ToFFIParams};
use lego::signal::ControlFlow;
use lego::types::{slots_of, AbiShape, LogicalType};

#[test]
fn abi_slot_order() {
    // a slice occupies two slots, length first, then data pointer;
    // members concatenate left to right
    let shapes = vec![
        AbiShape::Scalar(LogicalType::U32),
        AbiShape::Slice(LogicalType::U8),
        AbiShape::Pointer,
    ];
    let slots = slots_of(&shapes);
    assert_eq!(
        slots,
        vec![
            LogicalType::U32,
            LogicalType::U64,
            LogicalType::Ptr,
            LogicalType::Ptr,
        ]
    );
}

#[test]
fn abi_scalar_widths() {
    assert_eq!(LogicalType::U8.bits(), 8);
    assert_eq!(LogicalType::I16.bits(), 16);
    assert_eq!(LogicalType::U32.bits(), 32);
    assert_eq!(LogicalType::I64.bits(), 64);
    assert_eq!(LogicalType::Bool.bits(), 8);
    assert_eq!(LogicalType::Ptr.bits(), 64);
    assert!(LogicalType::I32.signed());
    assert!(!LogicalType::U32.signed());
}

#[test]
fn layout_offsets_are_aligned() {
    let tys = vec![
        LogicalType::U8,
        LogicalType::U32,
        LogicalType::U8,
        LogicalType::U64,
    ];
    let layout = StructLayout::layout_of(&tys);
    let offsets: Vec<u32> = layout.fields.iter().map(|f| f.offset).collect();
    assert_eq!(offsets, vec![0, 4, 8, 16]);
    assert_eq!(layout.size, 24);
}

#[test]
fn layout_of_packed_bytes() {
    let tys = vec![LogicalType::U8, LogicalType::U8, LogicalType::U8];
    let layout = StructLayout::layout_of(&tys);
    let offsets: Vec<u32> = layout.fields.iter().map(|f| f.offset).collect();
    assert_eq!(offsets, vec![0, 1, 2]);
    assert_eq!(layout.size, 3);
}

#[test]
fn ffi_marshal_order() {
    let mut out: Vec<u64> = Vec::new();
    (1u64, 2u64, 3u64).to_ffi_params(&mut out);
    assert_eq!(out, vec![1, 2, 3]);

    let mut out2: Vec<u64> = Vec::new();
    ((4u64, 5u64), 6u64).to_ffi_params(&mut out2);
    assert_eq!(out2, vec![4, 5, 6]);

    let mut out3: Vec<u64> = Vec::new();
    Bottom.to_ffi_params(&mut out3);
    assert_eq!(out3, Vec::<u64>::new());

    let mut out4: Vec<u64> = Vec::new();
    (true, -1i32).to_ffi_params(&mut out4);
    assert_eq!(out4, vec![1, 0xffff_ffff_ffff_ffff]);
}

#[test]
fn signal_merge_jump_rule() {
    let fall: ControlFlow<u64, u64> = ControlFlow::Break(7);
    let early: ControlFlow<u64, u64> = ControlFlow::Ret(9);
    let pre: ControlFlow<u64, u64> = ControlFlow::Preempt;
    assert!(fall.needs_merge_jump());
    assert!(!early.needs_merge_jump());
    assert!(!pre.needs_merge_jump());
}

#[test]
fn while_example() {
    // The loop algebra over host values: counting from 0 while i != 10,
    // an early return fires at 5 with value 32; otherwise the function
    // would have ended with 12.
    fn while_example_inner() -> u64 {
        let mut i: u64 = 0;
        let ret: ControlFlow<(), u64> = loop {
            if !(i != 10) {
                break ControlFlow::Break(());
            }
            if i == 5 {
                break ControlFlow::Ret(32);
            }
            i += 1;
        };
        match ret {
            ControlFlow::Break(()) => {}
            ControlFlow::Ret(v) => return v,
            _ => unreachable!(),
        }
        12
    }
    assert_eq!(while_example_inner(), 32);
}
