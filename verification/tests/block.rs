use objc::block::{Block, BlockClass, ConcreteBlock, Id};
use objc::encode::EncodePtr;
use std::rc::Rc;

fn get_int_block_with(i: i32) -> Id<(), i32, impl Fn() -> i32> {
    ConcreteBlock::new(move || i).copy()
}

fn get_add_block_with(i: i32) -> Id<(i32,), i32, impl Fn(i32) -> i32> {
    ConcreteBlock::new(move |a: i32| a + i).copy()
}

fn invoke_int_block<F: Fn() -> i32>(block: &Block<(), i32, F>) -> i32 {
    block.call(())
}

fn invoke_add_block<F: Fn(i32) -> i32>(block: &Block<(i32,), i32, F>, a: i32) -> i32 {
    block.call((a,))
}

#[test]
fn test_call_block() {
    let block = get_int_block_with(13);
    assert!(block.call(()) == 13);
}

#[test]
fn test_call_block_args() {
    let block = get_add_block_with(13);
    assert!(block.call((2,)) == 15);
}

#[test]
fn test_create_block() {
    let block = ConcreteBlock::new(|| 13);
    let result = invoke_int_block(&block.base);
    assert!(result == 13);
}

#[test]
fn test_create_block_args() {
    let block = ConcreteBlock::new(|a: i32| a + 5);
    let result = invoke_add_block(&block.base, 6);
    assert!(result == 11);
}

#[test]
fn test_concrete_block_copy() {
    let s = "Hello!".to_string();
    let expected_len = s.len() as i32;
    let block = ConcreteBlock::new(move || s.len() as i32);
    assert!(invoke_int_block(&block.base) == expected_len);

    let copied = block.copy();
    assert!(invoke_int_block(&copied.block) == expected_len);
}

#[test]
fn test_promoted_add_block() {
    let block = ConcreteBlock::new(|a: i32| a + 5);
    let copied = block.copy();
    assert_eq!(copied.call((6,)), 11);
}

#[test]
fn test_header_fields() {
    let block = ConcreteBlock::new(|| 13);
    assert_eq!(block.base.isa, BlockClass::ConcreteStackBlock);
    assert_eq!(block.base.flags, 1u32 << 25);
    assert_eq!(block.base.reserved, 0);
    let copied = block.copy();
    assert_eq!(copied.block.isa, BlockClass::ConcreteMallocBlock);
    assert_eq!(copied.block.flags, 1u32 << 25);
    assert_eq!(copied.block.reserved, 0);
}

#[test]
fn test_descriptor_size_matches_instance() {
    let block = ConcreteBlock::new(|a: i32| a * 2);
    let instance_size = std::mem::size_of_val(&block);
    assert_eq!(block.descriptor.block_size, instance_size);
    assert_eq!(block.descriptor.reserved, 0);
    let copied = block.copy();
    assert_eq!(copied.descriptor.block_size, instance_size);
}

#[test]
fn test_distinct_trampolines() {
    let zero_args = ConcreteBlock::new(|| 0i32);
    let two_args = ConcreteBlock::new(|a: i32, b: i32| a + b);
    assert_ne!(zero_args.base.invoke, two_args.base.invoke);
    assert_eq!(zero_args.call(()), 0);
    assert_eq!(two_args.call((3, 4)), 7);
}

#[test]
fn test_clone_calls_like_original() {
    let block = ConcreteBlock::new(|| 13);
    let second = block.clone();
    assert_eq!(block.call(()), 13);
    assert_eq!(second.call(()), 13);
    assert_eq!(block.base.invoke, second.base.invoke);
}

#[test]
fn test_captured_string_destructed_once() {
    let s = Rc::new("a string with its own storage".to_string());
    let expected_len = s.len() as i32;
    let captured = Rc::clone(&s);
    let block = ConcreteBlock::new(move || captured.len() as i32);
    assert_eq!(Rc::strong_count(&s), 2);
    assert_eq!(block.call(()), expected_len);

    let copied = block.copy();
    // Promotion moved the captured value; it was not dropped.
    assert_eq!(Rc::strong_count(&s), 2);
    assert_eq!(copied.call(()), expected_len);

    copied.release();
    // Release destructed the captured value exactly once.
    assert_eq!(Rc::strong_count(&s), 1);
}

#[test]
fn test_copy_helper_leaves_destination_alone() {
    let mut relocated: i32 = 42;
    let original: i32 = 42;
    objc::block::block_context_copy(&mut relocated, &original);
    assert_eq!(relocated, 42);
}

#[test]
fn test_block_ptr_code() {
    assert_eq!(Block::<(), i32, fn() -> i32>::ptr_code(), "@?");
}

#[test]
fn test_all_arities() {
    let b0 = ConcreteBlock::new(|| 0u64);
    assert_eq!(b0.call(()), 0);
    let b1 = ConcreteBlock::new(|a: u64| a);
    assert_eq!(b1.call((1,)), 1);
    let b2 = ConcreteBlock::new(|a: u64, b: u64| a + b);
    assert_eq!(b2.call((1, 2)), 3);
    let b3 = ConcreteBlock::new(|a: u64, b: u64, c: u64| a + b + c);
    assert_eq!(b3.call((1, 2, 3)), 6);
    let b4 = ConcreteBlock::new(|a: u64, b: u64, c: u64, d: u64| a + b + c + d);
    assert_eq!(b4.call((1, 2, 3, 4)), 10);
    let b5 = ConcreteBlock::new(|a: u64, b: u64, c: u64, d: u64, e: u64| a + b + c + d + e);
    assert_eq!(b5.call((1, 2, 3, 4, 5)), 15);
    let b6 = ConcreteBlock::new(
        |a: u64, b: u64, c: u64, d: u64, e: u64, f: u64| a + b + c + d + e + f,
    );
    assert_eq!(b6.call((1, 2, 3, 4, 5, 6)), 21);
    let b7 = ConcreteBlock::new(
        |a: u64, b: u64, c: u64, d: u64, e: u64, f: u64, g: u64| a + b + c + d + e + f + g,
    );
    assert_eq!(b7.call((1, 2, 3, 4, 5, 6, 7)), 28);
    let b8 = ConcreteBlock::new(
        |a: u64, b: u64, c: u64, d: u64, e: u64, f: u64, g: u64, h: u64| {
            a + b + c + d + e + f + g + h
        },
    );
    assert_eq!(b8.call((1, 2, 3, 4, 5, 6, 7, 8)), 36);
    let b9 = ConcreteBlock::new(
        |a: u64, b: u64, c: u64, d: u64, e: u64, f: u64, g: u64, h: u64, i: u64| {
            a + b + c + d + e + f + g + h + i
        },
    );
    assert_eq!(b9.call((1, 2, 3, 4, 5, 6, 7, 8, 9)), 45);
    let b10 = ConcreteBlock::new(
        |a: u64, b: u64, c: u64, d: u64, e: u64, f: u64, g: u64, h: u64, i: u64, j: u64| {
            a + b + c + d + e + f + g + h + i + j
        },
    );
    assert_eq!(b10.call((1, 2, 3, 4, 5, 6, 7, 8, 9, 10)), 55);
    let b11 = ConcreteBlock::new(
        |a: u64, b: u64, c: u64, d: u64, e: u64, f: u64, g: u64, h: u64, i: u64, j: u64, k: u64| {
            a + b + c + d + e + f + g + h + i + j + k
        },
    );
    assert_eq!(b11.call((1, 2, 3, 4, 5, 6, 7, 8, 9, 10, 11)), 66);
    let b12 = ConcreteBlock::new(
        |a: u64,
         b: u64,
         c: u64,
         d: u64,
         e: u64,
         f: u64,
         g: u64,
         h: u64,
         i: u64,
         j: u64,
         k: u64,
         l: u64| { a + b + c + d + e + f + g + h + i + j + k + l },
    );
    assert_eq!(b12.call((1, 2, 3, 4, 5, 6, 7, 8, 9, 10, 11, 12)), 78);

    // Promotion keeps each arity's behavior.
    assert_eq!(b2.copy().call((20, 22)), 42);
    assert_eq!(b12.copy().call((1, 1, 1, 1, 1, 1, 1, 1, 1, 1, 1, 1)), 12);
}
