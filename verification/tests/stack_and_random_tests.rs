use chip8::machine::CpuError;
use chip8::random::{advance, sample};
use chip8::stack::CallStack;

#[test]
fn the_generator_steps_as_defined() {
    assert_eq!(advance(0), 1013904223);
    assert_eq!(advance(1), 1664525 + 1013904223);
    assert_eq!(advance(0x3C6EF35F), 0x47502932);
    assert_eq!(advance(0xFFFF_FFFF), 0x3C558D52);
}

#[test]
fn the_sample_is_the_top_byte() {
    assert_eq!(sample(0), 0);
    assert_eq!(sample(0x00FF_FFFF), 0);
    assert_eq!(sample(0x0100_0000), 1);
    assert_eq!(sample(0x3C6E_F35F), 0x3C);
    assert_eq!(sample(0xFFFF_FFFF), 0xFF);
}

#[test]
fn the_stack_is_last_in_first_out() {
    let mut stack = CallStack::new();
    assert_eq!(stack.depth(), 0);
    assert_eq!(stack.pop(), Err(CpuError::StackUnderflow));
    assert_eq!(stack.push(0x111), Ok(()));
    assert_eq!(stack.push(0x222), Ok(()));
    assert_eq!(stack.depth(), 2);
    assert_eq!(stack.pop(), Ok(0x222));
    assert_eq!(stack.pop(), Ok(0x111));
    assert_eq!(stack.pop(), Err(CpuError::StackUnderflow));
    assert_eq!(stack.depth(), 0);
}

#[test]
fn the_stack_holds_sixteen_addresses() {
    let mut stack = CallStack::new();
    for k in 0..16u16 {
        assert_eq!(stack.push(k), Ok(()));
    }
    assert_eq!(stack.push(16), Err(CpuError::StackOverflow));
    assert_eq!(stack.depth(), 16);
    for k in (0..16u16).rev() {
        assert_eq!(stack.pop(), Ok(k));
    }
}

#[test]
fn a_refused_push_or_pop_leaves_the_stack_alone() {
    let mut stack = CallStack::new();
    for k in 0..16u16 {
        stack.push(0x200 + k).unwrap();
    }
    assert_eq!(stack.push(0xFFF), Err(CpuError::StackOverflow));
    assert_eq!(stack.pop(), Ok(0x20F));
    let mut empty = CallStack::new();
    assert_eq!(empty.pop(), Err(CpuError::StackUnderflow));
    assert_eq!(empty.push(7), Ok(()));
    assert_eq!(empty.pop(), Ok(7));
}

#[test]
fn the_generator_never_merges_states() {
    let mut seen = std::collections::HashSet::new();
    let mut state: u32 = 2024;
    for _ in 0..10_000 {
        assert!(seen.insert(state));
        state = advance(state);
    }
}
