use vm_pulse::stack::Stack;

#[test]
fn stack_push_pop() {
    let mut stack = Stack::new();
    assert!(stack.push(0xEF).is_ok(), "push failed on 0xEF");
    assert!(stack.push(0xAB).is_ok(), "push failed on 0xAB");
    assert_eq!(stack.pop(), Ok(0xAB), "stack is not last-in first-out");
    assert_eq!(stack.pop(), Ok(0xEF), "stack is not last-in first-out");
}

#[test]
fn pop_on_empty() {
    let mut stack = Stack::new();
    assert!(stack.pop().is_err());
}

#[test]
fn stack_overflow() {
    let mut stack = Stack::new();
    for i in 1..17 {
        assert!(stack.push(i as u16).is_ok());
    }
    assert!(stack.push(0xEF).is_err());
}

#[test]
fn full_push_reports_pointer_sixteen() {
    let mut stack = Stack::new();
    for i in 0..16 {
        assert_eq!(stack.push(100 + i as u16), Ok(()));
    }
    assert_eq!(stack.push(0xBEEF), Err(16));
}

#[test]
fn empty_pop_reports_pointer_zero() {
    let mut stack = Stack::new();
    assert_eq!(stack.pop(), Err(0));
}

#[test]
fn lifo_at_full_depth() {
    let mut stack = Stack::new();
    let values: Vec<u16> = (0..16).map(|i| 0x0100 + 3 * i as u16).collect();
    for v in &values {
        assert_eq!(stack.push(*v), Ok(()));
    }
    for v in values.iter().rev() {
        assert_eq!(stack.pop(), Ok(*v));
    }
    assert_eq!(stack.pop(), Err(0));
}

#[test]
fn failed_push_leaves_contents_intact() {
    let mut stack = Stack::new();
    for i in 0..16 {
        assert_eq!(stack.push(i as u16), Ok(()));
    }
    assert_eq!(stack.push(0xFFFF), Err(16));
    for i in (0..16).rev() {
        assert_eq!(stack.pop(), Ok(i as u16));
    }
}
