use gluac_rs::stack::{StackOp, StackSlot, ValueStack};

#[test]
fn stack_ops_mirror_the_foreign_primitives() {
    let mut stack = ValueStack::empty();
    assert_eq!(stack.depth(), 0);

    stack.apply(StackOp::Push(StackSlot::LibTable));
    stack.apply(StackOp::Push(StackSlot::DumpFunction));
    stack.apply(StackOp::DuplicateTop);
    assert_eq!(stack.depth(), 3);
    assert_eq!(stack.top(), StackSlot::DumpFunction);

    stack.apply(StackOp::Push(StackSlot::Chunk));
    stack.apply(StackOp::Push(StackSlot::BoolArg));
    stack.apply(StackOp::ProtectedCall { succeeded: true });
    assert_eq!(stack.depth(), 3);
    assert_eq!(stack.top(), StackSlot::DumpResult);

    stack.apply(StackOp::RemoveTop);
    stack.apply(StackOp::DuplicateTop);
    assert_eq!(stack.depth(), 3);
    assert_eq!(stack.top(), StackSlot::DumpFunction);
}

#[test]
fn failing_protected_call_leaves_one_error_value() {
    let mut stack = ValueStack::empty();
    stack.apply(StackOp::Push(StackSlot::LibTable));
    stack.apply(StackOp::Push(StackSlot::DumpFunction));
    stack.apply(StackOp::DuplicateTop);
    stack.apply(StackOp::Push(StackSlot::Chunk));
    stack.apply(StackOp::Push(StackSlot::BoolArg));
    stack.apply(StackOp::ProtectedCall { succeeded: false });
    assert_eq!(stack.depth(), 3);
    assert_eq!(stack.top(), StackSlot::ErrorMessage);
}
