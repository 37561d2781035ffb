//! A model of the interpreter's value stack.
//!
//! The foreign runtime manipulates its stack through unchecked primitives:
//! nothing on its side verifies depth or layout, so the compile protocol is
//! solely responsible for both. This module gives the stack an exact model —
//! a sequence of slot kinds — together with the primitive operations the
//! foreign entry points perform on it. The driver mirrors every foreign call
//! with the same operation on a [`ValueStack`], so whatever is proved of the
//! mirror is the protocol's claim about the foreign stack.

use vstd::prelude::*;

verus! {

/// The kind of value occupying one slot of the interpreter's stack. The
/// model tracks kinds and positions, not foreign values: the protocol's
/// invariant is about which kind of entry stands where.
#[derive(Clone, Copy, Debug, PartialEq, Eq, Structural)]
pub enum StackSlot {
    /// The `string` library table, fetched once from the globals.
    LibTable,
    /// A reference to the runtime's native dump function.
    DumpFunction,
    /// A loaded, not yet executed chunk of compiled source.
    Chunk,
    /// The boolean "strip debug information" call argument.
    BoolArg,
    /// The byte string a successful dump call produced.
    DumpResult,
    /// The error value a failing load or protected call left behind.
    ErrorMessage,
}

/// The stack content required whenever no compile is in progress: the
/// `string` library table, the dump function, and a second reference to the
/// dump function. The topmost reference is the call target the next compile
/// consumes; the middle one is the saved copy it is re-duplicated from.
pub open spec fn baseline() -> Seq<StackSlot> {
    seq![StackSlot::LibTable, StackSlot::DumpFunction, StackSlot::DumpFunction]
}

/// One primitive operation on the value stack, as the foreign runtime's own
/// entry points perform it.
#[derive(Clone, Copy, Debug)]
pub enum StackOp {
    /// A call that pushes one new value: get-field, a successful load
    /// (pushing the chunk), a failing load (pushing its error value), or
    /// push-boolean.
    Push(StackSlot),
    /// push-value on the top slot: duplicates it in place.
    DuplicateTop,
    /// remove on the top slot: the destructive read of a string result or of
    /// an error message.
    RemoveTop,
    /// A protected call of the dump function on a chunk and a boolean: pops
    /// those three entries and pushes the single result — the dump output on
    /// success, an error value on failure.
    ProtectedCall { succeeded: bool },
}

/// Whether the stack is deep enough — and, for a protected call, laid out
/// right — for the operation. The foreign runtime checks none of this, so
/// the protocol must establish it before every primitive.
pub open spec fn op_enabled(stack: Seq<StackSlot>, op: StackOp) -> bool {
    match op {
        StackOp::Push(_) => true,
        StackOp::DuplicateTop => stack.len() >= 1,
        StackOp::RemoveTop => stack.len() >= 1,
        StackOp::ProtectedCall { .. } => stack.len() >= 3
            && stack[stack.len() - 3] == StackSlot::DumpFunction
            && stack[stack.len() - 2] == StackSlot::Chunk
            && stack[stack.len() - 1] == StackSlot::BoolArg,
    }
}

/// The effect of one enabled operation on the stack.
pub open spec fn apply_op(stack: Seq<StackSlot>, op: StackOp) -> Seq<StackSlot> {
    match op {
        StackOp::Push(slot) => stack.push(slot),
        StackOp::DuplicateTop => stack.push(stack.last()),
        StackOp::RemoveTop => stack.drop_last(),
        StackOp::ProtectedCall { succeeded } => stack.take(stack.len() - 3).push(
            if succeeded {
                StackSlot::DumpResult
            } else {
                StackSlot::ErrorMessage
            },
        ),
    }
}

/// The effect of a sequence of operations, applied first to last.
pub open spec fn apply_ops(stack: Seq<StackSlot>, ops: Seq<StackOp>) -> Seq<StackSlot>
    decreases ops.len(),
{
    if ops.len() == 0 {
        stack
    } else {
        apply_op(apply_ops(stack, ops.drop_last()), ops.last())
    }
}

/// Every operation of the sequence is enabled at the point it runs.
pub open spec fn ops_enabled(stack: Seq<StackSlot>, ops: Seq<StackOp>) -> bool
    decreases ops.len(),
{
    if ops.len() == 0 {
        true
    } else {
        ops_enabled(stack, ops.drop_last()) && op_enabled(
            apply_ops(stack, ops.drop_last()),
            ops.last(),
        )
    }
}

/// Appending one operation to a sequence applies it after the sequence, and
/// is enabled exactly when the sequence is and the new operation is at its
/// end state.
pub proof fn lemma_apply_ops_push(stack: Seq<StackSlot>, ops: Seq<StackOp>, op: StackOp)
    ensures
        apply_ops(stack, ops.push(op)) == apply_op(apply_ops(stack, ops), op),
        ops_enabled(stack, ops.push(op)) <==> (ops_enabled(stack, ops) && op_enabled(
            apply_ops(stack, ops),
            op,
        )),
{
    assert(ops.push(op).drop_last() =~= ops);
    assert(ops.push(op).last() == op);
}

/// The verified mirror of the foreign value stack.
pub struct ValueStack {
    slots: Vec<StackSlot>,
}

impl View for ValueStack {
    type V = Seq<StackSlot>;

    closed spec fn view(&self) -> Seq<StackSlot> {
        self.slots@
    }
}

impl ValueStack {
    /// The empty stack of a freshly created interpreter.
    pub fn empty() -> (r: ValueStack)
        ensures
            r@ == Seq::<StackSlot>::empty(),
    {
        ValueStack { slots: Vec::new() }
    }

    /// The number of occupied slots.
    pub fn depth(&self) -> (r: usize)
        ensures
            r == self@.len(),
    {
        self.slots.len()
    }

    /// The kind of the top entry.
    pub fn top(&self) -> (r: StackSlot)
        requires
            self@.len() > 0,
        ensures
            r == self@.last(),
    {
        self.slots[self.slots.len() - 1]
    }

    /// Perform one primitive operation on the mirror.
    pub fn apply(&mut self, op: StackOp)
        requires
            op_enabled(old(self)@, op),
        ensures
            final(self)@ == apply_op(old(self)@, op),
    {
        match op {
            StackOp::Push(slot) => {
                self.slots.push(slot);
            }
            StackOp::DuplicateTop => {
                let t = self.slots[self.slots.len() - 1];
                self.slots.push(t);
            }
            StackOp::RemoveTop => {
                let _removed = self.slots.pop();
                assert(self@ =~= old(self)@.drop_last());
            }
            StackOp::ProtectedCall { succeeded } => {
                let _arg = self.slots.pop();
                let _chunk = self.slots.pop();
                let _callee = self.slots.pop();
                assert(self@ =~= old(self)@.take(old(self)@.len() - 3));
                if succeeded {
                    self.slots.push(StackSlot::DumpResult);
                } else {
                    self.slots.push(StackSlot::ErrorMessage);
                }
            }
        }
    }
}

} // verus!
