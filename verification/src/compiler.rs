//! The bytecode-compile protocol over the interpreter's value stack.
//!
//! One [`BytecodeCompiler`] mirrors one interpreter. Construction establishes
//! the fixed three-entry stack baseline; every compile consumes the baseline's
//! topmost dump reference and must end with the baseline restored, whatever
//! the foreign runtime reported. The foreign calls themselves happen in an
//! unverified driver; it reports what they did as a [`CompileOutcome`], and
//! the functions here decide the classified result and replay the exact stack
//! operations, proving the baseline is back on every path.

use vstd::prelude::*;

use crate::api::{classified, raw_view, Bytecode, LuaError};
use crate::lua::LuaInt;
use crate::stack::{
    apply_op, apply_ops, baseline, lemma_apply_ops_push, ops_enabled, StackOp, StackSlot,
    ValueStack,
};

verus! {

/// What one compile attempt's foreign calls reported and produced: the one
/// place the unverified driver tells the verified protocol what happened on
/// the other side of the foreign boundary.
pub enum CompileOutcome {
    /// Loading the source text or the file failed with nonzero `status`,
    /// leaving one error value on the stack; `message` holds that value's
    /// bytes when it was a readable string.
    LoadFailed { status: LuaInt, message: Option<Vec<u8>> },
    /// The load succeeded (pushing the chunk), but the protected dump call
    /// failed with nonzero `status`, leaving one error value.
    DumpFailed { status: LuaInt, message: Option<Vec<u8>> },
    /// The load and the protected dump call both succeeded, producing
    /// `bytecode` — still carrying the dump format's own trailing
    /// terminator.
    Dumped { bytecode: Vec<u8> },
}

/// A failing foreign call reports a nonzero status; zero is success and is
/// never classified.
pub open spec fn outcome_wf(outcome: CompileOutcome) -> bool {
    match outcome {
        CompileOutcome::LoadFailed { status, .. } => status != 0,
        CompileOutcome::DumpFailed { status, .. } => status != 0,
        CompileOutcome::Dumped { .. } => true,
    }
}

/// The operation sequence shared by both paths that reach the protected dump
/// call: after the successful load (the chunk), the flag is pushed and the
/// protected call consumes the call target, the chunk and the flag; its
/// single result — dump output or error value — is read destructively, and
/// the call target for the next compile is re-duplicated from the saved
/// reference.
pub open spec fn dump_call_ops(succeeded: bool) -> Seq<StackOp> {
    seq![
        StackOp::Push(StackSlot::Chunk),
        StackOp::Push(StackSlot::BoolArg),
        StackOp::ProtectedCall { succeeded },
        StackOp::RemoveTop,
        StackOp::DuplicateTop,
    ]
}

/// The fixed sequence of stack operations one compile performs for a given
/// outcome. A failed load pushed its error value, which classification reads
/// and removes; the other two outcomes follow [`dump_call_ops`].
pub open spec fn compile_ops(outcome: CompileOutcome) -> Seq<StackOp> {
    match outcome {
        CompileOutcome::LoadFailed { .. } => seq![
            StackOp::Push(StackSlot::ErrorMessage),
            StackOp::RemoveTop,
        ],
        CompileOutcome::DumpFailed { .. } => dump_call_ops(false),
        CompileOutcome::Dumped { .. } => dump_call_ops(true),
    }
}

/// The dump output as returned to the caller: the native dump format's own
/// trailing NUL terminator, when present, is removed.
pub open spec fn stripped(bytes: Seq<u8>) -> Seq<u8> {
    if bytes.len() > 0 && bytes.last() == 0u8 {
        bytes.drop_last()
    } else {
        bytes
    }
}

/// Exactly when `r` is the result a compile must return for `outcome`: the
/// classification of the failing call's status and message on either failure
/// path, and the dump output with its trailing terminator stripped on the
/// success path.
pub open spec fn compile_result_matches(
    r: Result<Bytecode, LuaError>,
    outcome: CompileOutcome,
) -> bool {
    match outcome {
        CompileOutcome::LoadFailed { status, message } => match r {
            Result::Err(e) => classified(e, status, raw_view(message)),
            Result::Ok(_) => false,
        },
        CompileOutcome::DumpFailed { status, message } => match r {
            Result::Err(e) => classified(e, status, raw_view(message)),
            Result::Ok(_) => false,
        },
        CompileOutcome::Dumped { bytecode } => match r {
            Result::Ok(b) => b@ == stripped(bytecode@),
            Result::Err(_) => false,
        },
    }
}

/// Remove the trailing NUL terminator the native dump format appends, when
/// one is present.
pub fn strip_dump_terminator(bytecode: Bytecode) -> (r: Bytecode)
    ensures
        r@ == stripped(bytecode@),
{
    let mut out = bytecode;
    if out.len() > 0 && out[out.len() - 1] == 0u8 {
        let _terminator = out.pop();
        assert(out@ =~= stripped(bytecode@));
    }
    out
}

/// Law: from the baseline, the fixed operation sequence of a compile is
/// enabled at every step — no unchecked foreign primitive ever runs on a
/// stack too shallow or laid out wrong — and ends back at the baseline,
/// whatever the outcome.
pub proof fn lemma_compile_ops_restore_baseline(outcome: CompileOutcome)
    ensures
        ops_enabled(baseline(), compile_ops(outcome)),
        apply_ops(baseline(), compile_ops(outcome)) == baseline(),
{
    let b = baseline();
    match outcome {
        CompileOutcome::LoadFailed { .. } => {
            let o1 = StackOp::Push(StackSlot::ErrorMessage);
            let o2 = StackOp::RemoveTop;
            let ops1 = Seq::<StackOp>::empty().push(o1);
            let ops2 = ops1.push(o2);
            lemma_apply_ops_push(b, Seq::<StackOp>::empty(), o1);
            lemma_apply_ops_push(b, ops1, o2);
            assert(compile_ops(outcome) =~= ops2);
            assert(apply_ops(b, ops1) == b.push(StackSlot::ErrorMessage));
            assert(apply_ops(b, ops2) =~= b);
        }
        CompileOutcome::DumpFailed { .. } => {
            lemma_dump_call_ops(false);
        }
        CompileOutcome::Dumped { .. } => {
            lemma_dump_call_ops(true);
        }
    }
}

/// The operation sequence shared by both paths that reach the protected dump
/// call is enabled from the baseline and restores it.
proof fn lemma_dump_call_ops(succeeded: bool)
    ensures
        ops_enabled(baseline(), dump_call_ops(succeeded)),
        apply_ops(baseline(), dump_call_ops(succeeded)) == baseline(),
{
    let b = baseline();
    let o1 = StackOp::Push(StackSlot::Chunk);
    let o2 = StackOp::Push(StackSlot::BoolArg);
    let o3 = StackOp::ProtectedCall { succeeded };
    let o4 = StackOp::RemoveTop;
    let o5 = StackOp::DuplicateTop;
    let ops1 = Seq::<StackOp>::empty().push(o1);
    let ops2 = ops1.push(o2);
    let ops3 = ops2.push(o3);
    let ops4 = ops3.push(o4);
    let ops5 = ops4.push(o5);
    lemma_apply_ops_push(b, Seq::<StackOp>::empty(), o1);
    lemma_apply_ops_push(b, ops1, o2);
    lemma_apply_ops_push(b, ops2, o3);
    lemma_apply_ops_push(b, ops3, o4);
    lemma_apply_ops_push(b, ops4, o5);
    assert(dump_call_ops(succeeded) =~= ops5);
    let s2 = b.push(StackSlot::Chunk).push(StackSlot::BoolArg);
    assert(apply_ops(b, ops2) == s2);
    assert(s2[s2.len() - 3] == StackSlot::DumpFunction);
    assert(s2[s2.len() - 2] == StackSlot::Chunk);
    assert(s2[s2.len() - 1] == StackSlot::BoolArg);
    let top = if succeeded {
        StackSlot::DumpResult
    } else {
        StackSlot::ErrorMessage
    };
    assert(apply_op(s2, o3) =~= seq![
        StackSlot::LibTable,
        StackSlot::DumpFunction,
        top,
    ]);
    assert(apply_op(apply_op(s2, o3), o4) =~= seq![StackSlot::LibTable, StackSlot::DumpFunction]);
    assert(apply_op(apply_op(apply_op(s2, o3), o4), o5) =~= b);
}

/// The verified protocol engine for one interpreter. It owns the mirror of
/// the interpreter's value stack; the driver performs each foreign call and
/// hands the outcome here, and every method proves the stack discipline the
/// foreign runtime itself never checks.
pub struct BytecodeCompiler {
    stack: ValueStack,
}

impl View for BytecodeCompiler {
    type V = Seq<StackSlot>;

    closed spec fn view(&self) -> Seq<StackSlot> {
        self.stack@
    }
}

impl BytecodeCompiler {
    /// The compiler is ready for a compile: its stack holds exactly the
    /// three-entry baseline.
    pub open spec fn ready(self) -> bool {
        self@ == baseline()
    }

    /// Construction. `state_created` reports whether the foreign create-state
    /// call produced an interpreter; without one, construction fails with
    /// the out-of-memory error. With one, the driver fetches the `string`
    /// library table from the globals, fetches its `dump` field, and
    /// duplicates that reference — establishing the baseline mirrored here.
    pub fn new(state_created: bool) -> (r: Result<BytecodeCompiler, LuaError>)
        ensures
            match r {
                Result::Ok(c) => state_created && c.ready(),
                Result::Err(e) => !state_created && e == LuaError::MemoryAllocationError,
            },
    {
        if !state_created {
            return Result::Err(LuaError::MemoryAllocationError);
        }
        let mut stack = ValueStack::empty();
        stack.apply(StackOp::Push(StackSlot::LibTable));  // get-field(globals, "string")
        stack.apply(StackOp::Push(StackSlot::DumpFunction));  // get-field(-1, "dump")
        stack.apply(StackOp::DuplicateTop);  // push-value(-1)
        let compiler = BytecodeCompiler { stack };
        assert(compiler@ =~= baseline());
        Result::Ok(compiler)
    }

    /// Compile one string of source text, as the driver's foreign calls
    /// reported it: classify a failure, strip the terminator off a produced
    /// dump, and always restore the stack baseline.
    pub fn compile_string(&mut self, outcome: CompileOutcome) -> (r: Result<Bytecode, LuaError>)
        requires
            old(self).ready(),
            outcome_wf(outcome),
        ensures
            final(self).ready(),
            final(self)@ == apply_ops(old(self)@, compile_ops(outcome)),
            compile_result_matches(r, outcome),
    {
        self.run_compile(outcome)
    }

    /// Compile the contents of a file, as the driver's foreign calls
    /// reported it. The stack protocol is the one `compile_string` follows;
    /// only the foreign load entry point differs, and a missing or unreadable
    /// file arrives as a load failure carrying the file-error status.
    pub fn compile_file(&mut self, outcome: CompileOutcome) -> (r: Result<Bytecode, LuaError>)
        requires
            old(self).ready(),
            outcome_wf(outcome),
        ensures
            final(self).ready(),
            final(self)@ == apply_ops(old(self)@, compile_ops(outcome)),
            compile_result_matches(r, outcome),
    {
        self.run_compile(outcome)
    }

    /// The number of occupied stack slots; three whenever no compile is in
    /// progress.
    pub fn stack_size(&self) -> (r: usize)
        ensures
            r == self@.len(),
    {
        self.stack.depth()
    }

    /// The kind of the top stack entry; the dump-function call target
    /// whenever no compile is in progress.
    pub fn top_slot(&self) -> (r: StackSlot)
        requires
            self@.len() > 0,
        ensures
            r == self@.last(),
    {
        self.stack.top()
    }

    fn run_compile(&mut self, outcome: CompileOutcome) -> (r: Result<Bytecode, LuaError>)
        requires
            old(self).ready(),
            outcome_wf(outcome),
        ensures
            final(self).ready(),
            final(self)@ == apply_ops(old(self)@, compile_ops(outcome)),
            compile_result_matches(r, outcome),
    {
        proof {
            lemma_compile_ops_restore_baseline(outcome);
        }
        match outcome {
            CompileOutcome::LoadFailed { status, message } => {
                // The failing load left its error value on the stack; the
                // classification reads and removes it.
                self.stack.apply(StackOp::Push(StackSlot::ErrorMessage));
                self.stack.apply(StackOp::RemoveTop);
                assert(self@ =~= baseline());
                Result::Err(LuaError::classify(status, message))
            }
            CompileOutcome::DumpFailed { status, message } => {
                // The load pushed the chunk; the flag follows; the protected
                // call consumes the call target, the chunk and the flag and
                // leaves its error value, which the classification removes;
                // the call target for the next compile is re-duplicated.
                self.stack.apply(StackOp::Push(StackSlot::Chunk));
                self.stack.apply(StackOp::Push(StackSlot::BoolArg));
                self.stack.apply(StackOp::ProtectedCall { succeeded: false });
                self.stack.apply(StackOp::RemoveTop);
                self.stack.apply(StackOp::DuplicateTop);
                assert(self@ =~= baseline());
                Result::Err(LuaError::classify(status, message))
            }
            CompileOutcome::Dumped { bytecode } => {
                // As above, but the protected call leaves the dump output,
                // read destructively off the stack.
                self.stack.apply(StackOp::Push(StackSlot::Chunk));
                self.stack.apply(StackOp::Push(StackSlot::BoolArg));
                self.stack.apply(StackOp::ProtectedCall { succeeded: true });
                self.stack.apply(StackOp::RemoveTop);
                self.stack.apply(StackOp::DuplicateTop);
                assert(self@ =~= baseline());
                Result::Ok(strip_dump_terminator(bytecode))
            }
        }
    }
}

/// The stack a fresh interpreter's compiles leave behind: each compile's
/// operations applied in turn, starting from the baseline.
pub open spec fn stack_after_compiles(outcomes: Seq<CompileOutcome>) -> Seq<StackSlot>
    decreases outcomes.len(),
{
    if outcomes.len() == 0 {
        baseline()
    } else {
        apply_ops(stack_after_compiles(outcomes.drop_last()), compile_ops(outcomes.last()))
    }
}

/// Law: the baseline never drifts. However many compiles run in sequence on
/// one interpreter, and however each of them ends, the stack after all of
/// them is exactly the baseline again.
pub proof fn lemma_compiles_never_drift(outcomes: Seq<CompileOutcome>)
    ensures
        stack_after_compiles(outcomes) == baseline(),
    decreases outcomes.len(),
{
    if outcomes.len() > 0 {
        lemma_compiles_never_drift(outcomes.drop_last());
        lemma_compile_ops_restore_baseline(outcomes.last());
    }
}

} // verus!
