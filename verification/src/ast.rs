//! The instruction tree of the intermediate language, the compile-time
//! error taxonomy, and a size measure over instruction trees.
use vstd::prelude::*;

verus! {

/// One instruction of the intermediate language.
///
/// The no-operand and immediate-operand variants each lower to a fixed
/// fragment of tape-machine code; `Get` and `Set` address a named
/// variable; `Stat` wraps a sub-sequence that must leave the stack
/// depth unchanged; `IfThen` is a one-shot conditional whose condition
/// must net one pushed cell and whose branch must net none.
#[derive(Debug)]
pub enum Cmd {
    Clear,
    Copy,
    Get(String),
    SetVar(String),
    Read,
    Write,
    Push(usize),
    Inc,
    Dec,
    Add,
    Sub,
    Mul,
    Addc(usize),
    Subc(usize),
    Bool,
    Stat(Vec<Cmd>),
    IfThen { cond: Vec<Cmd>, then_block: Vec<Cmd> },
}

/// A structural rule that an instruction tree violated; every failure
/// aborts the whole compilation.
#[derive(Debug, Clone, Copy, PartialEq, Eq, Structural)]
pub enum CompileError {
    /// A `Get` or `Set` references a name not present in the active
    /// scope's variable map, or one whose slot lies above the current
    /// depth, so that its relative address would be negative.
    UndefinedVariable,
    /// An emitted instruction would pop below the bottom of the
    /// simulated stack.
    NegativeStackDepth,
    /// A stack-neutral block's body changed the net depth.
    StackImbalance,
    /// A conditional's condition did not net exactly one pushed cell.
    ConditionDepthError,
    /// A conditional's branch changed the depth the condition left.
    ThenDepthError,
}

/// The number of instruction nodes in `cmd`, nested blocks included.
pub open spec fn weight(cmd: Cmd) -> nat
    decreases cmd,
{
    match cmd {
        Cmd::Stat(body) => 1 + weight_seq(body@),
        Cmd::IfThen { cond, then_block } => 1 + weight_seq(cond@) + weight_seq(then_block@),
        _ => 1,
    }
}

/// The total number of instruction nodes in `cmds`.
pub open spec fn weight_seq(cmds: Seq<Cmd>) -> nat
    decreases cmds,
{
    if cmds.len() == 0 {
        0
    } else {
        weight(cmds[0]) + weight_seq(cmds.drop_first())
    }
}

/// Every instruction counts at least its own node.
pub proof fn lemma_weight_pos(cmd: Cmd)
    ensures
        weight(cmd) >= 1,
{
}

/// Splitting a sequence at its head splits its weight.
pub proof fn lemma_weight_seq_head(cmds: Seq<Cmd>)
    requires
        cmds.len() > 0,
    ensures
        weight_seq(cmds) == weight(cmds[0]) + weight_seq(cmds.drop_first()),
        weight_seq(cmds) >= 1,
{
    lemma_weight_pos(cmds[0]);
}

} // verus!
