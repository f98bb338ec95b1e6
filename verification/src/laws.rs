//! The structural guarantees of the compiler, stated and proved over
//! its model: how block-boundary invariants fail, and that nesting
//! depth is purely cosmetic.
use crate::ast::{Cmd, CompileError};
use crate::compile::{spec_cmd, spec_cmds, spec_scope, decl_env, decl_frags};
use crate::render::stream_of;
use crate::state::{lookup, one_frag, FragV};
use vstd::prelude::*;

verus! {

/// A stack-neutral block whose body compiles successfully but nets a
/// nonzero depth change always fails with `StackImbalance`; it never
/// silently succeeds.
pub proof fn lemma_stat_imbalance(
    env: Seq<(String, usize)>,
    depth: nat,
    indent: nat,
    body: Vec<Cmd>,
    frags: Seq<FragV>,
    d2: nat,
)
    requires
        spec_cmds(env, depth, indent + 1, body@) == Ok::<(Seq<FragV>, nat), CompileError>(
            (frags, d2),
        ),
        d2 != depth,
    ensures
        spec_cmd(env, depth, indent, Cmd::Stat(body)) == Err::<(Seq<FragV>, nat), CompileError>(
            CompileError::StackImbalance,
        ),
{
}

/// A conditional whose condition compiles successfully but does not
/// net exactly one pushed cell always fails with
/// `ConditionDepthError`.
pub proof fn lemma_condition_depth(
    env: Seq<(String, usize)>,
    depth: nat,
    indent: nat,
    cond: Vec<Cmd>,
    then_block: Vec<Cmd>,
    frags: Seq<FragV>,
    d2: nat,
)
    requires
        spec_cmds(env, depth, indent + 1, cond@) == Ok::<(Seq<FragV>, nat), CompileError>(
            (frags, d2),
        ),
        d2 != depth + 1,
    ensures
        spec_cmd(env, depth, indent, Cmd::IfThen { cond, then_block }) == Err::<
            (Seq<FragV>, nat),
            CompileError,
        >(CompileError::ConditionDepthError),
{
}

/// A conditional whose condition nets exactly one pushed cell but
/// whose branch compiles successfully to a nonzero relative depth
/// change always fails with `ThenDepthError`.
pub proof fn lemma_then_depth(
    env: Seq<(String, usize)>,
    depth: nat,
    indent: nat,
    cond: Vec<Cmd>,
    then_block: Vec<Cmd>,
    cfrags: Seq<FragV>,
    tfrags: Seq<FragV>,
    td: nat,
)
    requires
        spec_cmds(env, depth, indent + 1, cond@) == Ok::<(Seq<FragV>, nat), CompileError>(
            (cfrags, (depth + 1) as nat),
        ),
        spec_cmds(env, (depth + 1) as nat, indent + 1, then_block@) == Ok::<
            (Seq<FragV>, nat),
            CompileError,
        >((tfrags, td)),
        td != depth + 1,
    ensures
        spec_cmd(env, depth, indent, Cmd::IfThen { cond, then_block }) == Err::<
            (Seq<FragV>, nat),
            CompileError,
        >(CompileError::ThenDepthError),
{
}

/// Referencing a name that no enclosing scope declared always fails
/// with `UndefinedVariable`.
pub proof fn lemma_undefined_variable(
    env: Seq<(String, usize)>,
    depth: nat,
    indent: nat,
    var: String,
)
    requires
        lookup(env, var@) is None,
    ensures
        spec_cmd(env, depth, indent, Cmd::Get(var)) == Err::<(Seq<FragV>, nat), CompileError>(
            CompileError::UndefinedVariable,
        ),
        spec_cmd(env, depth, indent, Cmd::SetVar(var)) == Err::<(Seq<FragV>, nat), CompileError>(
            CompileError::UndefinedVariable,
        ),
{
}

/// A `get` immediately followed by a `set` of the same declared,
/// reachable variable always compiles, and is depth-neutral: the
/// depth after the pair equals the depth before it. The value round
/// trip of the pair on a running tape is exercised by tests.
pub proof fn lemma_get_set_depth_neutral(
    env: Seq<(String, usize)>,
    depth: nat,
    indent: nat,
    var: String,
    slot: usize,
)
    requires
        lookup(env, var@) == Some(slot),
        slot <= depth,
    ensures
        (match spec_cmds(env, depth, indent, seq![Cmd::Get(var), Cmd::SetVar(var)]) {
            Ok(fd) => fd.1 == depth,
            Err(_) => false,
        }),
{
    let pair = seq![Cmd::Get(var), Cmd::SetVar(var)];
    let rest = pair.drop_first();
    assert(pair[0] == Cmd::Get(var));
    assert(rest[0] == Cmd::SetVar(var));
    assert(rest.len() == 1);
    assert(rest.drop_first() =~= Seq::<Cmd>::empty());
    match spec_cmd(env, depth, indent, Cmd::Get(var)) {
        Ok(fd) => {
            assert(fd.1 == depth + 1);
            match spec_cmd(env, fd.1, indent, Cmd::SetVar(var)) {
                Ok(fd2) => {
                    assert(fd2.1 == depth);
                    assert(spec_cmds(env, fd2.1, indent, rest.drop_first()) == Ok::<
                        (Seq<FragV>, nat),
                        CompileError,
                    >((Seq::<FragV>::empty(), fd2.1)));
                    assert(spec_cmds(env, fd.1, indent, rest) == Ok::<
                        (Seq<FragV>, nat),
                        CompileError,
                    >((fd2.0 + Seq::<FragV>::empty(), fd2.1)));
                    assert(spec_cmds(env, depth, indent, pair) == Ok::<
                        (Seq<FragV>, nat),
                        CompileError,
                    >((fd.0 + (fd2.0 + Seq::<FragV>::empty()), fd2.1)));
                },
                Err(_) => {
                    assert(false);
                },
            }
        },
        Err(_) => {
            assert(false);
        },
    }
}

/// Compilation is a function of its inputs: any two outcomes that
/// meet the compiler's contract for the same starting state and the
/// same model result fail with the same error, or agree on the
/// variable map, the depth, and every fragment of the output. Hence
/// compiling the same instruction tree twice from identical starting
/// state yields byte-identical output.
pub proof fn lemma_compile_deterministic(
    pre: crate::state::CompilerState,
    r1: Result<crate::state::CompilerState, CompileError>,
    r2: Result<crate::state::CompilerState, CompileError>,
    m: Result<(Seq<FragV>, nat), CompileError>,
)
    requires
        crate::state::steps_to(pre, r1, m),
        crate::state::steps_to(pre, r2, m),
    ensures
        (match (r1, r2) {
            (Ok(a), Ok(b)) => a.env@ == b.env@ && a.next_cell == b.next_cell
                && a.out.deep_view() == b.out.deep_view(),
            (Err(e1), Err(e2)) => e1 == e2,
            _ => false,
        }),
{
}

/// The code fields of a fragment sequence, in order.
pub open spec fn codes_of(frags: Seq<FragV>) -> Seq<Seq<char>> {
    frags.map(|i: int, f: FragV| f.code)
}

/// Two compilation outcomes that differ at most cosmetically: they
/// fail alike, and on success they emit the same code at the same
/// final depth.
pub open spec fn cosmetic_eq(
    a: Result<(Seq<FragV>, nat), CompileError>,
    b: Result<(Seq<FragV>, nat), CompileError>,
) -> bool {
    match (a, b) {
        (Ok(x), Ok(y)) => codes_of(x.0) == codes_of(y.0) && x.1 == y.1,
        (Err(e1), Err(e2)) => e1 == e2,
        _ => false,
    }
}

/// The nesting level handed to the compiler touches only diagnostic
/// fields: compiling one instruction at two different levels fails
/// alike or emits identical code and depth.
pub proof fn lemma_indent_cosmetic_cmd(
    env: Seq<(String, usize)>,
    depth: nat,
    i1: nat,
    i2: nat,
    cmd: Cmd,
)
    ensures
        cosmetic_eq(spec_cmd(env, depth, i1, cmd), spec_cmd(env, depth, i2, cmd)),
    decreases cmd,
{
    match cmd {
        Cmd::Stat(body) => {
            lemma_indent_cosmetic_cmds(env, depth, i1 + 1, i2 + 1, body@);
            match (spec_cmds(env, depth, i1 + 1, body@), spec_cmds(env, depth, i2 + 1, body@)) {
                (Ok(f1), Ok(f2)) => {
                    assert(codes_of(f1.0).len() == f1.0.len());
                    assert(codes_of(f2.0).len() == f2.0.len());
                    if f1.1 == depth {
                        let a = spec_cmd(env, depth, i1, cmd)->Ok_0;
                        let b = spec_cmd(env, depth, i2, cmd)->Ok_0;
                        assert forall|j: int| 0 <= j < a.0.len() implies a.0[j].code == b.0[
                            j
                        ].code by {
                            if 1 <= j < a.0.len() - 1 {
                                assert(codes_of(f1.0)[j - 1] == codes_of(f2.0)[j - 1]);
                                assert(codes_of(f1.0)[j - 1] == f1.0[j - 1].code);
                                assert(codes_of(f2.0)[j - 1] == f2.0[j - 1].code);
                            }
                        }
                        assert(codes_of(a.0) =~= codes_of(b.0));
                    }
                },
                _ => {},
            }
        },
        Cmd::IfThen { cond, then_block } => {
            lemma_indent_cosmetic_cmds(env, depth, i1 + 1, i2 + 1, cond@);
            match (spec_cmds(env, depth, i1 + 1, cond@), spec_cmds(env, depth, i2 + 1, cond@)) {
                (Ok(c1), Ok(c2)) => {
                    assert(codes_of(c1.0).len() == c1.0.len());
                    assert(codes_of(c2.0).len() == c2.0.len());
                    if c1.1 == depth + 1 {
                        lemma_indent_cosmetic_cmds(env, c1.1, i1 + 1, i2 + 1, then_block@);
                        match (
                            spec_cmds(env, c1.1, i1 + 1, then_block@),
                            spec_cmds(env, c2.1, i2 + 1, then_block@),
                        ) {
                            (Ok(t1), Ok(t2)) => {
                                assert(codes_of(t1.0).len() == t1.0.len());
                                assert(codes_of(t2.0).len() == t2.0.len());
                                if t1.1 == c1.1 {
                                    let a = spec_cmd(env, depth, i1, cmd)->Ok_0;
                                    let b = spec_cmd(env, depth, i2, cmd)->Ok_0;
                                    assert forall|j: int| 0 <= j < a.0.len() implies a.0[j].code
                                        == b.0[j].code by {
                                        if 1 <= j < 1 + c1.0.len() {
                                            assert(codes_of(c1.0)[j - 1] == codes_of(c2.0)[j - 1]);
                                            assert(codes_of(c1.0)[j - 1] == c1.0[j - 1].code);
                                            assert(codes_of(c2.0)[j - 1] == c2.0[j - 1].code);
                                        }
                                        let k = j - 2 - c1.0.len();
                                        if 0 <= k < t1.0.len() {
                                            assert(codes_of(t1.0)[k] == codes_of(t2.0)[k]);
                                            assert(codes_of(t1.0)[k] == t1.0[k].code);
                                            assert(codes_of(t2.0)[k] == t2.0[k].code);
                                        }
                                    }
                                    assert(codes_of(a.0) =~= codes_of(b.0));
                                }
                            },
                            _ => {},
                        }
                    }
                },
                _ => {},
            }
        },
        _ => {
            match (spec_cmd(env, depth, i1, cmd), spec_cmd(env, depth, i2, cmd)) {
                (Ok(a), Ok(b)) => {
                    assert(codes_of(a.0) =~= codes_of(b.0));
                },
                (Err(_), Err(_)) => {},
                _ => {
                    assert(false);
                },
            }
        },
    }
}

/// The nesting level is cosmetic for whole sequences as well.
pub proof fn lemma_indent_cosmetic_cmds(
    env: Seq<(String, usize)>,
    depth: nat,
    i1: nat,
    i2: nat,
    cmds: Seq<Cmd>,
)
    ensures
        cosmetic_eq(spec_cmds(env, depth, i1, cmds), spec_cmds(env, depth, i2, cmds)),
    decreases cmds,
{
    if cmds.len() == 0 {
        assert(codes_of(Seq::<FragV>::empty()) =~= codes_of(Seq::<FragV>::empty()));
    } else {
        lemma_indent_cosmetic_cmd(env, depth, i1, i2, cmds[0]);
        match (spec_cmd(env, depth, i1, cmds[0]), spec_cmd(env, depth, i2, cmds[0])) {
            (Ok(h1), Ok(h2)) => {
                lemma_indent_cosmetic_cmds(env, h1.1, i1, i2, cmds.drop_first());
                match (
                    spec_cmds(env, h1.1, i1, cmds.drop_first()),
                    spec_cmds(env, h2.1, i2, cmds.drop_first()),
                ) {
                    (Ok(t1), Ok(t2)) => {
                        assert(codes_of(h1.0).len() == h1.0.len());
                        assert(codes_of(h2.0).len() == h2.0.len());
                        assert(codes_of(t1.0).len() == t1.0.len());
                        assert(codes_of(t2.0).len() == t2.0.len());
                        assert forall|j: int|
                            0 <= j < h1.0.len() + t1.0.len() implies (h1.0 + t1.0)[j].code == (h2.0
                            + t2.0)[j].code by {
                            if j < h1.0.len() {
                                assert(codes_of(h1.0)[j] == codes_of(h2.0)[j]);
                                assert(codes_of(h1.0)[j] == h1.0[j].code);
                                assert(codes_of(h2.0)[j] == h2.0[j].code);
                            } else {
                                assert(codes_of(t1.0)[j - h1.0.len()] == codes_of(t2.0)[j
                                    - h2.0.len()]);
                                assert(codes_of(t1.0)[j - h1.0.len()] == t1.0[j - h1.0.len()].code);
                                assert(codes_of(t2.0)[j - h2.0.len()] == t2.0[j - h2.0.len()].code);
                            }
                        }
                        assert(codes_of(h1.0 + t1.0) =~= codes_of(h2.0 + t2.0));
                    },
                    _ => {},
                }
            },
            _ => {},
        }
    }
}

/// Equal code fields give equal primitive streams.
pub proof fn lemma_codes_stream(a: Seq<FragV>, b: Seq<FragV>)
    requires
        codes_of(a) == codes_of(b),
    ensures
        stream_of(a) == stream_of(b),
    decreases a.len(),
{
    assert(codes_of(a).len() == a.len());
    assert(codes_of(b).len() == b.len());
    if a.len() > 0 {
        assert forall|j: int|
            0 <= j < a.len() - 1 implies codes_of(a.drop_last())[j] == codes_of(
            b.drop_last(),
        )[j] by {
            assert(codes_of(a)[j] == codes_of(b)[j]);
            assert(codes_of(a)[j] == a[j].code);
            assert(codes_of(b)[j] == b[j].code);
        }
        assert(codes_of(a.drop_last()) =~= codes_of(b.drop_last()));
        lemma_codes_stream(a.drop_last(), b.drop_last());
        assert(codes_of(a)[a.len() - 1] == a.last().code);
        assert(codes_of(b)[b.len() - 1] == b.last().code);
    }
}

/// Compiling the same program at two different nesting levels fails
/// alike or produces the identical primitive stream at the identical
/// final depth: everything the level influences is comment text.
pub proof fn lemma_scope_indent_cosmetic(vars: Seq<String>, cmds: Seq<Cmd>, i1: nat, i2: nat)
    ensures
        (match (spec_scope(vars, cmds, i1), spec_scope(vars, cmds, i2)) {
            (Ok(a), Ok(b)) => stream_of(a.0) == stream_of(b.0) && a.1 == b.1,
            (Err(e1), Err(e2)) => e1 == e2,
            _ => false,
        }),
{
    lemma_indent_cosmetic_cmds(decl_env(vars), vars.len(), i1, i2, cmds);
    match (
        spec_cmds(decl_env(vars), vars.len(), i1, cmds),
        spec_cmds(decl_env(vars), vars.len(), i2, cmds),
    ) {
        (Ok(f1), Ok(f2)) => {
            assert(codes_of(f1.0).len() == f1.0.len());
            assert(codes_of(f2.0).len() == f2.0.len());
            let a = decl_frags(vars, i1) + f1.0;
            let b = decl_frags(vars, i2) + f2.0;
            assert forall|j: int| 0 <= j < a.len() implies a[j].code == b[j].code by {
                if j >= vars.len() {
                    assert(codes_of(f1.0)[j - vars.len()] == codes_of(f2.0)[j - vars.len()]);
                    assert(codes_of(f1.0)[j - vars.len()] == f1.0[j - vars.len()].code);
                    assert(codes_of(f2.0)[j - vars.len()] == f2.0[j - vars.len()].code);
                }
            }
            assert(codes_of(a) =~= codes_of(b));
            lemma_codes_stream(a, b);
        },
        _ => {},
    }
}

} // verus!

