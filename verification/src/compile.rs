//! The instruction compiler: recursive lowering of each instruction
//! into primitive fragments, enforcing the stack-depth invariants at
//! block boundaries, and the scope builder that drives it.
use crate::ast::{lemma_weight_pos, lemma_weight_seq_head, weight, weight_seq, Cmd, CompileError};
use crate::emit::{
    copy_right, copy_right_code, move_left, move_left_code, number, repeat_seq,
};
use crate::state::{
    append_code, lookup, one_frag, steps_to, CompilerState, FragV,
};
use crate::text::{dec_digits, usize_to_string};
use vstd::prelude::*;
use vstd::string::StringExecFns;

verus! {

/// What compiling one instruction yields from a given variable map,
/// depth and nesting level: the emitted fragments and the new depth,
/// or the structural error that aborts compilation.
pub open spec fn spec_cmd(
    env: Seq<(String, usize)>,
    depth: nat,
    indent: nat,
    cmd: Cmd,
) -> Result<(Seq<FragV>, nat), CompileError>
    decreases cmd,
{
    match cmd {
        Cmd::Clear => one_frag("clear"@, "[-]"@, depth, 0, indent),
        Cmd::Copy => one_frag("copy"@, "[>+>+<<-]>>[<<+>>-]<"@, depth, 1, indent),
        Cmd::Get(var) => match lookup(env, var@) {
            None => Err(CompileError::UndefinedVariable),
            Some(slot) => if slot > depth {
                Err(CompileError::UndefinedVariable)
            } else {
                one_frag(
                    "get "@ + var@,
                    ">"@ + copy_right_code((depth - slot + 1) as nat),
                    depth,
                    1,
                    indent,
                )
            },
        },
        Cmd::SetVar(var) => match lookup(env, var@) {
            None => Err(CompileError::UndefinedVariable),
            Some(slot) => if slot > depth {
                Err(CompileError::UndefinedVariable)
            } else {
                one_frag(
                    "set "@ + var@,
                    move_left_code((depth - slot) as nat) + "<"@,
                    depth,
                    -1,
                    indent,
                )
            },
        },
        Cmd::Read => one_frag("read"@, ">,"@, depth, 1, indent),
        Cmd::Write => one_frag("write"@, ".[-]<"@, depth, -1, indent),
        Cmd::Push(n) => one_frag(
            "push "@ + dec_digits(n as nat),
            ">"@ + repeat_seq("+"@, n as nat),
            depth,
            1,
            indent,
        ),
        Cmd::Inc => one_frag("inc"@, "+"@, depth, 0, indent),
        Cmd::Dec => one_frag("dec"@, "-"@, depth, 0, indent),
        Cmd::Add => one_frag("add"@, "[<+>-]<"@, depth, -1, indent),
        Cmd::Sub => one_frag("sub"@, "[<->-]<"@, depth, -1, indent),
        Cmd::Mul => one_frag("mul"@, "<[>>+<<-]>[>[<<+>>>+<-]>[<+>-]<<-]>[-]<<"@, depth, -1, indent),
        Cmd::Addc(n) => one_frag(
            "addc "@ + dec_digits(n as nat),
            repeat_seq("+"@, n as nat),
            depth,
            0,
            indent,
        ),
        Cmd::Subc(n) => one_frag(
            "subc "@ + dec_digits(n as nat),
            repeat_seq("-"@, n as nat),
            depth,
            0,
            indent,
        ),
        Cmd::Bool => one_frag("bool"@, "[[-]>+<]>[<+>-]<"@, depth, 0, indent),
        Cmd::Stat(body) => match spec_cmds(env, depth, indent + 1, body@) {
            Err(e) => Err(e),
            Ok(fd) => if fd.1 != depth {
                Err(CompileError::StackImbalance)
            } else {
                Ok(
                    (
                        seq![
                            (FragV {
                                label: "stat"@,
                                code: Seq::<char>::empty(),
                                depth: depth,
                                indent: indent,
                            }),
                        ] + fd.0 + seq![
                            (FragV {
                                label: "end stat"@,
                                code: Seq::<char>::empty(),
                                depth: depth,
                                indent: indent,
                            }),
                        ],
                        depth,
                    ),
                )
            },
        },
        Cmd::IfThen { cond, then_block } => match spec_cmds(env, depth, indent + 1, cond@) {
            Err(e) => Err(e),
            Ok(cfd) => if cfd.1 != depth + 1 {
                Err(CompileError::ConditionDepthError)
            } else {
                match spec_cmds(env, cfd.1, indent + 1, then_block@) {
                    Err(e) => Err(e),
                    Ok(tfd) => if tfd.1 != cfd.1 {
                        Err(CompileError::ThenDepthError)
                    } else {
                        Ok(
                            (
                                seq![
                                    (FragV {
                                        label: "if"@,
                                        code: Seq::<char>::empty(),
                                        depth: depth,
                                        indent: indent,
                                    }),
                                ] + cfd.0 + seq![
                                    (FragV {
                                        label: "then"@,
                                        code: "["@,
                                        depth: cfd.1,
                                        indent: indent,
                                    }),
                                ] + tfd.0 + seq![
                                    (FragV {
                                        label: "end if"@,
                                        code: "[-]]<"@,
                                        depth: depth,
                                        indent: indent,
                                    }),
                                ],
                                depth,
                            ),
                        )
                    },
                }
            },
        },
    }
}

/// What compiling a sequence of instructions yields, threading the
/// depth left to right; an error in any instruction aborts the rest.
pub open spec fn spec_cmds(
    env: Seq<(String, usize)>,
    depth: nat,
    indent: nat,
    cmds: Seq<Cmd>,
) -> Result<(Seq<FragV>, nat), CompileError>
    decreases cmds,
{
    if cmds.len() == 0 {
        Ok((Seq::<FragV>::empty(), depth))
    } else {
        match spec_cmd(env, depth, indent, cmds[0]) {
            Err(e) => Err(e),
            Ok(fd) => match spec_cmds(env, fd.1, indent, cmds.drop_first()) {
                Err(e) => Err(e),
                Ok(fd2) => Ok((fd.0 + fd2.0, fd2.1)),
            },
        }
    }
}

/// Compiling one instruction can raise the depth by at most its
/// weight.
pub proof fn lemma_depth_bound_cmd(
    env: Seq<(String, usize)>,
    depth: nat,
    indent: nat,
    cmd: Cmd,
)
    ensures
        (match spec_cmd(env, depth, indent, cmd) {
            Ok(fd) => fd.1 <= depth + weight(cmd),
            Err(_) => true,
        }),
    decreases cmd,
{
    match cmd {
        Cmd::Stat(body) => {
            lemma_depth_bound_cmds(env, depth, indent + 1, body@);
        },
        Cmd::IfThen { cond, then_block } => {
            lemma_depth_bound_cmds(env, depth, indent + 1, cond@);
            match spec_cmds(env, depth, indent + 1, cond@) {
                Ok(cfd) => {
                    lemma_depth_bound_cmds(env, cfd.1, indent + 1, then_block@);
                },
                Err(_) => {},
            }
        },
        _ => {},
    }
}

/// Compiling a sequence can raise the depth by at most its weight.
pub proof fn lemma_depth_bound_cmds(
    env: Seq<(String, usize)>,
    depth: nat,
    indent: nat,
    cmds: Seq<Cmd>,
)
    ensures
        (match spec_cmds(env, depth, indent, cmds) {
            Ok(fd) => fd.1 <= depth + weight_seq(cmds),
            Err(_) => true,
        }),
    decreases cmds,
{
    if cmds.len() > 0 {
        lemma_depth_bound_cmd(env, depth, indent, cmds[0]);
        match spec_cmd(env, depth, indent, cmds[0]) {
            Ok(fd) => {
                lemma_depth_bound_cmds(env, fd.1, indent, cmds.drop_first());
            },
            Err(_) => {},
        }
    }
}

/// One instruction weighs no more than the whole sequence it is in.
pub proof fn lemma_weight_seq_elem(cmds: Seq<Cmd>, i: int)
    requires
        0 <= i < cmds.len(),
    ensures
        weight(cmds[i]) <= weight_seq(cmds),
    decreases cmds.len(),
{
    if i == 0 {
        lemma_weight_seq_head(cmds);
    } else {
        lemma_weight_seq_head(cmds);
        lemma_weight_seq_elem(cmds.drop_first(), i - 1);
        assert(cmds.drop_first()[i - 1] == cmds[i]);
    }
}

/// Calculates the relative address of a variable: how many tape
/// positions left of the top of stack its slot lies.
pub fn adr_local(state: &CompilerState, var: &String) -> (r: Result<usize, CompileError>)
    ensures
        (match lookup(state.env@, var@) {
            None => r == Err::<usize, CompileError>(CompileError::UndefinedVariable),
            Some(slot) => if slot > state.next_cell {
                r == Err::<usize, CompileError>(CompileError::UndefinedVariable)
            } else {
                r == Ok::<usize, CompileError>((state.next_cell - slot) as usize)
            },
        }),
{
    match crate::state::env_lookup(&state.env, var) {
        None => Err(CompileError::UndefinedVariable),
        Some(slot) => if slot > state.next_cell {
            Err(CompileError::UndefinedVariable)
        } else {
            Ok(state.next_cell - slot)
        },
    }
}

/// Processes a single instruction, appending its fragments to the
/// state; the result is exactly what the model `spec_cmd` prescribes.
pub fn process_cmd(state: CompilerState, cmd: &Cmd, indent: usize) -> (r: Result<
    CompilerState,
    CompileError,
>)
    requires
        state.next_cell + weight(*cmd) < usize::MAX,
        indent + weight(*cmd) < usize::MAX,
    ensures
        steps_to(state, r, spec_cmd(state.env@, state.next_cell as nat, indent as nat, *cmd)),
    decreases weight(*cmd), 0int,
{
    match cmd {
        Cmd::Clear => append_code(state, "clear", String::from_str("[-]"), 0, indent),
        Cmd::Copy => append_code(
            state,
            "copy",
            String::from_str("[>+>+<<-]>>[<<+>>-]<"),
            1,
            indent,
        ),
        Cmd::Get(var) => {
            let adr = match adr_local(&state, var) {
                Err(e) => {
                    return Err(e);
                },
                Ok(a) => a,
            };
            let mut label = String::from_str("get ");
            label.append(var.as_str());
            let mut code = String::from_str(">");
            let cr = copy_right(adr + 1);
            code.append(cr.as_str());
            append_code(state, label.as_str(), code, 1, indent)
        },
        Cmd::SetVar(var) => {
            let adr = match adr_local(&state, var) {
                Err(e) => {
                    return Err(e);
                },
                Ok(a) => a,
            };
            let mut label = String::from_str("set ");
            label.append(var.as_str());
            let mut code = move_left(adr);
            code.append("<");
            append_code(state, label.as_str(), code, -1, indent)
        },
        Cmd::Read => append_code(state, "read", String::from_str(">,"), 1, indent),
        Cmd::Write => append_code(state, "write", String::from_str(".[-]<"), -1, indent),
        Cmd::Push(n) => {
            let mut label = String::from_str("push ");
            let digits = usize_to_string(*n);
            label.append(digits.as_str());
            let mut code = String::from_str(">");
            let run = number(*n);
            code.append(run.as_str());
            append_code(state, label.as_str(), code, 1, indent)
        },
        Cmd::Inc => append_code(state, "inc", String::from_str("+"), 0, indent),
        Cmd::Dec => append_code(state, "dec", String::from_str("-"), 0, indent),
        Cmd::Add => append_code(state, "add", String::from_str("[<+>-]<"), -1, indent),
        Cmd::Sub => append_code(state, "sub", String::from_str("[<->-]<"), -1, indent),
        Cmd::Mul => append_code(
            state,
            "mul",
            String::from_str("<[>>+<<-]>[>[<<+>>>+<-]>[<+>-]<<-]>[-]<<"),
            -1,
            indent,
        ),
        Cmd::Addc(n) => {
            let mut label = String::from_str("addc ");
            let digits = usize_to_string(*n);
            label.append(digits.as_str());
            let code = crate::emit::replicate(*n, "+");
            append_code(state, label.as_str(), code, 0, indent)
        },
        Cmd::Subc(n) => {
            let mut label = String::from_str("subc ");
            let digits = usize_to_string(*n);
            label.append(digits.as_str());
            let code = crate::emit::replicate(*n, "-");
            append_code(state, label.as_str(), code, 0, indent)
        },
        Cmd::Bool => append_code(state, "bool", String::from_str("[[-]>+<]>[<+>-]<"), 0, indent),
        Cmd::Stat(body) => {
            let d0 = state.next_cell;
            let ghost pre = state;
            proof {
                lemma_weight_pos(*cmd);
            }
            let st1 = match append_code(state, "stat", String::new(), 0, indent) {
                Err(e) => {
                    return Err(e);
                },
                Ok(s) => s,
            };
            let st2 = match process_cmd_list(st1, body, indent + 1) {
                Err(e) => {
                    return Err(e);
                },
                Ok(s) => s,
            };
            if st2.next_cell != d0 {
                return Err(CompileError::StackImbalance);
            }
            let r = match append_code(st2, "end stat", String::new(), 0, indent) {
                Err(e) => {
                    return Err(e);
                },
                Ok(s) => s,
            };
            proof {
                let m = spec_cmd(pre.env@, pre.next_cell as nat, indent as nat, *cmd);
                assert(m is Ok);
                assert(r.out.deep_view() =~= pre.out.deep_view() + m->Ok_0.0);
            }
            Ok(r)
        },
        Cmd::IfThen { cond, then_block } => {
            let d0 = state.next_cell;
            let ghost pre = state;
            let st1 = match append_code(state, "if", String::new(), 0, indent) {
                Err(e) => {
                    return Err(e);
                },
                Ok(s) => s,
            };
            let st2 = match process_cmd_list(st1, cond, indent + 1) {
                Err(e) => {
                    return Err(e);
                },
                Ok(s) => s,
            };
            if st2.next_cell != d0 + 1 {
                return Err(CompileError::ConditionDepthError);
            }
            proof {
                if cond@.len() == 0 {
                    assert(st2.next_cell == d0);
                } else {
                    lemma_weight_seq_head(cond@);
                }
            }
            let st3 = match append_code(st2, "then", String::from_str("["), 0, indent) {
                Err(e) => {
                    return Err(e);
                },
                Ok(s) => s,
            };
            let st4 = match process_cmd_list(st3, then_block, indent + 1) {
                Err(e) => {
                    return Err(e);
                },
                Ok(s) => s,
            };
            if st4.next_cell != d0 + 1 {
                return Err(CompileError::ThenDepthError);
            }
            let r = match append_code(st4, "end if", String::from_str("[-]]<"), -1, indent) {
                Err(e) => {
                    return Err(e);
                },
                Ok(s) => s,
            };
            proof {
                let m = spec_cmd(pre.env@, pre.next_cell as nat, indent as nat, *cmd);
                assert(m is Ok);
                assert(r.out.deep_view() =~= pre.out.deep_view() + m->Ok_0.0);
            }
            Ok(r)
        },
    }
}

/// Processes a list of instructions in order, threading the state;
/// the result is exactly what the model `spec_cmds` prescribes.
#[verifier::loop_isolation(false)]
pub fn process_cmd_list(state: CompilerState, cmds: &Vec<Cmd>, indent: usize) -> (r: Result<
    CompilerState,
    CompileError,
>)
    requires
        state.next_cell + weight_seq(cmds@) < usize::MAX,
        indent + weight_seq(cmds@) < usize::MAX,
    ensures
        steps_to(state, r, spec_cmds(state.env@, state.next_cell as nat, indent as nat, cmds@)),
    decreases weight_seq(cmds@), 1int,
{
    let ghost env0 = state.env@;
    let ghost d0 = state.next_cell as nat;
    let ghost out0 = state.out.deep_view();
    let ghost mut acc = Seq::<FragV>::empty();
    let mut st = state;
    let mut i: usize = 0;
    proof {
        assert(cmds@.subrange(0, cmds@.len() as int) =~= cmds@);
        assert(out0 + acc =~= out0);
    }
    while i < cmds.len()
        invariant
            i <= cmds@.len(),
            st.env@ == env0,
            st.out.deep_view() == out0 + acc,
            st.next_cell + weight_seq(cmds@.subrange(i as int, cmds@.len() as int)) < usize::MAX,
            indent + weight_seq(cmds@) < usize::MAX,
            (match spec_cmds(
                env0,
                st.next_cell as nat,
                indent as nat,
                cmds@.subrange(i as int, cmds@.len() as int),
            ) {
                Ok(fd) => spec_cmds(env0, d0, indent as nat, cmds@) == Ok::<
                    (Seq<FragV>, nat),
                    CompileError,
                >((acc + fd.0, fd.1)),
                Err(e) => spec_cmds(env0, d0, indent as nat, cmds@) == Err::<
                    (Seq<FragV>, nat),
                    CompileError,
                >(e),
            }),
        decreases cmds@.len() - i,
    {
        let ghost rest = cmds@.subrange(i as int, cmds@.len() as int);
        let ghost dpre = st.next_cell as nat;
        let ghost accpre = acc;
        proof {
            assert(rest.len() > 0);
            assert(rest[0] == cmds@[i as int]);
            lemma_weight_seq_head(rest);
            lemma_weight_seq_elem(cmds@, i as int);
            assert(rest.drop_first() =~= cmds@.subrange(i + 1, cmds@.len() as int));
        }
        let st2 = match process_cmd(st, &cmds[i], indent) {
            Err(e) => {
                proof {
                    let m = spec_cmd(env0, dpre, indent as nat, rest[0]);
                    assert(m is Err && m->Err_0 == e);
                    assert(spec_cmds(env0, dpre, indent as nat, rest) == Err::<
                        (Seq<FragV>, nat),
                        CompileError,
                    >(e));
                }
                return Err(e);
            },
            Ok(s) => s,
        };
        proof {
            let m = spec_cmd(env0, dpre, indent as nat, rest[0]);
            assert(m is Ok);
            lemma_depth_bound_cmd(env0, dpre, indent as nat, rest[0]);
            acc = accpre + m->Ok_0.0;
            assert(st2.out.deep_view() =~= out0 + acc);
            let rest2 = cmds@.subrange(i + 1, cmds@.len() as int);
            assert(rest.drop_first() == rest2);
            match spec_cmds(env0, st2.next_cell as nat, indent as nat, rest2) {
                Ok(fd2) => {
                    assert(spec_cmds(env0, dpre, indent as nat, rest) == Ok::<
                        (Seq<FragV>, nat),
                        CompileError,
                    >((m->Ok_0.0 + fd2.0, fd2.1)));
                    assert(accpre + (m->Ok_0.0 + fd2.0) =~= acc + fd2.0);
                },
                Err(_) => {},
            }
        }
        st = st2;
        i = i + 1;
    }
    proof {
        assert(cmds@.subrange(cmds@.len() as int, cmds@.len() as int) =~= Seq::<Cmd>::empty());
        assert(acc + Seq::<FragV>::empty() =~= acc);
    }
    Ok(st)
}

/// The variable map that declaring `vars` in order builds: each name
/// is bound to the next slot index, later bindings shadowing earlier
/// ones.
pub open spec fn decl_env(vars: Seq<String>) -> Seq<(String, usize)> {
    Seq::new(vars.len(), |i: int| (vars[i], i as usize))
}

/// The declaration fragments for `vars`: one pointer advance per
/// variable, leaving its cell zeroed.
pub open spec fn decl_frags(vars: Seq<String>, indent: nat) -> Seq<FragV> {
    Seq::new(
        vars.len(),
        |i: int| (FragV {
            label: "let "@ + vars[i]@,
            code: ">"@,
            depth: (i + 1) as nat,
            indent: indent,
        }),
    )
}

/// What compiling a whole scope yields: the declaration fragments
/// followed by the body's fragments, and the final depth, or the
/// error that aborted compilation.
pub open spec fn spec_scope(vars: Seq<String>, cmds: Seq<Cmd>, indent: nat) -> Result<
    (Seq<FragV>, nat),
    CompileError,
> {
    match spec_cmds(decl_env(vars), vars.len(), indent, cmds) {
        Err(e) => Err(e),
        Ok(fd) => Ok((decl_frags(vars, indent) + fd.0, fd.1)),
    }
}

/// Establishes a scope: starts from the empty state, declares the
/// named variables in order, and drives the instruction compiler over
/// the body. This is the sole entry point for compiling a whole
/// program.
#[verifier::loop_isolation(false)]
pub fn scope(letvars: &Vec<String>, cmds: &Vec<Cmd>, indent: usize) -> (r: Result<
    CompilerState,
    CompileError,
>)
    requires
        letvars@.len() + weight_seq(cmds@) < usize::MAX,
        indent + weight_seq(cmds@) < usize::MAX,
    ensures
        (match spec_scope(letvars@, cmds@, indent as nat) {
            Err(e) => r == Err::<CompilerState, CompileError>(e),
            Ok(fd) => match r {
                Ok(st) => st.env@ == decl_env(letvars@) && st.next_cell as nat == fd.1
                    && st.out.deep_view() == fd.0,
                Err(_) => false,
            },
        }),
{
    let mut st = CompilerState { env: Vec::new(), next_cell: 0, out: Vec::new() };
    let mut i: usize = 0;
    proof {
        assert(st.env@ =~= decl_env(letvars@.subrange(0, 0)));
        assert(st.out.deep_view() =~= decl_frags(letvars@.subrange(0, 0), indent as nat));
    }
    while i < letvars.len()
        invariant
            i <= letvars@.len(),
            st.next_cell == i,
            st.env@ == decl_env(letvars@.subrange(0, i as int)),
            st.out.deep_view() == decl_frags(letvars@.subrange(0, i as int), indent as nat),
        decreases letvars@.len() - i,
    {
        let name = &letvars[i];
        let idx = st.next_cell;
        st.env.push((name.clone(), idx));
        let mut label = String::from_str("let ");
        label.append(name.as_str());
        let st2 = match append_code(st, label.as_str(), String::from_str(">"), 1, indent) {
            Err(_) => {
                proof {
                    assert(false);
                }
                return Err(CompileError::NegativeStackDepth);
            },
            Ok(s) => s,
        };
        st = st2;
        i = i + 1;
        proof {
            assert(st.env@ =~= decl_env(letvars@.subrange(0, i as int)));
            assert(st.out.deep_view() =~= decl_frags(letvars@.subrange(0, i as int), indent as nat));
        }
    }
    proof {
        assert(letvars@.subrange(0, letvars@.len() as int) =~= letvars@);
        lemma_depth_bound_cmds(decl_env(letvars@), letvars@.len(), indent as nat, cmds@);
    }
    let r = match process_cmd_list(st, cmds, indent) {
        Err(e) => {
            return Err(e);
        },
        Ok(s) => s,
    };
    proof {
        match spec_cmds(decl_env(letvars@), letvars@.len(), indent as nat, cmds@) {
            Ok(fd) => {
                assert(r.out.deep_view() =~= decl_frags(letvars@, indent as nat) + fd.0);
            },
            Err(_) => {},
        }
    }
    Ok(r)
}

/// A sample program over two variables: two conditionals that set one
/// variable each, then a stack-neutral block of arithmetic ending in
/// a write.
pub fn example_program() -> (r: (Vec<String>, Vec<Cmd>))
    ensures
        r.0@.len() == 2,
        r.0@[0]@ == "a"@,
        r.0@[1]@ == "b"@,
        r.1@.len() == 3,
        (r.1@[0] matches Cmd::IfThen { cond, then_block } && cond@.len() == 1 && (cond@[0]
            matches Cmd::Push(n) && n == 1) && then_block@.len() == 1 && (then_block@[0]
            matches Cmd::Stat(b) && b@.len() == 2 && (b@[0] matches Cmd::Push(m) && m == 5) && (
        b@[1] matches Cmd::SetVar(v) && v@ == "a"@))),
        (r.1@[1] matches Cmd::IfThen { cond, then_block } && cond@.len() == 1 && (cond@[0]
            matches Cmd::Push(n) && n == 0) && then_block@.len() == 1 && (then_block@[0]
            matches Cmd::Stat(b) && b@.len() == 2 && (b@[0] matches Cmd::Push(m) && m == 4) && (
        b@[1] matches Cmd::SetVar(v) && v@ == "b"@))),
        (r.1@[2] matches Cmd::Stat(b) && b@.len() == 8 && (b@[0] matches Cmd::Push(x) && x == 5)
            && (b@[1] matches Cmd::Push(x) && x == 2) && b@[2] is Add && (b@[3] matches Cmd::Push(
            x,
        ) && x == 3) && b@[4] is Sub && (b@[5] matches Cmd::Push(x) && x == 10) && b@[6] is Mul
            && b@[7] is Write),
{
    let mut vars: Vec<String> = Vec::new();
    vars.push(String::from_str("a"));
    vars.push(String::from_str("b"));
    let mut cond1: Vec<Cmd> = Vec::new();
    cond1.push(Cmd::Push(1));
    let mut stat1: Vec<Cmd> = Vec::new();
    stat1.push(Cmd::Push(5));
    stat1.push(Cmd::SetVar(String::from_str("a")));
    let mut then1: Vec<Cmd> = Vec::new();
    then1.push(Cmd::Stat(stat1));
    let mut cond2: Vec<Cmd> = Vec::new();
    cond2.push(Cmd::Push(0));
    let mut stat2: Vec<Cmd> = Vec::new();
    stat2.push(Cmd::Push(4));
    stat2.push(Cmd::SetVar(String::from_str("b")));
    let mut then2: Vec<Cmd> = Vec::new();
    then2.push(Cmd::Stat(stat2));
    let mut body3: Vec<Cmd> = Vec::new();
    body3.push(Cmd::Push(5));
    body3.push(Cmd::Push(2));
    body3.push(Cmd::Add);
    body3.push(Cmd::Push(3));
    body3.push(Cmd::Sub);
    body3.push(Cmd::Push(10));
    body3.push(Cmd::Mul);
    body3.push(Cmd::Write);
    let mut cmds: Vec<Cmd> = Vec::new();
    cmds.push(Cmd::IfThen { cond: cond1, then_block: then1 });
    cmds.push(Cmd::IfThen { cond: cond2, then_block: then2 });
    cmds.push(Cmd::Stat(body3));
    (vars, cmds)
}

} // verus!
