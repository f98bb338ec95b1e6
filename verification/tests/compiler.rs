use bfconstructor::ast::{Cmd, CompileError};
use bfconstructor::compile::{adr_local, example_program, process_cmd, process_cmd_list, scope};
use bfconstructor::render::{primitive_stream, render};
use bfconstructor::state::CompilerState;

/// A reference tape executor: 30000 eight-bit wrapping cells, one
/// pointer, and the eight primitive commands; every other character
/// is a comment.
fn run_bf(code: &str, input: &[u8]) -> Vec<u8> {
    let prog: Vec<char> = code.chars().filter(|c| "+-<>.,[]".contains(*c)).collect();
    let mut stack: Vec<usize> = Vec::new();
    let mut matching = vec![0usize; prog.len()];
    for (i, c) in prog.iter().enumerate() {
        if *c == '[' {
            stack.push(i);
        } else if *c == ']' {
            let j = stack.pop().expect("unbalanced brackets");
            matching[i] = j;
            matching[j] = i;
        }
    }
    assert!(stack.is_empty(), "unbalanced brackets");
    let mut tape = vec![0u8; 30000];
    let mut ptr = 0usize;
    let mut pc = 0usize;
    let mut inpos = 0usize;
    let mut out = Vec::new();
    let mut steps = 0u64;
    while pc < prog.len() {
        steps += 1;
        assert!(steps < 50_000_000, "step limit exceeded");
        match prog[pc] {
            '+' => tape[ptr] = tape[ptr].wrapping_add(1),
            '-' => tape[ptr] = tape[ptr].wrapping_sub(1),
            '>' => ptr += 1,
            '<' => ptr -= 1,
            '.' => out.push(tape[ptr]),
            ',' => {
                tape[ptr] = if inpos < input.len() {
                    let b = input[inpos];
                    inpos += 1;
                    b
                } else {
                    0
                };
            }
            '[' => {
                if tape[ptr] == 0 {
                    pc = matching[pc];
                }
            }
            ']' => {
                if tape[ptr] != 0 {
                    pc = matching[pc];
                }
            }
            _ => {}
        }
        pc += 1;
    }
    out
}

fn compile_stream(vars: &[&str], cmds: &Vec<Cmd>) -> Result<String, CompileError> {
    let vs: Vec<String> = vars.iter().map(|s| s.to_string()).collect();
    let st = scope(&vs, cmds, 0)?;
    Ok(primitive_stream(&st.out))
}

fn run_program(vars: &[&str], cmds: &Vec<Cmd>, input: &[u8]) -> Vec<u8> {
    let code = compile_stream(vars, cmds).expect("program should compile");
    run_bf(&code, input)
}

#[test]
fn scenario_arith_and_variable_writes_seven() {
    let cmds = vec![
        Cmd::Push(5),
        Cmd::SetVar("a".to_string()),
        Cmd::Get("a".to_string()),
        Cmd::Push(2),
        Cmd::Add,
        Cmd::Write,
    ];
    let out = run_program(&["a", "b"], &cmds, &[]);
    assert_eq!(out, vec![7u8]);
}

#[test]
fn scenario_false_condition_writes_nothing() {
    let cmds = vec![Cmd::IfThen {
        cond: vec![Cmd::Push(0)],
        then_block: vec![Cmd::Push(9), Cmd::Write],
    }];
    let out = run_program(&[], &cmds, &[]);
    assert_eq!(out, Vec::<u8>::new());
}

#[test]
fn true_condition_runs_branch() {
    let cmds = vec![Cmd::IfThen {
        cond: vec![Cmd::Push(1)],
        then_block: vec![Cmd::Push(9), Cmd::Write],
    }];
    let out = run_program(&[], &cmds, &[]);
    assert_eq!(out, vec![9u8]);
}

#[test]
fn scenario_unbalanced_stat_fails() {
    let cmds = vec![
        Cmd::Push(3),
        Cmd::Stat(vec![Cmd::Push(1), Cmd::Push(1), Cmd::Add]),
    ];
    assert_eq!(
        compile_stream(&[], &cmds),
        Err(CompileError::StackImbalance)
    );
}

#[test]
fn stat_single_push_fails() {
    let cmds = vec![Cmd::Stat(vec![Cmd::Push(1)])];
    assert_eq!(
        compile_stream(&[], &cmds),
        Err(CompileError::StackImbalance)
    );
}

#[test]
fn balanced_stat_compiles() {
    let cmds = vec![Cmd::Stat(vec![Cmd::Push(1), Cmd::Push(2), Cmd::Add, Cmd::Write])];
    assert!(compile_stream(&[], &cmds).is_ok());
}

#[test]
fn scenario_undefined_variable_fails() {
    let cmds = vec![Cmd::Get("x".to_string())];
    assert_eq!(
        compile_stream(&[], &cmds),
        Err(CompileError::UndefinedVariable)
    );
    let cmds2 = vec![Cmd::SetVar("x".to_string())];
    assert_eq!(
        compile_stream(&["y"], &cmds2),
        Err(CompileError::UndefinedVariable)
    );
}

#[test]
fn popping_past_bottom_fails() {
    let cmds = vec![Cmd::Write];
    assert_eq!(
        compile_stream(&[], &cmds),
        Err(CompileError::NegativeStackDepth)
    );
    let cmds2 = vec![Cmd::Push(1), Cmd::Add, Cmd::Sub];
    assert_eq!(
        compile_stream(&[], &cmds2),
        Err(CompileError::NegativeStackDepth)
    );
}

#[test]
fn condition_depth_must_be_one() {
    let too_many = vec![Cmd::IfThen {
        cond: vec![Cmd::Push(1), Cmd::Push(1)],
        then_block: vec![],
    }];
    assert_eq!(
        compile_stream(&[], &too_many),
        Err(CompileError::ConditionDepthError)
    );
    let empty_cond = vec![Cmd::IfThen { cond: vec![], then_block: vec![] }];
    assert_eq!(
        compile_stream(&[], &empty_cond),
        Err(CompileError::ConditionDepthError)
    );
}

#[test]
fn then_depth_must_be_zero() {
    let pushes = vec![Cmd::IfThen {
        cond: vec![Cmd::Push(1)],
        then_block: vec![Cmd::Push(2)],
    }];
    assert_eq!(
        compile_stream(&[], &pushes),
        Err(CompileError::ThenDepthError)
    );
    let pops = vec![Cmd::IfThen {
        cond: vec![Cmd::Push(1)],
        then_block: vec![Cmd::Write],
    }];
    assert_eq!(
        compile_stream(&[], &pops),
        Err(CompileError::ThenDepthError)
    );
}

#[test]
fn get_then_set_round_trips_every_byte() {
    for v in 0u8..=255 {
        let cmds = vec![
            Cmd::Push(v as usize),
            Cmd::SetVar("a".to_string()),
            Cmd::Get("a".to_string()),
            Cmd::SetVar("a".to_string()),
            Cmd::Get("a".to_string()),
            Cmd::Write,
        ];
        let out = run_program(&["a"], &cmds, &[]);
        assert_eq!(out, vec![v]);
    }
}

#[test]
fn variables_keep_separate_slots() {
    let cmds = vec![
        Cmd::Push(11),
        Cmd::SetVar("a".to_string()),
        Cmd::Push(22),
        Cmd::SetVar("b".to_string()),
        Cmd::Get("a".to_string()),
        Cmd::Write,
        Cmd::Get("b".to_string()),
        Cmd::Write,
    ];
    let out = run_program(&["a", "b"], &cmds, &[]);
    assert_eq!(out, vec![11u8, 22u8]);
}

#[test]
fn arithmetic_primitives_compute() {
    let sub = vec![Cmd::Push(5), Cmd::Push(3), Cmd::Sub, Cmd::Write];
    assert_eq!(run_program(&[], &sub, &[]), vec![2u8]);
    let mul = vec![Cmd::Push(6), Cmd::Push(7), Cmd::Mul, Cmd::Write];
    assert_eq!(run_program(&[], &mul, &[]), vec![42u8]);
    let addc = vec![Cmd::Push(5), Cmd::Addc(10), Cmd::Write];
    assert_eq!(run_program(&[], &addc, &[]), vec![15u8]);
    let subc = vec![Cmd::Push(5), Cmd::Subc(3), Cmd::Write];
    assert_eq!(run_program(&[], &subc, &[]), vec![2u8]);
    let incdec = vec![Cmd::Push(5), Cmd::Inc, Cmd::Inc, Cmd::Dec, Cmd::Write];
    assert_eq!(run_program(&[], &incdec, &[]), vec![6u8]);
}

#[test]
fn bool_normalizes_to_zero_or_one() {
    let truthy = vec![Cmd::Push(5), Cmd::Bool, Cmd::Write];
    assert_eq!(run_program(&[], &truthy, &[]), vec![1u8]);
    let falsy = vec![Cmd::Push(0), Cmd::Bool, Cmd::Write];
    assert_eq!(run_program(&[], &falsy, &[]), vec![0u8]);
}

#[test]
fn clear_and_copy_work() {
    let cleared = vec![Cmd::Push(5), Cmd::Clear, Cmd::Write];
    assert_eq!(run_program(&[], &cleared, &[]), vec![0u8]);
    let copied = vec![Cmd::Push(3), Cmd::Copy, Cmd::Add, Cmd::Write];
    assert_eq!(run_program(&[], &copied, &[]), vec![6u8]);
}

#[test]
fn read_takes_input_bytes() {
    let cmds = vec![Cmd::Read, Cmd::Addc(1), Cmd::Write];
    assert_eq!(run_program(&[], &cmds, &[65]), vec![66u8]);
}

#[test]
fn compile_twice_is_byte_identical() {
    let (vars, cmds) = example_program();
    let st1 = scope(&vars, &cmds, 0).expect("example compiles");
    let st2 = scope(&vars, &cmds, 0).expect("example compiles");
    assert_eq!(render(&st1.out, 4), render(&st2.out, 4));
    assert_eq!(primitive_stream(&st1.out), primitive_stream(&st2.out));
}

#[test]
fn indent_level_changes_only_comments() {
    let (vars, cmds) = example_program();
    let st1 = scope(&vars, &cmds, 0).expect("example compiles");
    let st2 = scope(&vars, &cmds, 2).expect("example compiles");
    assert_ne!(render(&st1.out, 4), render(&st2.out, 4));
    assert_eq!(primitive_stream(&st1.out), primitive_stream(&st2.out));
}

#[test]
fn example_program_runs() {
    let (vars, cmds) = example_program();
    let st = scope(&vars, &cmds, 0).expect("example compiles");
    let out = run_bf(&primitive_stream(&st.out), &[]);
    // (5 + 2 - 3) * 10 = 40
    assert_eq!(out, vec![40u8]);
}

#[test]
fn nested_blocks_compile_and_run() {
    let cmds = vec![Cmd::Stat(vec![
        Cmd::Push(1),
        Cmd::IfThen {
            cond: vec![Cmd::Get("a".to_string())],
            then_block: vec![Cmd::Stat(vec![Cmd::Push(33), Cmd::Write])],
        },
        Cmd::Write,
    ])];
    let prologue = vec![Cmd::Push(2), Cmd::SetVar("a".to_string())];
    let mut all = prologue;
    all.extend(cmds);
    let out = run_program(&["a"], &all, &[]);
    assert_eq!(out, vec![33u8, 1u8]);
}

#[test]
fn adr_local_resolves_relative_addresses() {
    let vs: Vec<String> = vec!["a".to_string(), "b".to_string()];
    let empty: Vec<Cmd> = Vec::new();
    let st = scope(&vs, &empty, 0).expect("declarations compile");
    assert_eq!(st.next_cell, 2);
    assert_eq!(adr_local(&st, &"a".to_string()), Ok(2));
    assert_eq!(adr_local(&st, &"b".to_string()), Ok(1));
    assert_eq!(
        adr_local(&st, &"c".to_string()),
        Err(CompileError::UndefinedVariable)
    );
}

#[test]
fn process_cmd_appends_one_fragment() {
    let st = CompilerState::default();
    let st = process_cmd(st, &Cmd::Push(5), 0).expect("push compiles");
    assert_eq!(st.next_cell, 1);
    assert_eq!(st.out.len(), 1);
    assert_eq!(st.out[0].label, "push 5");
    assert_eq!(st.out[0].code, ">+++++");
    assert_eq!(st.out[0].depth, 1);
}

#[test]
fn process_cmd_list_threads_depth() {
    let st = CompilerState::default();
    let cmds = vec![Cmd::Push(1), Cmd::Push(2), Cmd::Add];
    let st = process_cmd_list(st, &cmds, 0).expect("list compiles");
    assert_eq!(st.next_cell, 1);
    assert_eq!(st.out.len(), 3);
}

#[test]
fn render_formats_commented_lines() {
    let cmds = vec![Cmd::Push(5)];
    let no_vars: Vec<String> = Vec::new();
    let st = scope(&no_vars, &cmds, 0).expect("push compiles");
    let text = render(&st.out, 4);
    assert_eq!(text, "/* push 5               */ >+++++ #1\n");
    let stream = primitive_stream(&st.out);
    assert_eq!(stream, ">+++++");
}
