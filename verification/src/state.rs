//! The compiler state threaded through compilation: the variable map,
//! the current stack depth, and the accumulated output fragments,
//! together with the single appending operation that checks the depth.
use crate::ast::CompileError;
use vstd::prelude::*;
use vstd::string::StringExecFns;

verus! {

/// One generated fragment: a mnemonic label for diagnostics, the
/// emitted code, the stack depth after the fragment, and the nesting
/// level it was generated at.
pub struct Fragment {
    pub label: String,
    pub code: String,
    pub depth: usize,
    pub indent: usize,
}

/// The mathematical image of a fragment.
pub ghost struct FragV {
    pub label: Seq<char>,
    pub code: Seq<char>,
    pub depth: nat,
    pub indent: nat,
}

impl View for Fragment {
    type V = FragV;

    open spec fn view(&self) -> FragV {
        FragV {
            label: self.label@,
            code: self.code@,
            depth: self.depth as nat,
            indent: self.indent as nat,
        }
    }
}

impl DeepView for Fragment {
    type V = FragV;

    open spec fn deep_view(&self) -> FragV {
        self.view()
    }
}

/// The mutable context of one compilation pass: the map from variable
/// names to slot indices, the current stack depth, and the output.
pub struct CompilerState {
    pub env: Vec<(String, usize)>,
    pub next_cell: usize,
    pub out: Vec<Fragment>,
}

impl Default for CompilerState {
    /// An empty state: no variables, depth zero, no output.
    fn default() -> (r: Self)
        ensures
            r.env@ == Seq::<(String, usize)>::empty(),
            r.next_cell == 0,
            r.out@ == Seq::<Fragment>::empty(),
    {
        CompilerState { env: Vec::new(), next_cell: 0, out: Vec::new() }
    }
}

/// The slot bound to `name`, scanning the most recent binding first.
pub open spec fn lookup(env: Seq<(String, usize)>, name: Seq<char>) -> Option<usize>
    decreases env.len(),
{
    if env.len() == 0 {
        None
    } else if env.last().0@ == name {
        Some(env.last().1)
    } else {
        lookup(env.drop_last(), name)
    }
}

/// Finds the slot bound to `name` in `env`, latest binding first.
pub fn env_lookup(env: &Vec<(String, usize)>, name: &String) -> (r: Option<usize>)
    ensures
        r == lookup(env@, name@),
{
    let mut i: usize = env.len();
    proof {
        assert(env@.subrange(0, i as int) =~= env@);
    }
    while i > 0
        invariant
            i <= env@.len(),
            lookup(env@, name@) == lookup(env@.subrange(0, i as int), name@),
        decreases i,
    {
        i = i - 1;
        proof {
            let pre = env@.subrange(0, i + 1);
            assert(pre.last() == env@[i as int]);
            assert(pre.drop_last() =~= env@.subrange(0, i as int));
        }
        if env[i].0 == *name {
            return Some(env[i].1);
        }
    }
    None
}

/// What appending one fragment yields: the fragment and the new depth,
/// or the failure that the depth would fall below zero.
pub open spec fn one_frag(
    label: Seq<char>,
    code: Seq<char>,
    depth: nat,
    delta: int,
    indent: nat,
) -> Result<(Seq<FragV>, nat), CompileError> {
    if depth + delta < 0 {
        Err(CompileError::NegativeStackDepth)
    } else {
        Ok(
            (
                seq![
                    (FragV {
                        label: label,
                        code: code,
                        depth: (depth + delta) as nat,
                        indent: indent,
                    }),
                ],
                (depth + delta) as nat,
            ),
        )
    }
}

/// How an owned-state compilation step relates to its model: the step
/// returns the same error as the model, or the model's fragments are
/// appended to the output and the model's depth becomes the new depth,
/// with the variable map untouched.
pub open spec fn steps_to(
    pre: CompilerState,
    r: Result<CompilerState, CompileError>,
    m: Result<(Seq<FragV>, nat), CompileError>,
) -> bool {
    match m {
        Ok(fd) => match r {
            Ok(st2) => st2.env@ == pre.env@ && st2.next_cell as nat == fd.1
                && st2.out.deep_view() == pre.out.deep_view() + fd.0,
            Err(_) => false,
        },
        Err(e) => r == Err::<CompilerState, CompileError>(e),
    }
}

/// Appends the fragment `s` under the mnemonic `cmd` and moves the
/// depth by `delta`; fails if the depth would fall below zero.
pub fn append_code(
    state: CompilerState,
    cmd: &str,
    s: String,
    delta: isize,
    indent: usize,
) -> (r: Result<CompilerState, CompileError>)
    requires
        -1 <= delta <= 1,
        delta == 1 ==> state.next_cell < usize::MAX,
    ensures
        steps_to(state, r, one_frag(cmd@, s@, state.next_cell as nat, delta as int, indent as nat)),
{
    let ghost pre_out = state.out.deep_view();
    if delta < 0 && state.next_cell == 0 {
        return Err(CompileError::NegativeStackDepth);
    }
    let new_next = if delta < 0 {
        state.next_cell - 1
    } else if delta > 0 {
        state.next_cell + 1
    } else {
        state.next_cell
    };
    let mut st = state;
    let frag = Fragment { label: String::from_str(cmd), code: s, depth: new_next, indent };
    let ghost fv = frag@;
    st.out.push(frag);
    st.next_cell = new_next;
    proof {
        assert(st.out.deep_view() =~= pre_out + seq![fv]);
    }
    Ok(st)
}

} // verus!
