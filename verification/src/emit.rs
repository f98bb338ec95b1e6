//! Primitive emitter: fixed-shape fragments of tape-machine code for
//! moving and copying cell values, parameterized only by an integer
//! distance, together with small text encoders.
use vstd::prelude::*;
use vstd::string::StringExecFns;

verus! {

/// `s` concatenated `n` times.
pub open spec fn repeat_seq(s: Seq<char>, n: nat) -> Seq<char>
    decreases n,
{
    if n == 0 {
        Seq::empty()
    } else {
        repeat_seq(s, (n - 1) as nat) + s
    }
}

/// Replicates a string `s` for `n` times.
pub fn replicate(n: usize, s: &str) -> (r: String)
    ensures
        r@ == repeat_seq(s@, n as nat),
{
    let mut r = String::new();
    let mut i: usize = 0;
    while i < n
        invariant
            i <= n,
            r@ == repeat_seq(s@, i as nat),
        decreases n - i,
    {
        r.append(s);
        i = i + 1;
    }
    r
}

/// Returns a string consisting of `x` plus signs.
pub fn number(x: usize) -> (r: String)
    ensures
        r@ == repeat_seq("+"@, x as nat),
{
    replicate(x, "+")
}

/// The code points of the characters of `s`, in order.
pub open spec fn code_points(s: Seq<char>) -> Seq<u32> {
    s.map(|i: int, c: char| c as u32)
}

/// Encodes a string into a vector of Unicode code points.
pub fn text_encoder(s: &str) -> (r: Vec<u32>)
    ensures
        r@ == code_points(s@),
{
    let n = s.unicode_len();
    let mut r: Vec<u32> = Vec::new();
    let mut i: usize = 0;
    while i < n
        invariant
            i <= n,
            n == s@.len(),
            r@.len() == i,
            forall|j: int| 0 <= j < i ==> r@[j] == s@[j] as u32,
        decreases n - i,
    {
        let c = s.get_char(i);
        r.push(c as u32);
        i = i + 1;
    }
    proof {
        assert(r@ =~= code_points(s@));
    }
    r
}

/// The literal encoding of the characters of `s`: each character as a
/// run of plus signs, each run closed by `.>`.
pub open spec fn encode_chars(s: Seq<char>) -> Seq<char>
    decreases s.len(),
{
    if s.len() == 0 {
        Seq::empty()
    } else {
        encode_chars(s.drop_last()) + repeat_seq("+"@, s.last() as u32 as nat) + ".>"@
    }
}

/// The encoding of a whole string; an empty string still yields one
/// trailing `.>`.
pub open spec fn encode_string_code(s: Seq<char>) -> Seq<char> {
    if s.len() == 0 {
        ".>"@
    } else {
        encode_chars(s)
    }
}

/// Intercalates encoded numbers with `.>` and appends a final `.>`.
pub fn encode_string(s: &str) -> (r: String)
    ensures
        r@ == encode_string_code(s@),
{
    let n = s.unicode_len();
    if n == 0 {
        let mut r = String::new();
        r.append(".>");
        proof {
            assert(r@ =~= ".>"@);
        }
        return r;
    }
    let mut r = String::new();
    let mut i: usize = 0;
    while i < n
        invariant
            i <= n,
            n == s@.len(),
            r@ == encode_chars(s@.subrange(0, i as int)),
        decreases n - i,
    {
        let c = s.get_char(i);
        let run = number((c as u32) as usize);
        r.append(run.as_str());
        r.append(".>");
        i = i + 1;
        proof {
            let pre = s@.subrange(0, i as int);
            assert(pre.drop_last() =~= s@.subrange(0, i - 1));
            assert(r@ =~= encode_chars(pre));
        }
    }
    proof {
        assert(s@.subrange(0, n as int) =~= s@);
    }
    r
}

/// Code that moves the current cell's value `n` cells to the left,
/// clearing the destination first and the source afterwards.
pub open spec fn move_left_code(n: nat) -> Seq<char> {
    repeat_seq("<"@, n) + "[-]"@ + repeat_seq(">"@, n) + "["@ + repeat_seq("<"@, n) + "+"@
        + repeat_seq(">"@, n) + "-]"@
}

/// Generates a snippet to move a value `n` cells to the left.
pub fn move_left(n: usize) -> (r: String)
    ensures
        r@ == move_left_code(n as nat),
{
    let mut r = replicate(n, "<");
    r.append("[-]");
    let right = replicate(n, ">");
    r.append(right.as_str());
    r.append("[");
    let left = replicate(n, "<");
    r.append(left.as_str());
    r.append("+");
    r.append(right.as_str());
    r.append("-]");
    proof {
        assert(r@ =~= move_left_code(n as nat));
    }
    r
}

/// Code that moves a value `n` cells from the left into the current
/// cell, clearing the current cell first.
pub open spec fn move_right_code(n: nat) -> Seq<char> {
    "[-]"@ + repeat_seq("<"@, n) + "["@ + repeat_seq(">"@, n) + "+"@ + repeat_seq("<"@, n) + "-]"@
        + repeat_seq(">"@, n)
}

/// Generates a snippet to move a value `n` cells from the left.
pub fn move_right(n: usize) -> (r: String)
    ensures
        r@ == move_right_code(n as nat),
{
    let mut r = String::new();
    r.append("[-]");
    let left = replicate(n, "<");
    let right = replicate(n, ">");
    r.append(left.as_str());
    r.append("[");
    r.append(right.as_str());
    r.append("+");
    r.append(left.as_str());
    r.append("-]");
    r.append(right.as_str());
    proof {
        assert(r@ =~= move_right_code(n as nat));
    }
    r
}

/// Code that duplicates the value `n` cells to the left into the
/// current cell, using the cell right of the current one as scratch,
/// restoring the source and ending back on the current cell.
pub open spec fn copy_right_code(n: nat) -> Seq<char> {
    "[-]"@ + repeat_seq("<"@, n) + "["@ + repeat_seq(">"@, n) + "+>+<"@ + repeat_seq("<"@, n)
        + "-]"@ + repeat_seq(">"@, n + 1) + "["@ + repeat_seq("<"@, n + 1) + "+"@
        + repeat_seq(">"@, n + 1) + "-]<"@
}

/// Generates a snippet to copy a value `n` cells to the right.
pub fn copy_right(n: usize) -> (r: String)
    requires
        n < usize::MAX,
    ensures
        r@ == copy_right_code(n as nat),
{
    let mut r = String::new();
    r.append("[-]");
    let left = replicate(n, "<");
    let right = replicate(n, ">");
    let left1 = replicate(n + 1, "<");
    let right1 = replicate(n + 1, ">");
    r.append(left.as_str());
    r.append("[");
    r.append(right.as_str());
    r.append("+>+<");
    r.append(left.as_str());
    r.append("-]");
    r.append(right1.as_str());
    r.append("[");
    r.append(left1.as_str());
    r.append("+");
    r.append(right1.as_str());
    r.append("-]<");
    proof {
        assert(r@ =~= copy_right_code(n as nat));
    }
    r
}

} // verus!
