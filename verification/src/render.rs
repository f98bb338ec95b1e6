//! Diagnostics and formatting: one commented line per generated
//! fragment, and the extraction of the bare primitive stream. The
//! comments have no behavioral effect; the machine ignores every
//! character that is not one of its eight commands.
use crate::emit::{repeat_seq, replicate};
use crate::state::{FragV, Fragment};
use crate::text::{dec_digits, indent_seq, make_indent, usize_to_string};
use vstd::prelude::*;
use vstd::string::StringExecFns;

verus! {

/// Padding that brings a label of length `len` up to the fixed
/// mnemonic column width.
pub open spec fn pad_seq(len: nat) -> Seq<char> {
    if len < 12 {
        repeat_seq(" "@, (12 - len) as nat)
    } else {
        Seq::empty()
    }
}

/// How many indentation levels stand between a fragment's level and
/// the comment column.
pub open spec fn tail_levels(indent: nat) -> nat {
    if indent < 2 {
        (2 - indent) as nat
    } else {
        0
    }
}

/// The rendered line for one fragment: an inline comment carrying the
/// mnemonic, then the code, then the resulting stack depth.
pub open spec fn frag_line(f: FragV, indentsize: nat) -> Seq<char> {
    "/* "@ + indent_seq(f.indent, indentsize) + f.label + pad_seq(f.label.len()) + indent_seq(
        tail_levels(f.indent),
        indentsize,
    ) + " */ "@ + f.code + " #"@ + dec_digits(f.depth) + "\n"@
}

/// The rendered text for a whole fragment sequence.
pub open spec fn render_frags(frags: Seq<FragV>, indentsize: nat) -> Seq<char>
    decreases frags.len(),
{
    if frags.len() == 0 {
        Seq::empty()
    } else {
        render_frags(frags.drop_last(), indentsize) + frag_line(frags.last(), indentsize)
    }
}

/// The bare primitive stream of a fragment sequence: the emitted code
/// with every comment and all whitespace gone.
pub open spec fn stream_of(frags: Seq<FragV>) -> Seq<char>
    decreases frags.len(),
{
    if frags.len() == 0 {
        Seq::empty()
    } else {
        stream_of(frags.drop_last()) + frags.last().code
    }
}

/// Renders one fragment as a commented line.
fn render_frag(f: &Fragment, indentsize: usize) -> (r: String)
    ensures
        r@ == frag_line(f@, indentsize as nat),
{
    let mut r = String::from_str("/* ");
    let ind = make_indent(f.indent, indentsize);
    r.append(ind.as_str());
    r.append(f.label.as_str());
    let llen = f.label.as_str().unicode_len();
    let pad = if llen < 12 {
        replicate(12 - llen, " ")
    } else {
        String::new()
    };
    r.append(pad.as_str());
    let tail_lv = if f.indent < 2 {
        2 - f.indent
    } else {
        0
    };
    let tail = make_indent(tail_lv, indentsize);
    r.append(tail.as_str());
    r.append(" */ ");
    r.append(f.code.as_str());
    r.append(" #");
    let d = usize_to_string(f.depth);
    r.append(d.as_str());
    r.append("\n");
    proof {
        assert(r@ =~= frag_line(f@, indentsize as nat));
    }
    r
}

/// Renders the accumulated output as commented text, one line per
/// fragment, indented by `indentsize` spaces per nesting level.
#[verifier::loop_isolation(false)]
pub fn render(frags: &Vec<Fragment>, indentsize: usize) -> (r: String)
    ensures
        r@ == render_frags(frags.deep_view(), indentsize as nat),
{
    let mut r = String::new();
    let mut i: usize = 0;
    proof {
        assert(frags.deep_view().subrange(0, 0) =~= Seq::<FragV>::empty());
    }
    while i < frags.len()
        invariant
            i <= frags@.len(),
            r@ == render_frags(frags.deep_view().subrange(0, i as int), indentsize as nat),
        decreases frags@.len() - i,
    {
        let line = render_frag(&frags[i], indentsize);
        r.append(line.as_str());
        i = i + 1;
        proof {
            let pre = frags.deep_view().subrange(0, i as int);
            assert(pre.drop_last() =~= frags.deep_view().subrange(0, i - 1));
            assert(pre.last() == frags@[i - 1]@);
        }
    }
    proof {
        assert(frags.deep_view().subrange(0, frags@.len() as int) =~= frags.deep_view());
    }
    r
}

/// Extracts the bare primitive stream of the accumulated output,
/// without any comment or whitespace.
#[verifier::loop_isolation(false)]
pub fn primitive_stream(frags: &Vec<Fragment>) -> (r: String)
    ensures
        r@ == stream_of(frags.deep_view()),
{
    let mut r = String::new();
    let mut i: usize = 0;
    proof {
        assert(frags.deep_view().subrange(0, 0) =~= Seq::<FragV>::empty());
    }
    while i < frags.len()
        invariant
            i <= frags@.len(),
            r@ == stream_of(frags.deep_view().subrange(0, i as int)),
        decreases frags@.len() - i,
    {
        r.append(frags[i].code.as_str());
        i = i + 1;
        proof {
            let pre = frags.deep_view().subrange(0, i as int);
            assert(pre.drop_last() =~= frags.deep_view().subrange(0, i - 1));
            assert(pre.last() == frags@[i - 1]@);
        }
    }
    proof {
        assert(frags.deep_view().subrange(0, frags@.len() as int) =~= frags.deep_view());
    }
    r
}

} // verus!
