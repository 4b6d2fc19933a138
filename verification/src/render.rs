//! Rendering of the translation to the fixed textual assembly format: one
//! specification function gives the exact character sequence of each piece,
//! and the executable builders are proved to produce it.

use vstd::prelude::*;
use vstd::string::StringExecFns;

use crate::ins::Expected;
use crate::ins::Ins;
use crate::ins::SyntaxError;
use crate::model::St;

verus! {

/// Relies on `String::push`: appends exactly the one character at the end.
pub assume_specification[ String::push ](s: &mut String, c: char)
    ensures
        final(s)@ == old(s)@ + seq![c],
;

/// The text of one instruction line: a leading tab, the mnemonic, and a
/// newline.
pub open spec fn ins_text(i: Ins) -> Seq<char> {
    match i {
        Ins::Zero => "\txor eax, eax\n"@,
        Ins::PushEax => "\tpush eax\n"@,
        Ins::LoadImm(d) => "\tmov eax, "@ + seq![d] + "\n"@,
        Ins::LoadVar(v) => "\tmov eax, ["@ + seq![v] + "]\n"@,
        Ins::StoreVar(v) => "\tmov ["@ + seq![v] + "], eax\n"@,
        Ins::Call(f) => "\tcall "@ + seq![f] + "\n"@,
        Ins::PopEbx => "\tpop ebx\n"@,
        Ins::AddEbx => "\tadd eax, ebx\n"@,
        Ins::SubEbx => "\tsub eax, ebx\n"@,
        Ins::NegEax => "\tneg eax ;; We have subtracted the first operand from the second, so negate eax\n"@,
        Ins::MovEbxEax => "\tmov ebx, eax ;; div: Move the second arg to ebx\n"@,
        Ins::PopEax => "\tpop eax      ;; div: Now eax has the first arg\n"@,
        Ins::DivEbx => "\tdiv ebx ;; eax <- eax / ebx\n"@,
        Ins::MulEbx => "\tmul ebx ;; eax <- eax * ebx\n"@,
    }
}

/// The text of the program body: the instruction lines in emission order.
pub open spec fn body_text(out: Seq<Ins>) -> Seq<char>
    decreases out.len(),
{
    if out.len() == 0 {
        Seq::empty()
    } else {
        body_text(out.drop_last()) + ins_text(out.last())
    }
}

/// The fixed prelude: the text section, the entry label, and the 32-bit
/// marker the push/pop stack discipline requires.
pub open spec fn prelude_text() -> Seq<char> {
    "section .text\nglobal _start ;; _start for GCC\nbits 32 ;; push is not supported in 64 bit mode\n_start:\n"@
}

/// The fixed exit sequence emitted right after the program body.
pub open spec fn epilogue_text() -> Seq<char> {
    "\t\n\tmov eax, 0x1 ;; Exit syscall code.\n\tint 0x80     ;; Interrupt to syscall.\n\t\n"@
}

/// One labeled function block: the placeholder body is a single `ret`,
/// followed by a blank separator line.
pub open spec fn fn_block_text(f: char) -> Seq<char> {
    seq![f] + ":\n\tret\n\n"@
}

/// The labeled function blocks, one per called function, in table order.
pub open spec fn fn_blocks_text(fns: Seq<char>) -> Seq<char>
    decreases fns.len(),
{
    if fns.len() == 0 {
        Seq::empty()
    } else {
        fn_blocks_text(fns.drop_last()) + fn_block_text(fns.last())
    }
}

/// One zero-initialized declaration line for the variable `v`.
pub open spec fn decl_text(v: char) -> Seq<char> {
    "\t"@ + seq![v] + " dd 0x00\n"@
}

/// The declaration lines, one per distinct variable, in declaration order.
pub open spec fn decls_text(vars: Seq<char>) -> Seq<char>
    decreases vars.len(),
{
    if vars.len() == 0 {
        Seq::empty()
    } else {
        decls_text(vars.drop_last()) + decl_text(vars.last())
    }
}

/// The data section: nothing at all when no variable was declared, else the
/// section header followed by the declaration lines.
pub open spec fn data_text(vars: Seq<char>) -> Seq<char> {
    if vars.len() == 0 {
        Seq::empty()
    } else {
        "section .data\n"@ + decls_text(vars)
    }
}

/// Everything emitted after the program body: the exit sequence, the
/// function blocks, and the data section.
pub open spec fn closing_text(st: St) -> Seq<char> {
    epilogue_text() + fn_blocks_text(st.fns) + data_text(st.vars)
}

/// The complete program text of a successful translation.
pub open spec fn program_text(st: St) -> Seq<char> {
    prelude_text() + body_text(st.out) + closing_text(st)
}

/// The text naming what the walker expected, as it appears in the rendered
/// error message.
pub open spec fn expected_text(x: Expected) -> Seq<char> {
    match x {
        Expected::Name => "Name"@,
        Expected::Digit => "Digit"@,
        Expected::Factor => "Factor"@,
        Expected::Addop => "Addop"@,
        Expected::Mulop => "Mulop"@,
        Expected::Newline => "newline"@,
        Expected::Ch(c) => seq![c],
    }
}

/// The found character in quotes, or the stand-in message at end of input.
pub open spec fn char_or_msg_text(c: Option<char>, msg: Seq<char>) -> Seq<char> {
    match c {
        Some(c) => "'"@ + seq![c] + "'"@,
        None => msg,
    }
}

/// The rendered diagnostic: what was expected and what was found.
pub open spec fn error_text(e: SyntaxError) -> Seq<char> {
    "Error: Expected "@ + expected_text(e.expected) + " (found "@ + char_or_msg_text(
        e.found,
        "EOF"@,
    ) + ")."@
}

/// Renders one instruction line.
pub fn render_ins(i: &Ins) -> (r: String)
    ensures
        r@ == ins_text(*i),
{
    match i {
        Ins::Zero => String::from_str("\txor eax, eax\n"),
        Ins::PushEax => String::from_str("\tpush eax\n"),
        Ins::LoadImm(d) => {
            let mut s = String::from_str("\tmov eax, ");
            s.push(*d);
            s.append("\n");
            s
        },
        Ins::LoadVar(v) => {
            let mut s = String::from_str("\tmov eax, [");
            s.push(*v);
            s.append("]\n");
            s
        },
        Ins::StoreVar(v) => {
            let mut s = String::from_str("\tmov [");
            s.push(*v);
            s.append("], eax\n");
            s
        },
        Ins::Call(f) => {
            let mut s = String::from_str("\tcall ");
            s.push(*f);
            s.append("\n");
            s
        },
        Ins::PopEbx => String::from_str("\tpop ebx\n"),
        Ins::AddEbx => String::from_str("\tadd eax, ebx\n"),
        Ins::SubEbx => String::from_str("\tsub eax, ebx\n"),
        Ins::NegEax => String::from_str(
            "\tneg eax ;; We have subtracted the first operand from the second, so negate eax\n",
        ),
        Ins::MovEbxEax => String::from_str("\tmov ebx, eax ;; div: Move the second arg to ebx\n"),
        Ins::PopEax => String::from_str("\tpop eax      ;; div: Now eax has the first arg\n"),
        Ins::DivEbx => String::from_str("\tdiv ebx ;; eax <- eax / ebx\n"),
        Ins::MulEbx => String::from_str("\tmul ebx ;; eax <- eax * ebx\n"),
    }
}

/// Renders the program body, one line per emitted instruction, in order.
pub fn render_body(out: &Vec<Ins>) -> (r: String)
    ensures
        r@ == body_text(out@),
{
    let mut s = String::new();
    let mut i: usize = 0;
    while i < out.len()
        invariant
            i <= out@.len(),
            s@ == body_text(out@.take(i as int)),
        decreases out@.len() - i,
    {
        let line = render_ins(&out[i]);
        s.append(line.as_str());
        proof {
            assert(out@.take(i + 1 as int).drop_last() =~= out@.take(i as int));
            assert(out@.take(i + 1 as int).last() == out@[i as int]);
        }
        i = i + 1;
    }
    proof {
        assert(out@.take(out@.len() as int) =~= out@);
    }
    s
}

/// Renders the found character in quotes, or `msg` at end of input.
pub fn char_or_msg(c: Option<char>, msg: &str) -> (r: String)
    ensures
        r@ == char_or_msg_text(c, msg@),
{
    match c {
        Some(c) => {
            let mut s = String::from_str("'");
            s.push(c);
            s.append("'");
            s
        },
        None => String::from_str(msg),
    }
}

/// Renders the diagnostic message for a syntax error, for the driver to
/// surface before it signals unsuccessful termination.
pub fn error(e: &SyntaxError) -> (r: String)
    ensures
        r@ == error_text(*e),
{
    let mut s = String::from_str("Error: Expected ");
    match e.expected {
        Expected::Name => s.append("Name"),
        Expected::Digit => s.append("Digit"),
        Expected::Factor => s.append("Factor"),
        Expected::Addop => s.append("Addop"),
        Expected::Mulop => s.append("Mulop"),
        Expected::Newline => s.append("newline"),
        Expected::Ch(c) => s.push(c),
    }
    s.append(" (found ");
    let have = char_or_msg(e.found, "EOF");
    s.append(have.as_str());
    s.append(").");
    s
}

} // verus!
