//! The laws of the translator, stated over the functional model and proved
//! once and for all. Each law speaks of whole statements through
//! [`translation`], so it holds of [`crate::cabl::Cabl::process`] as well,
//! whose contract returns exactly what `translation` computes.

use vstd::prelude::*;

use crate::ins::Ins;
use crate::ins::SyntaxError;
use crate::ins::Expected;
use crate::ins::alphabetic;
use crate::ins::digit;
use crate::ins::name_start;
use crate::model::St;
use crate::model::advance;
use crate::model::emit;
use crate::model::init_st;
use crate::model::insert_new;
use crate::model::m_assignment;
use crate::model::m_match;
use crate::model::m_add;
use crate::model::m_div;
use crate::model::m_expr_tail;
use crate::model::m_mul;
use crate::model::m_sub;
use crate::model::m_expression;
use crate::model::m_factor;
use crate::model::m_term;
use crate::model::m_term_tail;
use crate::model::translation;

verus! {

/// Translating `v=d` for any name `v` and digit `d` loads the immediate `d`
/// into the primary register, stores it into `v`'s cell, declares `v`
/// exactly once, and registers no function.
pub proof fn law_literal_assignment(v: char, d: char)
    requires
        alphabetic(v),
        digit(d),
    ensures
        ({
            let r = translation(seq![v, '=', d, '\n']);
            &&& r is Ok
            &&& r->Ok_0.out =~= seq![Ins::LoadImm(d), Ins::StoreVar(v)]
            &&& r->Ok_0.vars =~= seq![v]
            &&& r->Ok_0.fns =~= Seq::<char>::empty()
        }),
{
    let s = seq![v, '=', d, '\n'];
    reveal_with_fuel(m_expression, 2);
    reveal_with_fuel(m_expr_tail, 2);
    reveal_with_fuel(m_term, 2);
    reveal_with_fuel(m_term_tail, 2);
    reveal_with_fuel(m_factor, 2);
    assert(s[0] == v && s[1] == '=' && s[2] == d && s[3] == '\n');
}

/// Translating `v=a+b` loads `a`, pushes it, loads `b`, pops the left
/// operand into the secondary register, adds, and stores — and declares all
/// three names, each once.
pub proof fn law_binary_add(v: char, a: char, b: char)
    requires
        alphabetic(v),
        name_start(a),
        name_start(b),
    ensures
        ({
            let r = translation(seq![v, '=', a, '+', b, '\n']);
            &&& r is Ok
            &&& r->Ok_0.out =~= seq![
                Ins::LoadVar(a),
                Ins::PushEax,
                Ins::LoadVar(b),
                Ins::PopEbx,
                Ins::AddEbx,
                Ins::StoreVar(v),
            ]
            &&& r->Ok_0.vars =~= insert_new(insert_new(insert_new(Seq::empty(), v), a), b)
            &&& r->Ok_0.fns =~= Seq::<char>::empty()
        }),
{
    let s = seq![v, '=', a, '+', b, '\n'];
    reveal_with_fuel(m_expression, 3);
    reveal_with_fuel(m_expr_tail, 3);
    reveal_with_fuel(m_term, 3);
    reveal_with_fuel(m_term_tail, 3);
    reveal_with_fuel(m_factor, 3);
    reveal_with_fuel(m_add, 2);
    assert(s[0] == v && s[1] == '=' && s[2] == a && s[3] == '+' && s[4] == b && s[5] == '\n');
}

/// Digit operands take the same additive shape with immediate loads in
/// place of variable loads, and declare only the target.
pub proof fn law_binary_add_digits(v: char, a: char, b: char)
    requires
        alphabetic(v),
        digit(a),
        digit(b),
    ensures
        ({
            let r = translation(seq![v, '=', a, '+', b, '\n']);
            &&& r is Ok
            &&& r->Ok_0.out =~= seq![
                Ins::LoadImm(a),
                Ins::PushEax,
                Ins::LoadImm(b),
                Ins::PopEbx,
                Ins::AddEbx,
                Ins::StoreVar(v),
            ]
            &&& r->Ok_0.vars =~= seq![v]
            &&& r->Ok_0.fns =~= Seq::<char>::empty()
        }),
{
    let s = seq![v, '=', a, '+', b, '\n'];
    reveal_with_fuel(m_expression, 3);
    reveal_with_fuel(m_expr_tail, 3);
    reveal_with_fuel(m_term, 3);
    reveal_with_fuel(m_term_tail, 3);
    reveal_with_fuel(m_factor, 3);
    reveal_with_fuel(m_add, 2);
    assert(s[0] == v && s[1] == '=' && s[2] == a && s[3] == '+' && s[4] == b && s[5] == '\n');
    assert(insert_new(Seq::empty(), v) =~= seq![v]);
}

/// Translating `v=a-b` is the additive shape with the compensating
/// negation: the stack discipline reverses the operand order, so after
/// `sub eax, ebx` a `neg eax` restores left − right.
pub proof fn law_binary_sub(v: char, a: char, b: char)
    requires
        alphabetic(v),
        name_start(a),
        name_start(b),
    ensures
        ({
            let r = translation(seq![v, '=', a, '-', b, '\n']);
            &&& r is Ok
            &&& r->Ok_0.out =~= seq![
                Ins::LoadVar(a),
                Ins::PushEax,
                Ins::LoadVar(b),
                Ins::PopEbx,
                Ins::SubEbx,
                Ins::NegEax,
                Ins::StoreVar(v),
            ]
            &&& r->Ok_0.vars =~= insert_new(insert_new(insert_new(Seq::empty(), v), a), b)
            &&& r->Ok_0.fns =~= Seq::<char>::empty()
        }),
{
    let s = seq![v, '=', a, '-', b, '\n'];
    reveal_with_fuel(m_expression, 3);
    reveal_with_fuel(m_expr_tail, 3);
    reveal_with_fuel(m_term, 3);
    reveal_with_fuel(m_term_tail, 3);
    reveal_with_fuel(m_factor, 3);
    reveal_with_fuel(m_sub, 2);
    assert(s[0] == v && s[1] == '=' && s[2] == a && s[3] == '-' && s[4] == b && s[5] == '\n');
}

/// Translating `v=a*b` combines through the secondary register with
/// `mul ebx` after popping the left operand.
pub proof fn law_binary_mul(v: char, a: char, b: char)
    requires
        alphabetic(v),
        name_start(a),
        name_start(b),
    ensures
        ({
            let r = translation(seq![v, '=', a, '*', b, '\n']);
            &&& r is Ok
            &&& r->Ok_0.out =~= seq![
                Ins::LoadVar(a),
                Ins::PushEax,
                Ins::LoadVar(b),
                Ins::PopEbx,
                Ins::MulEbx,
                Ins::StoreVar(v),
            ]
            &&& r->Ok_0.vars =~= insert_new(insert_new(insert_new(Seq::empty(), v), a), b)
            &&& r->Ok_0.fns =~= Seq::<char>::empty()
        }),
{
    let s = seq![v, '=', a, '*', b, '\n'];
    reveal_with_fuel(m_expression, 3);
    reveal_with_fuel(m_expr_tail, 3);
    reveal_with_fuel(m_term, 3);
    reveal_with_fuel(m_term_tail, 3);
    reveal_with_fuel(m_factor, 3);
    reveal_with_fuel(m_mul, 2);
    assert(s[0] == v && s[1] == '=' && s[2] == a && s[3] == '*' && s[4] == b && s[5] == '\n');
}

/// Translating `v=a/b` moves the right operand to the secondary register,
/// pops the left operand back into the primary one, and divides.
pub proof fn law_binary_div(v: char, a: char, b: char)
    requires
        alphabetic(v),
        name_start(a),
        name_start(b),
    ensures
        ({
            let r = translation(seq![v, '=', a, '/', b, '\n']);
            &&& r is Ok
            &&& r->Ok_0.out =~= seq![
                Ins::LoadVar(a),
                Ins::PushEax,
                Ins::LoadVar(b),
                Ins::MovEbxEax,
                Ins::PopEax,
                Ins::DivEbx,
                Ins::StoreVar(v),
            ]
            &&& r->Ok_0.vars =~= insert_new(insert_new(insert_new(Seq::empty(), v), a), b)
            &&& r->Ok_0.fns =~= Seq::<char>::empty()
        }),
{
    let s = seq![v, '=', a, '/', b, '\n'];
    reveal_with_fuel(m_expression, 3);
    reveal_with_fuel(m_expr_tail, 3);
    reveal_with_fuel(m_term, 3);
    reveal_with_fuel(m_term_tail, 3);
    reveal_with_fuel(m_factor, 3);
    reveal_with_fuel(m_div, 2);
    assert(s[0] == v && s[1] == '=' && s[2] == a && s[3] == '/' && s[4] == b && s[5] == '\n');
}

/// Parenthesization changes grouping but not the shape of the final store:
/// in `v=(a+b)*c` the parenthesized group is evaluated fully — load, push,
/// load, pop, add — before the multiplicative combination touches it.
pub proof fn law_parenthesized_grouping(v: char, a: char, b: char, c: char)
    requires
        alphabetic(v),
        name_start(a),
        name_start(b),
        name_start(c),
    ensures
        ({
            let r = translation(seq![v, '=', '(', a, '+', b, ')', '*', c, '\n']);
            &&& r is Ok
            &&& r->Ok_0.out =~= seq![
                Ins::LoadVar(a),
                Ins::PushEax,
                Ins::LoadVar(b),
                Ins::PopEbx,
                Ins::AddEbx,
                Ins::PushEax,
                Ins::LoadVar(c),
                Ins::PopEbx,
                Ins::MulEbx,
                Ins::StoreVar(v),
            ]
            &&& r->Ok_0.vars =~= insert_new(insert_new(insert_new(insert_new(Seq::empty(), v), a), b), c)
            &&& r->Ok_0.fns =~= Seq::<char>::empty()
        }),
{
    let s = seq![v, '=', '(', a, '+', b, ')', '*', c, '\n'];
    assert(s[0] == v && s[1] == '=' && s[2] == '(' && s[3] == a && s[4] == '+' && s[5] == b
        && s[6] == ')' && s[7] == '*' && s[8] == c && s[9] == '\n');
    let st0 = init_st();
    let st1 = St { vars: insert_new(Seq::empty(), v), ..advance(st0) };
    let st2 = advance(st1);  // after `=`
    let st3 = advance(st2);  // after `(`
    // the parenthesized group, evaluated fully first
    let st4 = St {
        out: st3.out.push(Ins::LoadVar(a)),
        vars: insert_new(st3.vars, a),
        ..advance(st3)
    };
    assert(m_factor(s, st3) == Ok::<St, SyntaxError>(st4));
    let st5 = emit(st4, Ins::PushEax);
    let st6 = advance(st5);  // after `+`
    let st7 = St {
        out: st6.out.push(Ins::LoadVar(b)),
        vars: insert_new(st6.vars, b),
        ..advance(st6)
    };
    assert(m_factor(s, st6) == Ok::<St, SyntaxError>(st7));
    assert(m_term_tail(s, st7) == Ok::<St, SyntaxError>(st7));
    assert(m_term(s, st6) == Ok::<St, SyntaxError>(st7));
    let st8 = emit(emit(st7, Ins::PopEbx), Ins::AddEbx);
    assert(m_add(s, st5) == Ok::<St, SyntaxError>(st8));
    assert(m_expr_tail(s, st8) == Ok::<St, SyntaxError>(st8));
    assert(m_expr_tail(s, st4) == Ok::<St, SyntaxError>(st8));
    assert(m_term_tail(s, st4) == Ok::<St, SyntaxError>(st4));
    assert(m_term(s, st3) == Ok::<St, SyntaxError>(st4));
    assert(m_expression(s, st3) == Ok::<St, SyntaxError>(st8));
    let st9 = advance(st8);  // after `)`
    assert(m_factor(s, st2) == Ok::<St, SyntaxError>(st9));
    // the multiplicative combination around the finished group
    let st10 = emit(st9, Ins::PushEax);
    let st11 = advance(st10);  // after `*`
    let st12 = St {
        out: st11.out.push(Ins::LoadVar(c)),
        vars: insert_new(st11.vars, c),
        ..advance(st11)
    };
    assert(m_factor(s, st11) == Ok::<St, SyntaxError>(st12));
    let st13 = emit(emit(st12, Ins::PopEbx), Ins::MulEbx);
    assert(m_mul(s, st10) == Ok::<St, SyntaxError>(st13));
    assert(m_term_tail(s, st13) == Ok::<St, SyntaxError>(st13));
    assert(m_term_tail(s, st9) == Ok::<St, SyntaxError>(st13));
    assert(m_term(s, st2) == Ok::<St, SyntaxError>(st13));
    assert(m_expr_tail(s, st13) == Ok::<St, SyntaxError>(st13));
    assert(m_expression(s, st2) == Ok::<St, SyntaxError>(st13));
    assert(m_assignment(s, st0) == Ok::<St, SyntaxError>(emit(st13, Ins::StoreVar(v))));
}

/// A unary operator at the start of an expression synthesizes a zero left
/// operand: `v=-a` zeroes the primary register before treating `-a` as
/// `0 - a`.
pub proof fn law_unary_minus(v: char, a: char)
    requires
        alphabetic(v),
        name_start(a),
    ensures
        ({
            let r = translation(seq![v, '=', '-', a, '\n']);
            &&& r is Ok
            &&& r->Ok_0.out =~= seq![
                Ins::Zero,
                Ins::PushEax,
                Ins::LoadVar(a),
                Ins::PopEbx,
                Ins::SubEbx,
                Ins::NegEax,
                Ins::StoreVar(v),
            ]
            &&& r->Ok_0.vars =~= insert_new(insert_new(Seq::empty(), v), a)
            &&& r->Ok_0.fns =~= Seq::<char>::empty()
        }),
{
    let s = seq![v, '=', '-', a, '\n'];
    reveal_with_fuel(m_expression, 3);
    reveal_with_fuel(m_expr_tail, 3);
    reveal_with_fuel(m_term, 3);
    reveal_with_fuel(m_term_tail, 3);
    reveal_with_fuel(m_factor, 3);
    reveal_with_fuel(m_sub, 2);
    assert(s[0] == v && s[1] == '=' && s[2] == '-' && s[3] == a && s[4] == '\n');
}

/// Referencing the same variable any number of times declares it exactly
/// once: `v=v+v` yields one declaration line for `v`, not three.
pub proof fn law_duplicate_declaration_once(v: char)
    requires
        alphabetic(v),
        name_start(v),
    ensures
        ({
            let r = translation(seq![v, '=', v, '+', v, '\n']);
            &&& r is Ok
            &&& r->Ok_0.vars =~= seq![v]
        }),
{
    law_binary_add(v, v, v);
    let r = translation(seq![v, '=', v, '+', v, '\n']);
    assert(insert_new(Seq::empty(), v) =~= seq![v]);
    assert(seq![v].contains(v)) by {
        assert(seq![v][0] == v);
    }
    assert(r->Ok_0.vars =~= seq![v]);
}

/// A statement whose expression is missing fails with a syntax error that
/// names the missing factor: `v=` finds end of input where a factor had to
/// start. The translation is all-or-nothing: on an error no program text
/// exists at all.
pub proof fn law_error_missing_expression(v: char)
    requires
        alphabetic(v),
    ensures
        translation(seq![v, '=']) == Err::<St, SyntaxError>(
            SyntaxError { expected: Expected::Factor, found: None },
        ),
{
    let s = seq![v, '='];
    reveal_with_fuel(m_expression, 2);
    reveal_with_fuel(m_expr_tail, 2);
    reveal_with_fuel(m_term, 2);
    reveal_with_fuel(m_term_tail, 2);
    reveal_with_fuel(m_factor, 2);
    assert(s[0] == v && s[1] == '=');
}

/// A unary operator with no operand fails with the same missing-factor
/// error: in `v=+` the synthesized zero still needs a right operand.
pub proof fn law_error_missing_operand(v: char)
    requires
        alphabetic(v),
    ensures
        translation(seq![v, '=', '+']) == Err::<St, SyntaxError>(
            SyntaxError { expected: Expected::Factor, found: None },
        ),
{
    let s = seq![v, '=', '+'];
    assert(s[0] == v && s[1] == '=' && s[2] == '+');
    let e = SyntaxError { expected: Expected::Factor, found: None };
    let st0 = init_st();
    let st1 = St { vars: insert_new(Seq::empty(), v), ..advance(st0) };
    let st2 = advance(st1);  // after `=`
    let st3 = emit(st2, Ins::Zero);  // the synthesized zero left operand
    let st4 = emit(st3, Ins::PushEax);
    let st5 = advance(st4);  // after `+`, at end of input
    assert(m_factor(s, st5) == Err::<St, SyntaxError>(e));
    assert(m_term(s, st5) == Err::<St, SyntaxError>(e));
    assert(m_add(s, st4) == Err::<St, SyntaxError>(e));
    assert(m_expr_tail(s, st3) == Err::<St, SyntaxError>(e));
    assert(m_expression(s, st2) == Err::<St, SyntaxError>(e));
}

/// An unclosed parenthesis fails with a syntax error naming the missing
/// closing parenthesis: `v=(1` ends before `)` arrives.
pub proof fn law_error_unclosed_paren(v: char)
    requires
        alphabetic(v),
    ensures
        translation(seq![v, '=', '(', '1']) == Err::<St, SyntaxError>(
            SyntaxError { expected: Expected::Ch(')'), found: None },
        ),
{
    let s = seq![v, '=', '(', '1'];
    assert(s[0] == v && s[1] == '=' && s[2] == '(' && s[3] == '1');
    let e = SyntaxError { expected: Expected::Ch(')'), found: None };
    let st0 = init_st();
    let st1 = St { vars: insert_new(Seq::empty(), v), ..advance(st0) };
    let st2 = advance(st1);  // after `=`
    let st3 = advance(st2);  // after `(`
    let st4 = emit(advance(st3), Ins::LoadImm('1'));
    assert(m_factor(s, st3) == Ok::<St, SyntaxError>(st4));
    assert(m_term_tail(s, st4) == Ok::<St, SyntaxError>(st4));
    assert(m_term(s, st3) == Ok::<St, SyntaxError>(st4));
    assert(m_expr_tail(s, st4) == Ok::<St, SyntaxError>(st4));
    assert(m_expression(s, st3) == Ok::<St, SyntaxError>(st4));
    assert(m_match(s, st4, ')') == Err::<St, SyntaxError>(e));
    assert(m_factor(s, st2) == Err::<St, SyntaxError>(e));
    assert(m_term(s, st2) == Err::<St, SyntaxError>(e));
    assert(m_expression(s, st2) == Err::<St, SyntaxError>(e));
}

/// Translating `v=f()` emits a call instruction referencing `f`, registers
/// exactly one function-table entry for `f`, and declares only `v`.
pub proof fn law_function_call(v: char, f: char)
    requires
        alphabetic(v),
        name_start(f),
    ensures
        ({
            let r = translation(seq![v, '=', f, '(', ')', '\n']);
            &&& r is Ok
            &&& r->Ok_0.out =~= seq![Ins::Call(f), Ins::StoreVar(v)]
            &&& r->Ok_0.fns =~= seq![f]
            &&& r->Ok_0.vars =~= seq![v]
        }),
{
    let s = seq![v, '=', f, '(', ')', '\n'];
    reveal_with_fuel(m_expression, 2);
    reveal_with_fuel(m_expr_tail, 2);
    reveal_with_fuel(m_term, 2);
    reveal_with_fuel(m_term_tail, 2);
    reveal_with_fuel(m_factor, 2);
    assert(s[0] == v && s[1] == '=' && s[2] == f && s[3] == '(' && s[4] == ')' && s[5] == '\n');
    assert(insert_new(Seq::empty(), v) =~= seq![v]);
    assert(insert_new(Seq::empty(), f) =~= seq![f]);
}

} // verus!

