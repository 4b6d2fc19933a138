//! A functional model of the grammar walk: one specification function per
//! production, each mapping the translation state before the production to
//! the state after it, or to the first syntax error.
//!
//! The executable walker in [`crate::cabl`] is proved to return exactly what
//! these functions compute.

use vstd::prelude::*;

use crate::ins::Expected;
use crate::ins::Ins;
use crate::ins::SyntaxError;
use crate::ins::addop;
use crate::ins::alpha;
use crate::ins::lparen;
use crate::ins::mulop;
use crate::ins::newline;
use crate::ins::numeric;

verus! {

/// The abstract state of one translation: the position of the lookahead
/// character, the instruction lines emitted so far, the distinct variable
/// names declared so far, and the distinct function names called so far
/// (each bound to the fixed placeholder body), both in insertion order.
pub struct St {
    pub pos: int,
    pub out: Seq<Ins>,
    pub vars: Seq<char>,
    pub fns: Seq<char>,
}

/// The lookahead character at position `pos` of the input, `None` at or
/// beyond the end.
pub open spec fn look_at(s: Seq<char>, pos: int) -> Option<char> {
    if 0 <= pos && pos < s.len() {
        Some(s[pos])
    } else {
        None
    }
}

/// `longer` keeps every element of `shorter`, in place: what the walk has
/// already emitted or declared is never removed or reordered, only appended
/// to — on the error path as much as on success.
pub open spec fn extends<T>(longer: Seq<T>, shorter: Seq<T>) -> bool {
    &&& shorter.len() <= longer.len()
    &&& forall|i: int| 0 <= i < shorter.len() ==> longer[i] == shorter[i]
}

/// Appends `c` unless it is already present: the idempotent declaration
/// collection of the symbol collector.
pub open spec fn insert_new(xs: Seq<char>, c: char) -> Seq<char> {
    if xs.contains(c) {
        xs
    } else {
        xs.push(c)
    }
}

/// An unchanged sequence extends itself.
pub broadcast proof fn lemma_extends_refl<T>(s: Seq<T>)
    ensures
        #[trigger] extends(s, s),
{
}

/// Appending one element extends the sequence.
pub broadcast proof fn lemma_extends_push<T>(s: Seq<T>, x: T)
    ensures
        #[trigger] extends(s.push(x), s),
{
}

/// The idempotent insert only ever appends.
pub broadcast proof fn lemma_extends_insert_new(xs: Seq<char>, c: char)
    ensures
        #[trigger] extends(insert_new(xs, c), xs),
{
}

/// Extension is transitive, so it carries through any chain of appends.
pub broadcast proof fn lemma_extends_trans<T>(a: Seq<T>, b: Seq<T>, c: Seq<T>)
    requires
        extends(a, b),
        extends(b, c),
    ensures
        #![trigger extends(a, b), extends(b, c)]
        extends(a, c),
{
}

/// The idempotent insert keeps a name at most once in the collection.
pub broadcast proof fn lemma_insert_new_no_duplicates(xs: Seq<char>, c: char)
    requires
        xs.no_duplicates(),
    ensures
        #[trigger] insert_new(xs, c).no_duplicates(),
{
    if !xs.contains(c) {
        assert forall|i: int, j: int|
            0 <= i < xs.push(c).len() && 0 <= j < xs.push(c).len() && i != j implies xs.push(c)[i]
            != xs.push(c)[j] by {
            if i < xs.len() && j < xs.len() {
            } else if i == xs.len() {
                assert(xs.push(c)[j] == xs[j]);
            } else {
                assert(xs.push(c)[i] == xs[i]);
            }
        }
    }
}

/// The lemmas that let the walker's append-only contracts chain without
/// restating index arithmetic at every call.
pub broadcast group group_extends {
    lemma_extends_refl,
    lemma_extends_push,
    lemma_extends_insert_new,
    lemma_extends_trans,
    lemma_insert_new_no_duplicates,
}

/// Consumes the lookahead character.
pub open spec fn advance(st: St) -> St {
    St { pos: st.pos + 1, ..st }
}

/// Appends one instruction line to the output.
pub open spec fn emit(st: St, i: Ins) -> St {
    St { out: st.out.push(i), ..st }
}

/// Reads one alphabetic name character, or fails naming what was found.
pub open spec fn m_get_name(s: Seq<char>, st: St) -> Result<(char, St), SyntaxError> {
    let l = look_at(s, st.pos);
    if alpha(l) {
        Ok((l->0, advance(st)))
    } else {
        Err(SyntaxError { expected: Expected::Name, found: l })
    }
}

/// Reads one decimal digit, or fails naming what was found.
pub open spec fn m_get_number(s: Seq<char>, st: St) -> Result<(char, St), SyntaxError> {
    let l = look_at(s, st.pos);
    if numeric(l) {
        Ok((l->0, advance(st)))
    } else {
        Err(SyntaxError { expected: Expected::Digit, found: l })
    }
}

/// Consumes the expected character `c`, or fails naming what was found.
pub open spec fn m_match(s: Seq<char>, st: St, c: char) -> Result<St, SyntaxError> {
    let l = look_at(s, st.pos);
    if l == Some(c) {
        Ok(advance(st))
    } else {
        Err(SyntaxError { expected: Expected::Ch(c), found: l })
    }
}

/// `<ident> ::= <variable> | <funcall>`: reads a name; `()` after it makes
/// a call (registering the function), anything else a variable load
/// (registering the declaration).
pub open spec fn m_ident(s: Seq<char>, st: St) -> Result<St, SyntaxError> {
    match m_get_name(s, st) {
        Ok((v, st1)) => {
            if lparen(look_at(s, st1.pos)) {
                match m_match(s, st1, '(') {
                    Ok(st2) => match m_match(s, st2, ')') {
                        Ok(st3) => Ok(
                            St {
                                out: st3.out.push(Ins::Call(v)),
                                fns: insert_new(st3.fns, v),
                                ..st3
                            },
                        ),
                        Err(e) => Err(e),
                    },
                    Err(e) => Err(e),
                }
            } else {
                Ok(
                    St {
                        out: st1.out.push(Ins::LoadVar(v)),
                        vars: insert_new(st1.vars, v),
                        ..st1
                    },
                )
            }
        },
        Err(e) => Err(e),
    }
}

/// `<factor> ::= <number> | '(' <expression> ')' | <ident>`. Any other
/// lookahead is a syntax error: a factor was expected.
pub open spec fn m_factor(s: Seq<char>, st: St) -> Result<St, SyntaxError>
    decreases s.len() - st.pos, 1int,
        when 0 <= st.pos <= s.len()
{
    let l = look_at(s, st.pos);
    if lparen(l) {
        match m_match(s, st, '(') {
            Ok(st1) => match m_expression(s, st1) {
                Ok(st2) => m_match(s, st2, ')'),
                Err(e) => Err(e),
            },
            Err(e) => Err(e),
        }
    } else if numeric(l) {
        match m_get_number(s, st) {
            Ok((d, st1)) => Ok(emit(st1, Ins::LoadImm(d))),
            Err(e) => Err(e),
        }
    } else if alpha(l) {
        m_ident(s, st)
    } else {
        Err(SyntaxError { expected: Expected::Factor, found: l })
    }
}

/// One multiplicative step: consumes `*`, parses the right factor, and
/// combines the popped left operand with it.
pub open spec fn m_mul(s: Seq<char>, st: St) -> Result<St, SyntaxError>
    decreases s.len() - st.pos, 2int,
        when 0 <= st.pos <= s.len()
{
    match m_match(s, st, '*') {
        Ok(st1) => match m_factor(s, st1) {
            Ok(st2) => Ok(emit(emit(st2, Ins::PopEbx), Ins::MulEbx)),
            Err(e) => Err(e),
        },
        Err(e) => Err(e),
    }
}

/// One division step: consumes `/`, parses the right factor, moves it to
/// the secondary register, pops the left operand, and divides.
pub open spec fn m_div(s: Seq<char>, st: St) -> Result<St, SyntaxError>
    decreases s.len() - st.pos, 2int,
        when 0 <= st.pos <= s.len()
{
    match m_match(s, st, '/') {
        Ok(st1) => match m_factor(s, st1) {
            Ok(st2) => Ok(emit(emit(emit(st2, Ins::MovEbxEax), Ins::PopEax), Ins::DivEbx)),
            Err(e) => Err(e),
        },
        Err(e) => Err(e),
    }
}

/// The multiplicative loop of `<term>`: while the lookahead is `*` or `/`,
/// push the primary register and apply one multiplicative step.
///
/// A successful step always consumes at least one character; the guard on
/// the recursive call only records that, keeping the recursion well-founded.
pub open spec fn m_term_tail(s: Seq<char>, st: St) -> Result<St, SyntaxError>
    decreases s.len() - st.pos, 3int,
        when 0 <= st.pos <= s.len()
{
    let l = look_at(s, st.pos);
    if mulop(l) {
        let st1 = emit(st, Ins::PushEax);
        let r = if l == Some('*') {
            m_mul(s, st1)
        } else {
            m_div(s, st1)
        };
        match r {
            Ok(st2) => if st.pos < st2.pos <= s.len() {
                m_term_tail(s, st2)
            } else {
                Ok(st2)
            },
            Err(e) => Err(e),
        }
    } else {
        Ok(st)
    }
}

/// `<term> ::= <factor> [<mulop> <factor>]*`. The guard before the tail
/// call records that a successful factor consumed input, as in
/// [`m_term_tail`].
pub open spec fn m_term(s: Seq<char>, st: St) -> Result<St, SyntaxError>
    decreases s.len() - st.pos, 4int,
        when 0 <= st.pos <= s.len()
{
    match m_factor(s, st) {
        Ok(st1) => if st.pos < st1.pos <= s.len() {
            m_term_tail(s, st1)
        } else {
            Ok(st1)
        },
        Err(e) => Err(e),
    }
}

/// One additive step: consumes `+`, parses the right term, pops the left
/// operand, and adds.
pub open spec fn m_add(s: Seq<char>, st: St) -> Result<St, SyntaxError>
    decreases s.len() - st.pos, 5int,
        when 0 <= st.pos <= s.len()
{
    match m_match(s, st, '+') {
        Ok(st1) => match m_term(s, st1) {
            Ok(st2) => Ok(emit(emit(st2, Ins::PopEbx), Ins::AddEbx)),
            Err(e) => Err(e),
        },
        Err(e) => Err(e),
    }
}

/// One subtractive step: consumes `-`, parses the right term, pops the left
/// operand, subtracts, and negates: the stack discipline reverses the
/// operand order, so `sub` computes right − left and the negation restores
/// left − right.
pub open spec fn m_sub(s: Seq<char>, st: St) -> Result<St, SyntaxError>
    decreases s.len() - st.pos, 5int,
        when 0 <= st.pos <= s.len()
{
    match m_match(s, st, '-') {
        Ok(st1) => match m_term(s, st1) {
            Ok(st2) => Ok(emit(emit(emit(st2, Ins::PopEbx), Ins::SubEbx), Ins::NegEax)),
            Err(e) => Err(e),
        },
        Err(e) => Err(e),
    }
}

/// The additive loop of `<expression>`: while the lookahead is `+` or `-`,
/// push the primary register and apply one additive step.
///
/// As in [`m_term_tail`], a successful step always consumes at least one
/// character; the guard on the recursive call only records that.
pub open spec fn m_expr_tail(s: Seq<char>, st: St) -> Result<St, SyntaxError>
    decreases s.len() - st.pos, 6int,
        when 0 <= st.pos <= s.len()
{
    let l = look_at(s, st.pos);
    if addop(l) {
        let st1 = emit(st, Ins::PushEax);
        let r = if l == Some('+') {
            m_add(s, st1)
        } else {
            m_sub(s, st1)
        };
        match r {
            Ok(st2) => if st.pos < st2.pos <= s.len() {
                m_expr_tail(s, st2)
            } else {
                Ok(st2)
            },
            Err(e) => Err(e),
        }
    } else {
        Ok(st)
    }
}

/// `<expression> ::= [<addop>] <term> [<addop> <term>]*`: a leading `+` or
/// `-` is unary, handled by zeroing the primary register so that the first
/// additive step sees a synthesized zero left operand.
pub open spec fn m_expression(s: Seq<char>, st: St) -> Result<St, SyntaxError>
    decreases s.len() - st.pos, 7int,
        when 0 <= st.pos <= s.len()
{
    if addop(look_at(s, st.pos)) {
        m_expr_tail(s, emit(st, Ins::Zero))
    } else {
        match m_term(s, st) {
            Ok(st1) => if st.pos < st1.pos <= s.len() {
                m_expr_tail(s, st1)
            } else {
                Ok(st1)
            },
            Err(e) => Err(e),
        }
    }
}

/// `<assignment> ::= <ident> '=' <expression>`: reads the target name,
/// declares it, matches `=`, parses the expression, and stores the primary
/// register into the target.
pub open spec fn m_assignment(s: Seq<char>, st: St) -> Result<St, SyntaxError> {
    match m_get_name(s, st) {
        Ok((v, st1)) => {
            let st2 = St { vars: insert_new(st1.vars, v), ..st1 };
            match m_match(s, st2, '=') {
                Ok(st3) => match m_expression(s, st3) {
                    Ok(st4) => Ok(emit(st4, Ins::StoreVar(v))),
                    Err(e) => Err(e),
                },
                Err(e) => Err(e),
            }
        },
        Err(e) => Err(e),
    }
}

/// One whole translation starting at state `st`: the assignment statement
/// followed by the mandatory newline.
pub open spec fn m_translate(s: Seq<char>, st: St) -> Result<St, SyntaxError> {
    match m_assignment(s, st) {
        Ok(st1) => {
            let l = look_at(s, st1.pos);
            if newline(l) {
                Ok(st1)
            } else {
                Err(SyntaxError { expected: Expected::Newline, found: l })
            }
        },
        Err(e) => Err(e),
    }
}

/// The state a fresh translation starts from.
pub open spec fn init_st() -> St {
    St { pos: 0, out: Seq::empty(), vars: Seq::empty(), fns: Seq::empty() }
}

/// What translating the input `s` yields: the emitted instruction lines,
/// declared variables and called functions on success, or the first syntax
/// error.
pub open spec fn translation(s: Seq<char>) -> Result<St, SyntaxError> {
    m_translate(s, init_st())
}

} // verus!
