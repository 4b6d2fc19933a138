//! The executable translator: a predictive, one-character-lookahead
//! recursive-descent walker whose productions are proved to return exactly
//! what the functional model in [`crate::model`] computes.

use vstd::prelude::*;

use crate::ins::Expected;
use crate::ins::Ins;
use crate::ins::SyntaxError;
use crate::ins::addop;
use crate::ins::is_addop;
use crate::ins::is_alphabetic;
use crate::ins::is_lparen;
use crate::ins::is_mulop;
use crate::ins::is_numeric;
use crate::ins::mulop;
use crate::model::St;
use crate::model::extends;
use crate::model::lemma_extends_insert_new;
use crate::model::lemma_extends_push;
use crate::model::lemma_extends_refl;
use crate::model::lemma_extends_trans;
use crate::model::init_st;
use crate::model::insert_new;
use crate::model::look_at;
use crate::model::m_add;
use crate::model::m_assignment;
use crate::model::m_div;
use crate::model::m_expr_tail;
use crate::model::m_expression;
use crate::model::m_factor;
use crate::model::m_get_name;
use crate::model::m_get_number;
use crate::model::m_ident;
use crate::model::m_match;
use crate::model::m_mul;
use crate::model::m_sub;
use crate::model::m_term;
use crate::model::m_term_tail;
use crate::model::m_translate;
use crate::ins::is_newline;
use crate::render::closing_text;
use crate::render::decls_text;
use crate::render::epilogue_text;
use crate::render::fn_blocks_text;
use crate::render::prelude_text;
use crate::render::program_text;
use crate::render::render_body;
use vstd::string::StringExecFns;

verus! {

broadcast use crate::model::group_extends;

/// One translation unit: the input characters with the lookahead position,
/// the instruction lines emitted so far, and the two symbol collections.
pub struct Cabl {
    /// The input characters.
    pub chars: Vec<char>,
    /// The index of the current lookahead character; `chars.len()` at end
    /// of input.
    pub pos: usize,
    /// The instruction lines of the program body, in emission order.
    pub out: Vec<Ins>,
    /// The distinct variable names declared so far, in insertion order.
    pub vardefs: Vec<char>,
    /// The distinct called function names so far, in insertion order; each
    /// is bound to the fixed placeholder return-only body.
    pub fns: Vec<char>,
}

impl Cabl {
    /// The abstract translation state this value stands for.
    pub open spec fn st(&self) -> St {
        St { pos: self.pos as int, out: self.out@, vars: self.vardefs@, fns: self.fns@ }
    }

    /// The data model's invariant: the lookahead position never passes the
    /// end of the input, and each symbol collection holds a name at most
    /// once — one declaration per variable, one table entry per function.
    pub open spec fn wf(&self) -> bool {
        &&& self.pos <= self.chars@.len()
        &&& self.vardefs@.no_duplicates()
        &&& self.fns@.no_duplicates()
    }

    /// Starts a translation of `stream` with the lookahead on its first
    /// character and all accumulators empty.
    pub fn new(stream: Vec<char>) -> (cabl: Cabl)
        ensures
            cabl.wf(),
            cabl.chars@ == stream@,
            cabl.st() == init_st(),
    {
        Cabl { chars: stream, pos: 0, out: Vec::new(), vardefs: Vec::new(), fns: Vec::new() }
    }

    /// The current lookahead character, `None` at end of input.
    pub fn look(&self) -> (r: Option<char>)
        requires
            self.wf(),
        ensures
            r == look_at(self.chars@, self.pos as int),
    {
        if self.pos < self.chars.len() {
            Some(self.chars[self.pos])
        } else {
            None
        }
    }

    /// Discards the current lookahead character and returns the next one;
    /// at end of input the lookahead stays `None`.
    pub fn read_next_char(&mut self) -> (r: Option<char>)
        requires
            old(self).wf(),
        ensures
            final(self).wf(),
            final(self).chars@ == old(self).chars@,
            final(self).out@ == old(self).out@,
            final(self).vardefs@ == old(self).vardefs@,
            final(self).fns@ == old(self).fns@,
            final(self).pos == if old(self).pos < final(self).chars@.len() {
                old(self).pos + 1
            } else {
                old(self).pos as int
            },
            r == look_at(final(self).chars@, final(self).pos as int),
    {
        if self.pos < self.chars.len() {
            self.pos = self.pos + 1;
        }
        self.look()
    }

    /// Builds the syntax error for a failed expectation: what was wanted,
    /// and the lookahead character that was found instead.
    pub fn expected<X>(&self, what: Expected) -> (r: Result<X, SyntaxError>)
        requires
            self.wf(),
        ensures
            r == Err::<X, SyntaxError>(
                SyntaxError { expected: what, found: look_at(self.chars@, self.pos as int) },
            ),
    {
        Err(SyntaxError { expected: what, found: self.look() })
    }

    /// Reads one alphabetic name character and advances past it.
    pub fn get_name(&mut self) -> (r: Result<char, SyntaxError>)
        requires
            old(self).wf(),
        ensures
            final(self).wf(),
            final(self).chars@ == old(self).chars@,
            final(self).out@ == old(self).out@,
            final(self).vardefs@ == old(self).vardefs@,
            final(self).pos == if old(self).pos < final(self).chars@.len() {
                old(self).pos + 1
            } else {
                old(self).pos as int
            },
            final(self).fns@ == old(self).fns@,
            match r {
                Ok(c) => m_get_name(final(self).chars@, old(self).st()) == Ok::<(char, St), SyntaxError>(
                    (c, final(self).st()),
                ),
                Err(e) => m_get_name(final(self).chars@, old(self).st()) == Err::<(char, St), SyntaxError>(
                    e,
                ),
            },
    {
        let l = self.look();
        let ret = if is_alphabetic(l) {
            Ok(l.unwrap())
        } else {
            self.expected(Expected::Name)
        };
        self.read_next_char();
        ret
    }

    /// Reads one decimal digit and advances past it.
    pub fn get_number(&mut self) -> (r: Result<char, SyntaxError>)
        requires
            old(self).wf(),
        ensures
            final(self).wf(),
            final(self).chars@ == old(self).chars@,
            final(self).out@ == old(self).out@,
            final(self).vardefs@ == old(self).vardefs@,
            final(self).pos == if old(self).pos < final(self).chars@.len() {
                old(self).pos + 1
            } else {
                old(self).pos as int
            },
            final(self).fns@ == old(self).fns@,
            match r {
                Ok(c) => m_get_number(final(self).chars@, old(self).st())
                    == Ok::<(char, St), SyntaxError>((c, final(self).st())),
                Err(e) => m_get_number(final(self).chars@, old(self).st()) == Err::<
                    (char, St),
                    SyntaxError,
                >(e),
            },
    {
        let l = self.look();
        let ret = if is_numeric(l) {
            Ok(l.unwrap())
        } else {
            self.expected(Expected::Digit)
        };
        self.read_next_char();
        ret
    }

    /// Consumes the lookahead if it equals `c`, and fails otherwise.
    #[allow(non_snake_case)]
    pub fn Match(&mut self, c: char) -> (r: Result<(), SyntaxError>)
        requires
            old(self).wf(),
        ensures
            final(self).wf(),
            final(self).chars@ == old(self).chars@,
            final(self).out@ == old(self).out@,
            final(self).vardefs@ == old(self).vardefs@,
            final(self).fns@ == old(self).fns@,
            match r {
                Ok(()) => m_match(final(self).chars@, old(self).st(), c) == Ok::<St, SyntaxError>(
                    final(self).st(),
                ),
                Err(e) => m_match(final(self).chars@, old(self).st(), c) == Err::<St, SyntaxError>(e)
                    && final(self).pos == old(self).pos,
            },
    {
        let l = self.look();
        if l == Some(c) {
            self.read_next_char();
            Ok(())
        } else {
            self.expected(Expected::Ch(c))
        }
    }

    /// Appends one instruction line to the program body.
    pub fn emitln(&mut self, i: Ins)
        ensures
            final(self).chars@ == old(self).chars@,
            final(self).pos == old(self).pos,
            final(self).out@ == old(self).out@.push(i),
            final(self).vardefs@ == old(self).vardefs@,
            final(self).fns@ == old(self).fns@,
    {
        self.out.push(i);
    }

    /// Idempotently adds one zero-initialized declaration for `v`.
    pub fn declare_variable(&mut self, v: char)
        requires
            old(self).wf(),
        ensures
            final(self).wf(),
            final(self).chars@ == old(self).chars@,
            final(self).pos == old(self).pos,
            final(self).out@ == old(self).out@,
            final(self).vardefs@ == insert_new(old(self).vardefs@, v),
            final(self).fns@ == old(self).fns@,
    {
        if !contains_char(&self.vardefs, v) {
            self.vardefs.push(v);
        }
    }

    /// `<ident> ::= <variable> | <funcall>`: reads a name; `()` after it
    /// makes a call and registers the callee, anything else a variable load
    /// and a declaration.
    pub fn ident(&mut self) -> (r: Result<(), SyntaxError>)
        requires
            old(self).wf(),
        ensures
            final(self).wf(),
            final(self).chars@ == old(self).chars@,
            extends(final(self).out@, old(self).out@),
            extends(final(self).vardefs@, old(self).vardefs@),
            extends(final(self).fns@, old(self).fns@),
            match r {
                Ok(()) => m_ident(final(self).chars@, old(self).st()) == Ok::<St, SyntaxError>(
                    final(self).st(),
                ) && old(self).pos < final(self).pos,
                Err(e) => m_ident(final(self).chars@, old(self).st()) == Err::<St, SyntaxError>(e),
            },
    {
        let v = match self.get_name() {
            Ok(v) => v,
            Err(e) => return Err(e),
        };
        let l = self.look();
        if is_lparen(l) {
            match self.Match('(') {
                Ok(()) => (),
                Err(e) => return Err(e),
            };
            match self.Match(')') {
                Ok(()) => (),
                Err(e) => return Err(e),
            };
            self.emitln(Ins::Call(v));
            self.declare_function(v);
            proof {
                lemma_extends_push(old(self).out@, Ins::Call(v));
                lemma_extends_insert_new(old(self).fns@, v);
                lemma_extends_refl(old(self).vardefs@);
            }
            Ok(())
        } else {
            self.emitln(Ins::LoadVar(v));
            self.declare_variable(v);
            proof {
                lemma_extends_push(old(self).out@, Ins::LoadVar(v));
                lemma_extends_insert_new(old(self).vardefs@, v);
                lemma_extends_refl(old(self).fns@);
            }
            Ok(())
        }
    }

    /// `<factor> ::= <number> | '(' <expression> ')' | <ident>`; any other
    /// lookahead is a syntax error naming the missing factor.
    pub fn factor(&mut self) -> (r: Result<(), SyntaxError>)
        requires
            old(self).wf(),
        ensures
            final(self).wf(),
            final(self).chars@ == old(self).chars@,
            extends(final(self).out@, old(self).out@),
            extends(final(self).vardefs@, old(self).vardefs@),
            extends(final(self).fns@, old(self).fns@),
            match r {
                Ok(()) => m_factor(final(self).chars@, old(self).st()) == Ok::<St, SyntaxError>(
                    final(self).st(),
                ) && old(self).pos < final(self).pos,
                Err(e) => m_factor(final(self).chars@, old(self).st()) == Err::<St, SyntaxError>(e),
            },
        decreases old(self).chars@.len() - old(self).pos, 1int,
    {
        let l = self.look();
        if is_lparen(l) {
            match self.Match('(') {
                Ok(()) => (),
                Err(e) => return Err(e),
            };
            match self.expression() {
                Ok(()) => (),
                Err(e) => return Err(e),
            };
            match self.Match(')') {
                Ok(()) => (),
                Err(e) => return Err(e),
            };
            Ok(())
        } else if is_numeric(l) {
            let n = match self.get_number() {
                Ok(n) => n,
                Err(e) => return Err(e),
            };
            self.emitln(Ins::LoadImm(n));
            Ok(())
        } else if is_alphabetic(l) {
            self.ident()
        } else {
            self.expected(Expected::Factor)
        }
    }

    /// One multiplicative step: consumes `*`, parses the right factor, pops
    /// the left operand, and multiplies.
    pub fn mul(&mut self) -> (r: Result<(), SyntaxError>)
        requires
            old(self).wf(),
        ensures
            final(self).wf(),
            final(self).chars@ == old(self).chars@,
            extends(final(self).out@, old(self).out@),
            extends(final(self).vardefs@, old(self).vardefs@),
            extends(final(self).fns@, old(self).fns@),
            match r {
                Ok(()) => m_mul(final(self).chars@, old(self).st()) == Ok::<St, SyntaxError>(
                    final(self).st(),
                ) && old(self).pos < final(self).pos,
                Err(e) => m_mul(final(self).chars@, old(self).st()) == Err::<St, SyntaxError>(e),
            },
        decreases old(self).chars@.len() - old(self).pos, 2int,
    {
        match self.Match('*') {
            Ok(()) => (),
            Err(e) => return Err(e),
        };
        match self.factor() {
            Ok(()) => (),
            Err(e) => return Err(e),
        };
        self.emitln(Ins::PopEbx);
        self.emitln(Ins::MulEbx);
        Ok(())
    }

    /// One division step: consumes `/`, parses the right factor, moves it
    /// aside, pops the left operand, and divides.
    pub fn div(&mut self) -> (r: Result<(), SyntaxError>)
        requires
            old(self).wf(),
        ensures
            final(self).wf(),
            final(self).chars@ == old(self).chars@,
            extends(final(self).out@, old(self).out@),
            extends(final(self).vardefs@, old(self).vardefs@),
            extends(final(self).fns@, old(self).fns@),
            match r {
                Ok(()) => m_div(final(self).chars@, old(self).st()) == Ok::<St, SyntaxError>(
                    final(self).st(),
                ) && old(self).pos < final(self).pos,
                Err(e) => m_div(final(self).chars@, old(self).st()) == Err::<St, SyntaxError>(e),
            },
        decreases old(self).chars@.len() - old(self).pos, 2int,
    {
        match self.Match('/') {
            Ok(()) => (),
            Err(e) => return Err(e),
        };
        match self.factor() {
            Ok(()) => (),
            Err(e) => return Err(e),
        };
        self.emitln(Ins::MovEbxEax);
        self.emitln(Ins::PopEax);
        self.emitln(Ins::DivEbx);
        Ok(())
    }

    /// `<term> ::= <factor> [<mulop> <factor>]*`: one factor, then while
    /// the lookahead is `*` or `/`, push the primary register and apply one
    /// multiplicative step.
    pub fn term(&mut self) -> (r: Result<(), SyntaxError>)
        requires
            old(self).wf(),
        ensures
            final(self).wf(),
            final(self).chars@ == old(self).chars@,
            extends(final(self).out@, old(self).out@),
            extends(final(self).vardefs@, old(self).vardefs@),
            extends(final(self).fns@, old(self).fns@),
            match r {
                Ok(()) => m_term(final(self).chars@, old(self).st()) == Ok::<St, SyntaxError>(
                    final(self).st(),
                ) && old(self).pos < final(self).pos,
                Err(e) => m_term(final(self).chars@, old(self).st()) == Err::<St, SyntaxError>(e),
            },
        decreases old(self).chars@.len() - old(self).pos, 4int,
    {
        match self.factor() {
            Ok(()) => (),
            Err(e) => return Err(e),
        };
        let mut go: bool = is_mulop(self.look());
        while go
            invariant
                self.wf(),
                self.chars@ == old(self).chars@,
                old(self).pos < self.pos,
                go == mulop(look_at(self.chars@, self.pos as int)),
                m_term_tail(self.chars@, self.st()) == m_term(self.chars@, old(self).st()),
                extends(self.out@, old(self).out@),
                extends(self.vardefs@, old(self).vardefs@),
                extends(self.fns@, old(self).fns@),
            decreases self.chars@.len() - self.pos,
        {
            self.emitln(Ins::PushEax);
            let l = self.look();
            match l {
                Some('*') => {
                    match self.mul() {
                        Ok(()) => (),
                        Err(e) => return Err(e),
                    };
                },
                Some('/') => {
                    match self.div() {
                        Ok(()) => (),
                        Err(e) => return Err(e),
                    };
                },
                _ => {
                    return self.expected(Expected::Mulop);
                },
            }
            go = is_mulop(self.look());
        }
        Ok(())
    }

    /// One additive step: consumes `+`, parses the right term, pops the
    /// left operand, and adds.
    pub fn add(&mut self) -> (r: Result<(), SyntaxError>)
        requires
            old(self).wf(),
        ensures
            final(self).wf(),
            final(self).chars@ == old(self).chars@,
            extends(final(self).out@, old(self).out@),
            extends(final(self).vardefs@, old(self).vardefs@),
            extends(final(self).fns@, old(self).fns@),
            match r {
                Ok(()) => m_add(final(self).chars@, old(self).st()) == Ok::<St, SyntaxError>(
                    final(self).st(),
                ) && old(self).pos < final(self).pos,
                Err(e) => m_add(final(self).chars@, old(self).st()) == Err::<St, SyntaxError>(e),
            },
        decreases old(self).chars@.len() - old(self).pos, 5int,
    {
        match self.Match('+') {
            Ok(()) => (),
            Err(e) => return Err(e),
        };
        match self.term() {
            Ok(()) => (),
            Err(e) => return Err(e),
        };
        self.emitln(Ins::PopEbx);
        self.emitln(Ins::AddEbx);
        Ok(())
    }

    /// One subtractive step: consumes `-`, parses the right term, pops the
    /// left operand, subtracts, and negates to undo the operand reversal of
    /// the stack discipline.
    pub fn sub(&mut self) -> (r: Result<(), SyntaxError>)
        requires
            old(self).wf(),
        ensures
            final(self).wf(),
            final(self).chars@ == old(self).chars@,
            extends(final(self).out@, old(self).out@),
            extends(final(self).vardefs@, old(self).vardefs@),
            extends(final(self).fns@, old(self).fns@),
            match r {
                Ok(()) => m_sub(final(self).chars@, old(self).st()) == Ok::<St, SyntaxError>(
                    final(self).st(),
                ) && old(self).pos < final(self).pos,
                Err(e) => m_sub(final(self).chars@, old(self).st()) == Err::<St, SyntaxError>(e),
            },
        decreases old(self).chars@.len() - old(self).pos, 5int,
    {
        match self.Match('-') {
            Ok(()) => (),
            Err(e) => return Err(e),
        };
        match self.term() {
            Ok(()) => (),
            Err(e) => return Err(e),
        };
        self.emitln(Ins::PopEbx);
        self.emitln(Ins::SubEbx);
        self.emitln(Ins::NegEax);
        Ok(())
    }

    /// `<expression> ::= [<addop>] <term> [<addop> <term>]*`: a leading `+`
    /// or `-` zeroes the primary register so that the first additive step
    /// sees a synthesized zero left operand; then while the lookahead is an
    /// additive operator, push and apply one additive step.
    pub fn expression(&mut self) -> (r: Result<(), SyntaxError>)
        requires
            old(self).wf(),
        ensures
            final(self).wf(),
            final(self).chars@ == old(self).chars@,
            extends(final(self).out@, old(self).out@),
            extends(final(self).vardefs@, old(self).vardefs@),
            extends(final(self).fns@, old(self).fns@),
            match r {
                Ok(()) => m_expression(final(self).chars@, old(self).st()) == Ok::<
                    St,
                    SyntaxError,
                >(final(self).st()) && old(self).pos < final(self).pos,
                Err(e) => m_expression(final(self).chars@, old(self).st()) == Err::<
                    St,
                    SyntaxError,
                >(e),
            },
        decreases old(self).chars@.len() - old(self).pos, 7int,
    {
        let l0 = self.look();
        if is_addop(l0) {
            self.emitln(Ins::Zero);
        } else {
            match self.term() {
                Ok(()) => (),
                Err(e) => return Err(e),
            };
        }
        let mut go: bool = is_addop(self.look());
        while go
            invariant
                self.wf(),
                self.chars@ == old(self).chars@,
                old(self).pos <= self.pos,
                go == addop(look_at(self.chars@, self.pos as int)),
                m_expr_tail(self.chars@, self.st()) == m_expression(self.chars@, old(self).st()),
                extends(self.out@, old(self).out@),
                extends(self.vardefs@, old(self).vardefs@),
                extends(self.fns@, old(self).fns@),
                go || old(self).pos < self.pos,
            decreases self.chars@.len() - self.pos,
        {
            self.emitln(Ins::PushEax);
            let l = self.look();
            match l {
                Some('+') => {
                    match self.add() {
                        Ok(()) => (),
                        Err(e) => return Err(e),
                    };
                },
                Some('-') => {
                    match self.sub() {
                        Ok(()) => (),
                        Err(e) => return Err(e),
                    };
                },
                _ => {
                    return self.expected(Expected::Addop);
                },
            }
            go = is_addop(self.look());
        }
        Ok(())
    }

    /// `<assignment> ::= <ident> '=' <expression>`: reads the target name,
    /// declares it, matches `=`, parses the expression, and stores the
    /// primary register into the target.
    pub fn assignment(&mut self) -> (r: Result<(), SyntaxError>)
        requires
            old(self).wf(),
        ensures
            final(self).wf(),
            final(self).chars@ == old(self).chars@,
            extends(final(self).out@, old(self).out@),
            extends(final(self).vardefs@, old(self).vardefs@),
            extends(final(self).fns@, old(self).fns@),
            match r {
                Ok(()) => m_assignment(final(self).chars@, old(self).st()) == Ok::<
                    St,
                    SyntaxError,
                >(final(self).st()),
                Err(e) => m_assignment(final(self).chars@, old(self).st()) == Err::<
                    St,
                    SyntaxError,
                >(e),
            },
    {
        let v = match self.get_name() {
            Ok(v) => v,
            Err(e) => return Err(e),
        };
        self.declare_variable(v);
        match self.Match('=') {
            Ok(()) => (),
            Err(e) => return Err(e),
        };
        match self.expression() {
            Ok(()) => (),
            Err(e) => return Err(e),
        };
        let ghost mid_out = self.out@;
        self.emitln(Ins::StoreVar(v));
        proof {
            lemma_extends_push(mid_out, Ins::StoreVar(v));
            lemma_extends_trans(self.out@, mid_out, old(self).out@);
            lemma_extends_insert_new(old(self).vardefs@, v);
            lemma_extends_trans(self.vardefs@, insert_new(old(self).vardefs@, v), old(self).vardefs@);
        }
        Ok(())
    }

    /// Translates exactly one assignment statement: the fixed prelude, the
    /// instructions of the statement, and the closing sections, as one
    /// program text; or the first syntax error. The statement must be
    /// followed by a newline, or the translation fails as a whole.
    pub fn process(&mut self) -> (r: Result<String, SyntaxError>)
        requires
            old(self).wf(),
        ensures
            final(self).wf(),
            final(self).chars@ == old(self).chars@,
            extends(final(self).out@, old(self).out@),
            extends(final(self).vardefs@, old(self).vardefs@),
            extends(final(self).fns@, old(self).fns@),
            match r {
                Ok(text) => m_translate(final(self).chars@, old(self).st()) == Ok::<
                    St,
                    SyntaxError,
                >(final(self).st()) && text@ == program_text(final(self).st()),
                Err(e) => m_translate(final(self).chars@, old(self).st()) == Err::<
                    St,
                    SyntaxError,
                >(e),
            },
    {
        let mut text = self.prelude();
        match self.assignment() {
            Ok(()) => (),
            Err(e) => return Err(e),
        };
        let l = self.look();
        if !is_newline(l) {
            return self.expected(Expected::Newline);
        }
        let body = render_body(&self.out);
        text.append(body.as_str());
        let close = self.closing();
        text.append(close.as_str());
        Ok(text)
    }

    /// The fixed prelude: section declaration and entry point.
    pub fn prelude(&self) -> (r: String)
        ensures
            r@ == prelude_text(),
    {
        String::from_str(
            "section .text\nglobal _start ;; _start for GCC\nbits 32 ;; push is not supported in 64 bit mode\n_start:\n",
        )
    }

    /// Everything after the program body: the exit sequence, one labeled
    /// block per called function, and — only if variables were declared —
    /// the data section with one declaration line per variable.
    pub fn closing(&self) -> (r: String)
        ensures
            r@ == closing_text(self.st()),
    {
        let mut s = String::from_str(
            "\t\n\tmov eax, 0x1 ;; Exit syscall code.\n\tint 0x80     ;; Interrupt to syscall.\n\t\n",
        );
        let mut i: usize = 0;
        while i < self.fns.len()
            invariant
                i <= self.fns@.len(),
                s@ == epilogue_text() + fn_blocks_text(self.fns@.take(i as int)),
            decreases self.fns@.len() - i,
        {
            s.push(self.fns[i]);
            s.append(":\n\tret\n\n");
            proof {
                assert(self.fns@.take(i as int + 1).drop_last() =~= self.fns@.take(i as int));
                assert(self.fns@.take(i as int + 1).last() == self.fns@[i as int]);
                assert(s@ =~= epilogue_text() + fn_blocks_text(self.fns@.take(i as int + 1)));
            }
            i = i + 1;
        }
        proof {
            assert(self.fns@.take(self.fns@.len() as int) =~= self.fns@);
        }
        if self.vardefs.len() > 0 {
            s.append("section .data\n");
            proof {
                assert(s@ =~= epilogue_text() + fn_blocks_text(self.fns@) + ("section .data\n"@
                    + decls_text(self.vardefs@.take(0))));
            }
            let mut j: usize = 0;
            while j < self.vardefs.len()
                invariant
                    j <= self.vardefs@.len(),
                    s@ == epilogue_text() + fn_blocks_text(self.fns@) + ("section .data\n"@
                        + decls_text(self.vardefs@.take(j as int))),
                decreases self.vardefs@.len() - j,
            {
                s.append("\t");
                s.push(self.vardefs[j]);
                s.append(" dd 0x00\n");
                proof {
                    assert(self.vardefs@.take(j as int + 1).drop_last() =~= self.vardefs@.take(
                        j as int,
                    ));
                    assert(self.vardefs@.take(j as int + 1).last() == self.vardefs@[j as int]);
                    assert(s@ =~= epilogue_text() + fn_blocks_text(self.fns@) + (
                    "section .data\n"@ + decls_text(self.vardefs@.take(j as int + 1))));
                }
                j = j + 1;
            }
            proof {
                assert(self.vardefs@.take(self.vardefs@.len() as int) =~= self.vardefs@);
            }
        }
        s
    }

    /// Idempotently binds `f` in the function table to the placeholder
    /// return-only body.
    pub fn declare_function(&mut self, f: char)
        requires
            old(self).wf(),
        ensures
            final(self).wf(),
            final(self).chars@ == old(self).chars@,
            final(self).pos == old(self).pos,
            final(self).out@ == old(self).out@,
            final(self).vardefs@ == old(self).vardefs@,
            final(self).fns@ == insert_new(old(self).fns@, f),
    {
        if !contains_char(&self.fns, f) {
            self.fns.push(f);
        }
    }
}

/// Whether `xs` holds the character `c`.
fn contains_char(xs: &Vec<char>, c: char) -> (r: bool)
    ensures
        r == xs@.contains(c),
{
    let mut i: usize = 0;
    while i < xs.len()
        invariant
            i <= xs@.len(),
            forall|j: int| 0 <= j < i ==> xs@[j] != c,
        decreases xs@.len() - i,
    {
        if xs[i] == c {
            return true;
        }
        i = i + 1;
    }
    false
}

} // verus!
