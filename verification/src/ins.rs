//! Instruction lines of the generated program, the structured syntax error,
//! and the single-character classification used by the grammar walker.

use vstd::prelude::*;

verus! {

/// One instruction line of the generated program's body. Each value renders
/// to exactly one line of assembly text.
#[derive(Clone, Copy, Debug, PartialEq, Eq, Structural)]
pub enum Ins {
    /// `xor eax, eax` — zero the primary register (unary `+`/`-` support).
    Zero,
    /// `push eax` — save the primary register before a binary operation.
    PushEax,
    /// `mov eax, <d>` — load a digit literal into the primary register.
    LoadImm(char),
    /// `mov eax, [<v>]` — load a variable into the primary register.
    LoadVar(char),
    /// `mov [<v>], eax` — store the primary register into a variable.
    StoreVar(char),
    /// `call <f>` — call a no-argument function.
    Call(char),
    /// `pop ebx` — recover the saved left operand into the secondary register.
    PopEbx,
    /// `add eax, ebx` — combine for `+`.
    AddEbx,
    /// `sub eax, ebx` — combine for `-` (operands arrive reversed).
    SubEbx,
    /// `neg eax` — compensate for the reversed operand order of `-`.
    NegEax,
    /// `mov ebx, eax` — move the right operand aside for `/`.
    MovEbxEax,
    /// `pop eax` — recover the saved left operand into the primary register.
    PopEax,
    /// `div ebx` — combine for `/`.
    DivEbx,
    /// `mul ebx` — combine for `*`.
    MulEbx,
}

/// What the grammar walker was looking for when a syntax error arose.
#[derive(Clone, Copy, Debug, PartialEq, Eq, Structural)]
pub enum Expected {
    /// An alphabetic name character.
    Name,
    /// A decimal digit.
    Digit,
    /// The start of a factor: `(`, a digit, or a name.
    Factor,
    /// An additive operator, `+` or `-`.
    Addop,
    /// A multiplicative operator, `*` or `/`.
    Mulop,
    /// The newline that must follow the statement.
    Newline,
    /// One specific character, such as `=` or `)`.
    Ch(char),
}

/// The single error kind of the translator: what was expected and what was
/// actually found (`None` at end of input).
#[derive(Clone, Copy, Debug, PartialEq, Eq, Structural)]
pub struct SyntaxError {
    pub expected: Expected,
    pub found: Option<char>,
}

/// Whether the lookahead holds an additive operator.
pub open spec fn addop(c: Option<char>) -> bool {
    c == Some('+') || c == Some('-')
}

/// Whether the lookahead holds a multiplicative operator.
pub open spec fn mulop(c: Option<char>) -> bool {
    c == Some('*') || c == Some('/')
}

/// Whether the character is a decimal digit.
pub open spec fn digit(c: char) -> bool {
    '0' <= c && c <= '9'
}

/// Whether the lookahead holds a decimal digit.
pub open spec fn numeric(c: Option<char>) -> bool {
    c is Some && digit(c->0)
}

/// Whether the character counts as alphabetic for the grammar's names.
/// This is `char::is_alphabetic`, the Unicode Alphabetic property, which a
/// specification cannot restate; see [`char_is_alphabetic`].
pub uninterp spec fn alphabetic(c: char) -> bool;

/// Whether the lookahead holds an alphabetic character.
pub open spec fn alpha(c: Option<char>) -> bool {
    c is Some && alphabetic(c->0)
}

/// A character the grammar reads as a variable or function name where a
/// factor may start: alphabetic, and none of the characters the dispatch
/// checks first (a parenthesis, a digit, or an additive operator). Every
/// actual letter satisfies this; the exclusions only spell out that the
/// Unicode Alphabetic property, left uninterpreted here, does not cover
/// those five characters.
pub open spec fn name_start(c: char) -> bool {
    &&& alphabetic(c)
    &&& !digit(c)
    &&& c != '('
    &&& c != '+'
    &&& c != '-'
}

/// Whether the lookahead holds an opening parenthesis.
pub open spec fn lparen(c: Option<char>) -> bool {
    c == Some('(')
}

/// Whether the lookahead holds a newline.
pub open spec fn newline(c: Option<char>) -> bool {
    c == Some('\n')
}

/// Relies on `char::is_alphabetic`: whether the character has the Unicode
/// Alphabetic property, a fact of the character alone.
#[verifier::external_body]
fn char_is_alphabetic(c: char) -> (r: bool)
    ensures
        r == alphabetic(c),
{
    c.is_alphabetic()
}

pub fn is_addop(c: Option<char>) -> (r: bool)
    ensures
        r == addop(c),
{
    c == Some('+') || c == Some('-')
}

pub fn is_mulop(c: Option<char>) -> (r: bool)
    ensures
        r == mulop(c),
{
    c == Some('*') || c == Some('/')
}

pub fn is_numeric(c: Option<char>) -> (r: bool)
    ensures
        r == numeric(c),
{
    match c {
        Some(c) => '0' <= c && c <= '9',
        None => false,
    }
}

pub fn is_alphabetic(c: Option<char>) -> (r: bool)
    ensures
        r == alpha(c),
{
    match c {
        Some(c) => char_is_alphabetic(c),
        None => false,
    }
}

pub fn is_lparen(c: Option<char>) -> (r: bool)
    ensures
        r == lparen(c),
{
    c == Some('(')
}

pub fn is_newline(c: Option<char>) -> (r: bool)
    ensures
        r == newline(c),
{
    c == Some('\n')
}

} // verus!
