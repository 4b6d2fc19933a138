//! A single-pass translator from a one-line arithmetic-assignment language
//! to stack-machine-style assembly text.
//!
//! The input is one statement of the form `name = expression`, where the
//! expression combines single-digit literals, single-letter variable
//! references, no-argument function calls, and the operators `+ - * /`
//! with parenthesized grouping. The output computes the result in two
//! registers with an explicit push/pop stack for intermediate operands.

pub mod cabl;
pub mod ins;
pub mod laws;
pub mod model;
pub mod render;

pub use cabl::Cabl;
pub use render::char_or_msg;
pub use render::error;
pub use render::render_body;
pub use render::render_ins;
pub use ins::Expected;
pub use ins::Ins;
pub use ins::SyntaxError;
pub use ins::is_addop;
pub use ins::is_alphabetic;
pub use ins::is_lparen;
pub use ins::is_mulop;
pub use ins::is_newline;
pub use ins::is_numeric;
