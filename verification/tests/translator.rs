use cabl::Cabl;
use cabl::Expected;
use cabl::Ins;
use cabl::SyntaxError;
use cabl::char_or_msg;
use cabl::error;
use cabl::is_addop;
use cabl::is_alphabetic;
use cabl::is_mulop;
use cabl::is_newline;
use cabl::is_numeric;
use cabl::render_ins;

fn translate(input: &str) -> Result<String, SyntaxError> {
    let mut t = Cabl::new(input.chars().collect());
    t.process()
}

fn walk(input: &str) -> Cabl {
    let mut t = Cabl::new(input.chars().collect());
    t.assignment().expect("the statement should parse");
    t
}

const PRELUDE: &str = "section .text\nglobal _start ;; _start for GCC\nbits 32 ;; push is not supported in 64 bit mode\n_start:\n";
const EPILOGUE: &str = "\t\n\tmov eax, 0x1 ;; Exit syscall code.\n\tint 0x80     ;; Interrupt to syscall.\n\t\n";

#[test]
fn literal_assignment_instructions() {
    let t = walk("x=1\n");
    assert_eq!(t.out, vec![Ins::LoadImm('1'), Ins::StoreVar('x')]);
    assert_eq!(t.vardefs, vec!['x']);
    assert!(t.fns.is_empty());
}

#[test]
fn literal_assignment_full_text() {
    let text = translate("x=1\n").expect("x=1 should translate");
    let expected = format!(
        "{}\tmov eax, 1\n\tmov [x], eax\n{}section .data\n\tx dd 0x00\n",
        PRELUDE, EPILOGUE
    );
    assert_eq!(text, expected);
}

#[test]
fn binary_add_shape() {
    let t = walk("x=a+b\n");
    assert_eq!(
        t.out,
        vec![
            Ins::LoadVar('a'),
            Ins::PushEax,
            Ins::LoadVar('b'),
            Ins::PopEbx,
            Ins::AddEbx,
            Ins::StoreVar('x'),
        ]
    );
    assert_eq!(t.vardefs, vec!['x', 'a', 'b']);
}

#[test]
fn binary_sub_negates_after_pop() {
    let t = walk("x=a-b\n");
    assert_eq!(
        t.out,
        vec![
            Ins::LoadVar('a'),
            Ins::PushEax,
            Ins::LoadVar('b'),
            Ins::PopEbx,
            Ins::SubEbx,
            Ins::NegEax,
            Ins::StoreVar('x'),
        ]
    );
}

#[test]
fn binary_mul_uses_secondary_register() {
    let t = walk("x=a*b\n");
    assert_eq!(
        t.out,
        vec![
            Ins::LoadVar('a'),
            Ins::PushEax,
            Ins::LoadVar('b'),
            Ins::PopEbx,
            Ins::MulEbx,
            Ins::StoreVar('x'),
        ]
    );
}

#[test]
fn binary_div_moves_divisor_aside() {
    let t = walk("x=a/b\n");
    assert_eq!(
        t.out,
        vec![
            Ins::LoadVar('a'),
            Ins::PushEax,
            Ins::LoadVar('b'),
            Ins::MovEbxEax,
            Ins::PopEax,
            Ins::DivEbx,
            Ins::StoreVar('x'),
        ]
    );
}

#[test]
fn literal_operands_load_immediates() {
    let t = walk("x=1+2\n");
    assert_eq!(
        t.out,
        vec![
            Ins::LoadImm('1'),
            Ins::PushEax,
            Ins::LoadImm('2'),
            Ins::PopEbx,
            Ins::AddEbx,
            Ins::StoreVar('x'),
        ]
    );
    assert_eq!(t.vardefs, vec!['x']);
}

#[test]
fn parenthesized_group_evaluated_first() {
    let t = walk("x=(a+b)*c\n");
    assert_eq!(
        t.out,
        vec![
            Ins::LoadVar('a'),
            Ins::PushEax,
            Ins::LoadVar('b'),
            Ins::PopEbx,
            Ins::AddEbx,
            Ins::PushEax,
            Ins::LoadVar('c'),
            Ins::PopEbx,
            Ins::MulEbx,
            Ins::StoreVar('x'),
        ]
    );
}

#[test]
fn unary_minus_synthesizes_zero() {
    let t = walk("x=-a\n");
    assert_eq!(
        t.out,
        vec![
            Ins::Zero,
            Ins::PushEax,
            Ins::LoadVar('a'),
            Ins::PopEbx,
            Ins::SubEbx,
            Ins::NegEax,
            Ins::StoreVar('x'),
        ]
    );
}

#[test]
fn unary_plus_synthesizes_zero() {
    let t = walk("x=+a\n");
    assert_eq!(
        t.out,
        vec![
            Ins::Zero,
            Ins::PushEax,
            Ins::LoadVar('a'),
            Ins::PopEbx,
            Ins::AddEbx,
            Ins::StoreVar('x'),
        ]
    );
}

#[test]
fn duplicate_variable_declared_once() {
    let t = walk("x=x+x\n");
    assert_eq!(t.vardefs, vec!['x']);
    let text = translate("x=x+x\n").expect("x=x+x should translate");
    assert_eq!(text.matches("x dd 0x00").count(), 1);
}

#[test]
fn function_call_registers_one_entry() {
    let t = walk("x=f()\n");
    assert_eq!(t.out, vec![Ins::Call('f'), Ins::StoreVar('x')]);
    assert_eq!(t.fns, vec!['f']);
    assert_eq!(t.vardefs, vec!['x']);
    let text = translate("x=f()\n").expect("x=f() should translate");
    assert!(text.contains("\tcall f\n"));
    assert!(text.contains("f:\n\tret\n\n"));
}

#[test]
fn missing_expression_names_factor() {
    let e = translate("x=").expect_err("x= should fail");
    assert_eq!(e, SyntaxError { expected: Expected::Factor, found: None });
}

#[test]
fn unary_without_operand_names_factor() {
    let e = translate("x=+").expect_err("x=+ should fail");
    assert_eq!(e, SyntaxError { expected: Expected::Factor, found: None });
}

#[test]
fn unclosed_paren_names_missing_token() {
    let e = translate("x=(1").expect_err("x=(1 should fail");
    assert_eq!(e, SyntaxError { expected: Expected::Ch(')'), found: None });
}

#[test]
fn target_must_be_a_name() {
    let e = translate("1=2\n").expect_err("1=2 should fail");
    assert_eq!(e, SyntaxError { expected: Expected::Name, found: Some('1') });
}

#[test]
fn equals_sign_required() {
    let e = translate("x+1\n").expect_err("x+1 should fail");
    assert_eq!(e, SyntaxError { expected: Expected::Ch('='), found: Some('+') });
}

#[test]
fn empty_input_fails_on_name() {
    let e = translate("").expect_err("empty input should fail");
    assert_eq!(e, SyntaxError { expected: Expected::Name, found: None });
}

#[test]
fn statement_must_end_with_newline() {
    let e = translate("x=1").expect_err("x=1 without newline should fail");
    assert_eq!(e, SyntaxError { expected: Expected::Newline, found: None });
}

#[test]
fn second_digit_is_not_consumed() {
    let e = translate("x=12\n").expect_err("literals are one digit");
    assert_eq!(e, SyntaxError { expected: Expected::Newline, found: Some('2') });
}

#[test]
fn failed_translation_yields_no_text() {
    assert!(translate("x=(1").is_err());
    assert!(translate("x=").is_err());
}

#[test]
fn unicode_name_is_accepted() {
    let t = walk("é=á\n");
    assert_eq!(t.out, vec![Ins::LoadVar('á'), Ins::StoreVar('é')]);
    assert_eq!(t.vardefs, vec!['é', 'á']);
}

#[test]
fn error_message_for_found_char() {
    let e = SyntaxError { expected: Expected::Ch('='), found: Some('+') };
    assert_eq!(error(&e), "Error: Expected = (found '+').");
}

#[test]
fn error_message_at_end_of_input() {
    let e = SyntaxError { expected: Expected::Digit, found: None };
    assert_eq!(error(&e), "Error: Expected Digit (found EOF).");
}

#[test]
fn char_or_msg_quotes_or_falls_back() {
    assert_eq!(char_or_msg(Some('q'), "EOF"), "'q'");
    assert_eq!(char_or_msg(None, "EOF"), "EOF");
}

#[test]
fn rendered_lines_carry_their_operand() {
    assert_eq!(render_ins(&Ins::LoadImm('7')), "\tmov eax, 7\n");
    assert_eq!(render_ins(&Ins::LoadVar('q')), "\tmov eax, [q]\n");
    assert_eq!(render_ins(&Ins::StoreVar('q')), "\tmov [q], eax\n");
    assert_eq!(render_ins(&Ins::Call('g')), "\tcall g\n");
    assert_eq!(render_ins(&Ins::Zero), "\txor eax, eax\n");
}

#[test]
fn classifier_helpers() {
    assert!(is_alphabetic(Some('x')));
    assert!(is_alphabetic(Some('é')));
    assert!(!is_alphabetic(Some('1')));
    assert!(!is_alphabetic(None));
    assert!(is_numeric(Some('0')) && is_numeric(Some('9')));
    assert!(!is_numeric(Some('a')));
    assert!(is_addop(Some('+')) && is_addop(Some('-')) && !is_addop(Some('*')));
    assert!(is_mulop(Some('*')) && is_mulop(Some('/')) && !is_mulop(Some('+')));
    assert!(is_newline(Some('\n')) && !is_newline(None));
}

#[test]
fn no_data_section_without_variables() {
    let text = translate("x=f()\n");
    // `x` is declared as the assignment target, so the section is present...
    assert!(text.expect("x=f() should translate").contains("section .data"));
    // ...but a pure-literal program body still declares its target too:
    let t = walk("x=1\n");
    assert_eq!(t.vardefs, vec!['x']);
}

#[test]
fn lookahead_walks_the_input() {
    let mut t = Cabl::new("ab".chars().collect());
    assert_eq!(t.look(), Some('a'));
    assert_eq!(t.read_next_char(), Some('b'));
    assert_eq!(t.read_next_char(), None);
    assert_eq!(t.read_next_char(), None);
    assert_eq!(t.look(), None);
}

#[test]
fn error_keeps_already_emitted_lines() {
    let mut t = Cabl::new("x=a+".chars().collect());
    let e = t.assignment().expect_err("x=a+ should fail");
    assert_eq!(e, SyntaxError { expected: Expected::Factor, found: None });
    assert_eq!(t.out, vec![Ins::LoadVar('a'), Ins::PushEax]);
    assert_eq!(t.vardefs, vec!['x', 'a']);
}

#[test]
fn failed_match_consumes_nothing() {
    let mut t = Cabl::new("x+1\n".chars().collect());
    let e = t.assignment().expect_err("x+1 should fail");
    assert_eq!(e, SyntaxError { expected: Expected::Ch('='), found: Some('+') });
    assert_eq!(t.look(), Some('+'));
}

#[test]
fn get_name_advances_even_on_failure() {
    let mut t = Cabl::new("1x".chars().collect());
    let e = t.get_name().expect_err("a digit is not a name");
    assert_eq!(e, SyntaxError { expected: Expected::Name, found: Some('1') });
    assert_eq!(t.look(), Some('x'));
}
