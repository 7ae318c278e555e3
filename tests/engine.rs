use rusticalculadora::calculator::{Calculator, Message, Operation, Operator, Outcome, Request};
use rusticalculadora::style::{ButtonType, CustomButtonStyle};

fn number(t: &str) -> f64 {
    t.parse::<f64>().unwrap_or(0.0)
}

fn compute(q: &Request) -> Outcome {
    let a = number(&q.first);
    let b = number(&q.second);
    match q.operation {
        Operation::Evaluate(op) => match op {
            Operator::Add => Outcome::Number(format!("{:.10}", a + b)),
            Operator::Subtract => Outcome::Number(format!("{:.10}", a - b)),
            Operator::Multiply => Outcome::Number(format!("{:.10}", a * b)),
            Operator::Divide => {
                if b == 0.0 {
                    Outcome::Undefined
                } else {
                    Outcome::Number(format!("{:.10}", a / b))
                }
            }
        },
        Operation::SquareRoot => {
            if a >= 0.0 {
                Outcome::Number(a.sqrt().to_string())
            } else {
                Outcome::Undefined
            }
        }
        Operation::Reciprocal => {
            if a != 0.0 {
                Outcome::Number((1.0 / a).to_string())
            } else {
                Outcome::Undefined
            }
        }
        Operation::Percent => Outcome::Number((a / 100.0).to_string()),
        Operation::Store => Outcome::Number(a.to_string()),
        Operation::Accumulate => Outcome::Number((a + b).to_string()),
    }
}

fn press(c: &mut Calculator, m: Message) {
    if let Some(q) = c.update(m) {
        c.complete(compute(&q));
    }
}

fn run(ms: &[Message]) -> Calculator {
    let mut c = Calculator::new();
    for m in ms {
        press(&mut c, *m);
    }
    c
}

#[test]
fn starts_at_zero() {
    assert_eq!(Calculator::new().display(), "0  ");
}

#[test]
fn digits_concatenate() {
    let c = run(&[Message::Num('1'), Message::Num('2'), Message::Num('3')]);
    assert_eq!(c.display(), "123  ");
}

#[test]
fn leading_zeros_are_replaced() {
    let c = run(&[Message::Num('0'), Message::Num('0'), Message::Num('7'), Message::Num('0')]);
    assert_eq!(c.display(), "70  ");
    let z = run(&[Message::Num('0'), Message::Num('0')]);
    assert_eq!(z.display(), "0  ");
}

#[test]
fn round_trip_addition() {
    let c = run(&[Message::Num('5'), Message::Sign('+'), Message::Num('3'), Message::Ans]);
    assert_eq!(c.display(), "8");
}

#[test]
fn evaluation_request_carries_operands() {
    let mut c = run(&[Message::Num('5'), Message::Sign('+'), Message::Num('3')]);
    let q = c.update(Message::Ans).unwrap();
    assert_eq!(q.operation, Operation::Evaluate(Operator::Add));
    assert_eq!(q.first, "5");
    assert_eq!(q.second, "3");
    c.complete(Outcome::Number(String::from("8.0000000000")));
    assert_eq!(c.display(), "8");
}

#[test]
fn equals_without_operand_is_idle() {
    let mut c = run(&[
        Message::Num('5'),
        Message::Sign('+'),
        Message::Num('3'),
        Message::Ans,
        Message::ClearEnd,
    ]);
    assert_eq!(c.display(), "8");
    assert!(c.update(Message::Ans).is_none());
    assert_eq!(c.display(), "8");
    assert!(c.update(Message::Ans).is_none());
    assert_eq!(c.display(), "8");
}

#[test]
fn repeated_equals_repeats_the_operation() {
    let c = run(&[
        Message::Num('5'),
        Message::Sign('+'),
        Message::Num('3'),
        Message::Ans,
        Message::Ans,
    ]);
    assert_eq!(c.display(), "11");
}

#[test]
fn division_by_zero_then_fresh_entry() {
    let mut c = run(&[Message::Num('7'), Message::Sign('÷'), Message::Num('0'), Message::Ans]);
    assert_eq!(c.display(), "Error: División por cero");
    press(&mut c, Message::Num('9'));
    assert_eq!(c.display(), "9  ");
}

#[test]
fn memory_round_trip() {
    let c = run(&[
        Message::Num('4'),
        Message::Num('2'),
        Message::Memory('S'),
        Message::Clear,
        Message::Memory('R'),
    ]);
    assert_eq!(c.display(), "42  ");
}

#[test]
fn memory_add_and_clear() {
    let c = run(&[
        Message::Num('4'),
        Message::Memory('+'),
        Message::Memory('+'),
        Message::Memory('R'),
    ]);
    assert_eq!(c.display(), "8  ");
    let d = run(&[Message::Num('4'), Message::Memory('S'), Message::Memory('C'), Message::Memory('R')]);
    assert_eq!(d.display(), "0  ");
}

#[test]
fn backspace_to_default_zero() {
    let c = run(&[Message::Num('5'), Message::Backspace]);
    assert_eq!(c.display(), "0  ");
}

#[test]
fn backspace_on_secondary_operand() {
    let c = run(&[Message::Num('5'), Message::Sign('-'), Message::Num('1'), Message::Num('2'), Message::Backspace]);
    assert_eq!(c.display(), "5 - 1");
}

#[test]
fn square_root_of_negative_is_idle() {
    let c = run(&[Message::Num('9'), Message::Neg, Message::Special('s')]);
    assert_eq!(c.display(), "-9  ");
}

#[test]
fn square_root_of_positive() {
    let c = run(&[Message::Num('9'), Message::Special('s')]);
    assert_eq!(c.display(), "3  ");
}

#[test]
fn reciprocal_of_zero_is_idle() {
    let c = run(&[Message::Special('i')]);
    assert_eq!(c.display(), "0  ");
    let d = run(&[Message::Num('4'), Message::Special('i')]);
    assert_eq!(d.display(), "0.25  ");
}

#[test]
fn percent_is_defined() {
    let c = run(&[Message::Num('5'), Message::Num('0'), Message::Special('%')]);
    assert_eq!(c.display(), "0.5  ");
}

#[test]
fn result_is_canonicalized() {
    let c = run(&[Message::Num('1'), Message::Sign('÷'), Message::Num('4'), Message::Ans]);
    assert_eq!(c.display(), "0.25");
    let d = run(&[Message::Num('1'), Message::Sign('÷'), Message::Num('3'), Message::Ans]);
    assert_eq!(d.display(), "0.3333333333");
    let e = run(&[Message::Num('2'), Message::Sign('×'), Message::Num('5'), Message::Ans]);
    assert_eq!(e.display(), "10");
}

#[test]
fn operator_after_operand_evaluates_first() {
    let c = run(&[
        Message::Num('2'),
        Message::Sign('+'),
        Message::Num('3'),
        Message::Sign('×'),
    ]);
    assert_eq!(c.display(), "5 × ");
}

#[test]
fn operator_replaces_operator() {
    let c = run(&[Message::Num('2'), Message::Sign('+'), Message::Sign('-')]);
    assert_eq!(c.display(), "2 - ");
}

#[test]
fn unknown_operator_is_ignored() {
    let c = run(&[Message::Num('2'), Message::Sign('^')]);
    assert_eq!(c.display(), "2  ");
}

#[test]
fn dot_rules() {
    let c = run(&[Message::Num('1'), Message::Dot, Message::Dot, Message::Num('5')]);
    assert_eq!(c.display(), "1.5  ");
    let d = run(&[Message::Num('1'), Message::Sign('+'), Message::Dot, Message::Dot]);
    assert_eq!(d.display(), "1 + 0.");
}

#[test]
fn neg_rules() {
    let c = run(&[Message::Neg]);
    assert_eq!(c.display(), "0  ");
    let d = run(&[Message::Num('3'), Message::Neg]);
    assert_eq!(d.display(), "-3  ");
    let e = run(&[Message::Num('3'), Message::Neg, Message::Neg]);
    assert_eq!(e.display(), "3  ");
    let f = run(&[Message::Num('3'), Message::Neg, Message::Backspace, Message::Neg]);
    assert_eq!(f.display(), "0  ");
    let g = run(&[Message::Num('3'), Message::Sign('+'), Message::Neg]);
    assert_eq!(g.display(), "3 + ");
}

#[test]
fn neg_on_result() {
    let c = run(&[Message::Num('5'), Message::Sign('-'), Message::Num('3'), Message::Ans, Message::Neg]);
    assert_eq!(c.display(), "-2");
}

#[test]
fn clear_entry_rules() {
    let c = run(&[Message::Num('5'), Message::Sign('+'), Message::Num('3'), Message::ClearEnd]);
    assert_eq!(c.display(), "5 + ");
    let d = run(&[Message::Num('5'), Message::Sign('+'), Message::ClearEnd]);
    assert_eq!(d.display(), "0  ");
}

#[test]
fn clear_keeps_memory() {
    let c = run(&[
        Message::Num('6'),
        Message::Memory('S'),
        Message::Sign('+'),
        Message::Num('1'),
        Message::Clear,
    ]);
    assert_eq!(c.display(), "0  ");
    let mut d = c;
    press(&mut d, Message::Memory('R'));
    assert_eq!(d.display(), "6  ");
}

#[test]
fn undefined_answer_to_memory_is_idle() {
    let mut c = run(&[Message::Num('6')]);
    assert!(c.update(Message::Memory('S')).is_some());
    c.complete(Outcome::Undefined);
    press(&mut c, Message::Memory('R'));
    assert_eq!(c.display(), "0  ");
}

#[test]
fn empty_answer_reads_as_zero() {
    let mut c = run(&[Message::Num('6')]);
    assert!(c.update(Message::Special('%')).is_some());
    c.complete(Outcome::Number(String::new()));
    assert_eq!(c.display(), "0  ");
}

#[test]
fn complete_without_request_is_idle() {
    let mut c = run(&[Message::Num('6')]);
    c.complete(Outcome::Number(String::from("9")));
    assert_eq!(c.display(), "6  ");
}

#[test]
fn title_is_fixed() {
    assert_eq!(Calculator::new().title(), "RustiCalculadora");
}

#[test]
fn operator_symbols() {
    assert_eq!(Operator::from_symbol('×'), Some(Operator::Multiply));
    assert_eq!(Operator::from_symbol('x'), None);
    assert_eq!(Operator::Divide.symbol(), '÷');
}

#[test]
fn key_categories() {
    assert_eq!(ButtonType::of(Message::Num('1')), ButtonType::Number);
    assert_eq!(ButtonType::of(Message::Ans), ButtonType::Equal);
    assert_eq!(ButtonType::of(Message::Backspace), ButtonType::Clear);
    assert_eq!(ButtonType::of(Message::Special('%')), ButtonType::Special);
    assert_eq!(CustomButtonStyle::for_message(Message::Memory('R')).button_type, ButtonType::Memory);
}
