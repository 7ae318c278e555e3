//! The calculator's input state machine.
//!
//! The engine holds two operands as text, a pending operator, a flag that marks a
//! freshly computed result, and a memory register. Key presses arrive as
//! [`Message`]s. Entry and editing are decided here; where a key press needs a
//! number computed, [`Calculator::update`] hands back a [`Request`] and the
//! caller answers it with [`Calculator::complete`].

use vstd::prelude::*;
use crate::numeral::{
    canonical, canonicalize, chars_of, copy_of, has_point, is_only, or_zero, push_all, text_of,
    zero,
};

verus! {

/// A binary operator.
#[derive(Debug, Clone, Copy, PartialEq, Eq, Structural)]
pub enum Operator {
    Add,
    Subtract,
    Multiply,
    Divide,
}

/// The operator that a key symbol stands for, if any.
pub open spec fn operator_of(c: char) -> Option<Operator> {
    if c == '+' {
        Some(Operator::Add)
    } else if c == '-' {
        Some(Operator::Subtract)
    } else if c == '×' {
        Some(Operator::Multiply)
    } else if c == '÷' {
        Some(Operator::Divide)
    } else {
        None
    }
}

impl Operator {
    pub open spec fn spec_symbol(&self) -> char {
        match self {
            Operator::Add => '+',
            Operator::Subtract => '-',
            Operator::Multiply => '×',
            Operator::Divide => '÷',
        }
    }

    /// The key symbol of the operator.
    #[verifier::when_used_as_spec(spec_symbol)]
    pub fn symbol(&self) -> (r: char)
        ensures
            r == self.spec_symbol(),
    {
        match self {
            Operator::Add => '+',
            Operator::Subtract => '-',
            Operator::Multiply => '×',
            Operator::Divide => '÷',
        }
    }

    /// The operator of a key symbol; `None` for any other character.
    pub fn from_symbol(c: char) -> (r: Option<Operator>)
        ensures
            r == operator_of(c),
    {
        if c == '+' {
            Some(Operator::Add)
        } else if c == '-' {
            Some(Operator::Subtract)
        } else if c == '×' {
            Some(Operator::Multiply)
        } else if c == '÷' {
            Some(Operator::Divide)
        } else {
            None
        }
    }
}

/// A key press.
#[derive(Debug, Clone, Copy, PartialEq, Eq, Structural)]
pub enum Message {
    /// A digit key.
    Num(char),
    /// An operator key: `+`, `-`, `×` or `÷`.
    Sign(char),
    /// The equals key.
    Ans,
    /// The decimal point.
    Dot,
    /// The sign toggle.
    Neg,
    /// Clears the whole expression.
    Clear,
    /// Clears the entry.
    ClearEnd,
    Backspace,
    /// A memory key: `C` clears, `R` recalls, `S` stores, `+` adds.
    Memory(char),
    /// A function key: `s` square root, `i` reciprocal, `%` percent.
    Special(char),
}

/// A computation that the engine asks of its caller.
#[derive(Debug, Clone, Copy, PartialEq, Eq, Structural)]
pub enum Operation {
    /// `first` and `second` combined by the operator.
    Evaluate(Operator),
    /// The square root of `first`.
    SquareRoot,
    /// One divided by `first`.
    Reciprocal,
    /// `first` divided by one hundred.
    Percent,
    /// The number `first` stands for, to be stored in memory.
    Store,
    /// The sum of the memory `first` and the number `second`.
    Accumulate,
}

/// A computation to perform, with its operands as text.
///
/// Text that is no number is read as zero. `Evaluate` answers with its result
/// written to ten decimal places; the others with the shortest text that reads
/// back as the same number.
#[derive(Debug)]
pub struct Request {
    pub operation: Operation,
    pub first: String,
    pub second: String,
}

/// The answer to a [`Request`].
#[derive(Debug)]
pub enum Outcome {
    /// The computed number as text.
    Number(String),
    /// The operation has no value on its operands: a divisor of zero, the square
    /// root of a negative number, the reciprocal of zero.
    Undefined,
}

impl Outcome {
    /// The text of the number, or `None` where the operation has no value.
    pub open spec fn value(self) -> Option<Seq<char>> {
        match self {
            Outcome::Number(t) => Some(t@),
            Outcome::Undefined => None,
        }
    }
}

/// What the engine does with the answer to the request it made last.
#[derive(Debug, Clone, Copy, PartialEq, Eq, Structural)]
pub enum Pending {
    /// The answer is the result of the expression; an operator chosen meanwhile
    /// follows it.
    Result(Option<Operator>),
    /// The answer replaces the primary operand.
    Left,
    /// The answer replaces the memory register.
    Memory,
}

/// The state of the engine as mathematical values.
pub ghost struct CalcView {
    /// The primary operand, or the last result.
    pub left: Seq<char>,
    /// The secondary operand.
    pub right: Seq<char>,
    /// The pending operator.
    pub sign: Option<Operator>,
    /// A computed result is on show on its own.
    pub shadow: bool,
    /// The memory register, as the text of its number.
    pub memory: Seq<char>,
    /// The request that awaits its answer.
    pub pending: Option<Pending>,
}

impl CalcView {
    /// Neither the primary operand nor the memory is ever empty.
    pub open spec fn wf(self) -> bool {
        self.left.len() > 0 && self.memory.len() > 0
    }
}

/// The text shown for division by zero.
pub open spec fn division_error() -> Seq<char> {
    "Error: División por cero"@
}

/// The state the engine starts in: primary operand zero, nothing pending,
/// memory zero.
pub open spec fn initial() -> CalcView {
    CalcView {
        left: zero(),
        right: Seq::empty(),
        sign: None,
        shadow: false,
        memory: zero(),
        pending: None,
    }
}

/// An operand after a key `c` is typed: a lone zero is replaced, anything
/// else is extended.
pub open spec fn enter(t: Seq<char>, c: char) -> Seq<char> {
    if t == zero() {
        seq![c]
    } else {
        t.push(c)
    }
}

/// An operand with its last character removed, if it has one.
pub open spec fn erase(t: Seq<char>) -> Seq<char> {
    if t.len() > 0 {
        t.drop_last()
    } else {
        t
    }
}

/// An operand with a leading minus sign added or removed.
pub open spec fn toggle(t: Seq<char>) -> Seq<char> {
    if t.len() > 0 && t[0] == '-' {
        t.drop_first()
    } else {
        seq!['-'] + t
    }
}

/// A fresh expression whose primary operand is `c`; memory is kept.
pub open spec fn restart(s: CalcView, c: char) -> CalcView {
    CalcView { left: seq![c], right: Seq::empty(), sign: None, shadow: false, ..s }
}

/// The state after key press `m`, before any answer arrives.
pub open spec fn next(s0: CalcView, m: Message) -> CalcView {
    let s = CalcView { pending: None, ..s0 };
    match m {
        Message::Num(n) => {
            if s.sign is None {
                CalcView { left: enter(s.left, n), ..s }
            } else if s.shadow {
                restart(s, n)
            } else {
                CalcView { right: enter(s.right, n), ..s }
            }
        },
        Message::Sign(c) => {
            match operator_of(c) {
                None => s,
                Some(o) => {
                    if s.sign is None {
                        CalcView { sign: Some(o), ..s }
                    } else if !s.shadow && s.right.len() > 0 {
                        CalcView { pending: Some(Pending::Result(Some(o))), ..s }
                    } else {
                        CalcView { sign: Some(o), right: Seq::empty(), shadow: false, ..s }
                    }
                },
            }
        },
        Message::Ans => {
            if s.sign is Some && s.left.len() > 0 && s.right.len() > 0 {
                CalcView { pending: Some(Pending::Result(None)), ..s }
            } else {
                s
            }
        },
        Message::Clear => restart(s, '0'),
        Message::ClearEnd => {
            if s.right.len() == 0 {
                CalcView { left: zero(), sign: None, shadow: false, ..s }
            } else {
                CalcView { right: Seq::empty(), ..s }
            }
        },
        Message::Backspace => {
            if s.sign is None {
                CalcView { left: or_zero(erase(s.left)), ..s }
            } else {
                CalcView { right: erase(s.right), ..s }
            }
        },
        Message::Dot => {
            if s.sign is None {
                if !s.left.contains('.') {
                    CalcView { left: s.left.push('.'), ..s }
                } else {
                    s
                }
            } else if !s.right.contains('.') {
                CalcView {
                    right: (if s.right.len() == 0 { zero() } else { s.right }).push('.'),
                    ..s
                }
            } else {
                s
            }
        },
        Message::Neg => {
            if s.sign is None {
                if s.left != zero() && s.left != seq!['0', '.'] {
                    CalcView { left: or_zero(toggle(s.left)), ..s }
                } else {
                    s
                }
            } else if s.shadow && s.left != zero() {
                CalcView { left: or_zero(toggle(s.left)), ..s }
            } else {
                s
            }
        },
        Message::Memory(k) => {
            if k == 'C' {
                CalcView { memory: zero(), ..s }
            } else if k == 'R' {
                CalcView { left: s.memory, ..s }
            } else if k == 'S' || k == '+' {
                CalcView { pending: Some(Pending::Memory), ..s }
            } else {
                s
            }
        },
        Message::Special(k) => {
            if k == 's' || k == 'i' || k == '%' {
                CalcView { pending: Some(Pending::Left), ..s }
            } else {
                s
            }
        },
    }
}

/// The computation that key press `m` asks for: the operation and its two
/// operands (the second empty where there is none).
pub open spec fn request(s: CalcView, m: Message) -> Option<(Operation, Seq<char>, Seq<char>)> {
    match m {
        Message::Sign(c) => {
            if operator_of(c) is Some && s.sign is Some && !s.shadow && s.right.len() > 0 {
                Some((Operation::Evaluate(s.sign->Some_0), s.left, s.right))
            } else {
                None
            }
        },
        Message::Ans => {
            if s.sign is Some && s.left.len() > 0 && s.right.len() > 0 {
                Some((Operation::Evaluate(s.sign->Some_0), s.left, s.right))
            } else {
                None
            }
        },
        Message::Memory(k) => {
            if k == 'S' {
                Some((Operation::Store, s.left, Seq::empty()))
            } else if k == '+' {
                Some((Operation::Accumulate, s.memory, s.left))
            } else {
                None
            }
        },
        Message::Special(k) => {
            if k == 's' {
                Some((Operation::SquareRoot, s.left, Seq::empty()))
            } else if k == 'i' {
                Some((Operation::Reciprocal, s.left, Seq::empty()))
            } else if k == '%' {
                Some((Operation::Percent, s.left, Seq::empty()))
            } else {
                None
            }
        },
        _ => None,
    }
}

/// The state after the answer `value` (`None`: undefined) to the pending request.
///
/// An expression's result is brought to canonical form and shown on its own;
/// an undefined one shows the division error. An undefined function value or
/// memory sum leaves the state as it was.
pub open spec fn settle(s: CalcView, value: Option<Seq<char>>) -> CalcView {
    match s.pending {
        None => s,
        Some(Pending::Result(then)) => {
            let left = match value {
                Some(t) => canonical(t),
                None => division_error(),
            };
            match then {
                None => CalcView { left, shadow: true, pending: None, ..s },
                Some(o) => CalcView {
                    left,
                    sign: Some(o),
                    right: Seq::empty(),
                    shadow: false,
                    pending: None,
                    ..s
                },
            }
        },
        Some(Pending::Left) => match value {
            Some(t) => CalcView { left: or_zero(t), pending: None, ..s },
            None => CalcView { pending: None, ..s },
        },
        Some(Pending::Memory) => match value {
            Some(t) => CalcView { memory: or_zero(t), pending: None, ..s },
            None => CalcView { pending: None, ..s },
        },
    }
}

/// The display text: the result alone while one is on show, else the primary
/// operand, the operator symbol and the secondary operand, joined by spaces.
pub open spec fn display_of(s: CalcView) -> Seq<char> {
    if s.shadow {
        s.left
    } else {
        let symbol = match s.sign {
            None => Seq::<char>::empty(),
            Some(o) => seq![o.spec_symbol()],
        };
        s.left + seq![' '] + symbol + seq![' '] + s.right
    }
}

/// Types `c` onto an operand.
fn enter_char(t: &mut Vec<char>, c: char)
    ensures
        final(t)@ == enter(old(t)@, c),
{
    if is_only(t, '0') {
        *t = vec![c];
    } else {
        t.push(c);
    }
}

/// Removes the last character of an operand, if it has one.
fn erase_char(t: &mut Vec<char>)
    ensures
        final(t)@ == erase(old(t)@),
{
    if t.len() > 0 {
        t.pop();
    }
}

/// Adds or removes the leading minus sign of an operand; a lone minus sign
/// gives way to zero.
fn toggle_sign(t: &mut Vec<char>)
    ensures
        final(t)@ == or_zero(toggle(old(t)@)),
{
    if t.len() > 0 && t[0] == '-' {
        t.remove(0);
        assert(t@ =~= old(t)@.drop_first());
    } else {
        t.insert(0, '-');
        assert(t@ =~= seq!['-'] + old(t)@);
    }
    if t.len() == 0 {
        t.push('0');
        assert(t@ =~= zero());
    }
}

/// The characters of `t`; text with none reads as zero.
fn numeral_of(t: &String) -> (r: Vec<char>)
    ensures
        r@ == or_zero(t@),
{
    let v = chars_of(t.as_str());
    if v.len() == 0 {
        let z = vec!['0'];
        assert(z@ =~= zero());
        z
    } else {
        v
    }
}

/// A request with its operands written out as text.
fn ask(operation: Operation, first: &Vec<char>, second: &Vec<char>) -> (r: Request)
    ensures
        r.operation == operation,
        r.first@ == first@,
        r.second@ == second@,
{
    Request { operation, first: text_of(first), second: text_of(second) }
}

/// The calculator engine.
pub struct Calculator {
    left: Vec<char>,
    right: Vec<char>,
    sign: Option<Operator>,
    shadow: bool,
    memory: Vec<char>,
    pending: Option<Pending>,
}

impl View for Calculator {
    type V = CalcView;

    closed spec fn view(&self) -> CalcView {
        CalcView {
            left: self.left@,
            right: self.right@,
            sign: self.sign,
            shadow: self.shadow,
            memory: self.memory@,
            pending: self.pending,
        }
    }
}

impl Default for Calculator {
    /// The engine at rest: primary operand "0", nothing pending, memory zero.
    fn default() -> (r: Self)
        ensures
            r@ == initial(),
            r.wf(),
    {
        let left = vec!['0'];
        let memory = vec!['0'];
        assert(left@ =~= zero());
        assert(memory@ =~= zero());
        let r = Calculator { left, right: Vec::new(), sign: None, shadow: false, memory, pending: None };
        assert(r@.right =~= Seq::<char>::empty());
        r
    }
}

impl Calculator {
    pub open spec fn wf(&self) -> bool {
        self@.wf()
    }

    /// A new engine, at rest.
    pub fn new() -> (r: Self)
        ensures
            r@ == initial(),
            r.wf(),
    {
        Self::default()
    }

    /// The window title.
    pub fn title(&self) -> (r: String)
        ensures
            r@ == "RustiCalculadora"@,
    {
        "RustiCalculadora".to_owned()
    }

    /// Starts a fresh expression whose primary operand is `c`; memory is kept.
    fn clear(&mut self, c: char)
        ensures
            final(self)@ == restart(old(self)@, c),
    {
        self.left = vec![c];
        self.sign = None;
        self.right = Vec::new();
        self.shadow = false;
        assert(self@.left =~= seq![c]);
        assert(self@.right =~= Seq::<char>::empty());
    }

    /// Brings the primary operand to canonical form.
    fn cleanup_number(&mut self)
        ensures
            final(self)@ == (CalcView { left: canonical(old(self)@.left), ..old(self)@ }),
    {
        canonicalize(&mut self.left);
    }

    /// Takes the result of the expression in as the primary operand, on show
    /// on its own; an undefined result shows the division error.
    fn calculate(&mut self, outcome: Outcome)
        ensures
            final(self)@ == (CalcView {
                left: match outcome.value() {
                    Some(t) => canonical(t),
                    None => division_error(),
                },
                shadow: true,
                ..old(self)@
            }),
    {
        self.shadow = true;
        match outcome {
            Outcome::Number(t) => {
                self.left = chars_of(t.as_str());
                self.cleanup_number();
            },
            Outcome::Undefined => {
                self.left = chars_of("Error: División por cero");
            },
        }
    }

    /// Applies a key press. Where it needs a number computed, the computation
    /// is returned and the engine waits for [`Calculator::complete`]; an
    /// answer still awaited is dropped.
    pub fn update(&mut self, message: Message) -> (r: Option<Request>)
        requires
            old(self).wf(),
        ensures
            final(self).wf(),
            final(self)@ == next(old(self)@, message),
            match request(old(self)@, message) {
                None => r is None,
                Some(q) => r matches Some(x) && x.operation == q.0 && x.first@ == q.1
                    && x.second@ == q.2,
            },
    {
        self.pending = None;
        let none: Vec<char> = Vec::new();
        match message {
            Message::Num(n) => {
                if self.sign.is_none() {
                    enter_char(&mut self.left, n);
                } else if self.shadow {
                    self.clear(n);
                } else {
                    enter_char(&mut self.right, n);
                }
                None
            },
            Message::Sign(c) => {
                match Operator::from_symbol(c) {
                    None => None,
                    Some(o) => match self.sign {
                        None => {
                            self.sign = Some(o);
                            None
                        },
                        Some(p) => {
                            if !self.shadow && self.right.len() > 0 {
                                self.pending = Some(Pending::Result(Some(o)));
                                Some(ask(Operation::Evaluate(p), &self.left, &self.right))
                            } else {
                                self.sign = Some(o);
                                self.right = Vec::new();
                                self.shadow = false;
                                assert(self@.right =~= Seq::<char>::empty());
                                None
                            }
                        },
                    },
                }
            },
            Message::Ans => match self.sign {
                Some(p) => {
                    if self.left.len() > 0 && self.right.len() > 0 {
                        self.pending = Some(Pending::Result(None));
                        Some(ask(Operation::Evaluate(p), &self.left, &self.right))
                    } else {
                        None
                    }
                },
                None => None,
            },
            Message::Clear => {
                self.clear('0');
                None
            },
            Message::ClearEnd => {
                if self.right.len() == 0 {
                    let z = vec!['0'];
                    assert(z@ =~= zero());
                    self.left = z;
                    self.sign = None;
                    self.shadow = false;
                } else {
                    self.right = Vec::new();
                    assert(self@.right =~= Seq::<char>::empty());
                }
                None
            },
            Message::Backspace => {
                if self.sign.is_none() {
                    erase_char(&mut self.left);
                    if self.left.len() == 0 {
                        self.left.push('0');
                        assert(self@.left =~= zero());
                    }
                } else {
                    erase_char(&mut self.right);
                }
                None
            },
            Message::Dot => {
                if self.sign.is_none() {
                    if !has_point(&self.left) {
                        self.left.push('.');
                    }
                } else if !has_point(&self.right) {
                    if self.right.len() == 0 {
                        self.right.push('0');
                        assert(self@.right =~= zero());
                    }
                    self.right.push('.');
                }
                None
            },
            Message::Neg => {
                if self.sign.is_none() {
                    let lone_point = self.left.len() == 2 && self.left[0] == '0' && self.left[1] == '.';
                    assert(lone_point == (self@.left =~= seq!['0', '.']));
                    if !is_only(&self.left, '0') && !lone_point {
                        toggle_sign(&mut self.left);
                    }
                } else if self.shadow && !is_only(&self.left, '0') {
                    toggle_sign(&mut self.left);
                }
                None
            },
            Message::Memory(k) => {
                if k == 'C' {
                    let z = vec!['0'];
                    assert(z@ =~= zero());
                    self.memory = z;
                    None
                } else if k == 'R' {
                    self.left = copy_of(&self.memory);
                    None
                } else if k == 'S' {
                    self.pending = Some(Pending::Memory);
                    Some(ask(Operation::Store, &self.left, &none))
                } else if k == '+' {
                    self.pending = Some(Pending::Memory);
                    Some(ask(Operation::Accumulate, &self.memory, &self.left))
                } else {
                    None
                }
            },
            Message::Special(k) => {
                if k == 's' {
                    self.pending = Some(Pending::Left);
                    Some(ask(Operation::SquareRoot, &self.left, &none))
                } else if k == 'i' {
                    self.pending = Some(Pending::Left);
                    Some(ask(Operation::Reciprocal, &self.left, &none))
                } else if k == '%' {
                    self.pending = Some(Pending::Left);
                    Some(ask(Operation::Percent, &self.left, &none))
                } else {
                    None
                }
            },
        }
    }

    /// Takes in the answer to the request made last; without one awaited it
    /// does nothing.
    pub fn complete(&mut self, outcome: Outcome)
        requires
            old(self).wf(),
        ensures
            final(self).wf(),
            final(self)@ == settle(old(self)@, outcome.value()),
    {
        proof {
            reveal_strlit("Error: División por cero");
        }
        match self.pending {
            None => {},
            Some(Pending::Result(then)) => {
                self.calculate(outcome);
                match then {
                    Some(o) => {
                        self.sign = Some(o);
                        self.right = Vec::new();
                        self.shadow = false;
                        assert(self@.right =~= Seq::<char>::empty());
                    },
                    None => {},
                }
            },
            Some(Pending::Left) => match outcome {
                Outcome::Number(t) => {
                    self.left = numeral_of(&t);
                },
                Outcome::Undefined => {},
            },
            Some(Pending::Memory) => match outcome {
                Outcome::Number(t) => {
                    self.memory = numeral_of(&t);
                },
                Outcome::Undefined => {},
            },
        }
        self.pending = None;
    }

    /// The text to show.
    pub fn display(&self) -> (r: String)
        ensures
            r@ == display_of(self@),
    {
        if self.shadow {
            text_of(&self.left)
        } else {
            let mut out = copy_of(&self.left);
            out.push(' ');
            match self.sign {
                Some(o) => out.push(o.symbol()),
                None => {},
            }
            out.push(' ');
            push_all(&mut out, &self.right);
            assert(out@ =~= display_of(self@));
            text_of(&out)
        }
    }
}

} // verus!
