//! The problem model: an operation, a problem over two operands, and the
//! generation options, with their canonical textual rendering.

use vstd::prelude::*;
use vstd::string::*;

use crate::error::ErrorKind;
use crate::error::LibError;
use crate::text::dec_digits;
use crate::text::int_digits;
use crate::text::pad2;
use crate::text::pad_to_2;
use crate::text::u64_to_string;

verus! {

/// An arithmetic operation appearing in a worksheet problem.
#[derive(Debug, PartialEq, Eq, Clone, Copy, Hash, Structural)]
pub enum Operation {
    Addition,
    Subtraction,
    Multiplication,
    Division,
}

/// The canonical one-character symbol of an operation, used both for parsing
/// and for display.
pub open spec fn op_symbol(op: Operation) -> char {
    match op {
        Operation::Addition => '+',
        Operation::Subtraction => '-',
        Operation::Multiplication => '*',
        Operation::Division => '/',
    }
}

/// The operation a one-character symbol denotes, or `None` for any other
/// string.
pub open spec fn parse_op(s: Seq<char>) -> Option<Operation> {
    if s == seq!['+'] {
        Some(Operation::Addition)
    } else if s == seq!['-'] {
        Some(Operation::Subtraction)
    } else if s == seq!['*'] {
        Some(Operation::Multiplication)
    } else if s == seq!['/'] {
        Some(Operation::Division)
    } else {
        None
    }
}

impl Operation {
    /// The one-character symbol of this operation, as a string slice.
    pub fn symbol(&self) -> (s: &'static str)
        ensures
            s@ == seq![op_symbol(*self)],
    {
        proof {
            reveal_strlit("+");
            reveal_strlit("-");
            reveal_strlit("*");
            reveal_strlit("/");
        }
        let s: &'static str = match self {
            Operation::Addition => "+",
            Operation::Subtraction => "-",
            Operation::Multiplication => "*",
            Operation::Division => "/",
        };
        proof {
            assert(s@ =~= seq![op_symbol(*self)]);
        }
        s
    }

    /// Parse an operation from its one-character symbol; any other string is
    /// rejected with an `InvalidInput` error.
    pub fn from_str(s: &str) -> (r: Result<Operation, LibError>)
        ensures
            match parse_op(s@) {
                Some(op) => r matches Ok(p) && p == op,
                None => r matches Err(e) && e.kind == ErrorKind::InvalidInput && e.message@
                    == "Not a supported operation: "@ + s@,
            },
    {
        if s.unicode_len() == 1 {
            let c = s.get_char(0);
            if c == '+' {
                proof {
                    assert(s@ =~= seq!['+']);
                }
                return Ok(Operation::Addition);
            }
            if c == '-' {
                proof {
                    assert(s@ =~= seq!['-']);
                }
                return Ok(Operation::Subtraction);
            }
            if c == '*' {
                proof {
                    assert(s@ =~= seq!['*']);
                }
                return Ok(Operation::Multiplication);
            }
            if c == '/' {
                proof {
                    assert(s@ =~= seq!['/']);
                }
                return Ok(Operation::Division);
            }
        }
        proof {
            assert(s@ != seq!['+'] && s@ != seq!['-'] && s@ != seq!['*'] && s@ != seq!['/']) by {
                assert(seq!['+'].len() == 1 && seq!['+'][0] == '+');
                assert(seq!['-'].len() == 1 && seq!['-'][0] == '-');
                assert(seq!['*'].len() == 1 && seq!['*'][0] == '*');
                assert(seq!['/'].len() == 1 && seq!['/'][0] == '/');
            }
        }
        Err(
            LibError {
                kind: ErrorKind::InvalidInput,
                message: String::from_str("Not a supported operation: ").concat(s),
            },
        )
    }
}

/// One arithmetic problem: an operation applied to two non-negative operands.
#[derive(Debug, PartialEq, Eq, Clone, Copy, Hash, Structural)]
pub struct Problem {
    pub operation: Operation,
    pub x: u32,
    pub y: u32,
}

/// The exact value the problem asks for: sum, difference (possibly negative),
/// product, or exact quotient.
pub open spec fn problem_result(p: Problem) -> int {
    match p.operation {
        Operation::Addition => p.x + p.y,
        Operation::Subtraction => p.x - p.y,
        Operation::Multiplication => p.x * p.y,
        Operation::Division => p.x as int / p.y as int,
    }
}

/// The canonical rendering of a problem: both operands right-aligned in
/// two-character fields around the operation symbol, as `"{:>2} {} {:>2}"`.
pub open spec fn problem_display(p: Problem) -> Seq<char> {
    pad2(dec_digits(p.x as nat)) + seq![' ', op_symbol(p.operation), ' '] + pad2(
        dec_digits(p.y as nat),
    )
}

/// The machine limits under which `Problem::result` is defined: the product
/// fits its result type and a divisor is never zero.
pub open spec fn problem_renderable(p: Problem) -> bool {
    &&& p.operation == Operation::Multiplication ==> p.x * p.y <= i64::MAX
    &&& p.operation == Operation::Division ==> p.y >= 1
}

impl Problem {
    /// Build a problem from its three components.
    pub fn new(operation: Operation, x: u32, y: u32) -> (p: Problem)
        ensures
            p == (Problem { operation, x, y }),
    {
        Problem { operation, x, y }
    }

    /// The value of the problem, as `problem_result` states it.
    pub fn result(&self) -> (r: i64)
        requires
            problem_renderable(*self),
        ensures
            r == problem_result(*self),
    {
        match self.operation {
            Operation::Addition => self.x as i64 + self.y as i64,
            Operation::Subtraction => self.x as i64 - self.y as i64,
            Operation::Multiplication => {
                proof {
                    vstd::arithmetic::mul::lemma_mul_nonnegative(self.x as int, self.y as int);
                }
                (self.x as i64) * (self.y as i64)
            },
            Operation::Division => (self.x as i64) / (self.y as i64),
        }
    }

    /// Render the problem as `"{:>2} {} {:>2}"`, e.g. `" 5 *  7"`.
    pub fn to_display_string(&self) -> (s: String)
        ensures
            s@ == problem_display(*self),
    {
        let mut s = pad_to_2(u64_to_string(self.x as u64));
        s.append(" ");
        s.append(self.operation.symbol());
        s.append(" ");
        let right = pad_to_2(u64_to_string(self.y as u64));
        s.append(right.as_str());
        proof {
            reveal_strlit(" ");
            assert(s@ =~= problem_display(*self));
        }
        s
    }
}

/// Two problems are equal exactly when the operation and both operands match;
/// the order of the operands matters.
pub proof fn lemma_problem_equality(a: Problem, b: Problem)
    ensures
        (a == b) <==> (a.operation == b.operation && a.x == b.x && a.y == b.y),
{
}

/// Problem generation configuration.
#[derive(Debug)]
pub struct Options {
    /// Number of problems.
    pub problems: usize,
    /// Max result in addition problems, and max terms in subtraction problems.
    pub max: u32,
    /// Max factor in multiplication problems, and the max divisor in division
    /// problems.
    pub max_factor: u32,
    /// The kind of operations to generate problems for.
    pub operations: Vec<Operation>,
    /// Allow negative results in subtraction problems.
    pub allow_negative: bool,
}

/// What the sampler guarantees of every problem it hands out, per operation.
pub open spec fn problem_valid(p: Problem, opts: Options) -> bool {
    match p.operation {
        Operation::Addition => 1 <= p.x && 1 <= p.y && p.x + p.y <= opts.max,
        Operation::Subtraction => 1 <= p.x <= opts.max && 1 <= p.y <= opts.max && (
        !opts.allow_negative ==> p.x >= p.y),
        Operation::Multiplication => p.x <= opts.max_factor && p.y <= opts.max_factor,
        Operation::Division => 1 <= p.y <= opts.max_factor && p.x as int % p.y as int == 0 && p.x
            <= p.y * 12 && p.x <= opts.max_factor * opts.max_factor,
    }
}

} // verus!
