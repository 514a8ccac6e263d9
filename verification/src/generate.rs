//! The operation sampler and the unique-problem-set generator.

use vstd::prelude::*;
use vstd::string::*;

use rand::rngs::SmallRng;

use crate::error::ErrorKind;
use crate::error::LibError;
use crate::model::problem_valid;
use crate::model::Operation;
use crate::model::Options;
use crate::model::Problem;
use crate::rng::rng_index;
use crate::rng::rng_range_u32;

verus! {

/// The bit selecting addition in an operation flag byte.
pub const FLAG_ADDITION: u8 = 0b0000_0001;

/// The bit selecting subtraction in an operation flag byte.
pub const FLAG_SUBTRACTION: u8 = 0b0000_0010;

/// The bit selecting multiplication in an operation flag byte.
pub const FLAG_MULTIPLICATION: u8 = 0b0000_0100;

/// The bit selecting division in an operation flag byte.
pub const FLAG_DIVISION: u8 = 0b0000_1000;

/// The bounds under which sampling one problem for `op` cannot fail: each
/// uniform draw has a non-empty range, and the square of `max_factor` fits
/// the operand type.
pub open spec fn op_feasible(op: Operation, opts: Options) -> bool {
    match op {
        Operation::Addition => opts.max >= 2,
        Operation::Subtraction => opts.max >= 1,
        Operation::Multiplication => true,
        Operation::Division => 1 <= opts.max_factor <= 0xFFFF,
    }
}

/// Every enabled operation is feasible under the configured bounds.
pub open spec fn options_feasible(opts: Options) -> bool {
    forall|i: int|
        0 <= i < opts.operations@.len() ==> op_feasible(#[trigger] opts.operations@[i], opts)
}

/// No two positions of the sequence hold the same problem.
pub open spec fn distinct_problems(s: Seq<Problem>) -> bool {
    forall|i: int, j: int| 0 <= i < j < s.len() ==> s[i] != s[j]
}

impl Operation {
    /// Sample one problem for this operation: draw operands satisfying the
    /// operation's constraints from the given random source.
    pub fn generate_problem(&self, options: &Options, rng: &mut SmallRng) -> (r: Result<
        Problem,
        LibError,
    >)
        requires
            op_feasible(*self, *options),
        ensures
            r is Ok,
            r matches Ok(p) ==> p.operation == *self && problem_valid(p, *options),
    {
        let (x, y): (u32, u32) = match self {
            Operation::Addition => {
                let x = rng_range_u32(rng, 1, options.max - 1);
                let y = rng_range_u32(rng, 1, options.max - x);
                (x, y)
            },
            Operation::Subtraction => {
                let x = rng_range_u32(rng, 1, options.max);
                let y = rng_range_u32(rng, 1, options.max);
                if !options.allow_negative && x < y {
                    (y, x)
                } else {
                    (x, y)
                }
            },
            Operation::Multiplication => {
                let x = rng_range_u32(rng, 0, options.max_factor);
                let y = rng_range_u32(rng, 0, options.max_factor);
                (x, y)
            },
            Operation::Division => {
                let divisor = rng_range_u32(rng, 1, options.max_factor);
                proof {
                    assert(options.max_factor as int * options.max_factor as int <= 0xFFFF * 0xFFFF)
                        by (nonlinear_arith)
                        requires
                            options.max_factor <= 0xFFFF,
                    ;
                }
                let limit = options.max_factor * options.max_factor;
                let mut dividends: Vec<u32> = Vec::new();
                let mut d: u32 = 0;
                while d <= limit
                    invariant
                        1 <= divisor <= 0xFFFF,
                        limit < 0xFFFF_FFFFu32,
                        d <= limit + 1,
                        forall|k: int|
                            0 <= k < dividends@.len() ==> (#[trigger] dividends@[k]) as int
                                % divisor as int == 0 && dividends@[k] <= divisor * 12
                                && dividends@[k] <= limit,
                        d > 0 ==> dividends@.len() >= 1,
                    decreases limit + 1 - d,
                {
                    if d % divisor == 0 && d <= divisor * 12 {
                        dividends.push(d);
                    }
                    d = d + 1;
                }
                // The candidate set always holds 0, so this failure path is
                // provably never taken; it stands for defensive correctness.
                if dividends.len() == 0 {
                    return Err(
                        LibError {
                            kind: ErrorKind::ProblemGenerationDivision,
                            message: String::from_str(
                                "Failed to create a sample distribution over the dividends",
                            ),
                        },
                    );
                }
                let idx = rng_index(rng, dividends.len());
                let dividend = dividends[idx];
                (dividend, divisor)
            },
        };
        Ok(Problem::new(*self, x, y))
    }
}

fn contains_problem(v: &Vec<Problem>, p: Problem) -> (b: bool)
    ensures
        b == v@.contains(p),
{
    let mut i: usize = 0;
    while i < v.len()
        invariant
            i <= v@.len(),
            forall|j: int| 0 <= j < i ==> v@[j] != p,
        decreases v@.len() - i,
    {
        if v[i] == p {
            return true;
        }
        i = i + 1;
    }
    false
}

/// Generate a list of up to `options.problems` pairwise-distinct problems.
///
/// Operations are drawn from `options.operations`; an empty operation set is
/// rejected with a `ProblemGeneration` error. Sampling stops after 10,000
/// attempts, so an infeasible request degrades to a shorter list rather than
/// hanging or erroring.
pub fn generate_problems(options: &Options, rng: &mut SmallRng) -> (r: Result<
    Vec<Problem>,
    LibError,
>)
    requires
        options_feasible(*options),
    ensures
        r is Err <==> options.operations@.len() == 0,
        r matches Err(e) ==> e.kind == ErrorKind::ProblemGeneration,
        r matches Ok(v) ==> {
            &&& distinct_problems(v@)
            &&& v@.len() <= options.problems
            &&& options.problems > 0 ==> v@.len() >= 1
            &&& forall|i: int|
                0 <= i < v@.len() ==> options.operations@.contains(
                    (#[trigger] v@[i]).operation,
                ) && problem_valid(v@[i], *options)
        },
{
    if options.operations.len() == 0 {
        return Err(
            LibError {
                kind: ErrorKind::ProblemGeneration,
                message: String::from_str(
                    "Failed to generate an operation distribution from an empty operation set",
                ),
            },
        );
    }
    let mut problems: Vec<Problem> = Vec::new();
    let mut iterations: u32 = 0;
    while problems.len() < options.problems && iterations < 10000
        invariant
            options_feasible(*options),
            options.operations@.len() > 0,
            iterations <= 10000,
            problems@.len() <= options.problems,
            distinct_problems(problems@),
            forall|k: int|
                0 <= k < problems@.len() ==> options.operations@.contains(
                    (#[trigger] problems@[k]).operation,
                ) && problem_valid(problems@[k], *options),
            (iterations >= 1 && options.problems >= 1) ==> problems@.len() >= 1,
        decreases 10000 - iterations,
    {
        let idx = rng_index(rng, options.operations.len());
        let op = options.operations[idx];
        let problem = match op.generate_problem(options, rng) {
            Ok(p) => p,
            Err(e) => {
                return Err(e);
            },
        };
        if !contains_problem(&problems, problem) {
            let ghost pre = problems@;
            problems.push(problem);
            proof {
                assert(options.operations@.contains(op));
                assert forall|i: int, j: int|
                    0 <= i < j < problems@.len() implies problems@[i] != problems@[j] by {
                    if j == pre.len() {
                        if pre[i] == problem {
                            assert(pre.contains(problem));
                        }
                    }
                }
            }
        }
        iterations = iterations + 1;
    }
    Ok(problems)
}

/// Decode an operation flag byte into the list of enabled operations, in the
/// fixed order addition, subtraction, multiplication, division.
pub open spec fn flag_operations(flags: u8) -> Seq<Operation> {
    (if flags & FLAG_ADDITION > 0 {
        seq![Operation::Addition]
    } else {
        Seq::empty()
    }) + (if flags & FLAG_SUBTRACTION > 0 {
        seq![Operation::Subtraction]
    } else {
        Seq::empty()
    }) + (if flags & FLAG_MULTIPLICATION > 0 {
        seq![Operation::Multiplication]
    } else {
        Seq::empty()
    }) + (if flags & FLAG_DIVISION > 0 {
        seq![Operation::Division]
    } else {
        Seq::empty()
    })
}

/// The list of operations an operation flag byte enables.
pub fn get_operations(flags: u8) -> (ops: Vec<Operation>)
    ensures
        ops@ == flag_operations(flags),
{
    let mut ops: Vec<Operation> = Vec::new();

    if flags & FLAG_ADDITION > 0 {
        ops.push(Operation::Addition);
    }
    if flags & FLAG_SUBTRACTION > 0 {
        ops.push(Operation::Subtraction);
    }
    if flags & FLAG_MULTIPLICATION > 0 {
        ops.push(Operation::Multiplication);
    }
    if flags & FLAG_DIVISION > 0 {
        ops.push(Operation::Division);
    }

    proof {
        assert(ops@ =~= flag_operations(flags));
    }
    ops
}

/// When only addition over `max == 2` is admissible, the space of valid
/// problems has the single point `(1, 1)`, so any sequence of distinct valid
/// problems holds at most one entry: requesting more unique problems than the
/// parameter space admits yields a shorter list, never an error.
pub proof fn lemma_addition_space_exhausted(s: Seq<Problem>, opts: Options)
    requires
        opts.max == 2,
        distinct_problems(s),
        forall|i: int|
            0 <= i < s.len() ==> (#[trigger] s[i]).operation == Operation::Addition
                && problem_valid(s[i], opts),
    ensures
        s.len() <= 1,
{
    if s.len() >= 2 {
        assert(s[0].x == 1 && s[0].y == 1);
        assert(s[1].x == 1 && s[1].y == 1);
        assert(s[0] == s[1]);
    }
}

} // verus!
