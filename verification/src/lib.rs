//! Generates printable arithmetic worksheets: a set of unique math problems
//! over the four basic operations, laid out on a two-column page grid.

pub mod error;
pub mod layout;
pub mod rng;
pub mod text;

mod generate;
mod model;

pub use generate::distinct_problems;
pub use generate::flag_operations;
pub use generate::generate_problems;
pub use generate::get_operations;
pub use generate::lemma_addition_space_exhausted;
pub use generate::op_feasible;
pub use generate::options_feasible;
pub use generate::FLAG_ADDITION;
pub use generate::FLAG_DIVISION;
pub use generate::FLAG_MULTIPLICATION;
pub use generate::FLAG_SUBTRACTION;
pub use model::lemma_problem_equality;
pub use model::op_symbol;
pub use model::parse_op;
pub use model::problem_display;
pub use model::problem_renderable;
pub use model::problem_result;
pub use model::problem_valid;
pub use model::Operation;
pub use model::Options;
pub use model::Problem;
