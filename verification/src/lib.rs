//! Guards for values that may be absent.
//!
//! A guard looks at a value that either carries a payload or carries none. Where the
//! payload is there, the guard hands it out and evaluation proceeds. Where it is not,
//! the guard names the way out instead: a return from the enclosing function, the next
//! iteration of an enclosing loop, or the end of one.
//!
//! - [`normalize`] holds [`TryAsOption`], by which a value says whether it is present.
//!   `Option` and `Result` have it, and any other type can.
//! - [`guard`] holds the guards. Each returns its decision as a [`Flow`], and the code
//!   that called it takes the way out where the decision is one:
//!
//!   ```text
//!   let price = match try_return(lookup(item), 0) {
//!       Flow::Proceed(price) => price,
//!       Flow::Divert(_) => return 0,
//!   };
//!   ```
//! - [`scope`] says what a decision means for the code around the guard, and runs
//!   function bodies and loops that are written as closures by that meaning.

pub mod guard;
pub mod normalize;
pub mod scope;

pub use guard::{
    try_break, try_break_to, try_continue, try_continue_to, try_or, try_return, try_return_unit,
    try_return_with, Diversion, Flow, Label, Target,
};
pub use normalize::TryAsOption;
pub use scope::{run_loop, LoopRun, Step};
