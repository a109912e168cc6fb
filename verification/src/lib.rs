//! Values held at a fixed place, the two small capabilities that work through
//! handles on them, and a wrapper that times an asynchronous operation.

pub mod fixed;
pub mod measurable_future;
pub mod mut_me_blanket;
pub mod mut_me_somehow;
pub mod say_hi;
pub mod text;
