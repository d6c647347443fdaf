//! Small, self-contained exercises in verified Rust: printable record
//! types behind a capability trait, a blanket implementation that wraps
//! any printable value in decorative markup, queues of printable items,
//! squaring computations, a shared counter, and string-slicing helpers.

pub mod counter;
pub mod printing;
pub mod queues;
pub mod squares;
pub mod text;
