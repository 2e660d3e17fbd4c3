//! An evaluator for a minimal combinator calculus on binary trees of
//! natural numbers. A computation is a pair `[subject formula]`; a single
//! recursive rewrite function reduces it to a result tree.

pub mod eval;
pub mod laws;
pub mod number;
pub mod noun;

pub use eval::NockError;
pub use eval::nock;
pub use eval::simple_eval;
pub use eval::tar;
pub use eval::fas;
pub use eval::lus;
pub use eval::tar_fuel;
pub use eval::tis;
pub use eval::wut;
pub use number::Number;
pub use noun::Noun;
pub use noun::NounV;
pub use noun::atom;
pub use noun::cell;
