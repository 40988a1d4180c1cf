//! A small algebra of structural differences ("patches").
//!
//! Every participating type implements [`Patchable`]: `produce` compares two
//! values and returns an optional patch, `apply` replays a patch onto a value
//! in place. Scalar types patch by whole-value replacement, an optional value
//! patches through a three-way variant over presence transitions, and a record
//! patches field by field through an ordered sequence of tagged entries.

pub mod patchable;
pub mod boxed;
pub mod leaf;
pub mod option;
pub mod naming;
pub mod record;

pub use patchable::{PatchError, Patchable};
pub use option::{OptionPatch, OptionPatchError};
pub use record::{Test, TestPatch, TestPatchError};
pub use naming::get_name;
