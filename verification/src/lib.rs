//! A key/value storage item for slab-based ordered containers, together with
//! the address handle by which a container names an item's location.
//!
//! * [`addr`] holds [`ItemAddr`], a node identifier and an offset, with one
//!   reserved "nowhere" value, and its textual form.
//! * [`slot`] holds [`Slot`], a storage place that is either filled or vacant.
//! * [`item`] holds [`Item`], an owned key with a value slot, compared by key
//!   alone.

pub mod addr;
pub mod item;
pub mod slot;

pub use addr::ItemAddr;
pub use item::{Item, ItemView};
pub use slot::Slot;
