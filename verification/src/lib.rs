//! Unsizing coercions, modelled and verified.
//!
//! A pointer to a value of fixed layout converts to a pointer to a value of
//! dynamic shape: an array to a sequence of unknown length, a concrete value to
//! a polymorphic one. The pointer that results is wide: beside the address it
//! carries descriptor metadata, an element count or a dispatch table, and the
//! two must describe one and the same object.
//!
//! Pointers are values here: an address into a [`memory::Memory`] and the
//! metadata of the pointee's shape ([`pointee`], [`pointer`]). How the metadata
//! of a target is had from a source is classified in four tiers ([`unsize`]);
//! which tier a pointer kind or wrapper asks for, and what the conversion
//! yields, is in [`coerce_unsized`]; the way back from a polymorphic handle to
//! the concrete pointer is in [`dispatch_from_dyn`]. Every instance of a tier
//! proves that the metadata it hands out describes the object at the address
//! it hands out. [`polymorphic`], [`text`] and [`thin_vec`] hold further shapes, and
//! [`laws`] what holds of the conversions together.
pub mod coerce_unsized;
pub mod dispatch_from_dyn;
pub mod laws;
pub mod memory;
pub mod pointee;
pub mod pointer;
pub mod polymorphic;
pub mod text;
pub mod thin_vec;
pub mod unsize;
