//! A verified model of an MSVC-ABI vtable generator.
//!
//! Given an abstract interface description (an ordered method list, each
//! method optionally pinned to an explicit vtable slot), the library computes
//! the artifacts a native C++ compiler would agree on: the resolved slot
//! table with reserved gap entries, the vtable record layout (base record
//! first, then function-pointer fields in ascending slot order), the calling
//! convention for the build target, the this-adjustment trampolines for each
//! (struct, interface) implementation pair, and the runtime type metadata
//! that backs interface-to-interface casts.
//!
//! A COM layer sits on top: a 128-bit GUID with its canonical string form,
//! COM result codes, an IUnknown base of three slots, a reference counter,
//! and the query-interface rules.

pub mod com;
pub mod convention;
pub mod decl;
pub mod demo;
pub mod generate;
pub mod guid;
pub mod layout;
pub mod rtti;
pub mod slots;
pub mod vtable;
