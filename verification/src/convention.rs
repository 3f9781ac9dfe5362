//! Calling-convention selection.  The function-pointer type of every vtable
//! slot carries a calling convention, chosen once per build target: 32-bit
//! x86 distinguishes the C++ member-call convention (receiver in a register)
//! from the COM convention (receiver on the stack), while 64-bit targets use
//! one unified convention with the receiver as an explicit leading parameter.

use vstd::prelude::*;

verus! {

/// The convention an interface declaration asks for.
#[derive(Clone, Copy, Debug, PartialEq, Eq, Structural)]
pub enum CallingConvention {
    /// C++ member call: receiver in a dedicated register on 32-bit x86.
    Thiscall,
    /// COM style: receiver on the stack on 32-bit x86.
    Stdcall,
}

/// Word size of the build target.
#[derive(Clone, Copy, Debug, PartialEq, Eq, Structural)]
pub enum WordSize {
    /// 32-bit target: pointers are 4 bytes wide.
    Bits32,
    /// 64-bit target: pointers are 8 bytes wide.
    Bits64,
}

/// The convention actually emitted into the function-pointer types.
#[derive(Clone, Copy, Debug, PartialEq, Eq, Structural)]
pub enum ConventionTag {
    /// 32-bit receiver-in-register member call.
    Thiscall,
    /// 32-bit receiver-on-stack call.
    Stdcall,
    /// The single 64-bit convention; the preference makes no difference
    /// there.
    Unified,
}

/// The convention emitted for a given preference and target word size: the
/// preference itself on a 32-bit target, the unified convention on a 64-bit
/// one.
pub open spec fn spec_selected_convention(
    preference: CallingConvention,
    word_size: WordSize,
) -> ConventionTag {
    match word_size {
        WordSize::Bits32 => match preference {
            CallingConvention::Thiscall => ConventionTag::Thiscall,
            CallingConvention::Stdcall => ConventionTag::Stdcall,
        },
        WordSize::Bits64 => ConventionTag::Unified,
    }
}

/// Choose the calling convention for one build target.
pub fn select_convention(preference: CallingConvention, word_size: WordSize) -> (r: ConventionTag)
    ensures
        r == spec_selected_convention(preference, word_size),
{
    match word_size {
        WordSize::Bits32 => match preference {
            CallingConvention::Thiscall => ConventionTag::Thiscall,
            CallingConvention::Stdcall => ConventionTag::Stdcall,
        },
        WordSize::Bits64 => ConventionTag::Unified,
    }
}

/// Pointer width of the target, in bytes.
pub fn pointer_size(word_size: WordSize) -> (r: usize)
    ensures
        r == spec_pointer_size(word_size),
{
    match word_size {
        WordSize::Bits32 => 4,
        WordSize::Bits64 => 8,
    }
}

/// Pointer width of the target, in bytes.
pub open spec fn spec_pointer_size(word_size: WordSize) -> usize {
    match word_size {
        WordSize::Bits32 => 4usize,
        WordSize::Bits64 => 8usize,
    }
}

/// The name the 32-bit x86 convention goes by in source text.
pub fn x86_convention_name(preference: CallingConvention) -> (r: &'static str)
    ensures
        preference == CallingConvention::Thiscall ==> r@ == "thiscall"@,
        preference == CallingConvention::Stdcall ==> r@ == "stdcall"@,
{
    match preference {
        CallingConvention::Thiscall => "thiscall",
        CallingConvention::Stdcall => "stdcall",
    }
}

} // verus!
