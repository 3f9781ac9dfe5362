//! The abstract interface description the generator consumes, and the
//! build-time validation that rejects declarations no cross-boundary call
//! could carry.

use vstd::prelude::*;

verus! {

/// The shape of a parameter or return type as the cross-boundary type check
/// sees it: only the outermost constructor, or the final path segment of a
/// named type, decides whether a value can cross the boundary.
#[derive(Clone, Copy, Debug, PartialEq, Eq, Structural)]
pub enum AbiType {
    /// An owned `String`: rejected.
    OwnedString,
    /// An owned `Vec`: rejected.
    OwnedVec,
    /// An owned `Box`: rejected.
    OwnedBox,
    /// An `Rc` or `Arc`: rejected.
    RefCounted,
    /// An `Option`: allowed (niche-optimised forms are safe; the rest is the
    /// caller's responsibility).
    OptionType,
    /// A `Result`: rejected; error codes or out-parameters cross instead.
    ResultType,
    /// A bare `str`: rejected.
    BareStr,
    /// Any other named type (an integer, a pointer-sized handle, a
    /// `repr(C)` struct): allowed.
    NamedOther,
    /// A raw pointer, `*const T` or `*mut T`: allowed.
    RawPtr,
    /// A shared reference `&T`: rejected; the other side will not uphold
    /// Rust's aliasing guarantees.
    SharedRef,
    /// An exclusive reference `&mut T`: rejected for the same reason.
    ExclusiveRef,
    /// A slice `[T]`: rejected.
    SliceType,
    /// A `dyn Trait` object: rejected.
    TraitObject,
    /// An `impl Trait` type: rejected.
    ImplTrait,
    /// A tuple of the given arity; only the empty tuple is allowed.
    Tuple { arity: usize },
    /// Anything else (an array, a function pointer, a macro type): allowed.
    Other,
}

/// Why a type was rejected by the cross-boundary check.
#[derive(Clone, Copy, Debug, PartialEq, Eq, Structural)]
pub enum FfiViolation {
    /// `String` crossed; raw bytes and a length should cross instead.
    StringNotFfiSafe,
    /// `Vec` crossed; a pointer and a length should cross instead.
    VecNotFfiSafe,
    /// `Box` crossed; a raw pointer should cross instead.
    BoxNotFfiSafe,
    /// `Rc`/`Arc` crossed; a raw pointer should cross instead.
    RefCountedNotFfiSafe,
    /// `Result` crossed; a result code or out-parameter should cross instead.
    ResultNotFfiSafe,
    /// A bare `str` crossed.
    StrNotFfiSafe,
    /// A reference crossed; `mutable` records whether it was `&mut`.
    ReferenceNotFfiSafe { mutable: bool },
    /// A slice crossed.
    SliceNotFfiSafe,
    /// A `dyn Trait` object crossed.
    TraitObjectNotFfiSafe,
    /// An `impl Trait` type crossed.
    ImplTraitNotFfiSafe,
    /// A non-empty tuple crossed; a `repr(C)` struct should cross instead.
    TupleNotFfiSafe,
}

/// The verdict of the cross-boundary check on one type shape.
pub open spec fn spec_ffi_violation(ty: AbiType) -> Option<FfiViolation> {
    match ty {
        AbiType::OwnedString => Some(FfiViolation::StringNotFfiSafe),
        AbiType::OwnedVec => Some(FfiViolation::VecNotFfiSafe),
        AbiType::OwnedBox => Some(FfiViolation::BoxNotFfiSafe),
        AbiType::RefCounted => Some(FfiViolation::RefCountedNotFfiSafe),
        AbiType::OptionType => None,
        AbiType::ResultType => Some(FfiViolation::ResultNotFfiSafe),
        AbiType::BareStr => Some(FfiViolation::StrNotFfiSafe),
        AbiType::NamedOther => None,
        AbiType::RawPtr => None,
        AbiType::SharedRef => Some(FfiViolation::ReferenceNotFfiSafe { mutable: false }),
        AbiType::ExclusiveRef => Some(FfiViolation::ReferenceNotFfiSafe { mutable: true }),
        AbiType::SliceType => Some(FfiViolation::SliceNotFfiSafe),
        AbiType::TraitObject => Some(FfiViolation::TraitObjectNotFfiSafe),
        AbiType::ImplTrait => Some(FfiViolation::ImplTraitNotFfiSafe),
        AbiType::Tuple { arity } => if arity == 0 {
            None
        } else {
            Some(FfiViolation::TupleNotFfiSafe)
        },
        AbiType::Other => None,
    }
}

/// Check one type shape for cross-boundary safety.
pub fn check_ffi_safe_type(ty: &AbiType) -> (r: Result<(), FfiViolation>)
    ensures
        r is Ok <==> spec_ffi_violation(*ty) is None,
        r matches Err(v) ==> spec_ffi_violation(*ty) == Some(v),
{
    match *ty {
        AbiType::OwnedString => Err(FfiViolation::StringNotFfiSafe),
        AbiType::OwnedVec => Err(FfiViolation::VecNotFfiSafe),
        AbiType::OwnedBox => Err(FfiViolation::BoxNotFfiSafe),
        AbiType::RefCounted => Err(FfiViolation::RefCountedNotFfiSafe),
        AbiType::OptionType => Ok(()),
        AbiType::ResultType => Err(FfiViolation::ResultNotFfiSafe),
        AbiType::BareStr => Err(FfiViolation::StrNotFfiSafe),
        AbiType::NamedOther => Ok(()),
        AbiType::RawPtr => Ok(()),
        AbiType::SharedRef => Err(FfiViolation::ReferenceNotFfiSafe { mutable: false }),
        AbiType::ExclusiveRef => Err(FfiViolation::ReferenceNotFfiSafe { mutable: true }),
        AbiType::SliceType => Err(FfiViolation::SliceNotFfiSafe),
        AbiType::TraitObject => Err(FfiViolation::TraitObjectNotFfiSafe),
        AbiType::ImplTrait => Err(FfiViolation::ImplTraitNotFfiSafe),
        AbiType::Tuple { arity } => if arity == 0 {
            Ok(())
        } else {
            Err(FfiViolation::TupleNotFfiSafe)
        },
        AbiType::Other => Ok(()),
    }
}

/// How a method receives `self`.
#[derive(Clone, Copy, Debug, PartialEq, Eq, Structural)]
pub enum Receiver {
    /// `self` by value: rejected, the this pointer must stay a pointer.
    ByValue,
    /// `&self`.
    Shared,
    /// `&mut self`.
    Exclusive,
}

/// One method of an interface declaration.
#[derive(Clone, Debug, PartialEq, Eq)]
pub struct MethodDecl {
    /// Explicit vtable slot index, if the declaration pins one.
    pub declared_slot: Option<usize>,
    /// The receiver, or `None` when the method declares no `self` at all.
    pub receiver: Option<Receiver>,
    /// Whether the method is declared `async`.
    pub is_async: bool,
    /// Whether the method declares its own generic parameters.
    pub is_generic: bool,
    /// Parameter type shapes, `self` excluded.
    pub params: Vec<AbiType>,
    /// Return type shape; `None` for `()` written as no return type.
    pub ret: Option<AbiType>,
}

/// Why a method declaration was rejected at build time.
#[derive(Clone, Copy, Debug, PartialEq, Eq, Structural)]
pub enum MethodError {
    /// `async fn` cannot sit in a vtable.
    AsyncMethod,
    /// A generic method has no single slot.
    GenericMethod,
    /// No `self`: a vtable method needs a this pointer.
    MissingReceiver,
    /// `self` by value is not a this pointer.
    ReceiverByValue,
    /// A parameter type cannot cross the boundary.
    UnsafeParam { param_index: usize, violation: FfiViolation },
    /// The return type cannot cross the boundary.
    UnsafeReturn { violation: FfiViolation },
}

/// The first parameter (in declaration order) whose type the boundary check
/// rejects, if any.
pub open spec fn spec_first_bad_param(params: Seq<AbiType>) -> Option<int>
    decreases params.len(),
{
    if params.len() == 0 {
        None
    } else if spec_ffi_violation(params[0]) is Some {
        Some(0int)
    } else {
        match spec_first_bad_param(params.drop_first()) {
            Some(i) => Some(i + 1),
            None => None,
        }
    }
}

/// The verdict of build-time validation on one method declaration, checks in
/// the order the generator applies them: `async`, generics, receiver
/// presence, receiver mode, parameters left to right, then the return type.
pub open spec fn spec_method_error(m: MethodDecl) -> Option<MethodError> {
    if m.is_async {
        Some(MethodError::AsyncMethod)
    } else if m.is_generic {
        Some(MethodError::GenericMethod)
    } else if m.receiver is None {
        Some(MethodError::MissingReceiver)
    } else if m.receiver == Some(Receiver::ByValue) {
        Some(MethodError::ReceiverByValue)
    } else {
        match spec_first_bad_param(m.params@) {
            Some(i) => Some(
                MethodError::UnsafeParam {
                    param_index: i as usize,
                    violation: spec_ffi_violation(m.params@[i])->Some_0,
                },
            ),
            None => match m.ret {
                Some(t) => match spec_ffi_violation(t) {
                    Some(v) => Some(MethodError::UnsafeReturn { violation: v }),
                    None => None,
                },
                None => None,
            },
        }
    }
}

/// A method declaration is valid when no check rejects it.
pub open spec fn spec_method_valid(m: MethodDecl) -> bool {
    spec_method_error(m) is None
}

/// Validate one method declaration for vtable compatibility.
pub fn validate_method(m: &MethodDecl) -> (r: Result<(), MethodError>)
    ensures
        r is Ok <==> spec_method_valid(*m),
        r matches Err(e) ==> spec_method_error(*m) == Some(e),
{
    if m.is_async {
        return Err(MethodError::AsyncMethod);
    }
    if m.is_generic {
        return Err(MethodError::GenericMethod);
    }
    match m.receiver {
        None => {
            return Err(MethodError::MissingReceiver);
        },
        Some(Receiver::ByValue) => {
            return Err(MethodError::ReceiverByValue);
        },
        Some(_) => {},
    }
    let mut i: usize = 0;
    while i < m.params.len()
        invariant
            i <= m.params@.len(),
            forall|j: int| 0 <= j < i ==> spec_ffi_violation(m.params@[j]) is None,
            !m.is_async,
            !m.is_generic,
            m.receiver is Some,
            m.receiver != Some(Receiver::ByValue),
        decreases m.params@.len() - i,
    {
        if let Err(v) = check_ffi_safe_type(&m.params[i]) {
            proof {
                lemma_first_bad_param_at(m.params@, i as int);
            }
            return Err(MethodError::UnsafeParam { param_index: i, violation: v });
        }
        i += 1;
    }
    proof {
        lemma_first_bad_param_none(m.params@);
    }
    if let Some(t) = &m.ret {
        if let Err(v) = check_ffi_safe_type(t) {
            return Err(MethodError::UnsafeReturn { violation: v });
        }
    }
    Ok(())
}

/// The first method (in declaration order) that validation rejects, if any.
pub open spec fn spec_first_invalid_method(methods: Seq<MethodDecl>) -> Option<int>
    decreases methods.len(),
{
    if methods.len() == 0 {
        None
    } else if spec_method_error(methods[0]) is Some {
        Some(0int)
    } else {
        match spec_first_invalid_method(methods.drop_first()) {
            Some(i) => Some(i + 1),
            None => None,
        }
    }
}

/// Every method of a declaration list is valid.
pub open spec fn spec_methods_valid(methods: Seq<MethodDecl>) -> bool {
    forall|i: int| 0 <= i < methods.len() ==> spec_method_valid(#[trigger] methods[i])
}

/// Validate every method of a declaration list, in order; the error names the
/// first offending method.
pub fn validate_methods(methods: &Vec<MethodDecl>) -> (r: Result<(), (usize, MethodError)>)
    ensures
        r is Ok <==> spec_methods_valid(methods@),
        r matches Err((i, e)) ==> spec_first_invalid_method(methods@) == Some(i as int)
            && spec_method_error(methods@[i as int]) == Some(e),
{
    let mut i: usize = 0;
    while i < methods.len()
        invariant
            i <= methods@.len(),
            forall|j: int| 0 <= j < i ==> spec_method_valid(#[trigger] methods@[j]),
        decreases methods@.len() - i,
    {
        if let Err(e) = validate_method(&methods[i]) {
            proof {
                lemma_first_invalid_method_at(methods@, i as int);
            }
            return Err((i, e));
        }
        i += 1;
    }
    Ok(())
}

/// When every method before `i` is valid and the one at `i` is not, `i` is
/// the first invalid method.
proof fn lemma_first_invalid_method_at(methods: Seq<MethodDecl>, i: int)
    requires
        0 <= i < methods.len(),
        forall|j: int| 0 <= j < i ==> spec_method_valid(#[trigger] methods[j]),
        !spec_method_valid(methods[i]),
    ensures
        spec_first_invalid_method(methods) == Some(i),
    decreases i,
{
    if i == 0 {
    } else {
        assert(methods.drop_first()[i - 1] == methods[i]);
        assert(forall|j: int|
            0 <= j < i - 1 ==> methods.drop_first()[j] == methods[j + 1] && spec_method_valid(
                #[trigger] methods.drop_first()[j],
            ));
        lemma_first_invalid_method_at(methods.drop_first(), i - 1);
    }
}

/// When every parameter before `i` passes the boundary check and the one at
/// `i` fails it, `i` is the first bad parameter.
proof fn lemma_first_bad_param_at(params: Seq<AbiType>, i: int)
    requires
        0 <= i < params.len(),
        forall|j: int| 0 <= j < i ==> spec_ffi_violation(params[j]) is None,
        spec_ffi_violation(params[i]) is Some,
    ensures
        spec_first_bad_param(params) == Some(i),
    decreases i,
{
    if i == 0 {
    } else {
        assert(params.drop_first()[i - 1] == params[i]);
        assert(forall|j: int|
            0 <= j < i - 1 ==> params.drop_first()[j] == params[j + 1]
                && spec_ffi_violation(#[trigger] params.drop_first()[j]) is None);
        lemma_first_bad_param_at(params.drop_first(), i - 1);
    }
}

/// When every parameter passes the boundary check, there is no first bad one.
proof fn lemma_first_bad_param_none(params: Seq<AbiType>)
    requires
        forall|j: int| 0 <= j < params.len() ==> spec_ffi_violation(params[j]) is None,
    ensures
        spec_first_bad_param(params) is None,
    decreases params.len(),
{
    if params.len() > 0 {
        assert(forall|j: int|
            0 <= j < params.drop_first().len() ==> #[trigger] params.drop_first()[j] == params[j
                + 1]);
        lemma_first_bad_param_none(params.drop_first());
    }
}

} // verus!
