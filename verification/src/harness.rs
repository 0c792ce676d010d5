//! Proof harnesses: what the attributes of a function make of the harness
//! registry and of the diagnostics.

use crate::attributes::{
    integer_argument, kanitool_name, proof_marker, unwind_modifier, AttributeView,
};
use crate::metadata::{error_at, DiagnosticView, HarnessView};
use crate::mir::InstanceView;
use crate::names::decimal;
use vstd::prelude::*;

verus! {

/// The attributes of `attrs` that bear the name `name` within the tool
/// namespace, in the order in which they are written.
pub open spec fn named(attrs: Seq<AttributeView>, name: Seq<char>) -> Seq<AttributeView>
    decreases attrs.len(),
{
    if attrs.len() == 0 {
        Seq::empty()
    } else {
        let before = named(attrs.drop_last(), name);
        if kanitool_name(attrs.last()) == Some(name) {
            before.push(attrs.last())
        } else {
            before
        }
    }
}

/// The attributes that mark a proof harness.
pub open spec fn proof_markers(attrs: Seq<AttributeView>) -> Seq<AttributeView> {
    named(attrs, proof_marker())
}

/// The attributes that bound unwinding.
pub open spec fn unwind_modifiers(attrs: Seq<AttributeView>) -> Seq<AttributeView> {
    named(attrs, unwind_modifier())
}

/// The harness that a function is, before any modifier is applied.
pub open spec fn harness_of(inst: InstanceView) -> HarnessView {
    HarnessView {
        pretty_name: inst.readable_name,
        mangled_name: inst.name,
        original_file: inst.mir.span.file,
        original_line: decimal(inst.mir.span.line as nat),
        unwind_value: None,
    }
}

/// Said of a function with more than one proof marker.
pub open spec fn only_one_proof_message() -> Seq<char> {
    "Only one Proof Attribute allowed"@
}

/// Said of a function with a modifier and no proof marker.
pub open spec fn proof_missing_message() -> Seq<char> {
    "Please use '#kani[proof]' above the annotation"@
}

/// Said of an unwind modifier whose arguments are not exactly one integer.
pub open spec fn unwind_argument_message() -> Seq<char> {
    "Exactly one Unwind Argument as Integer accepted"@
}

/// Said of an unwind modifier on a harness that has its bound already.
pub open spec fn unwind_repeated_message() -> Seq<char> {
    "Use only one Unwind Annotation per Harness"@
}

/// The modifier `attr` can be applied to a harness whose bound is `current`: if
/// it is to set the bound, the bound fits 32 bits.
pub open spec fn unwind_fits(current: Option<u32>, attr: AttributeView) -> bool {
    current is None ==> match integer_argument(attr) {
        Some(v) => v <= u32::MAX,
        None => true,
    }
}

/// The bound of a harness after the modifier `attr`: the first bound given stays.
pub open spec fn unwind_step(current: Option<u32>, attr: AttributeView) -> Option<u32> {
    match current {
        Some(v) => Some(v),
        None => match integer_argument(attr) {
            Some(v) => Some(v as u32),
            None => None,
        },
    }
}

/// What there is to say of the modifier `attr` on a harness whose bound is
/// `current`: nothing where it sets the bound.
pub open spec fn unwind_complaint(current: Option<u32>, attr: AttributeView) -> Option<
    DiagnosticView,
> {
    match current {
        Some(_) => Some(error_at(attr.span, unwind_repeated_message())),
        None => match integer_argument(attr) {
            Some(_) => None,
            None => Some(error_at(attr.span, unwind_argument_message())),
        },
    }
}

/// The bound of a harness after the first `n` of `mods`.
pub open spec fn unwind_after(mods: Seq<AttributeView>, n: nat) -> Option<u32>
    decreases n,
{
    if n == 0 {
        None
    } else {
        unwind_step(unwind_after(mods, (n - 1) as nat), mods[n - 1])
    }
}

/// What there is to say of the first `n` of `mods`, in order.
pub open spec fn unwind_complaints(mods: Seq<AttributeView>, n: nat) -> Seq<DiagnosticView>
    decreases n,
{
    if n == 0 {
        Seq::empty()
    } else {
        let before = unwind_complaints(mods, (n - 1) as nat);
        match unwind_complaint(unwind_after(mods, (n - 1) as nat), mods[n - 1]) {
            Some(d) => before.push(d),
            None => before,
        }
    }
}

/// Each of the first `n` of `mods` can be applied in its turn.
pub open spec fn unwind_values_fit(mods: Seq<AttributeView>, n: nat) -> bool
    decreases n,
{
    n == 0 || (unwind_values_fit(mods, (n - 1) as nat) && unwind_fits(
        unwind_after(mods, (n - 1) as nat),
        mods[n - 1],
    ))
}

/// The attributes can be handled: where they make a harness, each unwind
/// modifier can be applied in its turn.
pub open spec fn attributes_are_applicable(attrs: Seq<AttributeView>) -> bool {
    proof_markers(attrs).len() == 1 ==> unwind_values_fit(
        unwind_modifiers(attrs),
        unwind_modifiers(attrs).len(),
    )
}

/// The harness that the function is, all modifiers applied.
pub open spec fn harness_with_modifiers(inst: InstanceView) -> HarnessView {
    let mods = unwind_modifiers(inst.attrs);
    HarnessView { unwind_value: unwind_after(mods, mods.len()), ..harness_of(inst) }
}

/// The registry after the attributes of `inst`: one harness more where the
/// function has exactly one proof marker, else unchanged.
pub open spec fn harnesses_after_attributes(
    harnesses: Seq<HarnessView>,
    inst: InstanceView,
) -> Seq<HarnessView> {
    if proof_markers(inst.attrs).len() == 1 {
        harnesses.push(harness_with_modifiers(inst))
    } else {
        harnesses
    }
}

/// The diagnostics after the attributes of `inst`.
pub open spec fn diagnostics_after_attributes(
    diagnostics: Seq<DiagnosticView>,
    inst: InstanceView,
) -> Seq<DiagnosticView> {
    let markers = proof_markers(inst.attrs);
    let mods = unwind_modifiers(inst.attrs);
    if markers.len() == 1 {
        diagnostics + unwind_complaints(mods, mods.len())
    } else if markers.len() > 1 {
        diagnostics.push(error_at(markers[0].span, only_one_proof_message()))
    } else if mods.len() > 0 {
        diagnostics.push(error_at(mods[0].span, proof_missing_message()))
    } else {
        diagnostics
    }
}

/// The attributes at the places `indices` of `attrs`.
pub open spec fn picked(attrs: Seq<AttributeView>, indices: Seq<usize>) -> Seq<AttributeView> {
    Seq::new(indices.len(), |i: int| attrs[indices[i] as int])
}

} // verus!
