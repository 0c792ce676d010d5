//! What holds of translation across calls and for every state of a pass.

use crate::context::CtxView;
use crate::filter::{is_unsupported_name, rule_matches, skip_rules};
use crate::goto::{StmtView, SymbolView};
use crate::harness::attributes_are_applicable;
use crate::metadata::warning_at;
use crate::mir::InstanceView;
use crate::names::{
    lemma_spread_names_distinct, lemma_var_and_spread_names_distinct, lemma_var_names_distinct,
    var_name,
};
use crate::prelude::{
    first_spread_index, spread_components, spread_is_consistent, spread_param_symbol,
    symbols_after_prelude, symbols_with_spread_params,
};
use crate::translation::{
    can_codegen, codegen_function_spec, declare_function_spec, double_codegen_message,
    fatal_unsupported, is_translated, lemma_locals_keep, stub_body, symbols_after_translation,
    translated_body,
};
use crate::variables::{is_materialized, local_symbol, symbols_with_locals};
use vstd::prelude::*;

verus! {

/// A name that a rule of the filter table flags is the name of an unsupported
/// function, whichever rule it is and whatever its kind.
pub proof fn lemma_flagged_name_is_unsupported(name: Seq<char>, i: int)
    requires
        0 <= i < skip_rules().len(),
        rule_matches(skip_rules()[i], name),
    ensures
        is_unsupported_name(name),
{
}

/// Translating a declared function gives it its body; where the filter does not
/// flag it, the translated one. Translating it once more leaves the table and
/// the registry as they are and records one warning.
pub proof fn lemma_translate_once_then_again(
    ctx: CtxView,
    inst: InstanceView,
    blocks: Seq<Seq<StmtView>>,
    blocks_again: Seq<Seq<StmtView>>,
)
    requires
        can_codegen(ctx, inst),
        ctx.symbols[inst.name].body is None,
    ensures
        ({
            let once = codegen_function_spec(ctx, inst, blocks);
            let twice = codegen_function_spec(once, inst, blocks_again);
            &&& once.symbols.contains_key(inst.name)
            &&& once.symbols[inst.name].is_function_definition()
            &&& !is_unsupported_name(inst.readable_name) ==> once.symbols[inst.name].body == Some(
                translated_body(inst, blocks),
            )
            &&& can_codegen(once, inst)
            &&& !is_translated(once, inst)
            &&& twice.symbols == once.symbols
            &&& twice.harnesses == once.harnesses
            &&& twice.diagnostics == once.diagnostics.push(
                warning_at(once.symbols[inst.name].location, double_codegen_message(inst.name)),
            )
            &&& twice.current_fn is None
        }),
{
}

/// A function that the filter flags has none of its basic blocks translated. It
/// gets the stub as its body, which is the one statement that fails with the
/// function's display name, whatever the block translator would have made of
/// its blocks; no other symbol is touched.
pub proof fn lemma_unsupported_function_is_stubbed(
    ctx: CtxView,
    inst: InstanceView,
    blocks: Seq<Seq<StmtView>>,
)
    requires
        can_codegen(ctx, inst),
        ctx.symbols[inst.name].body is None,
        is_unsupported_name(inst.readable_name),
    ensures
        ({
            let after = codegen_function_spec(ctx, inst, blocks);
            &&& !is_translated(ctx, inst)
            &&& after == codegen_function_spec(ctx, inst, Seq::empty())
            &&& after.symbols == ctx.symbols.insert(
                inst.name,
                ctx.symbols[inst.name].with_body(stub_body(inst)),
            )
            &&& after.symbols[inst.name].body == Some(stub_body(inst))
            &&& stub_body(inst).stmts == seq![fatal_unsupported(inst)]
        }),
{
}

/// A function that has been declared, and not yet translated, is in the table
/// without a body; once translated it is there with a body, under the type with
/// which it was declared.
pub proof fn lemma_declare_then_define(
    ctx: CtxView,
    inst: InstanceView,
    blocks: Seq<Seq<StmtView>>,
)
    requires
        ctx.current_fn is None,
        !ctx.symbols.contains_key(inst.name),
        inst.fn_typ is Code,
        !is_unsupported_name(inst.readable_name) ==> spread_is_consistent(inst),
        attributes_are_applicable(inst.attrs),
    ensures
        ({
            let declared = declare_function_spec(ctx, inst);
            let defined = codegen_function_spec(declared, inst, blocks);
            &&& declared.symbols.contains_key(inst.name)
            &&& declared.symbols[inst.name].body is None
            &&& can_codegen(declared, inst)
            &&& defined.symbols.contains_key(inst.name)
            &&& defined.symbols[inst.name].body is Some
            &&& defined.symbols[inst.name].typ == inst.fn_typ
        }),
{
}

/// Declaring a function twice is declaring it once.
pub proof fn lemma_declare_is_idempotent(ctx: CtxView, inst: InstanceView)
    ensures
        declare_function_spec(declare_function_spec(ctx, inst), inst) == declare_function_spec(
            ctx,
            inst,
        ),
{
}

/// Among the first `n` slots, each one that the materialiser handles is in the
/// table under its own name, with its own symbol: no later slot has taken its
/// place.
pub proof fn lemma_local_has_its_symbol(
    symbols: Map<Seq<char>, SymbolView>,
    inst: InstanceView,
    n: nat,
    i: nat,
)
    requires
        i < n,
        is_materialized(inst.mir, i as int),
    ensures
        symbols_with_locals(symbols, inst, n).contains_key(var_name(inst.name, i)),
        symbols_with_locals(symbols, inst, n)[var_name(inst.name, i)] == local_symbol(
            inst,
            i as int,
        ),
    decreases n,
{
    if i + 1 < n {
        lemma_local_has_its_symbol(symbols, inst, (n - 1) as nat, i);
        lemma_var_names_distinct(inst.name, i, (n - 1) as nat);
    }
}

/// Among the first `n` spread parameters, each is in the table under its own
/// name, with its own symbol.
pub proof fn lemma_spread_param_has_its_symbol(
    symbols: Map<Seq<char>, SymbolView>,
    inst: InstanceView,
    n: nat,
    k: nat,
)
    requires
        k < n,
    ensures
        symbols_with_spread_params(symbols, inst, n).contains_key(
            spread_param_symbol(inst, k as int).name,
        ),
        symbols_with_spread_params(symbols, inst, n)[spread_param_symbol(inst, k as int).name]
            == spread_param_symbol(inst, k as int),
    decreases n,
{
    if k + 1 < n {
        lemma_spread_param_has_its_symbol(symbols, inst, (n - 1) as nat, k);
        lemma_spread_names_distinct(
            inst.name,
            first_spread_index(inst) + k,
            (first_spread_index(inst) + n - 1) as nat,
        );
    }
}

/// After the prelude and the materialiser, every local slot of the function is
/// in the table under its own name, with its own symbol, the spread argument
/// included: the names of the slots differ from one another and from those of
/// the spread parameters.
pub proof fn lemma_every_local_has_its_symbol(
    symbols: Map<Seq<char>, SymbolView>,
    inst: InstanceView,
    i: nat,
)
    requires
        spread_is_consistent(inst),
        i < inst.mir.local_decls.len(),
    ensures
        symbols_after_translation(symbols, inst).contains_key(var_name(inst.name, i)),
        symbols_after_translation(symbols, inst)[var_name(inst.name, i)] == local_symbol(
            inst,
            i as int,
        ),
{
    let after_prelude = symbols_after_prelude(symbols, inst);
    let n = inst.mir.local_decls.len();
    if is_materialized(inst.mir, i as int) {
        lemma_local_has_its_symbol(after_prelude, inst, n, i);
    } else {
        let key = var_name(inst.name, i);
        assert forall|j: nat| j < n && is_materialized(inst.mir, j as int) implies key != var_name(
            inst.name,
            j,
        ) by {
            lemma_var_names_distinct(inst.name, i, j);
        }
        lemma_locals_keep(after_prelude, inst, n, key);
    }
}

/// After the prelude and the materialiser, every spread parameter is in the
/// table under its own name, with its own symbol.
pub proof fn lemma_every_spread_param_has_its_symbol(
    symbols: Map<Seq<char>, SymbolView>,
    inst: InstanceView,
    k: nat,
)
    requires
        inst.mir.spread_arg is Some,
        k < spread_components(inst).len(),
    ensures
        symbols_after_translation(symbols, inst).contains_key(
            spread_param_symbol(inst, k as int).name,
        ),
        symbols_after_translation(symbols, inst)[spread_param_symbol(inst, k as int).name]
            == spread_param_symbol(inst, k as int),
{
    let key = spread_param_symbol(inst, k as int).name;
    let s = inst.mir.spread_arg.unwrap();
    lemma_spread_param_has_its_symbol(symbols, inst, spread_components(inst).len(), k);
    lemma_var_and_spread_names_distinct(inst.name, s, first_spread_index(inst) + k);
    assert forall|j: nat|
        j < inst.mir.local_decls.len() && is_materialized(inst.mir, j as int) implies key
        != var_name(inst.name, j) by {
        lemma_var_and_spread_names_distinct(inst.name, j, first_spread_index(inst) + k);
    }
    lemma_locals_keep(
        symbols_after_prelude(symbols, inst),
        inst,
        inst.mir.local_decls.len(),
        key,
    );
}

/// Translation leaves the type under which a function was declared as it was.
pub proof fn lemma_translation_keeps_signature(
    ctx: CtxView,
    inst: InstanceView,
    blocks: Seq<Seq<StmtView>>,
)
    requires
        can_codegen(ctx, inst),
    ensures
        codegen_function_spec(ctx, inst, blocks).symbols.contains_key(inst.name),
        codegen_function_spec(ctx, inst, blocks).symbols[inst.name].typ
            == ctx.symbols[inst.name].typ,
        codegen_function_spec(ctx, inst, blocks).symbols[inst.name].name
            == ctx.symbols[inst.name].name,
{
}

/// Whatever path translation takes, no function is current afterwards.
pub proof fn lemma_translation_leaves_no_current_fn(
    ctx: CtxView,
    inst: InstanceView,
    blocks: Seq<Seq<StmtView>>,
)
    ensures
        codegen_function_spec(ctx, inst, blocks).current_fn is None,
        declare_function_spec(ctx, inst).current_fn is None,
{
}

} // verus!
