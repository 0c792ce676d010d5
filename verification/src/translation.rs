//! What translating a function makes of the state of a pass, as mathematics.

use crate::context::CtxView;
use crate::filter::is_unsupported_name;
use crate::goto::{function_symbol, views, BodyView, Stmt, StmtView, SymbolView};
use crate::harness::{
    attributes_are_applicable, diagnostics_after_attributes, harnesses_after_attributes,
};
use crate::metadata::warning_at;
use crate::mir::InstanceView;
use crate::names::{scope_separator, spread_base_name, spread_name, var_base_name, var_name};
use crate::prelude::{
    first_spread_index, prelude_statements, spread_components, spread_is_consistent,
    symbols_after_prelude, symbols_with_spread_params,
};
use crate::variables::{
    all_local_declarations, is_materialized, symbols_after_locals, symbols_with_locals,
};
use vstd::prelude::*;

verus! {

/// What the statement that stands for an untranslated function says.
pub open spec fn unsupported_message(readable_name: Seq<char>) -> Seq<char> {
    "The function "@ + readable_name + " is not currently supported by Kani"@
}

/// What is said of a function that is translated a second time.
pub open spec fn double_codegen_message(name: Seq<char>) -> Seq<char> {
    "Double codegen of "@ + name
}

/// The statement that fails wherever control reaches a function that was not
/// translated. It carries the display name and the place of the function.
pub open spec fn fatal_unsupported(inst: InstanceView) -> StmtView {
    StmtView::Unsupported { message: unsupported_message(inst.readable_name), loc: inst.mir.span }
}

/// The body of a function that was not translated: the one statement that fails.
pub open spec fn stub_body(inst: InstanceView) -> BodyView {
    BodyView { stmts: seq![fatal_unsupported(inst)], loc: inst.mir.span }
}

/// The body of a translated function: the prelude, the declarations of the
/// locals, and the statements of the basic blocks in program order. `blocks`
/// holds, for each basic block, the statements that the block translator made
/// of it.
pub open spec fn translated_body(inst: InstanceView, blocks: Seq<Seq<StmtView>>) -> BodyView {
    BodyView {
        stmts: prelude_statements(inst) + all_local_declarations(inst) + blocks.flatten(),
        loc: inst.mir.span,
    }
}

/// `block` is what the block translator `codegen_block` can have made of the
/// basic block `bb`.
pub open spec fn block_made_by<F: Fn(usize) -> Vec<Stmt>>(
    codegen_block: F,
    bb: int,
    block: Seq<StmtView>,
) -> bool {
    exists|stmts: Vec<Stmt>|
        #[trigger] call_ensures(codegen_block, (bb as usize,), stmts) && views(stmts@) == block
}

/// `blocks` is what the block translator `codegen_block` can have made of the
/// basic blocks from 0 up to `n`, each by one call.
pub open spec fn translated_by<F: Fn(usize) -> Vec<Stmt>>(
    codegen_block: F,
    n: nat,
    blocks: Seq<Seq<StmtView>>,
) -> bool {
    &&& blocks.len() == n
    &&& forall|bb: int| 0 <= bb < n ==> block_made_by(codegen_block, bb, #[trigger] blocks[bb])
}

/// Translating `inst` in the state `ctx` translates its basic blocks: it has no
/// body yet and the filter does not flag it.
pub open spec fn is_translated(ctx: CtxView, inst: InstanceView) -> bool {
    !ctx.symbols[inst.name].is_function_definition() && !is_unsupported_name(inst.readable_name)
}

/// The table once the prelude and the materialiser have run.
pub open spec fn symbols_after_translation(
    symbols: Map<Seq<char>, SymbolView>,
    inst: InstanceView,
) -> Map<Seq<char>, SymbolView> {
    symbols_after_locals(symbols_after_prelude(symbols, inst), inst)
}

/// The symbol under which a function is declared: without a body.
pub open spec fn declaration_of(inst: InstanceView) -> SymbolView {
    function_symbol(inst.name, inst.fn_typ, None, inst.readable_name, inst.mir.span)
}

/// The state after `inst` has been declared: a symbol that was there under its
/// name stays as it is.
pub open spec fn declare_function_spec(ctx: CtxView, inst: InstanceView) -> CtxView {
    CtxView {
        symbols: if ctx.symbols.contains_key(inst.name) {
            ctx.symbols
        } else {
            ctx.symbols.insert(inst.name, declaration_of(inst))
        },
        current_fn: None,
        ..ctx
    }
}

/// `inst` can be translated in the state `ctx`: no function is being
/// translated, `inst` is declared as a function, and, unless it has its body
/// already, the prelude can run where it is to run and the attributes can be
/// handled.
pub open spec fn can_codegen(ctx: CtxView, inst: InstanceView) -> bool {
    &&& ctx.current_fn is None
    &&& ctx.symbols.contains_key(inst.name)
    &&& ctx.symbols[inst.name].is_function()
    &&& ctx.symbols[inst.name].body is None ==> {
        &&& !is_unsupported_name(inst.readable_name) ==> spread_is_consistent(inst)
        &&& attributes_are_applicable(inst.attrs)
    }
}

/// The state after `inst` has been translated, where `blocks` is what the block
/// translator made of its basic blocks.
///
/// A function that has its body already is left alone, with a warning. A
/// function that the filter flags gets the stub body and no other symbol. Any
/// other function gets the symbols of its spread parameters and of its locals,
/// and its translated body; only there does `blocks` count. In the last two
/// cases the attributes are handled. In every case no function is current
/// afterwards.
pub open spec fn codegen_function_spec(
    ctx: CtxView,
    inst: InstanceView,
    blocks: Seq<Seq<StmtView>>,
) -> CtxView {
    let old_sym = ctx.symbols[inst.name];
    if old_sym.is_function_definition() {
        CtxView {
            diagnostics: ctx.diagnostics.push(
                warning_at(old_sym.location, double_codegen_message(inst.name)),
            ),
            current_fn: None,
            ..ctx
        }
    } else if is_unsupported_name(inst.readable_name) {
        CtxView {
            symbols: ctx.symbols.insert(inst.name, old_sym.with_body(stub_body(inst))),
            harnesses: harnesses_after_attributes(ctx.harnesses, inst),
            diagnostics: diagnostics_after_attributes(ctx.diagnostics, inst),
            current_fn: None,
        }
    } else {
        CtxView {
            symbols: symbols_after_translation(ctx.symbols, inst).insert(
                inst.name,
                old_sym.with_body(translated_body(inst, blocks)),
            ),
            harnesses: harnesses_after_attributes(ctx.harnesses, inst),
            diagnostics: diagnostics_after_attributes(ctx.diagnostics, inst),
            current_fn: None,
        }
    }
}

/// The name of a function is not the name of any of its local variables.
pub proof fn lemma_var_name_is_not_fn_name(fname: Seq<char>, index: nat)
    ensures
        var_name(fname, index) != fname,
{
    reveal_strlit("::1::");
    assert(var_name(fname, index).len() == fname.len() + scope_separator().len() + var_base_name(
        index,
    ).len());
}

/// The name of a function is not the name of any of its spread parameters.
pub proof fn lemma_spread_name_is_not_fn_name(fname: Seq<char>, index: nat)
    ensures
        spread_name(fname, index) != fname,
{
    reveal_strlit("::1::");
    assert(spread_name(fname, index).len() == fname.len() + scope_separator().len()
        + spread_base_name(index).len());
}

/// Materialising the first `n` locals leaves alone every entry under a name that
/// is not the name of a local that is materialised.
pub proof fn lemma_locals_keep(
    symbols: Map<Seq<char>, SymbolView>,
    inst: InstanceView,
    n: nat,
    key: Seq<char>,
)
    requires
        forall|i: nat| i < n && is_materialized(inst.mir, i as int) ==> key != var_name(
            inst.name,
            i,
        ),
    ensures
        symbols_with_locals(symbols, inst, n).contains_key(key) == symbols.contains_key(key),
        symbols_with_locals(symbols, inst, n)[key] == symbols[key],
    decreases n,
{
    if n > 0 {
        lemma_locals_keep(symbols, inst, (n - 1) as nat, key);
        if is_materialized(inst.mir, n - 1) {
            assert(key != var_name(inst.name, (n - 1) as nat));
        }
    }
}

/// Declaring the spread parameters leaves alone every entry under a name that
/// is not the name of a spread parameter.
pub proof fn lemma_spread_params_keep(
    symbols: Map<Seq<char>, SymbolView>,
    inst: InstanceView,
    n: nat,
    key: Seq<char>,
)
    requires
        forall|i: nat| key != spread_name(inst.name, i),
    ensures
        symbols_with_spread_params(symbols, inst, n).contains_key(key) == symbols.contains_key(
            key,
        ),
        symbols_with_spread_params(symbols, inst, n)[key] == symbols[key],
    decreases n,
{
    if n > 0 {
        lemma_spread_params_keep(symbols, inst, (n - 1) as nat, key);
        assert(key != spread_name(inst.name, (first_spread_index(inst) + n - 1) as nat));
    }
}

/// The prelude and the materialiser leave the symbol of the function itself as
/// it is: its committed type, in particular, is not touched.
pub proof fn lemma_translation_keeps_function(
    symbols: Map<Seq<char>, SymbolView>,
    inst: InstanceView,
)
    ensures
        symbols_after_translation(symbols, inst).contains_key(inst.name) == symbols.contains_key(
            inst.name,
        ),
        symbols_after_translation(symbols, inst)[inst.name] == symbols[inst.name],
{
    let key = inst.name;
    assert forall|i: nat| key != var_name(inst.name, i) by {
        lemma_var_name_is_not_fn_name(inst.name, i);
    }
    assert forall|i: nat| key != spread_name(inst.name, i) by {
        lemma_spread_name_is_not_fn_name(inst.name, i);
    }
    lemma_spread_params_keep(symbols, inst, spread_components(inst).len(), key);
    lemma_locals_keep(symbols_after_prelude(symbols, inst), inst, inst.mir.local_decls.len(), key);
}

} // verus!
