//! The variable materialiser: what the local slots of a function become.

use crate::goto::{variable_symbol, StmtView, SymbolView};
use crate::mir::{InstanceView, MirView};
use crate::names::{var_base_name, var_name};
use vstd::prelude::*;

verus! {

/// The symbol of the local slot `index`: named after the function and the slot,
/// typed and placed as the slot is, hidden unless the user wrote the variable.
pub open spec fn local_symbol(inst: InstanceView, index: int) -> SymbolView {
    let decl = inst.mir.local_decls[index];
    SymbolView {
        is_hidden: !decl.user_variable,
        ..variable_symbol(
            var_name(inst.name, index as nat),
            var_base_name(index as nat),
            decl.ty,
            decl.span,
        )
    }
}

/// The statement that declares the local slot `index`, without an initial value.
pub open spec fn local_declaration(inst: InstanceView, index: int) -> StmtView {
    StmtView::Decl {
        lhs: local_symbol(inst, index).to_expr(),
        value: None,
        loc: inst.mir.local_decls[index].span,
    }
}

/// The materialiser makes a symbol for every slot but the spread argument,
/// which the prelude has declared.
pub open spec fn is_materialized(mir: MirView, index: int) -> bool {
    !(mir.role(index as nat) is SpreadArgument)
}

/// A slot is declared in the body unless the signature declares it: neither the
/// return slot nor a parameter is.
pub open spec fn needs_declaration(mir: MirView, index: int) -> bool {
    mir.role(index as nat) is OrdinaryLocal
}

/// The table once the first `n` slots have been materialised, in index order.
pub open spec fn symbols_with_locals(
    symbols: Map<Seq<char>, SymbolView>,
    inst: InstanceView,
    n: nat,
) -> Map<Seq<char>, SymbolView>
    decreases n,
{
    if n == 0 {
        symbols
    } else {
        let before = symbols_with_locals(symbols, inst, (n - 1) as nat);
        if is_materialized(inst.mir, n - 1) {
            before.insert(local_symbol(inst, n - 1).name, local_symbol(inst, n - 1))
        } else {
            before
        }
    }
}

/// The declarations that the first `n` slots ask for, in index order.
pub open spec fn local_declarations(inst: InstanceView, n: nat) -> Seq<StmtView>
    decreases n,
{
    if n == 0 {
        Seq::empty()
    } else {
        let before = local_declarations(inst, (n - 1) as nat);
        if needs_declaration(inst.mir, n - 1) {
            before.push(local_declaration(inst, n - 1))
        } else {
            before
        }
    }
}

/// The table once every slot has been materialised.
pub open spec fn symbols_after_locals(
    symbols: Map<Seq<char>, SymbolView>,
    inst: InstanceView,
) -> Map<Seq<char>, SymbolView> {
    symbols_with_locals(symbols, inst, inst.mir.local_decls.len())
}

/// The declarations that the slots of the function ask for.
pub open spec fn all_local_declarations(inst: InstanceView) -> Seq<StmtView> {
    local_declarations(inst, inst.mir.local_decls.len())
}

} // verus!
