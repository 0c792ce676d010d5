//! The state of a translation pass: the symbol table, the harness registry, the
//! diagnostics, and the function that is being translated.

use crate::goto::{lemma_views_push, views, Stmt, StmtView, SymbolView};
use crate::metadata::{Diagnostic, DiagnosticView, HarnessMetadata, HarnessView};
use crate::mir::{Instance, InstanceView};
use crate::symbol_table::SymbolTable;
use vstd::prelude::*;

verus! {

/// What belongs to the function that is being translated.
#[derive(Debug)]
pub struct CurrentFnCtx {
    /// The statements gathered so far for the body.
    pub block: Vec<Stmt>,
    /// The function itself.
    pub instance: Instance,
}

pub ghost struct CurrentFnView {
    pub block: Seq<StmtView>,
    pub instance: InstanceView,
}

impl View for CurrentFnCtx {
    type V = CurrentFnView;

    open spec fn view(&self) -> CurrentFnView {
        CurrentFnView { block: views(self.block@), instance: self.instance@ }
    }
}

impl CurrentFnCtx {
    /// Adds a statement to those gathered for the body.
    pub fn push_onto_block(&mut self, stmt: Stmt)
        ensures
            final(self)@ == (CurrentFnView {
                block: old(self)@.block.push(stmt@),
                ..old(self)@
            }),
            final(self).instance == old(self).instance,
    {
        proof {
            lemma_views_push(self.block@, stmt);
        }
        self.block.push(stmt);
    }

    /// Hands out the statements gathered for the body, and keeps none.
    pub fn extract_block(&mut self) -> (stmts: Vec<Stmt>)
        ensures
            views(stmts@) == old(self)@.block,
            final(self)@ == (CurrentFnView { block: Seq::empty(), ..old(self)@ }),
            final(self).instance == old(self).instance,
    {
        let mut stmts: Vec<Stmt> = Vec::new();
        stmts.append(&mut self.block);
        assert(stmts@ =~= old(self).block@);
        assert(views(self.block@) =~= Seq::<StmtView>::empty());
        stmts
    }
}

/// The state of a translation pass.
#[derive(Debug)]
pub struct GotocCtx {
    /// The declared entities of the goto program.
    pub symbol_table: SymbolTable,
    /// The proof harnesses found so far, in the order in which they were found.
    pub proof_harnesses: Vec<HarnessMetadata>,
    /// The messages for the user, in the order in which they arose.
    pub diagnostics: Vec<Diagnostic>,
    /// The function that is being translated; `None` between two functions.
    pub current_fn: Option<CurrentFnCtx>,
}

pub ghost struct CtxView {
    pub symbols: Map<Seq<char>, SymbolView>,
    pub harnesses: Seq<HarnessView>,
    pub diagnostics: Seq<DiagnosticView>,
    pub current_fn: Option<CurrentFnView>,
}

impl View for GotocCtx {
    type V = CtxView;

    open spec fn view(&self) -> CtxView {
        CtxView {
            symbols: self.symbol_table@,
            harnesses: views(self.proof_harnesses@),
            diagnostics: views(self.diagnostics@),
            current_fn: match self.current_fn {
                Some(c) => Some(c@),
                None => None,
            },
        }
    }
}

/// The state in which a pass starts.
pub open spec fn initial_ctx() -> CtxView {
    CtxView {
        symbols: Map::empty(),
        harnesses: Seq::empty(),
        diagnostics: Seq::empty(),
        current_fn: None,
    }
}

impl CtxView {
    /// The function that is being translated.
    pub open spec fn instance(self) -> InstanceView
        recommends
            self.current_fn is Some,
    {
        self.current_fn.unwrap().instance
    }

    /// The statements gathered so far for the body of the current function.
    pub open spec fn block(self) -> Seq<StmtView>
        recommends
            self.current_fn is Some,
    {
        self.current_fn.unwrap().block
    }

    /// The state once `instance` has been made the current function.
    pub open spec fn enter(self, instance: InstanceView) -> CtxView {
        CtxView {
            current_fn: Some(CurrentFnView { block: Seq::empty(), instance }),
            ..self
        }
    }

    /// The state once the current function has been left.
    pub open spec fn leave(self) -> CtxView {
        CtxView { current_fn: None, ..self }
    }
}

impl GotocCtx {
    /// A pass that has seen nothing yet.
    pub fn new() -> (ctx: GotocCtx)
        ensures
            ctx@ == initial_ctx(),
            ctx.symbol_table.wf(),
    {
        let ctx = GotocCtx {
            symbol_table: SymbolTable::new(),
            proof_harnesses: Vec::new(),
            diagnostics: Vec::new(),
            current_fn: None,
        };
        assert(views(ctx.proof_harnesses@) =~= Seq::<HarnessView>::empty());
        assert(views(ctx.diagnostics@) =~= Seq::<DiagnosticView>::empty());
        ctx
    }

    /// Makes `instance` the current function, with no statement gathered yet.
    pub fn set_current_fn(&mut self, instance: Instance)
        requires
            old(self)@.current_fn is None,
        ensures
            final(self)@ == old(self)@.enter(instance@),
            final(self).symbol_table == old(self).symbol_table,
    {
        let block: Vec<Stmt> = Vec::new();
        assert(views(block@) =~= Seq::<StmtView>::empty());
        self.current_fn = Some(CurrentFnCtx { block, instance });
    }

    /// Leaves the current function, and drops what was gathered for it.
    pub fn reset_current_fn(&mut self)
        ensures
            final(self)@ == old(self)@.leave(),
            final(self).symbol_table == old(self).symbol_table,
    {
        self.current_fn = None;
    }

    /// The current function.
    pub fn current_fn(&self) -> (cur: &CurrentFnCtx)
        requires
            self@.current_fn is Some,
        ensures
            Some(cur@) == self@.current_fn,
    {
        self.current_fn.as_ref().unwrap()
    }
}

} // verus!
