//! Translation of one function: declaration, the untupling prelude, the local
//! variables, the body, and the proof-harness attributes.

use crate::attributes::{
    extract_integer_argument, kanitool_attr_name, same_text, Attribute, AttributeView,
};
use crate::context::{CtxView, CurrentFnCtx, CurrentFnView, GotocCtx};
use crate::filter::{is_unsupported, is_unsupported_name};
use crate::goto::{
    lemma_views_push, views, Body, Expr, Location, Member, Stmt, StmtView, Symbol, SymbolRef,
    Type,
};
use crate::harness::{
    attributes_are_applicable, diagnostics_after_attributes, harness_of,
    harnesses_after_attributes, named, picked, proof_markers, unwind_after, unwind_complaint,
    unwind_complaints, unwind_fits, unwind_modifiers, unwind_step, unwind_values_fit,
};
use crate::metadata::{Diagnostic, HarnessMetadata, HarnessView};
use crate::mir::{Instance, LocalRole};
use crate::names::{
    codegen_spread_arg_name, codegen_spread_base_name, codegen_var_base_name, codegen_var_name,
    decimal_string,
};
use crate::prelude::{
    first_spread_index, lemma_spread_members_cover, marshalled_tuple, prelude_statement,
    prelude_statements, spread_components, spread_is_consistent, spread_members,
    spread_param_symbol, symbols_after_prelude, symbols_with_spread_params,
};
use crate::translation::{
    block_made_by, can_codegen, codegen_function_spec, declare_function_spec,
    fatal_unsupported, is_translated, lemma_translation_keeps_function,
    symbols_after_translation, translated_body, translated_by, unsupported_message,
};
use crate::variables::{
    all_local_declarations, local_declaration, local_declarations, local_symbol,
    symbols_after_locals, symbols_with_locals,
};
use vstd::prelude::*;
use vstd::string::*;

verus! {

/// Says that `item` cannot be translated.
pub fn unsupported_msg(item: &str) -> (msg: String)
    ensures
        msg@ == item@ + " is not currently supported by Kani"@,
{
    let mut msg: String = String::from_str(item);
    msg.append(" is not currently supported by Kani");
    msg
}

/// Tells whether the unwind modifiers among `attrs` can each be applied in its
/// turn, where `attrs` make a harness.
pub fn attributes_applicable(attrs: &Vec<Attribute>) -> (r: bool)
    ensures
        r == attributes_are_applicable(views(attrs@)),
{
    let markers: Vec<usize> = attributes_named(attrs, "proof");
    if markers.len() != 1 {
        return true;
    }
    let modifiers: Vec<usize> = attributes_named(attrs, "unwind");
    let ghost all = views(attrs@);
    let ghost mods = unwind_modifiers(all);
    let mut current: Option<u32> = None;
    let mut k: usize = 0;
    while k < modifiers.len()
        invariant
            k <= modifiers.len(),
            all == views(attrs@),
            mods == unwind_modifiers(all),
            picked(all, modifiers@) == mods,
            picked(all, markers@) == proof_markers(all),
            markers@.len() == 1,
            forall|j: int| 0 <= j < modifiers@.len() ==> (#[trigger] modifiers@[j]) < attrs@.len(),
            current == unwind_after(mods, k as nat),
            unwind_values_fit(mods, k as nat),
        decreases modifiers.len() - k,
    {
        let attr: &Attribute = &attrs[modifiers[k]];
        proof {
            assert(mods[k as int] == all[modifiers@[k as int] as int]);
            assert(attr@ == mods[k as int]);
        }
        if current.is_none() {
            match extract_integer_argument(attr) {
                Some(v) => {
                    if v > 0xffff_ffff {
                        proof {
                            assert(picked(all, markers@).len() == 1);
                            assert(picked(all, modifiers@).len() == modifiers@.len());
                            assert(!unwind_fits(unwind_after(mods, k as nat), mods[k as int]));
                            if unwind_values_fit(mods, mods.len()) {
                                lemma_unwind_values_fit_below(mods, mods.len(), k as nat);
                            }
                        }
                        return false;
                    }
                    current = Some(v as u32);
                },
                None => {},
            }
        }
        k += 1;
    }
    true
}

impl GotocCtx {
    /// Tells whether the current function is one that cannot be translated and is
    /// stubbed instead.
    pub fn should_skip_current_fn(&self) -> (skip: bool)
        requires
            self@.current_fn is Some,
        ensures
            skip == is_unsupported_name(self@.instance().readable_name),
    {
        is_unsupported(self.current_fn().instance.readable_name.as_str())
    }

    /// Tells whether `instance` can be translated in this state: whether
    /// `codegen_function` may be called on it.
    pub fn can_codegen_function(&self, instance: &Instance) -> (r: bool)
        ensures
            r == can_codegen(self@, instance@),
    {
        if self.current_fn.is_some() {
            return false;
        }
        match self.symbol_table.lookup(instance.name.as_str()) {
            None => false,
            Some(sym) => {
                if !sym.is_function() {
                    false
                } else if sym.body.is_some() {
                    true
                } else {
                    let skipped: bool = is_unsupported(instance.readable_name.as_str());
                    (skipped || instance.has_consistent_spread()) && attributes_applicable(
                        &instance.attrs,
                    )
                }
            },
        }
    }

    /// Declares `instance` in the symbol table, as a function without a body. A
    /// symbol that is there under its name stays as it is.
    pub fn declare_function(&mut self, instance: Instance)
        requires
            old(self)@.current_fn is None,
        ensures
            final(self)@ == declare_function_spec(old(self)@, instance@),
            old(self).symbol_table.wf() ==> final(self).symbol_table.wf(),
    {
        self.set_current_fn(instance);
        let present: bool = self.symbol_table.contains(self.current_fn().instance.name.as_str());
        if !present {
            let cur = self.current_fn();
            let sym: Symbol = Symbol::function(
                cur.instance.name.clone(),
                cur.instance.fn_typ.clone(),
                None,
                cur.instance.readable_name.clone(),
                cur.instance.mir.span.clone(),
            );
            self.symbol_table.insert(sym);
        }
        self.reset_current_fn();
    }

    /// Makes the statement that fails, with `msg`, wherever control reaches it.
    pub fn codegen_fatal_error(&self, msg: &str, loc: &Location) -> (stmt: Stmt)
        ensures
            stmt@ == (StmtView::Unsupported { message: msg@, loc: loc@ }),
    {
        Stmt::Unsupported { message: String::from_str(msg), loc: loc.clone() }
    }

    /// Has the basic block `bb` of the current function translated by
    /// `codegen_block`, and adds what comes back to the statements gathered for
    /// the body.
    fn codegen_block<F: Fn(usize) -> Vec<Stmt>>(&mut self, bb: usize, codegen_block: &F) -> (made:
        Ghost<Vec<Stmt>>)
        requires
            old(self)@.current_fn is Some,
            call_requires(*codegen_block, (bb,)),
        ensures
            call_ensures(*codegen_block, (bb,), made@),
            final(self)@ == (CtxView {
                current_fn: Some(
                    CurrentFnView {
                        block: old(self)@.block() + views(made@@),
                        instance: old(self)@.instance(),
                    },
                ),
                ..old(self)@
            }),
            final(self).symbol_table == old(self).symbol_table,
    {
        let mut cur: CurrentFnCtx = self.current_fn.take().unwrap();
        let ghost before = cur.block@;
        let mut stmts: Vec<Stmt> = codegen_block(bb);
        let ghost added = stmts;
        cur.block.append(&mut stmts);
        assert(views(before + added@) =~= views(before) + views(added@));
        self.current_fn = Some(cur);
        Ghost(added)
    }

    /// Translates `instance`, which has been declared. `codegen_block` is the
    /// block translator: called with the number of a basic block, it gives the
    /// statements of that block.
    ///
    /// A function that has its body already is left alone, and a warning is
    /// recorded. A function that the filter flags gets a body of one statement
    /// that fails wherever control reaches it. In both cases the block
    /// translator is not called. Any other function gets the prelude, the
    /// symbols and declarations of its locals, and the statements that the block
    /// translator makes of its basic blocks, called on each in program order, as
    /// one body. In the last two cases the attributes are handled. In every case
    /// no function is current afterwards.
    pub fn codegen_function<F: Fn(usize) -> Vec<Stmt>>(
        &mut self,
        instance: Instance,
        codegen_block: F,
    )
        requires
            can_codegen(old(self)@, instance@),
            is_translated(old(self)@, instance@) ==> forall|bb: usize|
                bb < instance.mir.basic_blocks ==> call_requires(codegen_block, (bb,)),
        ensures
            !is_translated(old(self)@, instance@) ==> final(self)@ == codegen_function_spec(
                old(self)@,
                instance@,
                Seq::empty(),
            ),
            is_translated(old(self)@, instance@) ==> exists|blocks: Seq<Seq<StmtView>>|
                translated_by(codegen_block, instance@.mir.basic_blocks, blocks) && final(self)@
                    == #[trigger] codegen_function_spec(old(self)@, instance@, blocks),
            old(self).symbol_table.wf() ==> final(self).symbol_table.wf(),
    {
        let ghost inst = instance@;
        let ghost symbols0 = self.symbol_table@;
        self.set_current_fn(instance);
        let name: String = self.current_fn().instance.name.clone();
        let old_sym = self.symbol_table.lookup(name.as_str()).unwrap();
        if old_sym.is_function_definition() {
            let mut message: String = String::from_str("Double codegen of ");
            message.append(name.as_str());
            let d: Diagnostic = Diagnostic::warning(&old_sym.location, message.as_str());
            let ghost before = self.diagnostics@;
            self.diagnostics.push(d);
            proof {
                lemma_views_push(before, d);
            }
        } else if self.should_skip_current_fn() {
            let cur = self.current_fn();
            let mut item: String = String::from_str("The function ");
            item.append(cur.instance.readable_name.as_str());
            let msg: String = unsupported_msg(item.as_str());
            let stmt: Stmt = self.codegen_fatal_error(msg.as_str(), &cur.instance.mir.span);
            proof {
                assert(msg@ =~= unsupported_message(inst.readable_name));
                assert(stmt@ == fatal_unsupported(inst));
            }
            let loc: Location = cur.instance.mir.span.clone();
            let mut stmts: Vec<Stmt> = Vec::new();
            stmts.push(stmt);
            assert(views(stmts@) =~= seq![fatal_unsupported(inst)]);
            let body: Body = Body { stmts, loc };
            self.symbol_table.update_fn_declaration_with_definition(name.as_str(), body);
            self.handle_kanitool_attributes();
        } else {
            self.codegen_function_prelude();
            self.codegen_declare_variables();
            let ghost block0 = self@.block();
            let blocks: usize = self.current_fn().instance.mir.basic_blocks;
            let ghost made: Seq<Vec<Stmt>> = Seq::empty();
            let ghost done: Seq<Seq<StmtView>> = Seq::empty();
            let mut bb: usize = 0;
            assert(block0 + done.flatten() =~= block0);
            while bb < blocks
                invariant
                    bb <= blocks,
                    blocks == inst.mir.basic_blocks,
                    forall|b: usize| b < blocks ==> call_requires(codegen_block, (b,)),
                    made.len() == bb,
                    done.len() == bb,
                    forall|b: int|
                        0 <= b < bb ==> call_ensures(codegen_block, (b as usize,), #[trigger] made[b])
                            && views(made[b]@) == done[b],
                    self@ == (CtxView {
                        symbols: symbols_after_translation(symbols0, inst),
                        current_fn: Some(
                            CurrentFnView { block: block0 + done.flatten(), instance: inst },
                        ),
                        ..old(self)@
                    }),
                    old(self).symbol_table.wf() ==> self.symbol_table.wf(),
                decreases blocks - bb,
            {
                let stmts: Ghost<Vec<Stmt>> = self.codegen_block(bb, &codegen_block);
                proof {
                    let next = views(stmts@@);
                    done.lemma_flatten_push(next);
                    assert(block0 + done.flatten() + next =~= block0 + (done.flatten() + next));
                    made = made.push(stmts@);
                    done = done.push(next);
                }
                bb += 1;
            }
            let mut cur: CurrentFnCtx = self.current_fn.take().unwrap();
            let loc: Location = cur.instance.mir.span.clone();
            let stmts: Vec<Stmt> = cur.extract_block();
            let body: Body = Body { stmts, loc };
            self.current_fn = Some(cur);
            proof {
                lemma_translation_keeps_function(symbols0, inst);
                assert(body@.stmts =~= translated_body(inst, done).stmts);
                assert forall|b: int| 0 <= b < inst.mir.basic_blocks implies block_made_by(
                    codegen_block,
                    b,
                    #[trigger] done[b],
                ) by {
                    assert(call_ensures(codegen_block, (b as usize,), made[b]) && views(made[b]@)
                        == done[b]);
                }
                assert(translated_by(codegen_block, inst.mir.basic_blocks, done));
            }
            self.symbol_table.update_fn_declaration_with_definition(name.as_str(), body);
            self.handle_kanitool_attributes();
            assert(self@.leave() == codegen_function_spec(old(self)@, inst, done));
        }
        self.reset_current_fn();
    }

    /// Runs the untupling prelude on the current function. Without a spread
    /// argument it does nothing. With one, it declares a hidden parameter for each
    /// component of the tuple, and declares the spread argument with the tuple,
    /// put together from those parameters field name by field name, as its value.
    pub fn codegen_function_prelude(&mut self)
        requires
            old(self)@.current_fn is Some,
            spread_is_consistent(old(self)@.instance()),
        ensures
            final(self)@ == (CtxView {
                symbols: symbols_after_prelude(old(self)@.symbols, old(self)@.instance()),
                current_fn: Some(
                    CurrentFnView {
                        block: old(self)@.block() + prelude_statements(old(self)@.instance()),
                        instance: old(self)@.instance(),
                    },
                ),
                ..old(self)@
            }),
            old(self).symbol_table.wf() ==> final(self).symbol_table.wf(),
    {
        let mut cur: CurrentFnCtx = self.current_fn.take().unwrap();
        let ghost inst = cur.instance@;
        let ghost symbols0 = self.symbol_table@;
        let ghost block0 = views(cur.block@);
        match cur.instance.mir.spread_arg {
            None => {
                assert(block0 + prelude_statements(inst) =~= block0);
            },
            Some(spread_arg) => {
                let spread_data = &cur.instance.mir.local_decls[spread_arg];
                assert(spread_data@ == inst.mir.local_decls[spread_arg as int]);
                let loc = spread_data.span.clone();
                let starting_idx: usize = match cur.instance.signature_inputs() {
                    Some(inputs) => inputs.len(),
                    None => unreached(),
                };
                let args: &Vec<Type> = match cur.instance.spread_components() {
                    Some(components) => components,
                    None => unreached(),
                };
                let tup_typ: Type = spread_data.ty.clone();
                let mut members: Vec<Member> = Vec::new();
                let mut arg_i: usize = 0;
                assert(views(members@) =~= spread_members(inst, 0));
                while arg_i < args.len()
                    invariant
                        arg_i <= args.len(),
                        views(args@) == spread_components(inst),
                        starting_idx == first_spread_index(inst),
                        starting_idx + args.len() <= usize::MAX,
                        cur.instance@ == inst,
                        inst.mir.spread_arg == Some(spread_arg as nat),
                        loc@ == inst.mir.local_decls[spread_arg as int].span,
                        self.symbol_table@ == symbols_with_spread_params(
                            symbols0,
                            inst,
                            arg_i as nat,
                        ),
                        views(members@) == spread_members(inst, arg_i as nat),
                        self.proof_harnesses == old(self).proof_harnesses,
                        self.diagnostics == old(self).diagnostics,
                        self.current_fn is None,
                        old(self).symbol_table.wf() ==> self.symbol_table.wf(),
                    decreases args.len() - arg_i,
                {
                    // The components come behind the declared parameters.
                    let index: usize = arg_i + starting_idx;
                    let name: String = codegen_spread_arg_name(cur.instance.name.as_str(), index);
                    let base_name: String = codegen_spread_base_name(index);
                    assert(views(args@)[arg_i as int] == args@[arg_i as int]@);
                    let sym: Symbol = Symbol::variable(
                        name,
                        base_name,
                        args[arg_i].clone(),
                        loc.clone(),
                    ).with_is_hidden(true);
                    assert(sym@ == spread_param_symbol(inst, arg_i as int));
                    // Fields are named by their index, so that the value finds its
                    // field wherever the layout has put it.
                    let member: Member = Member {
                        name: decimal_string(arg_i as u64),
                        value: sym.to_expr(),
                    };
                    self.symbol_table.insert(sym);
                    let ghost before = members@;
                    members.push(member);
                    proof {
                        lemma_views_push(before, member);
                        assert(views(members@) =~= spread_members(inst, (arg_i + 1) as nat));
                    }
                    arg_i += 1;
                }
                proof {
                    lemma_spread_members_cover(inst, tup_typ@, args@.len());
                }
                let marshalled_tuple_value: Expr = Expr::struct_expr(tup_typ.clone(), &members);
                assert(marshalled_tuple_value@ == marshalled_tuple(inst));
                let sym: Symbol = Symbol::variable(
                    codegen_var_name(cur.instance.name.as_str(), spread_arg),
                    codegen_var_base_name(spread_arg),
                    tup_typ,
                    loc.clone(),
                ).with_is_hidden(!spread_data.user_variable);
                assert(sym@ == local_symbol(inst, spread_arg as int));
                let lhs: SymbolRef = sym.to_expr();
                self.symbol_table.insert(sym);
                let decl: Stmt = Stmt::Decl { lhs, value: Some(marshalled_tuple_value), loc };
                assert(decl@ == prelude_statement(inst));
                cur.push_onto_block(decl);
                assert(views(cur.block@) =~= block0 + prelude_statements(inst));
            },
        }
        self.current_fn = Some(cur);
    }

    /// Makes a symbol for every local slot of the current function, in index
    /// order, and gathers the declarations that the body needs.
    pub fn codegen_declare_variables(&mut self)
        requires
            old(self)@.current_fn is Some,
        ensures
            final(self)@ == (CtxView {
                symbols: symbols_after_locals(old(self)@.symbols, old(self)@.instance()),
                current_fn: Some(
                    CurrentFnView {
                        block: old(self)@.block() + all_local_declarations(old(self)@.instance()),
                        instance: old(self)@.instance(),
                    },
                ),
                ..old(self)@
            }),
            old(self).symbol_table.wf() ==> final(self).symbol_table.wf(),
    {
        let mut cur: CurrentFnCtx = self.current_fn.take().unwrap();
        let ghost inst = cur.instance@;
        let ghost block0 = views(cur.block@);
        let ghost symbols0 = self.symbol_table@;
        let n: usize = cur.instance.mir.local_decls.len();
        let mut lc: usize = 0;
        assert(block0 + local_declarations(inst, 0) =~= block0);
        while lc < n
            invariant
                lc <= n,
                n == cur.instance.mir.local_decls@.len(),
                cur.instance@ == inst,
                self.symbol_table@ == symbols_with_locals(symbols0, inst, lc as nat),
                views(cur.block@) == block0 + local_declarations(inst, lc as nat),
                self.proof_harnesses == old(self).proof_harnesses,
                self.diagnostics == old(self).diagnostics,
                self.current_fn is None,
                old(self).symbol_table.wf() ==> self.symbol_table.wf(),
            decreases n - lc,
        {
            let role: LocalRole = cur.instance.mir.role(lc);
            match role {
                LocalRole::SpreadArgument => {},
                _ => {
                    let ldata = &cur.instance.mir.local_decls[lc];
                    assert(ldata@ == inst.mir.local_decls[lc as int]);
                    let base_name: String = codegen_var_base_name(lc);
                    let name: String = codegen_var_name(cur.instance.name.as_str(), lc);
                    let sym: Symbol = Symbol::variable(
                        name,
                        base_name,
                        ldata.ty.clone(),
                        ldata.span.clone(),
                    ).with_is_hidden(!ldata.user_variable);
                    let sym_e: SymbolRef = sym.to_expr();
                    assert(sym@ == local_symbol(inst, lc as int));
                    self.symbol_table.insert(sym);
                    match role {
                        LocalRole::OrdinaryLocal => {
                            let decl: Stmt = Stmt::Decl {
                                lhs: sym_e,
                                value: None,
                                loc: ldata.span.clone(),
                            };
                            assert(decl@ == local_declaration(inst, lc as int));
                            cur.push_onto_block(decl);
                            assert(views(cur.block@) =~= block0 + local_declarations(
                                inst,
                                (lc + 1) as nat,
                            ));
                        },
                        _ => {},
                    }
                },
            }
            lc += 1;
        }
        self.current_fn = Some(cur);
    }
}

/// The places of the attributes that bear `name` within the tool namespace, in
/// the order in which they are written.
fn attributes_named(attrs: &Vec<Attribute>, name: &str) -> (indices: Vec<usize>)
    ensures
        picked(views(attrs@), indices@) == named(views(attrs@), name@),
        forall|i: int| 0 <= i < indices@.len() ==> (#[trigger] indices@[i]) < attrs@.len(),
{
    let ghost all = views(attrs@);
    let mut indices: Vec<usize> = Vec::new();
    let mut i: usize = 0;
    assert(picked(all, indices@) =~= named(all.take(0), name@));
    while i < attrs.len()
        invariant
            i <= attrs.len(),
            all == views(attrs@),
            picked(all, indices@) == named(all.take(i as int), name@),
            forall|j: int| 0 <= j < indices@.len() ==> (#[trigger] indices@[j]) < i,
        decreases attrs.len() - i,
    {
        let attr_name: Option<String> = kanitool_attr_name(&attrs[i]);
        let hit: bool = match &attr_name {
            Some(s) => same_text(s.as_str(), name),
            None => false,
        };
        proof {
            assert(all.take(i + 1).drop_last() =~= all.take(i as int));
            assert(all.take(i + 1).last() == all[i as int]);
            assert(all[i as int] == attrs@[i as int]@);
        }
        let ghost before = indices@;
        if hit {
            indices.push(i);
            assert(picked(all, indices@) =~= picked(all, before).push(all[i as int]));
        }
        i += 1;
    }
    assert(all.take(attrs@.len() as int) =~= all);
    indices
}

impl GotocCtx {
    /// Gathers what the attributes of the current function say: with exactly one
    /// proof marker, the function is recorded as a harness, after each unwind
    /// modifier has been applied in the order in which it is written; with more
    /// than one, or with a modifier and no marker, an error is reported at the
    /// first attribute concerned and nothing is recorded.
    pub fn handle_kanitool_attributes(&mut self)
        requires
            old(self)@.current_fn is Some,
            attributes_are_applicable(old(self)@.instance().attrs),
        ensures
            final(self)@ == (CtxView {
                harnesses: harnesses_after_attributes(
                    old(self)@.harnesses,
                    old(self)@.instance(),
                ),
                diagnostics: diagnostics_after_attributes(
                    old(self)@.diagnostics,
                    old(self)@.instance(),
                ),
                ..old(self)@
            }),
            final(self).symbol_table == old(self).symbol_table,
    {
        let ghost inst = self@.instance();
        let ghost all = inst.attrs;
        let ghost diagnostics0 = self@.diagnostics;
        let proof_attribute_vector: Vec<usize> = attributes_named(
            &self.current_fn().instance.attrs,
            "proof",
        );
        let attribute_vector: Vec<usize> = attributes_named(
            &self.current_fn().instance.attrs,
            "unwind",
        );
        let ghost mods = unwind_modifiers(all);
        if proof_attribute_vector.len() == 1 {
            let mut harness_metadata: HarnessMetadata = self.handle_kanitool_proof();
            let cur: CurrentFnCtx = self.current_fn.take().unwrap();
            let mut k: usize = 0;
            assert(diagnostics0 + unwind_complaints(mods, 0) =~= diagnostics0);
            while k < attribute_vector.len()
                invariant
                    k <= attribute_vector.len(),
                    Some(cur@) == old(self)@.current_fn,
                    inst == cur.instance@,
                    all == inst.attrs,
                    mods == unwind_modifiers(all),
                    picked(all, attribute_vector@) == mods,
                    forall|j: int|
                        0 <= j < attribute_vector@.len() ==> (#[trigger] attribute_vector@[j])
                            < cur.instance.attrs@.len(),
                    unwind_values_fit(mods, mods.len()),
                    harness_metadata@ == (HarnessView {
                        unwind_value: unwind_after(mods, k as nat),
                        ..harness_of(inst)
                    }),
                    views(self.diagnostics@) == diagnostics0 + unwind_complaints(mods, k as nat),
                    self.proof_harnesses == old(self).proof_harnesses,
                    self.symbol_table == old(self).symbol_table,
                    self.current_fn is None,
                decreases attribute_vector.len() - k,
            {
                let attr: &Attribute = &cur.instance.attrs[attribute_vector[k]];
                proof {
                    assert(mods[k as int] == all[attribute_vector@[k as int] as int]);
                    assert(attr@ == mods[k as int]);
                    lemma_unwind_values_fit_below(mods, mods.len(), k as nat);
                    let said = unwind_complaints(mods, k as nat);
                    match unwind_complaint(unwind_after(mods, k as nat), mods[k as int]) {
                        Some(d) => {
                            assert(diagnostics0 + said.push(d) =~= (diagnostics0 + said).push(d));
                        },
                        None => {},
                    }
                }
                self.handle_kanitool_unwind(attr, &mut harness_metadata);
                k += 1;
            }
            self.current_fn = Some(cur);
            let ghost before = self.proof_harnesses@;
            self.proof_harnesses.push(harness_metadata);
            proof {
                lemma_views_push(before, harness_metadata);
            }
        } else if proof_attribute_vector.len() > 1 {
            let first: usize = proof_attribute_vector[0];
            assert(proof_markers(all)[0] == all[proof_attribute_vector@[0] as int]);
            let d: Diagnostic = Diagnostic::error(
                &self.current_fn().instance.attrs[first].span,
                "Only one Proof Attribute allowed",
            );
            let ghost before = self.diagnostics@;
            self.diagnostics.push(d);
            proof {
                lemma_views_push(before, d);
            }
        } else if attribute_vector.len() > 0 {
            let first: usize = attribute_vector[0];
            assert(mods[0] == all[attribute_vector@[0] as int]);
            let d: Diagnostic = Diagnostic::error(
                &self.current_fn().instance.attrs[first].span,
                "Please use '#kani[proof]' above the annotation",
            );
            let ghost before = self.diagnostics@;
            self.diagnostics.push(d);
            proof {
                lemma_views_push(before, d);
            }
        }
    }

    /// Makes the harness record of the current function: its two names, the file
    /// and the line at which it is written, and no unwind bound.
    pub fn handle_kanitool_proof(&mut self) -> (harness: HarnessMetadata)
        requires
            old(self)@.current_fn is Some,
        ensures
            harness@ == harness_of(old(self)@.instance()),
            *final(self) == *old(self),
    {
        let current_fn = self.current_fn();
        let pretty_name: String = current_fn.instance.readable_name.clone();
        let mangled_name: String = current_fn.instance.name.clone();
        let loc = &current_fn.instance.mir.span;
        HarnessMetadata {
            pretty_name,
            mangled_name,
            original_file: loc.file.clone(),
            original_line: decimal_string(loc.line),
            unwind_value: None,
        }
    }

    /// Applies one unwind modifier to a harness. The first bound given stays: a
    /// modifier on a harness that has its bound is reported and changes nothing,
    /// and so is one whose arguments are not exactly one integer.
    pub fn handle_kanitool_unwind(&mut self, attr: &Attribute, harness: &mut HarnessMetadata)
        requires
            unwind_fits(old(harness)@.unwind_value, attr@),
        ensures
            final(harness)@ == (HarnessView {
                unwind_value: unwind_step(old(harness)@.unwind_value, attr@),
                ..old(harness)@
            }),
            final(self)@ == (CtxView {
                diagnostics: match unwind_complaint(old(harness)@.unwind_value, attr@) {
                    Some(d) => old(self)@.diagnostics.push(d),
                    None => old(self)@.diagnostics,
                },
                ..old(self)@
            }),
            final(self).symbol_table == old(self).symbol_table,
            final(self).proof_harnesses == old(self).proof_harnesses,
            final(self).current_fn == old(self).current_fn,
    {
        let ghost before = self.diagnostics@;
        if harness.unwind_value.is_none() {
            match extract_integer_argument(attr) {
                Some(integer_value) => {
                    harness.unwind_value = Some(integer_value as u32);
                },
                None => {
                    let d: Diagnostic = Diagnostic::error(
                        &attr.span,
                        "Exactly one Unwind Argument as Integer accepted",
                    );
                    self.diagnostics.push(d);
                    proof {
                        lemma_views_push(before, d);
                    }
                },
            }
        } else {
            let d: Diagnostic = Diagnostic::error(
                &attr.span,
                "Use only one Unwind Annotation per Harness",
            );
            self.diagnostics.push(d);
            proof {
                lemma_views_push(before, d);
            }
        }
    }
}

/// Where the first `n` modifiers can be applied in their turn, so can the one
/// at place `k` below `n`.
proof fn lemma_unwind_values_fit_below(mods: Seq<AttributeView>, n: nat, k: nat)
    requires
        unwind_values_fit(mods, n),
        k < n,
    ensures
        unwind_fits(unwind_after(mods, k), mods[k as int]),
    decreases n,
{
    if k + 1 < n {
        lemma_unwind_values_fit_below(mods, (n - 1) as nat, k);
    }
}

} // verus!
