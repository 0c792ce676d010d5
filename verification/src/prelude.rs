//! The untupling prelude: a function whose last parameter is a tuple receives
//! the tuple's components as separate parameters, while its body reads the
//! tuple. The prelude declares the components and puts the tuple together.

use crate::goto::{
    fields_of, lemma_position_bounds, lemma_struct_expr_member, member_names, member_of,
    members_cover, names_distinct, position, struct_expr_of, views, ExprView, MemberView,
    StmtView, SymbolView, Type, TypeView,
};
use crate::mir::{FnTy, FnTyView, Instance, InstanceView, ParamTy, ParamTyView};
use crate::names::{
    decimal, decimal_string, lemma_decimal_injective, spread_base_name, spread_name,
};
use crate::variables::local_symbol;
use vstd::prelude::*;
use vstd::string::*;

verus! {

/// The parameter types of a function item or a function pointer; `None` for any
/// other type.
pub open spec fn signature_inputs(fn_ty: FnTyView) -> Option<Seq<ParamTyView>> {
    match fn_ty {
        FnTyView::FnDef { inputs } => Some(inputs),
        FnTyView::FnPtr { inputs } => Some(inputs),
        _ => None,
    }
}

/// The instance has a signature, and the last parameter of it is a tuple.
pub open spec fn has_tuple_signature(inst: InstanceView) -> bool {
    match signature_inputs(inst.fn_ty) {
        Some(inputs) => inputs.len() > 0 && inputs.last() is Tuple,
        None => false,
    }
}

/// The types of the components of the tuple that is the last parameter.
pub open spec fn spread_components(inst: InstanceView) -> Seq<TypeView> {
    match signature_inputs(inst.fn_ty) {
        Some(inputs) => if inputs.len() > 0 {
            match inputs.last() {
                ParamTyView::Tuple(components) => components,
                ParamTyView::Other => Seq::empty(),
            }
        } else {
            Seq::empty()
        },
        None => Seq::empty(),
    }
}

/// The position of the first spread parameter: right behind the parameters that
/// the signature declares.
pub open spec fn first_spread_index(inst: InstanceView) -> nat {
    match signature_inputs(inst.fn_ty) {
        Some(inputs) => inputs.len(),
        None => 0,
    }
}

/// The names of the fields of a tuple of `n` components: the numerals of the
/// components' indices.
pub open spec fn index_names(n: nat) -> Seq<Seq<char>> {
    Seq::new(n, |k: int| decimal(k as nat))
}

/// `typ` is an aggregate whose fields are those of a tuple of `n` components, in
/// whatever order the layout has put them.
pub open spec fn tuple_layout_ok(typ: TypeView, n: nat) -> bool {
    &&& typ is Struct
    &&& fields_of(typ).len() == n
    &&& forall|j: int| 0 <= j < n ==> index_names(n).contains(#[trigger] fields_of(typ)[j])
    &&& forall|k: int| 0 <= k < n ==> fields_of(typ).contains(#[trigger] index_names(n)[k])
}

/// What the prelude relies on where the function has a spread argument: the slot
/// exists, the signature ends in a tuple, the type of the slot has that tuple's
/// fields, and the positions of the spread parameters can be counted.
pub open spec fn spread_is_consistent(inst: InstanceView) -> bool {
    match inst.mir.spread_arg {
        None => true,
        Some(s) => {
            &&& s < inst.mir.local_decls.len()
            &&& has_tuple_signature(inst)
            &&& tuple_layout_ok(inst.mir.local_decls[s as int].ty, spread_components(inst).len())
            &&& first_spread_index(inst) + spread_components(inst).len() <= usize::MAX
        },
    }
}

/// The symbol of the spread parameter that carries component `k` of the tuple.
pub open spec fn spread_param_symbol(inst: InstanceView, k: int) -> SymbolView {
    SymbolView {
        name: spread_name(inst.name, (first_spread_index(inst) + k) as nat),
        base_name: spread_base_name((first_spread_index(inst) + k) as nat),
        typ: spread_components(inst)[k],
        location: inst.mir.local_decls[inst.mir.spread_arg.unwrap() as int].span,
        is_hidden: true,
        body: None,
    }
}

/// The first `n` components of the tuple, each named by its index and valued by
/// its spread parameter.
pub open spec fn spread_members(inst: InstanceView, n: nat) -> Seq<MemberView> {
    Seq::new(
        n,
        |k: int| MemberView { name: decimal(k as nat), value: spread_param_symbol(inst, k).to_expr() },
    )
}

/// The table once the first `n` spread parameters have been declared.
pub open spec fn symbols_with_spread_params(
    symbols: Map<Seq<char>, SymbolView>,
    inst: InstanceView,
    n: nat,
) -> Map<Seq<char>, SymbolView>
    decreases n,
{
    if n == 0 {
        symbols
    } else {
        symbols_with_spread_params(symbols, inst, (n - 1) as nat).insert(
            spread_param_symbol(inst, n - 1).name,
            spread_param_symbol(inst, n - 1),
        )
    }
}

/// The tuple that the body reads, put together from the spread parameters: each
/// field is addressed by its name, the index of the component.
pub open spec fn marshalled_tuple(inst: InstanceView) -> ExprView {
    struct_expr_of(
        inst.mir.local_decls[inst.mir.spread_arg.unwrap() as int].ty,
        spread_members(inst, spread_components(inst).len()),
    )
}

/// The statement that declares the spread argument with the tuple as its value.
pub open spec fn prelude_statement(inst: InstanceView) -> StmtView {
    let s = inst.mir.spread_arg.unwrap() as int;
    StmtView::Decl {
        lhs: local_symbol(inst, s).to_expr(),
        value: Some(marshalled_tuple(inst)),
        loc: inst.mir.local_decls[s].span,
    }
}

/// The statements of the prelude: none without a spread argument, else one.
pub open spec fn prelude_statements(inst: InstanceView) -> Seq<StmtView> {
    match inst.mir.spread_arg {
        None => Seq::empty(),
        Some(s) => seq![prelude_statement(inst)],
    }
}

/// The table after the prelude: unchanged without a spread argument, else with
/// the spread parameters and the spread argument itself.
pub open spec fn symbols_after_prelude(
    symbols: Map<Seq<char>, SymbolView>,
    inst: InstanceView,
) -> Map<Seq<char>, SymbolView> {
    match inst.mir.spread_arg {
        None => symbols,
        Some(s) => symbols_with_spread_params(symbols, inst, spread_components(inst).len()).insert(
            local_symbol(inst, s as int).name,
            local_symbol(inst, s as int),
        ),
    }
}

/// The members of a tuple have names that differ from one another.
pub proof fn lemma_spread_members_distinct(inst: InstanceView, n: nat)
    ensures
        names_distinct(spread_members(inst, n)),
        member_names(spread_members(inst, n)) == index_names(n),
{
    let members = spread_members(inst, n);
    assert forall|a: int, b: int| 0 <= a < b < members.len() implies (#[trigger] members[a]).name
        != (#[trigger] members[b]).name by {
        if decimal(a as nat) == decimal(b as nat) {
            lemma_decimal_injective(a as nat, b as nat);
        }
    }
    assert(member_names(members) =~= index_names(n));
}

/// Where the layout is that of the tuple, every field finds its member.
pub proof fn lemma_spread_members_cover(inst: InstanceView, typ: TypeView, n: nat)
    requires
        tuple_layout_ok(typ, n),
    ensures
        members_cover(typ, spread_members(inst, n)),
{
    let members = spread_members(inst, n);
    lemma_spread_members_distinct(inst, n);
    let names = member_names(members);
    assert forall|j: int| 0 <= j < fields_of(typ).len() implies position(
        names,
        #[trigger] fields_of(typ)[j],
    ) < members.len() by {
        let key = fields_of(typ)[j];
        lemma_position_bounds(names, key);
        assert(index_names(n).contains(key));
        let w = choose|w: int| 0 <= w < names.len() && names[w] == key;
        assert(names[w] == key);
    }
}

/// Read by the index of a component, the tuple that the prelude puts together
/// holds the spread parameter of that component, whatever the order in which
/// the layout lists the fields.
pub proof fn lemma_untupling_round_trip(inst: InstanceView, k: int)
    requires
        inst.mir.spread_arg is Some,
        spread_is_consistent(inst),
        0 <= k < spread_components(inst).len(),
    ensures
        member_of(marshalled_tuple(inst), decimal(k as nat)) == spread_param_symbol(
            inst,
            k,
        ).to_expr(),
{
    let n = spread_components(inst).len();
    let typ = inst.mir.local_decls[inst.mir.spread_arg.unwrap() as int].ty;
    let members = spread_members(inst, n);
    lemma_spread_members_distinct(inst, n);
    assert(index_names(n)[k] == decimal(k as nat));
    assert(fields_of(typ).contains(index_names(n)[k]));
    lemma_struct_expr_member(typ, members, k);
}

/// The numerals of the indices below `n`.
fn index_name_strings(n: usize) -> (v: Vec<String>)
    ensures
        views(v@) == index_names(n as nat),
{
    let mut v: Vec<String> = Vec::new();
    let mut k: usize = 0;
    while k < n
        invariant
            k <= n,
            v@.len() == k,
            forall|i: int| 0 <= i < k ==> v@[i]@ == decimal(i as nat),
        decreases n - k,
    {
        v.push(decimal_string(k as u64));
        k += 1;
    }
    assert(views(v@) =~= index_names(n as nat));
    v
}

/// Tells whether `key` is one of the texts of `list`.
fn holds_text(list: &Vec<String>, key: &String) -> (r: bool)
    ensures
        r == views(list@).contains(key@),
{
    let mut i: usize = 0;
    while i < list.len()
        invariant
            i <= list.len(),
            forall|j: int| 0 <= j < i ==> views(list@)[j] != key@,
        decreases list.len() - i,
    {
        if list[i] == *key {
            assert(views(list@)[i as int] == key@);
            return true;
        }
        i += 1;
    }
    false
}

/// Tells whether every text of `list` is one of the texts of `within`.
fn all_held(list: &Vec<String>, within: &Vec<String>) -> (r: bool)
    ensures
        r == (forall|j: int|
            0 <= j < list@.len() ==> views(within@).contains(#[trigger] views(list@)[j])),
{
    let mut i: usize = 0;
    while i < list.len()
        invariant
            i <= list.len(),
            forall|j: int| 0 <= j < i ==> views(within@).contains(#[trigger] views(list@)[j]),
        decreases list.len() - i,
    {
        if !holds_text(within, &list[i]) {
            assert(!views(within@).contains(views(list@)[i as int]));
            return false;
        }
        i += 1;
    }
    true
}

/// Tells whether `typ` has the fields of a tuple of `n` components.
pub fn tuple_layout_matches(typ: &Type, n: usize) -> (r: bool)
    ensures
        r == tuple_layout_ok(typ@, n as nat),
{
    match typ {
        Type::Struct { tag, fields } => {
            if fields.len() != n {
                return false;
            }
            let names: Vec<String> = index_name_strings(n);
            assert(views(fields@) == fields_of(typ@));
            let forth: bool = all_held(fields, &names);
            let back: bool = all_held(&names, fields);
            proof {
                let f = fields_of(typ@);
                let ix = index_names(n as nat);
                assert(views(names@) == ix);
                assert(forth == (forall|j: int| 0 <= j < n ==> ix.contains(#[trigger] f[j])));
                assert(back == (forall|k: int| 0 <= k < n ==> f.contains(#[trigger] ix[k])));
            }
            forth && back
        },
        _ => false,
    }
}

impl Instance {
    /// The parameter types of the signature, if the instance is a function item
    /// or a function pointer.
    pub fn signature_inputs(&self) -> (inputs: Option<&Vec<ParamTy>>)
        ensures
            match inputs {
                Some(v) => signature_inputs(self@.fn_ty) == Some(views(v@)),
                None => signature_inputs(self@.fn_ty) is None,
            },
    {
        match &self.fn_ty {
            FnTy::FnDef { inputs } => Some(inputs),
            FnTy::FnPtr { inputs } => Some(inputs),
            _ => None,
        }
    }

    /// The component types of the tuple that is the last parameter, if the
    /// signature ends in a tuple.
    pub fn spread_components(&self) -> (components: Option<&Vec<Type>>)
        ensures
            match components {
                Some(v) => has_tuple_signature(self@) && spread_components(self@) == views(v@),
                None => !has_tuple_signature(self@),
            },
    {
        match self.signature_inputs() {
            Some(inputs) => {
                if inputs.len() == 0 {
                    return None;
                }
                assert(views(inputs@).last() == inputs@[inputs@.len() - 1]@);
                match &inputs[inputs.len() - 1] {
                    ParamTy::Tuple(components) => Some(components),
                    ParamTy::Other => None,
                }
            },
            None => None,
        }
    }

    /// Tells whether the prelude can run on this instance.
    pub fn has_consistent_spread(&self) -> (r: bool)
        ensures
            r == spread_is_consistent(self@),
    {
        match self.mir.spread_arg {
            None => true,
            Some(s) => {
                if s >= self.mir.local_decls.len() {
                    return false;
                }
                let inputs: &Vec<ParamTy> = match self.signature_inputs() {
                    Some(inputs) => inputs,
                    None => {
                        return false;
                    },
                };
                let components: &Vec<Type> = match self.spread_components() {
                    Some(components) => components,
                    None => {
                        return false;
                    },
                };
                assert(self.mir.local_decls@[s as int]@ == self@.mir.local_decls[s as int]);
                if !tuple_layout_matches(&self.mir.local_decls[s].ty, components.len()) {
                    return false;
                }
                components.len() <= usize::MAX - inputs.len()
            },
        }
    }
}

} // verus!
