//! The symbol table: the declared entities of the goto program, by mangled name.

use crate::goto::{position, lemma_position_bounds, lemma_position_is_first, Body, Symbol, SymbolView};
use vstd::prelude::*;
use vstd::string::*;

verus! {

/// The names of `symbols`, in order.
pub open spec fn symbol_names(symbols: Seq<Symbol>) -> Seq<Seq<char>> {
    symbols.map_values(|s: Symbol| s.name@)
}

/// The table that a list of symbols stands for: each name with the first symbol
/// of that name.
pub open spec fn table_of(symbols: Seq<Symbol>) -> Map<Seq<char>, SymbolView> {
    Map::new(
        |name: Seq<char>| position(symbol_names(symbols), name) < symbols.len(),
        |name: Seq<char>| symbols[position(symbol_names(symbols), name)]@,
    )
}

/// No text stands at two places of `names`.
pub open spec fn all_distinct(names: Seq<Seq<char>>) -> bool {
    forall|i: int, j: int| 0 <= i < j < names.len() ==> names[i] != names[j]
}

/// Putting `sym` at the place `k`, where a symbol of the same name stood, changes
/// the table at that name only.
proof fn lemma_table_after_set(before: Seq<Symbol>, k: int, sym: Symbol)
    requires
        0 <= k < before.len(),
        before[k].name@ == sym.name@,
        k == position(symbol_names(before), sym.name@),
    ensures
        symbol_names(before.update(k, sym)) == symbol_names(before),
        table_of(before.update(k, sym)) == table_of(before).insert(sym.name@, sym@),
{
    let after = before.update(k, sym);
    let names = symbol_names(before);
    assert(symbol_names(after) =~= names);
    assert forall|name: Seq<char>|
        table_of(after).contains_key(name) == table_of(before).insert(
            sym.name@,
            sym@,
        ).contains_key(name) by {
        lemma_position_bounds(names, name);
    }
    assert forall|name: Seq<char>| #[trigger] table_of(after).contains_key(name) implies table_of(
        after,
    )[name] == table_of(before).insert(sym.name@, sym@)[name] by {
        lemma_position_bounds(names, name);
        let p = position(names, name);
        if name != sym.name@ {
            assert(names[p] == name);
            assert(names[k] == sym.name@);
            assert(p != k);
        }
    }
    assert(table_of(after) =~= table_of(before).insert(sym.name@, sym@));
}

/// Putting `sym` behind the others, where no symbol had its name, adds it to the table.
proof fn lemma_table_after_push(before: Seq<Symbol>, sym: Symbol)
    requires
        position(symbol_names(before), sym.name@) == before.len(),
    ensures
        symbol_names(before.push(sym)) == symbol_names(before).push(sym.name@),
        table_of(before.push(sym)) == table_of(before).insert(sym.name@, sym@),
        all_distinct(symbol_names(before)) ==> all_distinct(symbol_names(before.push(sym))),
{
    let after = before.push(sym);
    let key = sym.name@;
    let names = symbol_names(before);
    let names2 = symbol_names(after);
    assert(names2 =~= names.push(key));
    lemma_position_bounds(names, key);
    assert forall|name: Seq<char>|
        position(names2, name) == (if position(names, name) < names.len() {
            position(names, name)
        } else if name == key {
            names.len() as int
        } else {
            names2.len() as int
        }) by {
        lemma_position_bounds(names, name);
        let p = position(names, name);
        if p < names.len() {
            lemma_position_is_first(names2, name, p);
        } else if name == key {
            lemma_position_is_first(names2, name, names.len() as int);
        } else {
            lemma_position_is_first(names2, name, names2.len() as int);
        }
    }
    assert forall|name: Seq<char>|
        table_of(after).contains_key(name) == table_of(before).insert(key, sym@).contains_key(
            name,
        ) by {
        lemma_position_bounds(names, name);
    }
    assert forall|name: Seq<char>| #[trigger] table_of(after).contains_key(name) implies table_of(
        after,
    )[name] == table_of(before).insert(key, sym@)[name] by {
        lemma_position_bounds(names, name);
    }
    assert(table_of(after) =~= table_of(before).insert(key, sym@));
    if all_distinct(names) {
        assert forall|i: int, j: int| 0 <= i < j < names2.len() implies names2[i] != names2[j] by {
            if j < names.len() {
                assert(names[i] != names[j]);
            }
        }
    }
}

/// A mapping from mangled names to symbols. No name occurs twice in it.
#[derive(Debug)]
pub struct SymbolTable {
    symbols: Vec<Symbol>,
}

impl View for SymbolTable {
    type V = Map<Seq<char>, SymbolView>;

    closed spec fn view(&self) -> Map<Seq<char>, SymbolView> {
        table_of(self.symbols@)
    }
}

impl SymbolTable {
    /// No two symbols of the table have the same name.
    pub closed spec fn wf(&self) -> bool {
        all_distinct(symbol_names(self.symbols@))
    }

    /// An empty table.
    pub fn new() -> (table: SymbolTable)
        ensures
            table@ == Map::<Seq<char>, SymbolView>::empty(),
            table.wf(),
    {
        let table = SymbolTable { symbols: Vec::new() };
        assert(table@ =~= Map::<Seq<char>, SymbolView>::empty());
        table
    }

    /// The place of the symbol named `name`, or the number of symbols if there is none.
    fn find(&self, name: &String) -> (k: usize)
        ensures
            k == position(symbol_names(self.symbols@), name@),
            k <= self.symbols@.len(),
            k < self.symbols@.len() ==> self.symbols@[k as int].name@ == name@,
            k < self.symbols@.len() <==> self@.contains_key(name@),
            k < self.symbols@.len() ==> self@[name@] == self.symbols@[k as int]@,
    {
        let ghost names = symbol_names(self.symbols@);
        let mut k: usize = 0;
        while k < self.symbols.len()
            invariant
                k <= self.symbols.len(),
                names == symbol_names(self.symbols@),
                forall|j: int| 0 <= j < k ==> names[j] != name@,
            decreases self.symbols.len() - k,
        {
            if self.symbols[k].name == *name {
                proof {
                    lemma_position_is_first(names, name@, k as int);
                }
                return k;
            }
            k += 1;
        }
        proof {
            lemma_position_is_first(names, name@, k as int);
        }
        k
    }

    /// Tells whether a symbol is declared under `name`.
    pub fn contains(&self, name: &str) -> (r: bool)
        ensures
            r == self@.contains_key(name@),
    {
        let key: String = String::from_str(name);
        self.find(&key) < self.symbols.len()
    }

    /// The symbol declared under `name`, if there is one.
    pub fn lookup(&self, name: &str) -> (found: Option<&Symbol>)
        ensures
            match found {
                Some(sym) => self@.contains_key(name@) && sym@ == self@[name@],
                None => !self@.contains_key(name@),
            },
    {
        let key: String = String::from_str(name);
        let k: usize = self.find(&key);
        if k < self.symbols.len() {
            Some(&self.symbols[k])
        } else {
            None
        }
    }

    /// Declares `sym` under its name; a symbol that was there under that name is replaced.
    pub fn insert(&mut self, sym: Symbol)
        ensures
            final(self)@ == old(self)@.insert(sym.name@, sym@),
            old(self).wf() ==> final(self).wf(),
    {
        let ghost before = self.symbols@;
        let k: usize = self.find(&sym.name);
        if k < self.symbols.len() {
            proof {
                lemma_table_after_set(before, k as int, sym);
            }
            self.symbols.set(k, sym);
        } else {
            proof {
                lemma_table_after_push(before, sym);
            }
            self.symbols.push(sym);
        }
    }

    /// Gives the function declared under `name` its body.
    pub fn update_fn_declaration_with_definition(&mut self, name: &str, body: Body)
        requires
            old(self)@.contains_key(name@),
            old(self)@[name@].is_function_declaration(),
        ensures
            final(self)@ == old(self)@.insert(name@, old(self)@[name@].with_body(body@)),
            old(self).wf() ==> final(self).wf(),
    {
        let ghost before = self.symbols@;
        let key: String = String::from_str(name);
        let k: usize = self.find(&key);
        let mut sym: Symbol = self.symbols[k].clone();
        sym.update_fn_declaration_with_definition(body);
        proof {
            lemma_table_after_set(before, k as int, sym);
        }
        self.symbols.set(k, sym);
    }
}

} // verus!
