//! The goto-program side: locations, types, expressions, statements and symbols,
//! each with the mathematical value it stands for.

use vstd::prelude::*;
use vstd::string::*;

verus! {

/// The values that the elements of `s` stand for, in the same order.
pub open spec fn views<T: View>(s: Seq<T>) -> Seq<T::V> {
    s.map_values(|x: T| x@)
}

/// Adding an element to a list adds its value to the list of values.
pub proof fn lemma_views_push<T: View>(s: Seq<T>, x: T)
    ensures
        views(s.push(x)) == views(s).push(x@),
{
    assert(views(s.push(x)) =~= views(s).push(x@));
}

/// Copies a list of texts.
pub fn clone_strings(v: &Vec<String>) -> (res: Vec<String>)
    ensures
        views(res@) == views(v@),
{
    let mut res: Vec<String> = Vec::new();
    let mut i: usize = 0;
    while i < v.len()
        invariant
            i <= v.len(),
            res@.len() == i,
            forall|j: int| 0 <= j < i ==> res@[j]@ == v@[j]@,
        decreases v.len() - i,
    {
        res.push(v[i].clone());
        i += 1;
    }
    assert(views(res@) =~= views(v@));
    res
}

/// A place in the source text.
#[derive(Debug, PartialEq, Eq)]
pub struct Location {
    pub file: String,
    pub line: u64,
}

pub ghost struct LocationView {
    pub file: Seq<char>,
    pub line: u64,
}

impl View for Location {
    type V = LocationView;

    open spec fn view(&self) -> LocationView {
        LocationView { file: self.file@, line: self.line }
    }
}

impl Clone for Location {
    fn clone(&self) -> (res: Self)
        ensures
            res@ == self@,
    {
        Location { file: self.file.clone(), line: self.line }
    }
}

/// A type of the goto program.
#[derive(Debug, PartialEq, Eq)]
pub enum Type {
    /// A type that this stage only passes on, known by its name.
    Plain { name: String },
    /// An aggregate with named fields, listed in the order of its physical layout.
    Struct { tag: String, fields: Vec<String> },
    /// The type of a function, known by its committed signature.
    Code { signature: String },
}

pub ghost enum TypeView {
    Plain { name: Seq<char> },
    Struct { tag: Seq<char>, fields: Seq<Seq<char>> },
    Code { signature: Seq<char> },
}

impl View for Type {
    type V = TypeView;

    open spec fn view(&self) -> TypeView {
        match self {
            Type::Plain { name } => TypeView::Plain { name: name@ },
            Type::Struct { tag, fields } => TypeView::Struct { tag: tag@, fields: views(fields@) },
            Type::Code { signature } => TypeView::Code { signature: signature@ },
        }
    }
}

impl Clone for Type {
    fn clone(&self) -> (res: Self)
        ensures
            res@ == self@,
    {
        match self {
            Type::Plain { name } => Type::Plain { name: name.clone() },
            Type::Struct { tag, fields } => Type::Struct {
                tag: tag.clone(),
                fields: clone_strings(fields),
            },
            Type::Code { signature } => Type::Code { signature: signature.clone() },
        }
    }
}

impl Type {
    /// Tells whether this is the type of a function.
    pub fn is_code(&self) -> (r: bool)
        ensures
            r == (self@ is Code),
    {
        match self {
            Type::Code { .. } => true,
            _ => false,
        }
    }
}

/// The value of a declared symbol, by the symbol's name.
#[derive(Debug, PartialEq, Eq)]
pub struct SymbolRef {
    pub name: String,
    pub typ: Type,
}

pub ghost struct SymbolRefView {
    pub name: Seq<char>,
    pub typ: TypeView,
}

impl View for SymbolRef {
    type V = SymbolRefView;

    open spec fn view(&self) -> SymbolRefView {
        SymbolRefView { name: self.name@, typ: self.typ@ }
    }
}

impl Clone for SymbolRef {
    fn clone(&self) -> (res: Self)
        ensures
            res@ == self@,
    {
        SymbolRef { name: self.name.clone(), typ: self.typ.clone() }
    }
}

/// Copies a list of symbol references.
pub fn clone_symbol_refs(v: &Vec<SymbolRef>) -> (res: Vec<SymbolRef>)
    ensures
        views(res@) == views(v@),
{
    let mut res: Vec<SymbolRef> = Vec::new();
    let mut i: usize = 0;
    while i < v.len()
        invariant
            i <= v.len(),
            res@.len() == i,
            forall|j: int| 0 <= j < i ==> res@[j]@ == v@[j]@,
        decreases v.len() - i,
    {
        res.push(v[i].clone());
        i += 1;
    }
    assert(views(res@) =~= views(v@));
    res
}

/// An expression of the goto program.
#[derive(Debug, PartialEq, Eq)]
pub enum Expr {
    /// The value of a symbol.
    Symbol(SymbolRef),
    /// An aggregate of type `typ`: one value for each field, in the order of the
    /// type's physical layout.
    Struct { typ: Type, values: Vec<SymbolRef> },
}

pub ghost enum ExprView {
    Symbol(SymbolRefView),
    Struct { typ: TypeView, values: Seq<SymbolRefView> },
}

impl View for Expr {
    type V = ExprView;

    open spec fn view(&self) -> ExprView {
        match self {
            Expr::Symbol(r) => ExprView::Symbol(r@),
            Expr::Struct { typ, values } => ExprView::Struct { typ: typ@, values: views(values@) },
        }
    }
}

impl Clone for Expr {
    fn clone(&self) -> (res: Self)
        ensures
            res@ == self@,
    {
        match self {
            Expr::Symbol(r) => Expr::Symbol(r.clone()),
            Expr::Struct { typ, values } => Expr::Struct {
                typ: typ.clone(),
                values: clone_symbol_refs(values),
            },
        }
    }
}

/// One named component of an aggregate that is being put together.
#[derive(Debug, PartialEq, Eq)]
pub struct Member {
    /// The name of the field that the value is for.
    pub name: String,
    pub value: SymbolRef,
}

pub ghost struct MemberView {
    pub name: Seq<char>,
    pub value: SymbolRefView,
}

impl View for Member {
    type V = MemberView;

    open spec fn view(&self) -> MemberView {
        MemberView { name: self.name@, value: self.value@ }
    }
}

/// The names of `members`, in order.
pub open spec fn member_names(members: Seq<MemberView>) -> Seq<Seq<char>> {
    members.map_values(|m: MemberView| m.name)
}

/// The first position at which `key` stands in `keys`; the length of `keys` if
/// it stands nowhere.
pub open spec fn position(keys: Seq<Seq<char>>, key: Seq<char>) -> int
    decreases keys.len(),
{
    if keys.len() == 0 {
        0
    } else if keys[0] == key {
        0
    } else {
        1 + position(keys.drop_first(), key)
    }
}

/// `position` lies within the list or just behind it, finds `key` where it lies
/// within, and passes no occurrence of `key` on its way.
pub proof fn lemma_position_bounds(keys: Seq<Seq<char>>, key: Seq<char>)
    ensures
        0 <= position(keys, key) <= keys.len(),
        position(keys, key) < keys.len() ==> keys[position(keys, key)] == key,
        forall|j: int| 0 <= j < position(keys, key) ==> keys[j] != key,
    decreases keys.len(),
{
    if keys.len() > 0 && keys[0] != key {
        let rest = keys.drop_first();
        lemma_position_bounds(rest, key);
        assert forall|j: int| 0 <= j < position(keys, key) implies keys[j] != key by {
            if j > 0 {
                assert(keys[j] == rest[j - 1]);
            }
        }
    }
}

/// A position that holds `key`, or the end, with no `key` before it, is `position`.
pub proof fn lemma_position_is_first(keys: Seq<Seq<char>>, key: Seq<char>, k: int)
    requires
        0 <= k <= keys.len(),
        k < keys.len() ==> keys[k] == key,
        forall|j: int| 0 <= j < k ==> keys[j] != key,
    ensures
        position(keys, key) == k,
    decreases keys.len(),
{
    if keys.len() > 0 && k > 0 {
        let rest = keys.drop_first();
        assert(keys[0] != key);
        assert forall|j: int| 0 <= j < k - 1 implies rest[j] != key by {
            assert(rest[j] == keys[j + 1]);
        }
        lemma_position_is_first(rest, key, k - 1);
    }
}

/// The fields of an aggregate type, in layout order; none for another type.
pub open spec fn fields_of(typ: TypeView) -> Seq<Seq<char>> {
    match typ {
        TypeView::Struct { fields, .. } => fields,
        _ => Seq::empty(),
    }
}

/// Every field of `typ` has a member of its name, and there are as many
/// members as fields.
pub open spec fn members_cover(typ: TypeView, members: Seq<MemberView>) -> bool {
    &&& typ is Struct
    &&& members.len() == fields_of(typ).len()
    &&& forall|j: int|
        0 <= j < fields_of(typ).len() ==> position(
            member_names(members),
            #[trigger] fields_of(typ)[j],
        ) < members.len()
}

/// The aggregate of type `typ` in which each field has the value of the member
/// of the same name, wherever the layout has put the field.
pub open spec fn struct_expr_of(typ: TypeView, members: Seq<MemberView>) -> ExprView {
    ExprView::Struct {
        typ,
        values: Seq::new(
            fields_of(typ).len(),
            |j: int| members[position(member_names(members), fields_of(typ)[j])].value,
        ),
    }
}

/// What the aggregate `e` holds in its field `field`.
pub open spec fn member_of(e: ExprView, field: Seq<char>) -> SymbolRefView
    recommends
        e is Struct,
{
    match e {
        ExprView::Struct { typ, values } => values[position(fields_of(typ), field)],
        ExprView::Symbol(r) => r,
    }
}

/// The names of `members` differ from one another.
pub open spec fn names_distinct(members: Seq<MemberView>) -> bool {
    forall|a: int, b: int|
        0 <= a < b < members.len() ==> (#[trigger] members[a]).name != (#[trigger] members[b]).name
}

/// Reading a field of an aggregate built by name gives the value of the member of
/// that name, whatever the order in which the layout lists the fields.
pub proof fn lemma_struct_expr_member(typ: TypeView, members: Seq<MemberView>, k: int)
    requires
        typ is Struct,
        names_distinct(members),
        0 <= k < members.len(),
        fields_of(typ).contains(members[k].name),
    ensures
        member_of(struct_expr_of(typ, members), members[k].name) == members[k].value,
{
    let fields = fields_of(typ);
    let names = member_names(members);
    let key = members[k].name;
    lemma_position_bounds(fields, key);
    let j = position(fields, key);
    let w = choose|w: int| 0 <= w < fields.len() && fields[w] == key;
    assert(j < fields.len()) by {
        if j >= fields.len() {
            assert(fields[w] != key);
        }
    }
    assert forall|i: int| 0 <= i < k implies names[i] != key by {
        assert(members[i].name != members[k].name);
    }
    assert(names[k] == key);
    lemma_position_is_first(names, key, k);
}

/// Finds the first member named `key`.
fn find_member(members: &Vec<Member>, key: &String) -> (k: usize)
    ensures
        k == position(member_names(views(members@)), key@),
{
    let ghost names = member_names(views(members@));
    let mut k: usize = 0;
    while k < members.len()
        invariant
            k <= members.len(),
            names == member_names(views(members@)),
            forall|j: int| 0 <= j < k ==> names[j] != key@,
        decreases members.len() - k,
    {
        if members[k].name == *key {
            proof {
                assert(names[k as int] == members@[k as int]@.name);
                lemma_position_is_first(names, key@, k as int);
            }
            return k;
        }
        assert(names[k as int] == members@[k as int]@.name);
        k += 1;
    }
    proof {
        lemma_position_is_first(names, key@, k as int);
    }
    k
}

impl Expr {
    /// Builds the aggregate of type `typ` from named members: the value of each
    /// field is found by the field's name, not by its place.
    pub fn struct_expr(typ: Type, members: &Vec<Member>) -> (e: Expr)
        requires
            members_cover(typ@, views(members@)),
        ensures
            e@ == struct_expr_of(typ@, views(members@)),
    {
        let mut values: Vec<SymbolRef> = Vec::new();
        match &typ {
            Type::Struct { fields, .. } => {
                let ghost names = member_names(views(members@));
                let mut j: usize = 0;
                while j < fields.len()
                    invariant
                        j <= fields.len(),
                        typ@ is Struct,
                        views(fields@) == fields_of(typ@),
                        members_cover(typ@, views(members@)),
                        names == member_names(views(members@)),
                        values@.len() == j,
                        forall|i: int|
                            0 <= i < j ==> values@[i]@ == views(members@)[position(
                                names,
                                fields_of(typ@)[i],
                            )].value,
                    decreases fields.len() - j,
                {
                    assert(fields_of(typ@)[j as int] == fields@[j as int]@);
                    let k: usize = find_member(members, &fields[j]);
                    assert(k < members.len());
                    values.push(members[k].value.clone());
                    j += 1;
                }
            },
            _ => {},
        }
        assert(views(values@) =~= struct_expr_of(typ@, views(members@))->values);
        Expr::Struct { typ, values }
    }
}

/// A statement of the goto program.
#[derive(Debug, PartialEq, Eq)]
pub enum Stmt {
    /// Declares the symbol `lhs`, with `value` as its initial value if there is one.
    Decl { lhs: SymbolRef, value: Option<Expr>, loc: Location },
    /// Fails, with `message`, whenever control reaches it.
    Unsupported { message: String, loc: Location },
    /// A statement that the block translator produced; this stage passes it on.
    Code { text: String },
}

pub ghost enum StmtView {
    Decl { lhs: SymbolRefView, value: Option<ExprView>, loc: LocationView },
    Unsupported { message: Seq<char>, loc: LocationView },
    Code { text: Seq<char> },
}

impl View for Stmt {
    type V = StmtView;

    open spec fn view(&self) -> StmtView {
        match self {
            Stmt::Decl { lhs, value, loc } => StmtView::Decl {
                lhs: lhs@,
                value: match value {
                    Some(e) => Some(e@),
                    None => None,
                },
                loc: loc@,
            },
            Stmt::Unsupported { message, loc } => StmtView::Unsupported {
                message: message@,
                loc: loc@,
            },
            Stmt::Code { text } => StmtView::Code { text: text@ },
        }
    }
}

impl Clone for Stmt {
    fn clone(&self) -> (res: Self)
        ensures
            res@ == self@,
    {
        match self {
            Stmt::Decl { lhs, value, loc } => {
                let value: Option<Expr> = match value {
                    Some(e) => Some(e.clone()),
                    None => None,
                };
                Stmt::Decl { lhs: lhs.clone(), value, loc: loc.clone() }
            },
            Stmt::Unsupported { message, loc } => Stmt::Unsupported {
                message: message.clone(),
                loc: loc.clone(),
            },
            Stmt::Code { text } => Stmt::Code { text: text.clone() },
        }
    }
}

/// Copies a list of statements.
pub fn clone_stmts(v: &Vec<Stmt>) -> (res: Vec<Stmt>)
    ensures
        views(res@) == views(v@),
{
    let mut res: Vec<Stmt> = Vec::new();
    let mut i: usize = 0;
    while i < v.len()
        invariant
            i <= v.len(),
            res@.len() == i,
            forall|j: int| 0 <= j < i ==> res@[j]@ == v@[j]@,
        decreases v.len() - i,
    {
        res.push(v[i].clone());
        i += 1;
    }
    assert(views(res@) =~= views(v@));
    res
}

/// The compound statement that is the body of a function.
#[derive(Debug, PartialEq, Eq)]
pub struct Body {
    pub stmts: Vec<Stmt>,
    pub loc: Location,
}

pub ghost struct BodyView {
    pub stmts: Seq<StmtView>,
    pub loc: LocationView,
}

impl View for Body {
    type V = BodyView;

    open spec fn view(&self) -> BodyView {
        BodyView { stmts: views(self.stmts@), loc: self.loc@ }
    }
}

impl Clone for Body {
    fn clone(&self) -> (res: Self)
        ensures
            res@ == self@,
    {
        Body { stmts: clone_stmts(&self.stmts), loc: self.loc.clone() }
    }
}

/// A named, typed entity of the goto program.
#[derive(Debug, PartialEq, Eq)]
pub struct Symbol {
    /// The mangled name, by which the symbol is found.
    pub name: String,
    /// The name shown to the user.
    pub base_name: String,
    pub typ: Type,
    pub location: Location,
    /// True for what the compiler made up, false for what the user wrote.
    pub is_hidden: bool,
    /// For a function, its body once it has one.
    pub body: Option<Body>,
}

pub ghost struct SymbolView {
    pub name: Seq<char>,
    pub base_name: Seq<char>,
    pub typ: TypeView,
    pub location: LocationView,
    pub is_hidden: bool,
    pub body: Option<BodyView>,
}

impl SymbolView {
    /// The symbol of a function.
    pub open spec fn is_function(self) -> bool {
        self.typ is Code
    }

    /// The symbol of a function that has its body.
    pub open spec fn is_function_definition(self) -> bool {
        self.is_function() && self.body is Some
    }

    /// The symbol of a function that has no body yet.
    pub open spec fn is_function_declaration(self) -> bool {
        self.is_function() && self.body is None
    }

    /// This symbol with `body` as its body.
    pub open spec fn with_body(self, body: BodyView) -> SymbolView {
        SymbolView { body: Some(body), ..self }
    }

    /// The expression that reads this symbol.
    pub open spec fn to_expr(self) -> SymbolRefView {
        SymbolRefView { name: self.name, typ: self.typ }
    }
}

/// The symbol of a variable, as the user's own.
pub open spec fn variable_symbol(
    name: Seq<char>,
    base_name: Seq<char>,
    typ: TypeView,
    location: LocationView,
) -> SymbolView {
    SymbolView { name, base_name, typ, location, is_hidden: false, body: None }
}

/// The symbol of a function.
pub open spec fn function_symbol(
    name: Seq<char>,
    typ: TypeView,
    body: Option<BodyView>,
    pretty_name: Seq<char>,
    location: LocationView,
) -> SymbolView {
    SymbolView { name, base_name: pretty_name, typ, location, is_hidden: false, body }
}

impl View for Symbol {
    type V = SymbolView;

    open spec fn view(&self) -> SymbolView {
        SymbolView {
            name: self.name@,
            base_name: self.base_name@,
            typ: self.typ@,
            location: self.location@,
            is_hidden: self.is_hidden,
            body: match self.body {
                Some(b) => Some(b@),
                None => None,
            },
        }
    }
}

impl Clone for Symbol {
    fn clone(&self) -> (res: Self)
        ensures
            res@ == self@,
    {
        let body: Option<Body> = match &self.body {
            Some(b) => Some(b.clone()),
            None => None,
        };
        Symbol {
            name: self.name.clone(),
            base_name: self.base_name.clone(),
            typ: self.typ.clone(),
            location: self.location.clone(),
            is_hidden: self.is_hidden,
            body,
        }
    }
}

impl Symbol {
    /// Makes the symbol of a variable.
    pub fn variable(name: String, base_name: String, typ: Type, location: Location) -> (sym: Symbol)
        ensures
            sym@ == variable_symbol(name@, base_name@, typ@, location@),
    {
        Symbol { name, base_name, typ, location, is_hidden: false, body: None }
    }

    /// Makes the symbol of a function, with or without a body.
    pub fn function(
        name: String,
        typ: Type,
        body: Option<Body>,
        pretty_name: String,
        location: Location,
    ) -> (sym: Symbol)
        ensures
            sym@ == function_symbol(
                name@,
                typ@,
                match body {
                    Some(b) => Some(b@),
                    None => None,
                },
                pretty_name@,
                location@,
            ),
    {
        Symbol { name, base_name: pretty_name, typ, location, is_hidden: false, body }
    }

    /// Sets the hidden flag.
    pub fn with_is_hidden(self, hidden: bool) -> (sym: Symbol)
        ensures
            sym@ == (SymbolView { is_hidden: hidden, ..self@ }),
    {
        Symbol {
            name: self.name,
            base_name: self.base_name,
            typ: self.typ,
            location: self.location,
            is_hidden: hidden,
            body: self.body,
        }
    }

    /// The expression that reads this symbol.
    pub fn to_expr(&self) -> (r: SymbolRef)
        ensures
            r@ == self@.to_expr(),
    {
        SymbolRef { name: self.name.clone(), typ: self.typ.clone() }
    }

    /// Tells whether this is the symbol of a function.
    pub fn is_function(&self) -> (r: bool)
        ensures
            r == self@.is_function(),
    {
        self.typ.is_code()
    }

    /// Tells whether this is the symbol of a function that has its body.
    pub fn is_function_definition(&self) -> (r: bool)
        ensures
            r == self@.is_function_definition(),
    {
        self.typ.is_code() && self.body.is_some()
    }

    /// Tells whether this is the symbol of a function that has no body yet.
    pub fn is_function_declaration(&self) -> (r: bool)
        ensures
            r == self@.is_function_declaration(),
    {
        self.typ.is_code() && self.body.is_none()
    }

    /// Gives a declared function its body.
    pub fn update_fn_declaration_with_definition(&mut self, body: Body)
        requires
            old(self)@.is_function_declaration(),
        ensures
            final(self)@ == old(self)@.with_body(body@),
    {
        self.body = Some(body);
    }
}

} // verus!
