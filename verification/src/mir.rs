//! The source side: what this stage reads of a function instance and its body.

use crate::attributes::{Attribute, AttributeView};
use crate::goto::{views, Location, LocationView, Type, TypeView};
use vstd::prelude::*;

verus! {

/// One storage location of a function body.
#[derive(Clone, Debug, PartialEq, Eq)]
pub struct LocalDecl {
    /// The type of the slot, generic parameters substituted, in the goto program.
    pub ty: Type,
    /// Where the slot comes from.
    pub span: Location,
    /// True for a variable of the user, false for one that the compiler made up.
    pub user_variable: bool,
}

pub ghost struct LocalDeclView {
    pub ty: TypeView,
    pub span: LocationView,
    pub user_variable: bool,
}

impl View for LocalDecl {
    type V = LocalDeclView;

    open spec fn view(&self) -> LocalDeclView {
        LocalDeclView { ty: self.ty@, span: self.span@, user_variable: self.user_variable }
    }
}

/// The part that a local slot plays.
#[derive(Clone, Copy, Debug, PartialEq, Eq)]
pub enum LocalRole {
    /// The slot of the returned value.
    ReturnSlot,
    /// A parameter that the signature declares.
    DeclaredArgument,
    /// The tuple that arrives as separate parameters.
    SpreadArgument,
    /// Any other slot.
    OrdinaryLocal,
}

/// The type of one parameter of a signature, as far as this stage reads it.
#[derive(Clone, Debug, PartialEq, Eq)]
pub enum ParamTy {
    /// A tuple, with the types of its components in the goto program.
    Tuple(Vec<Type>),
    /// Any other type.
    Other,
}

pub ghost enum ParamTyView {
    Tuple(Seq<TypeView>),
    Other,
}

impl View for ParamTy {
    type V = ParamTyView;

    open spec fn view(&self) -> ParamTyView {
        match self {
            ParamTy::Tuple(components) => ParamTyView::Tuple(views(components@)),
            ParamTy::Other => ParamTyView::Other,
        }
    }
}

/// The type of an instance before its last parameter is untupled.
#[derive(Clone, Debug, PartialEq, Eq)]
pub enum FnTy {
    /// A function item, with the types of its parameters.
    FnDef { inputs: Vec<ParamTy> },
    /// A function pointer, with the types of its parameters.
    FnPtr { inputs: Vec<ParamTy> },
    /// A closure.
    Closure,
    /// Anything else.
    Other,
}

pub ghost enum FnTyView {
    FnDef { inputs: Seq<ParamTyView> },
    FnPtr { inputs: Seq<ParamTyView> },
    Closure,
    Other,
}

impl View for FnTy {
    type V = FnTyView;

    open spec fn view(&self) -> FnTyView {
        match self {
            FnTy::FnDef { inputs } => FnTyView::FnDef { inputs: views(inputs@) },
            FnTy::FnPtr { inputs } => FnTyView::FnPtr { inputs: views(inputs@) },
            FnTy::Closure => FnTyView::Closure,
            FnTy::Other => FnTyView::Other,
        }
    }
}

/// The body of a function.
#[derive(Clone, Debug, PartialEq, Eq)]
pub struct Mir {
    /// The local slots; slot 0 is that of the returned value.
    pub local_decls: Vec<LocalDecl>,
    /// How many parameters the body declares: the slots from 1 up to this number.
    pub arg_count: usize,
    /// The slot of the tuple that arrives as separate parameters, if there is one.
    pub spread_arg: Option<usize>,
    /// How many basic blocks the body has; they are numbered in program order.
    pub basic_blocks: usize,
    /// Where the function is written.
    pub span: Location,
}

pub ghost struct MirView {
    pub local_decls: Seq<LocalDeclView>,
    pub arg_count: nat,
    pub spread_arg: Option<nat>,
    pub basic_blocks: nat,
    pub span: LocationView,
}

impl View for Mir {
    type V = MirView;

    open spec fn view(&self) -> MirView {
        MirView {
            local_decls: views(self.local_decls@),
            arg_count: self.arg_count as nat,
            spread_arg: match self.spread_arg {
                Some(i) => Some(i as nat),
                None => None,
            },
            basic_blocks: self.basic_blocks as nat,
            span: self.span@,
        }
    }
}

impl MirView {
    /// The part that the slot `index` plays.
    pub open spec fn role(self, index: nat) -> LocalRole {
        if self.spread_arg == Some(index) {
            LocalRole::SpreadArgument
        } else if index == 0 {
            LocalRole::ReturnSlot
        } else if index <= self.arg_count {
            LocalRole::DeclaredArgument
        } else {
            LocalRole::OrdinaryLocal
        }
    }
}

impl Mir {
    /// Tells the part that the slot `index` plays.
    pub fn role(&self, index: usize) -> (role: LocalRole)
        ensures
            role == self@.role(index as nat),
    {
        let is_spread: bool = match self.spread_arg {
            Some(i) => i == index,
            None => false,
        };
        if is_spread {
            LocalRole::SpreadArgument
        } else if index == 0 {
            LocalRole::ReturnSlot
        } else if index <= self.arg_count {
            LocalRole::DeclaredArgument
        } else {
            LocalRole::OrdinaryLocal
        }
    }
}

/// One function, all generic parameters resolved.
#[derive(Clone, Debug, PartialEq, Eq)]
pub struct Instance {
    /// The mangled name: the key of the function in the symbol table.
    pub name: String,
    /// The name shown to the user, and held against the filter.
    pub readable_name: String,
    /// The type of the function before its last parameter is untupled.
    pub fn_ty: FnTy,
    /// The type of the function in the goto program, spread parameters included.
    pub fn_typ: Type,
    pub mir: Mir,
    /// The attributes on the definition, in the order in which they are written.
    pub attrs: Vec<Attribute>,
}

pub ghost struct InstanceView {
    pub name: Seq<char>,
    pub readable_name: Seq<char>,
    pub fn_ty: FnTyView,
    pub fn_typ: TypeView,
    pub mir: MirView,
    pub attrs: Seq<AttributeView>,
}

impl View for Instance {
    type V = InstanceView;

    open spec fn view(&self) -> InstanceView {
        InstanceView {
            name: self.name@,
            readable_name: self.readable_name@,
            fn_ty: self.fn_ty@,
            fn_typ: self.fn_typ@,
            mir: self.mir@,
            attrs: views(self.attrs@),
        }
    }
}

} // verus!
