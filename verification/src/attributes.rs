//! Structured annotations on a function definition, and what this stage reads
//! from them.

use crate::goto::{views, Location, LocationView};
use vstd::prelude::*;
use vstd::string::*;

verus! {

/// A literal in the argument list of an attribute.
#[derive(Clone, Debug, PartialEq, Eq)]
pub enum Lit {
    Int(u128),
    Str(String),
    Bool(bool),
}

pub ghost enum LitView {
    Int(u128),
    Str(Seq<char>),
    Bool(bool),
}

impl View for Lit {
    type V = LitView;

    open spec fn view(&self) -> LitView {
        match self {
            Lit::Int(v) => LitView::Int(*v),
            Lit::Str(s) => LitView::Str(s@),
            Lit::Bool(b) => LitView::Bool(*b),
        }
    }
}

/// One entry of a parenthesised argument list.
#[derive(Clone, Debug, PartialEq, Eq)]
pub enum NestedMeta {
    /// A nested item that is not a literal, such as a word or a key with a value.
    MetaItem,
    /// A literal.
    Literal(Lit),
}

pub ghost enum NestedMetaView {
    MetaItem,
    Literal(LitView),
}

impl View for NestedMeta {
    type V = NestedMetaView;

    open spec fn view(&self) -> NestedMetaView {
        match self {
            NestedMeta::MetaItem => NestedMetaView::MetaItem,
            NestedMeta::Literal(l) => NestedMetaView::Literal(l@),
        }
    }
}

/// What follows the path of an attribute.
#[derive(Clone, Debug, PartialEq, Eq)]
pub enum AttrArgs {
    /// Nothing: the attribute is a bare path.
    Word,
    /// A parenthesised list.
    List(Vec<NestedMeta>),
    /// An equals sign and a literal.
    NameValue(Lit),
}

pub ghost enum AttrArgsView {
    Word,
    List(Seq<NestedMetaView>),
    NameValue(LitView),
}

impl View for AttrArgs {
    type V = AttrArgsView;

    open spec fn view(&self) -> AttrArgsView {
        match self {
            AttrArgs::Word => AttrArgsView::Word,
            AttrArgs::List(items) => AttrArgsView::List(views(items@)),
            AttrArgs::NameValue(l) => AttrArgsView::NameValue(l@),
        }
    }
}

/// The two forms of an attribute.
#[derive(Clone, Debug, PartialEq, Eq)]
pub enum AttrKind {
    /// An attribute proper: the segments of its path, and its arguments.
    Normal { path: Vec<String>, args: AttrArgs },
    /// A documentation comment.
    DocComment,
}

pub ghost enum AttrKindView {
    Normal { path: Seq<Seq<char>>, args: AttrArgsView },
    DocComment,
}

impl View for AttrKind {
    type V = AttrKindView;

    open spec fn view(&self) -> AttrKindView {
        match self {
            AttrKind::Normal { path, args } => AttrKindView::Normal {
                path: views(path@),
                args: args@,
            },
            AttrKind::DocComment => AttrKindView::DocComment,
        }
    }
}

/// An annotation on a function definition.
#[derive(Clone, Debug, PartialEq, Eq)]
pub struct Attribute {
    pub kind: AttrKind,
    /// Where the attribute stands.
    pub span: Location,
}

pub ghost struct AttributeView {
    pub kind: AttrKindView,
    pub span: LocationView,
}

impl View for Attribute {
    type V = AttributeView;

    open spec fn view(&self) -> AttributeView {
        AttributeView { kind: self.kind@, span: self.span@ }
    }
}

/// The first path segment of the attributes that this stage reads.
pub open spec fn tool_namespace() -> Seq<char> {
    "kanitool"@
}

/// The name, within the namespace, of the attribute that marks a proof harness.
pub open spec fn proof_marker() -> Seq<char> {
    "proof"@
}

/// The name, within the namespace, of the attribute that bounds unwinding.
pub open spec fn unwind_modifier() -> Seq<char> {
    "unwind"@
}

/// The name of an attribute within the tool namespace: the path segments behind
/// the namespace, joined without a separator. `None` for any other attribute.
pub open spec fn kanitool_name(attr: AttributeView) -> Option<Seq<char>> {
    match attr.kind {
        AttrKindView::Normal { path, args } => if path.len() > 0 && path[0] == tool_namespace() {
            Some(path.subrange(1, path.len() as int).flatten())
        } else {
            None
        },
        AttrKindView::DocComment => None,
    }
}

/// The integer that is the one argument of an attribute: `None` unless the
/// attribute has a parenthesised list of exactly one entry, an integer literal.
pub open spec fn integer_argument(attr: AttributeView) -> Option<u128> {
    match attr.kind {
        AttrKindView::Normal { path, args: AttrArgsView::List(items) } => if items.len() == 1 {
            match items[0] {
                NestedMetaView::Literal(LitView::Int(v)) => Some(v),
                _ => None,
            }
        } else {
            None
        },
        _ => None,
    }
}

/// The attribute marks a proof harness.
pub open spec fn is_proof_marker(attr: AttributeView) -> bool {
    kanitool_name(attr) == Some(proof_marker())
}

/// The attribute bounds unwinding.
pub open spec fn is_unwind_modifier(attr: AttributeView) -> bool {
    kanitool_name(attr) == Some(unwind_modifier())
}

/// Tells whether two texts are the same.
pub fn same_text(a: &str, b: &str) -> (r: bool)
    ensures
        r == (a@ == b@),
{
    let x: String = String::from_str(a);
    let y: String = String::from_str(b);
    x == y
}

/// Reads the name of an attribute within the tool namespace.
pub fn kanitool_attr_name(attr: &Attribute) -> (name: Option<String>)
    ensures
        match name {
            Some(s) => kanitool_name(attr@) == Some(s@),
            None => kanitool_name(attr@) is None,
        },
{
    match &attr.kind {
        AttrKind::Normal { path, args } => {
            if path.len() > 0 && same_text(path[0].as_str(), "kanitool") {
                let ghost segments = views(path@);
                let mut new_string: String = String::new();
                let mut index: usize = 1;
                assert(segments.subrange(1, 1) =~= Seq::<Seq<char>>::empty());
                while index < path.len()
                    invariant
                        1 <= index <= path.len(),
                        segments == views(path@),
                        new_string@ == segments.subrange(1, index as int).flatten(),
                    decreases path.len() - index,
                {
                    new_string.append(path[index].as_str());
                    proof {
                        let done = segments.subrange(1, index as int);
                        assert(segments.subrange(1, index + 1) =~= done.push(
                            segments[index as int],
                        ));
                        done.lemma_flatten_push(segments[index as int]);
                    }
                    index += 1;
                }
                Some(new_string)
            } else {
                None
            }
        },
        AttrKind::DocComment => None,
    }
}

/// Reads the integer that is the one argument of an attribute.
pub fn extract_integer_argument(attr: &Attribute) -> (value: Option<u128>)
    ensures
        value == integer_argument(attr@),
{
    match &attr.kind {
        AttrKind::Normal { path, args: AttrArgs::List(items) } => {
            if items.len() == 1 {
                match &items[0] {
                    NestedMeta::Literal(Lit::Int(v)) => Some(*v),
                    _ => None,
                }
            } else {
                None
            }
        },
        _ => None,
    }
}

} // verus!
