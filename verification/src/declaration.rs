//! The declaration that a conversion is generated for.

use vstd::prelude::*;
use crate::error::{GenerationError, GenerationErrorView};
use crate::model::{first_where, result_view};
use crate::text::same_text;
use crate::token::{Token, TokenView};

verus! {

/// The three shapes of an attribute: `name`, `name(..)` and `name = ..`.
#[derive(Debug, Clone, Copy, PartialEq, Eq, Structural)]
pub enum MetaKind {
    Path,
    List,
    NameValue,
}

/// An attribute on an enumeration or on one of its variants. `tokens` holds
/// what stands between the brackets of a list, and is empty for the other
/// shapes.
#[derive(Debug, PartialEq, Eq)]
pub struct Attribute {
    pub name: String,
    pub kind: MetaKind,
    pub tokens: Vec<Token>,
}

/// The mathematical value of an [`Attribute`].
pub struct AttributeView {
    pub name: Seq<char>,
    pub kind: MetaKind,
    pub tokens: Seq<TokenView>,
}

impl View for Attribute {
    type V = AttributeView;

    open spec fn view(&self) -> AttributeView {
        AttributeView { name: self.name@, kind: self.kind, tokens: self.tokens.deep_view() }
    }
}

impl DeepView for Attribute {
    type V = AttributeView;

    open spec fn deep_view(&self) -> AttributeView {
        self@
    }
}

/// The fields of a variant: none, some by position, or some by name.
#[derive(Debug, Clone, Copy, PartialEq, Eq, Structural)]
pub enum Fields {
    Unit,
    Unnamed(usize),
    Named,
}

/// One case of an enumeration.
#[derive(Debug, PartialEq, Eq)]
pub struct Variant {
    pub ident: String,
    pub fields: Fields,
    pub attrs: Vec<Attribute>,
}

/// The mathematical value of a [`Variant`].
pub struct VariantView {
    pub ident: Seq<char>,
    pub fields: Fields,
    pub attrs: Seq<AttributeView>,
}

impl View for Variant {
    type V = VariantView;

    open spec fn view(&self) -> VariantView {
        VariantView { ident: self.ident@, fields: self.fields, attrs: self.attrs.deep_view() }
    }
}

impl DeepView for Variant {
    type V = VariantView;

    open spec fn deep_view(&self) -> VariantView {
        self@
    }
}

/// What is declared: an enumeration with its variants, or something else.
#[derive(Debug, PartialEq, Eq)]
pub enum Data {
    Enum(Vec<Variant>),
    Struct,
    Union,
}

/// The mathematical value of a [`Data`].
pub enum DataView {
    Enum(Seq<VariantView>),
    Struct,
    Union,
}

impl View for Data {
    type V = DataView;

    open spec fn view(&self) -> DataView {
        match self {
            Data::Enum(variants) => DataView::Enum(variants.deep_view()),
            Data::Struct => DataView::Struct,
            Data::Union => DataView::Union,
        }
    }
}

impl DeepView for Data {
    type V = DataView;

    open spec fn deep_view(&self) -> DataView {
        self@
    }
}

/// A type declaration with its attributes.
#[derive(Debug, PartialEq, Eq)]
pub struct DeriveInput {
    pub ident: String,
    pub attrs: Vec<Attribute>,
    pub data: Data,
}

/// The mathematical value of a [`DeriveInput`].
pub struct DeriveInputView {
    pub ident: Seq<char>,
    pub attrs: Seq<AttributeView>,
    pub data: DataView,
}

impl View for DeriveInput {
    type V = DeriveInputView;

    open spec fn view(&self) -> DeriveInputView {
        DeriveInputView { ident: self.ident@, attrs: self.attrs.deep_view(), data: self.data@ }
    }
}

impl DeepView for DeriveInput {
    type V = DeriveInputView;

    open spec fn deep_view(&self) -> DeriveInputView {
        self@
    }
}

impl DeriveInputView {
    /// The variants of an enumeration, and no variants of anything else.
    pub open spec fn variants(self) -> Seq<VariantView> {
        match self.data {
            DataView::Enum(variants) => variants,
            _ => Seq::empty(),
        }
    }

    /// No two variants of an enumeration share their identifier.
    pub open spec fn wf(self) -> bool {
        forall|i: int, j: int|
            0 <= i < j < self.variants().len() ==> self.variants()[i].ident
                != self.variants()[j].ident
    }
}

/// The variants of a declaration, which must be an enumeration.
pub open spec fn variants_of(ast: DeriveInputView) -> Result<
    Seq<VariantView>,
    GenerationErrorView,
> {
    match ast.data {
        DataView::Enum(variants) => Ok(variants),
        _ => Err(GenerationErrorView::NotAnEnum),
    }
}

/// The variants of an enumeration, in the order of their declaration. A
/// struct or a union has none to give.
pub fn retrieve_variants(ast: &DeriveInput) -> (r: Result<&Vec<Variant>, GenerationError>)
    ensures
        result_view(r) == variants_of(ast@),
{
    match &ast.data {
        Data::Enum(variants) => Ok(variants),
        _ => Err(GenerationError::NotAnEnum),
    }
}

/// The place of the first attribute of the given name among `attrs`, whatever
/// its shape.
pub open spec fn first_named(attrs: Seq<AttributeView>, name: Seq<char>) -> Option<int> {
    first_where(attrs, |attr: AttributeView| attr.name == name)
}

/// The place of the first attribute of the given name among `attrs`, whatever
/// its shape.
pub fn find_named(attrs: &Vec<Attribute>, name: &str) -> (r: Option<usize>)
    ensures
        match r {
            Some(i) => i < attrs.len() && first_named(attrs.deep_view(), name@) == Some(i as int),
            None => first_named(attrs.deep_view(), name@) is None,
        },
{
    let ghost all = attrs.deep_view();
    let ghost wanted = |attr: AttributeView| attr.name == name@;
    let mut i: usize = 0;
    assert(all.skip(0) == all);
    while i < attrs.len()
        invariant
            i <= attrs.len(),
            all == attrs.deep_view(),
            wanted == |attr: AttributeView| attr.name == name@,
            first_where(all, wanted) == match first_where(all.skip(i as int), wanted) {
                Some(k) => Some(k + i),
                None => None,
            },
        decreases attrs.len() - i,
    {
        proof {
            assert(all.skip(i as int)[0] == attrs[i as int]@);
            assert(all.skip(i as int).skip(1) == all.skip(i + 1));
        }
        if same_text(attrs[i].name.as_str(), name) {
            return Some(i);
        }
        i += 1;
    }
    None
}

/// Whether an attribute is a list under the given name, such as `error(..)`.
pub open spec fn is_block(attr: AttributeView, name: Seq<char>) -> bool {
    attr.name == name && attr.kind == MetaKind::List
}

/// The place of the first list under the given name among `attrs`.
pub open spec fn first_block(attrs: Seq<AttributeView>, name: Seq<char>) -> Option<int> {
    first_where(attrs, |attr: AttributeView| is_block(attr, name))
}

/// The place of the first list under the given name among `attrs`, such as
/// that of the first `error(..)`.
pub fn find_block(attrs: &Vec<Attribute>, name: &str) -> (r: Option<usize>)
    ensures
        match r {
            Some(i) => i < attrs.len() && first_block(attrs.deep_view(), name@) == Some(i as int),
            None => first_block(attrs.deep_view(), name@) is None,
        },
{
    let ghost all = attrs.deep_view();
    let ghost wanted = |attr: AttributeView| is_block(attr, name@);
    let mut i: usize = 0;
    assert(all.skip(0) == all);
    while i < attrs.len()
        invariant
            i <= attrs.len(),
            all == attrs.deep_view(),
            wanted == |attr: AttributeView| is_block(attr, name@),
            first_where(all, wanted) == match first_where(all.skip(i as int), wanted) {
                Some(k) => Some(k + i),
                None => None,
            },
        decreases attrs.len() - i,
    {
        let attr = &attrs[i];
        proof {
            assert(all.skip(i as int)[0] == attr@);
            assert(all.skip(i as int).skip(1) == all.skip(i + 1));
        }
        if same_text(attr.name.as_str(), name) && attr.kind == MetaKind::List {
            return Some(i);
        }
        i += 1;
    }
    None
}

} // verus!
