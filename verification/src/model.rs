//! The abstract syntax the transformer works on: a type declaration, its
//! alternatives and their payload shapes, and the conversion declarations it
//! emits. Payload types are carried as source text, re-emitted verbatim.

use vstd::prelude::*;

verus! {

/// The payload shape of one alternative: a positional (tuple) shape carrying
/// the source text of each slot's type, a named-field shape, or a unit shape
/// with no payload at all.
#[derive(Debug)]
pub enum FieldsShape {
    Unnamed(Vec<String>),
    Named,
    Unit,
}

/// The mathematical view of a `FieldsShape`: each slot's type text as a
/// sequence of characters.
#[verifier::ext_equal]
pub enum ShapeView {
    Unnamed(Seq<Seq<char>>),
    Named,
    Unit,
}

impl DeepView for FieldsShape {
    type V = ShapeView;

    open spec fn deep_view(&self) -> ShapeView {
        match self {
            FieldsShape::Unnamed(slots) => ShapeView::Unnamed(slots.deep_view()),
            FieldsShape::Named => ShapeView::Named,
            FieldsShape::Unit => ShapeView::Unit,
        }
    }
}

/// One case of a tagged union: its tag (the identifier that names the case and
/// constructs it) and its payload shape.
#[derive(Debug)]
pub struct Alternative {
    pub tag: String,
    pub shape: FieldsShape,
}

/// The mathematical view of an `Alternative`.
#[verifier::ext_equal]
pub struct AltView {
    pub tag: Seq<char>,
    pub shape: ShapeView,
}

impl DeepView for Alternative {
    type V = AltView;

    open spec fn deep_view(&self) -> AltView {
        AltView { tag: self.tag@, shape: self.shape.deep_view() }
    }
}

/// What a declaration's body is: a tagged union with its ordered alternatives,
/// a record (a struct), or some other kind of declaration.
#[derive(Debug)]
pub enum DeclBody {
    Union(Vec<Alternative>),
    Record,
    Other,
}

/// The mathematical view of a `DeclBody`.
#[verifier::ext_equal]
pub enum DeclBodyView {
    Union(Seq<AltView>),
    Record,
    Other,
}

impl DeepView for DeclBody {
    type V = DeclBodyView;

    open spec fn deep_view(&self) -> DeclBodyView {
        match self {
            DeclBody::Union(alts) => DeclBodyView::Union(alts.deep_view()),
            DeclBody::Record => DeclBodyView::Record,
            DeclBody::Other => DeclBodyView::Other,
        }
    }
}

/// A type declaration: its name and its body.
#[derive(Debug)]
pub struct Declaration {
    pub name: String,
    pub body: DeclBody,
}

/// The mathematical view of a `Declaration`.
#[verifier::ext_equal]
pub struct DeclView {
    pub name: Seq<char>,
    pub body: DeclBodyView,
}

impl DeepView for Declaration {
    type V = DeclView;

    open spec fn deep_view(&self) -> DeclView {
        DeclView { name: self.name@, body: self.body.deep_view() }
    }
}

/// One emitted conversion: a value of the source type (an alternative's single
/// payload type) becomes a value of the target type (the union), wrapped by
/// the alternative's tag.
#[derive(Debug)]
pub struct ConversionDeclaration {
    pub source: String,
    pub target: String,
    pub tag: String,
}

/// The mathematical view of a `ConversionDeclaration`.
#[verifier::ext_equal]
pub struct ConversionView {
    pub source: Seq<char>,
    pub target: Seq<char>,
    pub tag: Seq<char>,
}

impl DeepView for ConversionDeclaration {
    type V = ConversionView;

    open spec fn deep_view(&self) -> ConversionView {
        ConversionView { source: self.source@, target: self.target@, tag: self.tag@ }
    }
}

/// Why a declaration was rejected: it is not a tagged union at all, one of its
/// alternatives is not positional, or a positional alternative does not carry
/// exactly one slot.
#[derive(Clone, Copy, Debug, PartialEq, Eq, Structural)]
pub enum TransformError {
    UnsupportedDeclarationKind,
    UnsupportedAlternativeShape,
    WrongSlotCount,
}

} // verus!
