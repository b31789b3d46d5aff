//! The edge toward the host syntax: parse a token stream into a declaration
//! syntax tree with syn, read that tree into the library's own model, and lex
//! rendered conversion text back into a token stream. The syntax-tree values
//! themselves are opaque here, so what each one holds is given a name — the
//! declaration a stream parses to, the model a syntax tree stands for, the
//! text a stream prints to — and the trusted items speak over those names.
//! Every result at this edge is a function of its arguments alone.

use vstd::prelude::*;

use quote::ToTokens;

use crate::model::{
    Alternative, AltView, ConversionDeclaration, ConversionView, DeclBody, DeclBodyView,
    Declaration, DeclView, FieldsShape, ShapeView, TransformError,
};
use crate::render::{render_all, spec_render_all};
use crate::transform::{declaration_admissible, lemma_ok_iff_admissible, transform, transform_spec};

verus! {

#[verifier::external_type_specification]
#[verifier::external_body]
pub struct ExTokenStream(proc_macro2::TokenStream);

#[verifier::external_type_specification]
#[verifier::external_body]
pub struct ExDeriveInput(syn::DeriveInput);

#[verifier::external_type_specification]
#[verifier::external_body]
pub struct ExVariant(syn::Variant);

#[verifier::external_type_specification]
#[verifier::external_body]
pub struct ExField(syn::Field);

/// The declaration a token stream parses to, as this library models it, and
/// `None` where the stream is not a type declaration. Names the result of
/// syn::parse2::<syn::DeriveInput>, read through `ast_decl_of`; the parse is a
/// function of the tokens alone.
pub uninterp spec fn parsed_decl_of(t: proc_macro2::TokenStream) -> Option<DeclView>;

/// The declaration model a parsed syntax tree holds. Its parts are what the
/// readers below hand out: the name is the tree's identifier as written, the
/// body its classification, the alternatives in declaration order.
pub uninterp spec fn ast_decl_of(ast: syn::DeriveInput) -> DeclView;

/// The alternative model a parsed variant holds: its tag as written and its
/// payload shape, with each positional slot's type as `type_text_of` gives it.
pub uninterp spec fn alt_view_of(v: syn::Variant) -> AltView;

/// The source text of a parsed field's type. Names the result of quote's
/// ToTokens for syn::Type followed by proc_macro2::TokenStream's Display.
pub uninterp spec fn type_text_of(f: syn::Field) -> Seq<char>;

/// Whether source text lexes under proc-macro2's own lexer, the one its
/// FromStr checks every text with first: a function of the text alone.
/// FromStr's overall success can further depend on the host compiler's lexer
/// and on whether a macro expansion is running, so the trusted items state
/// FromStr's success one-sidedly over this name.
pub uninterp spec fn text_lexes(text: Seq<char>) -> bool;

/// A parsed declaration's body, with the syntax-tree values of a union's
/// variants carried through opaquely, in declaration order.
pub enum RawBody {
    Union(Vec<syn::Variant>),
    Record,
    Other,
}

/// A parsed variant's payload, with the syntax-tree values of a positional
/// payload's fields carried through opaquely, in slot order.
pub enum RawShape {
    Unnamed(Vec<syn::Field>),
    Named,
    Unit,
}

/// Relies on syn::parse2::<syn::DeriveInput>: parses the token stream as a
/// type declaration, exactly where `parsed_decl_of` holds one, and the tree it
/// returns holds that declaration. On failure it hands back the host parser's
/// own report, rendered to text; nothing is promised of that text.
#[verifier::external_body]
fn parse_declaration_ast(t: &proc_macro2::TokenStream) -> (r: Result<syn::DeriveInput, String>)
    ensures
        r is Ok <==> parsed_decl_of(*t) is Some,
        r matches Ok(ast) ==> parsed_decl_of(*t) == Some(ast_decl_of(ast)),
{
    syn::parse2::<syn::DeriveInput>(t.clone()).map_err(|e| e.to_string())
}

/// Relies on proc_macro2::Ident's Display: the declaration's name, as written.
#[verifier::external_body]
fn declaration_name(ast: &syn::DeriveInput) -> (r: String)
    ensures
        r@ == ast_decl_of(*ast).name,
{
    ast.ident.to_string()
}

/// Relies on syn::Data's three variants: tells a tagged union (an enum) from a
/// record (a struct) and from an untagged union, and hands a tagged union's
/// variants on, in declaration order.
#[verifier::external_body]
fn declaration_body(ast: &syn::DeriveInput) -> (r: RawBody)
    ensures
        r matches RawBody::Union(vs) ==> ast_decl_of(*ast).body matches DeclBodyView::Union(alts)
            && alts.len() == vs@.len() && (forall|i: int|
            0 <= i < vs@.len() ==> alts[i] == alt_view_of(#[trigger] vs@[i])),
        r is Record <==> ast_decl_of(*ast).body is Record,
        r is Other <==> ast_decl_of(*ast).body is Other,
{
    match &ast.data {
        syn::Data::Enum(e) => RawBody::Union(e.variants.iter().cloned().collect()),
        syn::Data::Struct(_) => RawBody::Record,
        syn::Data::Union(_) => RawBody::Other,
    }
}

/// Relies on proc_macro2::Ident's Display: the variant's tag, as written.
#[verifier::external_body]
fn variant_tag(v: &syn::Variant) -> (r: String)
    ensures
        r@ == alt_view_of(*v).tag,
{
    v.ident.to_string()
}

/// Relies on syn::Fields' three variants: tells a positional (tuple) payload
/// from a named-field payload and from a unit payload, and hands a positional
/// payload's fields on, in slot order.
#[verifier::external_body]
fn variant_shape(v: &syn::Variant) -> (r: RawShape)
    ensures
        r matches RawShape::Unnamed(fs) ==> alt_view_of(*v).shape matches ShapeView::Unnamed(slots)
            && slots.len() == fs@.len() && (forall|i: int|
            0 <= i < fs@.len() ==> slots[i] == type_text_of(#[trigger] fs@[i])),
        r is Named <==> alt_view_of(*v).shape is Named,
        r is Unit <==> alt_view_of(*v).shape is Unit,
{
    match &v.fields {
        syn::Fields::Unnamed(u) => RawShape::Unnamed(u.unnamed.iter().cloned().collect()),
        syn::Fields::Named(_) => RawShape::Named,
        syn::Fields::Unit => RawShape::Unit,
    }
}

/// Relies on quote's ToTokens for syn::Type, and on proc_macro2::TokenStream's
/// Display: the field's type, re-emitted verbatim as source text.
#[verifier::external_body]
fn field_type_text(f: &syn::Field) -> (r: String)
    ensures
        r@ == type_text_of(*f),
{
    f.ty.to_token_stream().to_string()
}

/// Relies on proc_macro2::TokenStream's FromStr: lexes source text into a
/// token stream. Success needs at least proc-macro2's own lexer to accept the
/// text; inside a macro expansion the host compiler's lexer decides too, so
/// nothing more is promised of either outcome.
#[verifier::external_body]
fn tokens_of_text(text: &str) -> (r: Option<proc_macro2::TokenStream>)
    ensures
        r is Some ==> text_lexes(text@),
{
    text.parse::<proc_macro2::TokenStream>().ok()
}

/// Read one parsed variant into the model: its tag and its payload shape,
/// with each positional slot's type as source text.
fn read_alternative(v: &syn::Variant) -> (r: Alternative)
    ensures
        r.deep_view() == alt_view_of(*v),
{
    let tag = variant_tag(v);
    let shape = match variant_shape(v) {
        RawShape::Unnamed(fields) => {
            let mut slots: Vec<String> = Vec::new();
            let mut i: usize = 0;
            while i < fields.len()
                invariant
                    i <= fields.len(),
                    alt_view_of(*v).shape matches ShapeView::Unnamed(sv) && sv.len()
                        == fields@.len() && (forall|j: int|
                        0 <= j < fields@.len() ==> sv[j] == type_text_of(#[trigger] fields@[j])),
                    slots.deep_view().len() == i,
                    forall|j: int|
                        0 <= j < i ==> #[trigger] slots.deep_view()[j]
                            == alt_view_of(*v).shape->Unnamed_0[j],
                decreases fields.len() - i,
            {
                let t = field_type_text(&fields[i]);
                let ghost slots_before: Seq<Seq<char>> = slots.deep_view();
                slots.push(t);
                proof {
                    assert forall|j: int| 0 <= j < i + 1 implies #[trigger] slots.deep_view()[j]
                        == alt_view_of(*v).shape->Unnamed_0[j] by {
                        assert(slots.deep_view()[j] == slots@[j]@);
                        if j < i {
                            assert(slots@[j] == slots@.drop_last()[j]);
                            assert(slots_before[j] == alt_view_of(*v).shape->Unnamed_0[j]);
                        }
                    }
                }
                i = i + 1;
            }
            proof {
                assert(slots.deep_view() =~= alt_view_of(*v).shape->Unnamed_0);
                assert(FieldsShape::Unnamed(slots).deep_view() =~= alt_view_of(*v).shape);
            }
            FieldsShape::Unnamed(slots)
        },
        RawShape::Named => FieldsShape::Named,
        RawShape::Unit => FieldsShape::Unit,
    };
    let r = Alternative { tag, shape };
    proof {
        assert(r.deep_view() =~= alt_view_of(*v));
    }
    r
}

/// Read a parsed declaration into the model: its name and, for a tagged
/// union, its alternatives in declaration order.
pub fn read_declaration(ast: &syn::DeriveInput) -> (r: Declaration)
    ensures
        r.deep_view() == ast_decl_of(*ast),
{
    let name = declaration_name(ast);
    let body = match declaration_body(ast) {
        RawBody::Union(variants) => {
            let mut alts: Vec<Alternative> = Vec::new();
            let mut i: usize = 0;
            while i < variants.len()
                invariant
                    i <= variants.len(),
                    ast_decl_of(*ast).body matches DeclBodyView::Union(avs) && avs.len()
                        == variants@.len() && (forall|j: int|
                        0 <= j < variants@.len() ==> avs[j] == alt_view_of(
                            #[trigger] variants@[j],
                        )),
                    alts.deep_view().len() == i,
                    forall|j: int|
                        0 <= j < i ==> #[trigger] alts.deep_view()[j]
                            == ast_decl_of(*ast).body->Union_0[j],
                decreases variants.len() - i,
            {
                let a = read_alternative(&variants[i]);
                let ghost alts_before: Seq<AltView> = alts.deep_view();
                alts.push(a);
                proof {
                    assert forall|j: int| 0 <= j < i + 1 implies #[trigger] alts.deep_view()[j]
                        == ast_decl_of(*ast).body->Union_0[j] by {
                        assert(alts.deep_view()[j] == alts@[j].deep_view());
                        if j < i {
                            assert(alts@[j] == alts@.drop_last()[j]);
                            assert(alts_before[j] == ast_decl_of(*ast).body->Union_0[j]);
                        }
                    }
                }
                i = i + 1;
            }
            proof {
                assert(alts.deep_view() =~= ast_decl_of(*ast).body->Union_0);
                assert(DeclBody::Union(alts).deep_view() =~= ast_decl_of(*ast).body);
            }
            DeclBody::Union(alts)
        },
        RawBody::Record => DeclBody::Record,
        RawBody::Other => DeclBody::Other,
    };
    let r = Declaration { name, body };
    proof {
        assert(r.deep_view() =~= ast_decl_of(*ast));
    }
    r
}

/// Why a whole derivation failed: the input did not parse as a type
/// declaration (with the host parser's report), the declaration was rejected
/// by the transformation, or the rendered conversions did not lex back into
/// tokens.
#[derive(Clone, Debug, PartialEq, Eq)]
pub enum DeriveError {
    MalformedInput(String),
    Rejected(TransformError),
    EmissionFailed,
}

/// Parse the input tokens as a type declaration and transform it: the emitted
/// conversion declarations of a well-shaped union, in declaration order, and
/// on any other input exactly the error owed — malformed input where the
/// tokens are no type declaration, the transformation's own error otherwise.
pub fn derive_conversions(input: &proc_macro2::TokenStream) -> (r: Result<
    Vec<ConversionDeclaration>,
    DeriveError,
>)
    ensures
        r is Ok <==> (parsed_decl_of(*input) matches Some(d) && declaration_admissible(d)),
        r matches Ok(convs) ==> parsed_decl_of(*input) matches Some(d) && transform_spec(d)
            == Ok::<Seq<ConversionView>, TransformError>(convs.deep_view()),
        (r matches Err(e) && e is MalformedInput) <==> parsed_decl_of(*input) is None,
        r matches Err(DeriveError::Rejected(e)) ==> parsed_decl_of(*input) matches Some(d)
            && transform_spec(d) == Err::<Seq<ConversionView>, TransformError>(e),
        parsed_decl_of(*input) matches Some(d) ==> (transform_spec(d) matches Err(e) ==> r
            == Err::<Vec<ConversionDeclaration>, DeriveError>(DeriveError::Rejected(e))),
{
    let ast = match parse_declaration_ast(input) {
        Ok(a) => a,
        Err(report) => {
            return Err(DeriveError::MalformedInput(report));
        },
    };
    let decl = read_declaration(&ast);
    match transform(&decl) {
        Ok(convs) => Ok(convs),
        Err(e) => Err(DeriveError::Rejected(e)),
    }
}

/// The whole derivation: parse the input tokens as a type declaration,
/// transform it, render the conversions the transformation emits, and lex the
/// rendered text back into the tokens handed out. Each failure carries
/// exactly the error owed for it, and nothing is emitted. Whether the final
/// lex is accepted can depend on the host environment, so success is stated
/// one-sidedly: an output exists only for a well-shaped union whose rendered
/// conversions proc-macro2's own lexer accepts.
pub fn derive_from(input: proc_macro2::TokenStream) -> (r: Result<
    proc_macro2::TokenStream,
    DeriveError,
>)
    ensures
        r is Ok ==> (parsed_decl_of(input) matches Some(d) && declaration_admissible(d)
            && transform_spec(d) is Ok && text_lexes(spec_render_all(transform_spec(d)->Ok_0))),
        (r matches Err(e) && e is MalformedInput) <==> parsed_decl_of(input) is None,
        r matches Err(DeriveError::Rejected(e)) ==> parsed_decl_of(input) matches Some(d)
            && transform_spec(d) == Err::<Seq<ConversionView>, TransformError>(e),
        parsed_decl_of(input) matches Some(d) ==> (transform_spec(d) matches Err(e) ==> r
            == Err::<proc_macro2::TokenStream, DeriveError>(DeriveError::Rejected(e))),
        (r is Ok || r == Err::<proc_macro2::TokenStream, DeriveError>(
            DeriveError::EmissionFailed,
        )) <==> (parsed_decl_of(input) matches Some(d) && declaration_admissible(d)),
{
    let convs = match derive_conversions(&input) {
        Ok(cs) => cs,
        Err(e) => {
            proof {
                match parsed_decl_of(input) {
                    Some(d) => lemma_ok_iff_admissible(d),
                    None => (),
                }
            }
            return Err(e);
        },
    };
    let text = render_all(&convs);
    match tokens_of_text(text.as_str()) {
        Some(ts) => Ok(ts),
        None => Err(DeriveError::EmissionFailed),
    }
}

} // verus!
