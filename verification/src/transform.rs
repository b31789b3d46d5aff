//! The transformation itself: validate that a declaration is a tagged union
//! whose alternatives each carry exactly one positional slot, and emit one
//! conversion declaration per alternative, in declaration order. Validation
//! failure yields an error and no output at all.

use vstd::prelude::*;

use crate::model::{
    Alternative, AltView, ConversionDeclaration, ConversionView, DeclBody, DeclBodyView,
    Declaration, DeclView, FieldsShape, ShapeView, TransformError,
};

verus! {

/// An alternative is admissible when its payload is positional with exactly
/// one slot.
pub open spec fn alt_admissible(a: AltView) -> bool {
    a.shape matches ShapeView::Unnamed(slots) && slots.len() == 1
}

/// The single payload type of an admissible alternative.
pub open spec fn payload_of(a: AltView) -> Seq<char>
    recommends
        alt_admissible(a),
{
    match a.shape {
        ShapeView::Unnamed(slots) => slots[0],
        _ => Seq::empty(),
    }
}

/// The conversion emitted for one alternative of the union named `name`:
/// its payload type becomes the union, wrapped by the alternative's tag.
pub open spec fn conversion_of(name: Seq<char>, a: AltView) -> ConversionView
    recommends
        alt_admissible(a),
{
    ConversionView { source: payload_of(a), target: name, tag: a.tag }
}

/// What transforming the alternatives of a union named `name` yields: the
/// conversions in declaration order, or the error of the first alternative
/// that is not admissible — a shape error where it is not positional, a slot
/// count error where it is positional with some other number of slots.
pub open spec fn alts_result(name: Seq<char>, alts: Seq<AltView>) -> Result<
    Seq<ConversionView>,
    TransformError,
>
    decreases alts.len(),
{
    if alts.len() == 0 {
        Ok(Seq::empty())
    } else if !(alts[0].shape is Unnamed) {
        Err(TransformError::UnsupportedAlternativeShape)
    } else if !alt_admissible(alts[0]) {
        Err(TransformError::WrongSlotCount)
    } else {
        match alts_result(name, alts.drop_first()) {
            Ok(rest) => Ok(seq![conversion_of(name, alts[0])] + rest),
            Err(e) => Err(e),
        }
    }
}

/// What transforming a declaration yields: the conversions of its
/// alternatives where it is a tagged union, and a kind error otherwise.
pub open spec fn transform_spec(d: DeclView) -> Result<Seq<ConversionView>, TransformError> {
    match d.body {
        DeclBodyView::Union(alts) => alts_result(d.name, alts),
        _ => Err(TransformError::UnsupportedDeclarationKind),
    }
}

/// A declaration is admissible when it is a tagged union and every
/// alternative is admissible.
pub open spec fn declaration_admissible(d: DeclView) -> bool {
    d.body matches DeclBodyView::Union(alts) && (forall|i: int|
        0 <= i < alts.len() ==> alt_admissible(#[trigger] alts[i]))
}

/// The view of an exec transformation result.
pub open spec fn result_view(r: Result<Vec<ConversionDeclaration>, TransformError>) -> Result<
    Seq<ConversionView>,
    TransformError,
> {
    match r {
        Ok(convs) => Ok(convs.deep_view()),
        Err(e) => Err(e),
    }
}

/// Shape preservation: a union whose alternatives are all admissible
/// transforms successfully into exactly one conversion per alternative, in
/// declaration order, each binding that alternative's payload type to the
/// union's name under that alternative's tag.
pub proof fn lemma_shape_preservation(name: Seq<char>, alts: Seq<AltView>)
    requires
        forall|i: int| 0 <= i < alts.len() ==> alt_admissible(#[trigger] alts[i]),
    ensures
        alts_result(name, alts) matches Ok(convs) && convs.len() == alts.len() && (forall|i: int|
            0 <= i < alts.len() ==> #[trigger] convs[i] == conversion_of(name, alts[i])),
    decreases alts.len(),
{
    if alts.len() > 0 {
        lemma_shape_preservation(name, alts.drop_first());
    }
}

/// Rejection without partial output: a union with some alternative that is
/// not admissible transforms into an error — nothing is emitted, not even for
/// the admissible alternatives around it.
pub proof fn lemma_rejects_malformed(name: Seq<char>, alts: Seq<AltView>, i: int)
    requires
        0 <= i < alts.len(),
        !alt_admissible(alts[i]),
    ensures
        alts_result(name, alts) is Err,
    decreases alts.len(),
{
    if !(alts[0].shape is Unnamed) || !alt_admissible(alts[0]) {
    } else {
        lemma_rejects_malformed(name, alts.drop_first(), i - 1);
    }
}

/// The error of the first inadmissible alternative is the one reported: a
/// shape error where it is not positional, a slot count error otherwise.
pub proof fn lemma_first_failure(name: Seq<char>, alts: Seq<AltView>, i: int)
    requires
        0 <= i < alts.len(),
        !alt_admissible(alts[i]),
        forall|j: int| 0 <= j < i ==> alt_admissible(#[trigger] alts[j]),
    ensures
        alts_result(name, alts) == if !(alts[i].shape is Unnamed) {
            Err::<Seq<ConversionView>, TransformError>(TransformError::UnsupportedAlternativeShape)
        } else {
            Err::<Seq<ConversionView>, TransformError>(TransformError::WrongSlotCount)
        },
    decreases alts.len(),
{
    if i == 0 {
    } else {
        assert(alt_admissible(alts[0]));
        lemma_first_failure(name, alts.drop_first(), i - 1);
    }
}

/// A declaration transforms successfully exactly when it is admissible: a
/// tagged union whose alternatives each carry exactly one positional slot.
pub proof fn lemma_ok_iff_admissible(d: DeclView)
    ensures
        transform_spec(d) is Ok <==> declaration_admissible(d),
{
    if declaration_admissible(d) {
        lemma_shape_preservation(d.name, d.body->Union_0);
    } else {
        match d.body {
            DeclBodyView::Union(alts) => {
                assert(exists|i: int| 0 <= i < alts.len() && !alt_admissible(#[trigger] alts[i]));
                let i = choose|i: int| 0 <= i < alts.len() && !alt_admissible(#[trigger] alts[i]);
                lemma_rejects_malformed(d.name, alts, i);
            },
            _ => (),
        }
    }
}

/// Order determinism: the transformation is a function of the declaration's
/// abstract syntax alone, so two syntactically identical declarations yield
/// identical conversions, in identical order.
pub proof fn lemma_transform_deterministic(d1: DeclView, d2: DeclView)
    requires
        d1 == d2,
    ensures
        transform_spec(d1) == transform_spec(d2),
{
}

/// Inspect a type declaration, check that it is a tagged union of
/// single-positional-slot alternatives, and emit one conversion declaration
/// per alternative, in declaration order; on a declaration of any other
/// shape, report the error of the first offending place and emit nothing.
pub fn transform(d: &Declaration) -> (r: Result<Vec<ConversionDeclaration>, TransformError>)
    ensures
        result_view(r) == transform_spec(d.deep_view()),
        r is Ok <==> declaration_admissible(d.deep_view()),
        r matches Ok(convs) ==> {
            let alts = d.deep_view().body->Union_0;
            &&& convs.deep_view().len() == alts.len()
            &&& forall|i: int|
                0 <= i < alts.len() ==> #[trigger] convs.deep_view()[i] == conversion_of(
                    d.deep_view().name,
                    alts[i],
                )
        },
{
    match &d.body {
        DeclBody::Union(alts) => {
            let ghost alts_v: Seq<AltView> = alts.deep_view();
            let mut out: Vec<ConversionDeclaration> = Vec::new();
            let mut i: usize = 0;
            while i < alts.len()
                invariant
                    0 <= i <= alts.len(),
                    alts_v == alts.deep_view(),
                    alts_v.len() == alts.len(),
                    d.body.deep_view() == DeclBodyView::Union(alts_v),
                    out.deep_view().len() == i,
                    forall|j: int| 0 <= j < i ==> alt_admissible(#[trigger] alts_v[j]),
                    forall|j: int|
                        0 <= j < i ==> #[trigger] out.deep_view()[j] == conversion_of(
                            d.name@,
                            alts_v[j],
                        ),
                decreases alts.len() - i,
            {
                let a = &alts[i];
                assert(a.deep_view() == alts_v[i as int]);
                match &a.shape {
                    FieldsShape::Unnamed(slots) => {
                        if slots.len() != 1 {
                            proof {
                                lemma_first_failure(d.name@, alts_v, i as int);
                            }
                            return Err(TransformError::WrongSlotCount);
                        }
                        let conv = ConversionDeclaration {
                            source: slots[0].clone(),
                            target: d.name.clone(),
                            tag: a.tag.clone(),
                        };
                        proof {
                            assert(slots.deep_view()[0] == slots@[0]@);
                            assert(conv.deep_view() == conversion_of(d.name@, alts_v[i as int]));
                        }
                        let ghost out_before: Seq<ConversionView> = out.deep_view();
                        out.push(conv);
                        proof {
                            assert forall|j: int| 0 <= j < i + 1 implies #[trigger] out.deep_view()[j]
                                == conversion_of(d.name@, alts_v[j]) by {
                                assert(out.deep_view()[j] == out@[j].deep_view());
                                if j < i {
                                    assert(out@[j] == out@.drop_last()[j]);
                                    assert(out_before[j] == conversion_of(d.name@, alts_v[j]));
                                }
                            }
                        }
                    },
                    _ => {
                        proof {
                            lemma_first_failure(d.name@, alts_v, i as int);
                        }
                        return Err(TransformError::UnsupportedAlternativeShape);
                    },
                }
                i = i + 1;
            }
            proof {
                lemma_shape_preservation(d.name@, alts_v);
                assert(out.deep_view() =~= alts_result(d.name@, alts_v)->Ok_0);
            }
            Ok(out)
        },
        DeclBody::Record => Err(TransformError::UnsupportedDeclarationKind),
        DeclBody::Other => Err(TransformError::UnsupportedDeclarationKind),
    }
}

} // verus!
