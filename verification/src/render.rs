//! Rendering emitted conversions as source text: one implementation of the
//! host conversion trait per conversion declaration, concatenated in emission
//! order.

use vstd::prelude::*;
use vstd::string::StringExecFns;

use crate::model::{ConversionDeclaration, ConversionView, Declaration, TransformError};
use crate::transform::{declaration_admissible, transform, transform_spec};

verus! {

/// The source text of one emitted conversion: an implementation of
/// `std::convert::From<source>` for the target union whose body wraps the
/// input value with the conversion's tag as constructor.
pub open spec fn spec_render_conversion(c: ConversionView) -> Seq<char> {
    "impl std::convert::From<"@ + c.source + "> for "@ + c.target + " { fn from(e: "@ + c.source
        + ") -> Self { Self::"@ + c.tag + "(e) } }"@
}

/// The source text of a whole emission: each conversion's text in order, each
/// followed by a line break.
pub open spec fn spec_render_all(convs: Seq<ConversionView>) -> Seq<char>
    decreases convs.len(),
{
    if convs.len() == 0 {
        Seq::empty()
    } else {
        spec_render_all(convs.drop_last()) + spec_render_conversion(convs.last()) + "\n"@
    }
}

/// Render one conversion declaration as source text.
pub fn render_conversion(c: &ConversionDeclaration) -> (r: String)
    ensures
        r@ == spec_render_conversion(c.deep_view()),
{
    let mut s: String = "impl std::convert::From<".to_owned();
    s.append(c.source.as_str());
    s.append("> for ");
    s.append(c.target.as_str());
    s.append(" { fn from(e: ");
    s.append(c.source.as_str());
    s.append(") -> Self { Self::");
    s.append(c.tag.as_str());
    s.append("(e) } }");
    s
}

/// Render a sequence of conversion declarations as source text, in order.
pub fn render_all(convs: &Vec<ConversionDeclaration>) -> (r: String)
    ensures
        r@ == spec_render_all(convs.deep_view()),
{
    let mut s = String::new();
    let mut i: usize = 0;
    while i < convs.len()
        invariant
            i <= convs.len(),
            s@ == spec_render_all(convs.deep_view().take(i as int)),
        decreases convs.len() - i,
    {
        let piece = render_conversion(&convs[i]);
        s.append(piece.as_str());
        s.append("\n");
        proof {
            let cv = convs.deep_view();
            assert(cv.take(i as int + 1).drop_last() =~= cv.take(i as int));
            assert(cv.take(i as int + 1).last() == cv[i as int]);
            assert(convs.deep_view()[i as int] == convs@[i as int].deep_view());
        }
        i = i + 1;
    }
    proof {
        assert(convs.deep_view().take(convs.len() as int) =~= convs.deep_view());
    }
    s
}

/// The whole pass over an already-read declaration: validate it, emit its
/// conversions, and render them as source text; on a malformed declaration,
/// the error, with nothing rendered at all.
pub fn conversions_text(d: &Declaration) -> (r: Result<String, TransformError>)
    ensures
        r matches Ok(text) ==> transform_spec(d.deep_view()) matches Ok(convs) && text@
            == spec_render_all(convs),
        r matches Err(e) ==> transform_spec(d.deep_view()) == Err::<
            Seq<ConversionView>,
            TransformError,
        >(e),
        r is Ok <==> declaration_admissible(d.deep_view()),
{
    match transform(d) {
        Ok(convs) => Ok(render_all(&convs)),
        Err(e) => Err(e),
    }
}

} // verus!
