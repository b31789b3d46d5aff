use foonetic_macros::bridge::{derive_conversions, derive_from, read_declaration, DeriveError};
use foonetic_macros::model::{
    Alternative, ConversionDeclaration, DeclBody, Declaration, FieldsShape, TransformError,
};
use foonetic_macros::render::{conversions_text, render_all, render_conversion};
use foonetic_macros::transform::transform;

#[derive(Debug)]
pub struct Thing {
    pub x: i8,
}

#[derive(Debug)]
enum MyError {
    A(i8),
    B(String),
    C(Thing),
}

// The three conversions below are the expansion that transforming
// `MyError { A(i8), B(String), C(Thing) }` emits; `emitted_text_matches_expansion`
// holds them against the library's rendered output.
impl std::convert::From<i8> for MyError {
    fn from(e: i8) -> Self {
        Self::A(e)
    }
}

impl std::convert::From<String> for MyError {
    fn from(e: String) -> Self {
        Self::B(e)
    }
}

impl std::convert::From<Thing> for MyError {
    fn from(e: Thing) -> Self {
        Self::C(e)
    }
}

fn my_fail() -> Result<i8, i8> {
    Err(1)
}

fn my_flaky_function(good: bool) -> Result<i8, MyError> {
    if good {
        return Ok(0);
    }
    Ok(my_fail()?)
}

fn alt(tag: &str, slots: &[&str]) -> Alternative {
    Alternative {
        tag: tag.to_string(),
        shape: FieldsShape::Unnamed(slots.iter().map(|s| s.to_string()).collect()),
    }
}

fn my_error_declaration() -> Declaration {
    Declaration {
        name: "MyError".to_string(),
        body: DeclBody::Union(vec![
            alt("A", &["i8"]),
            alt("B", &["String"]),
            alt("C", &["Thing"]),
        ]),
    }
}

#[test]
fn method_generation() {
    let something_i8 = MyError::from(2_i8);
    match something_i8 {
        MyError::A(x) => assert_eq!(x, 2),
        _ => panic!("bad match"),
    };

    let something_string = MyError::from(String::from("Hello, world"));
    match something_string {
        MyError::B(x) => assert_eq!("Hello, world", x),
        _ => panic!("bad match"),
    }
}

#[test]
fn question_operator() {
    assert_eq!(0, my_flaky_function(true).unwrap());
    match my_flaky_function(false) {
        Err(MyError::A(x)) => assert_eq!(x, 1),
        _ => panic!("bad match"),
    }
}

#[test]
fn shape_preservation_three_alternatives() {
    let decl = my_error_declaration();
    let convs = transform(&decl).unwrap();
    assert_eq!(convs.len(), 3);
    assert_eq!(convs[0].source, "i8");
    assert_eq!(convs[0].target, "MyError");
    assert_eq!(convs[0].tag, "A");
    assert_eq!(convs[1].source, "String");
    assert_eq!(convs[1].target, "MyError");
    assert_eq!(convs[1].tag, "B");
    assert_eq!(convs[2].source, "Thing");
    assert_eq!(convs[2].target, "MyError");
    assert_eq!(convs[2].tag, "C");
}

#[test]
fn emitted_text_matches_expansion() {
    let conv = ConversionDeclaration {
        source: "i8".to_string(),
        target: "MyError".to_string(),
        tag: "A".to_string(),
    };
    assert_eq!(
        render_conversion(&conv),
        "impl std::convert::From<i8> for MyError { fn from(e: i8) -> Self { Self::A(e) } }"
    );
    let text = conversions_text(&my_error_declaration()).unwrap();
    assert_eq!(
        text,
        "impl std::convert::From<i8> for MyError { fn from(e: i8) -> Self { Self::A(e) } }\n\
         impl std::convert::From<String> for MyError { fn from(e: String) -> Self { Self::B(e) } }\n\
         impl std::convert::From<Thing> for MyError { fn from(e: Thing) -> Self { Self::C(e) } }\n"
    );
}

#[test]
fn rejects_record_declaration() {
    let decl = Declaration {
        name: "MyStruct".to_string(),
        body: DeclBody::Record,
    };
    assert_eq!(
        transform(&decl).unwrap_err(),
        TransformError::UnsupportedDeclarationKind
    );
    let decl = Declaration {
        name: "MyUntagged".to_string(),
        body: DeclBody::Other,
    };
    assert_eq!(
        transform(&decl).unwrap_err(),
        TransformError::UnsupportedDeclarationKind
    );
}

#[test]
fn rejects_wrong_shapes() {
    // A named-field alternative is a shape error.
    let named = Declaration {
        name: "E".to_string(),
        body: DeclBody::Union(vec![Alternative {
            tag: "N".to_string(),
            shape: FieldsShape::Named,
        }]),
    };
    assert_eq!(
        transform(&named).unwrap_err(),
        TransformError::UnsupportedAlternativeShape
    );

    // A unit alternative is a shape error.
    let unit = Declaration {
        name: "E".to_string(),
        body: DeclBody::Union(vec![alt("Ok1", &["i8"]), Alternative {
            tag: "U".to_string(),
            shape: FieldsShape::Unit,
        }]),
    };
    assert_eq!(
        transform(&unit).unwrap_err(),
        TransformError::UnsupportedAlternativeShape
    );

    // A positional alternative with zero slots is a slot count error.
    let zero = Declaration {
        name: "E".to_string(),
        body: DeclBody::Union(vec![alt("Z", &[])]),
    };
    assert_eq!(transform(&zero).unwrap_err(), TransformError::WrongSlotCount);

    // A positional alternative with two slots is a slot count error, and the
    // well-formed sibling around it gets nothing emitted either.
    let two = Declaration {
        name: "Bad".to_string(),
        body: DeclBody::Union(vec![alt("X", &["i8", "i8"]), alt("Y", &["String"])]),
    };
    assert_eq!(transform(&two).unwrap_err(), TransformError::WrongSlotCount);
    assert_eq!(
        conversions_text(&two),
        Err(TransformError::WrongSlotCount)
    );
}

#[test]
fn transform_is_deterministic() {
    let first = transform(&my_error_declaration()).unwrap();
    let second = transform(&my_error_declaration()).unwrap();
    assert_eq!(first.len(), second.len());
    for (a, b) in first.iter().zip(second.iter()) {
        assert_eq!(a.source, b.source);
        assert_eq!(a.target, b.target);
        assert_eq!(a.tag, b.tag);
    }
    assert_eq!(render_all(&first), render_all(&second));
}

#[test]
fn wrap_round_trip() {
    let decl = my_error_declaration();
    let convs = transform(&decl).unwrap();

    let wrapped = convs[0].apply(2_i8);
    assert_eq!(wrapped.tag, "A");
    assert_eq!(wrapped.match_tag(&"A".to_string()), Some(2_i8));

    let wrapped = convs[1].apply(String::from("Hello, world"));
    assert_eq!(wrapped.match_tag(&"B".to_string()), Some(String::from("Hello, world")));

    let wrapped = convs[0].apply(7_i8);
    assert_eq!(wrapped.match_tag(&"B".to_string()), None);
}

#[test]
fn read_declaration_from_source() {
    let ast = syn::parse_str::<syn::DeriveInput>(
        "enum MyError { A(i8), B(String), C(some_sub_module::Thing) }",
    )
    .unwrap();
    let decl = read_declaration(&ast);
    assert_eq!(decl.name, "MyError");
    match decl.body {
        DeclBody::Union(alts) => {
            assert_eq!(alts.len(), 3);
            assert_eq!(alts[0].tag, "A");
            match &alts[0].shape {
                FieldsShape::Unnamed(slots) => assert_eq!(slots[0], "i8"),
                _ => panic!("bad shape"),
            }
            assert_eq!(alts[1].tag, "B");
            assert_eq!(alts[2].tag, "C");
        }
        _ => panic!("bad body"),
    }
}

#[test]
fn derive_from_end_to_end() {
    let input = "enum MyError { A(i8), B(String), C(some_sub_module::Thing) }"
        .parse::<proc_macro2::TokenStream>()
        .unwrap();
    let output = derive_from(input).unwrap();
    let expected = "
        impl std::convert::From<i8> for MyError {
            fn from(e: i8) -> Self { Self::A(e) }
        }
        impl std::convert::From<String> for MyError {
            fn from(e: String) -> Self { Self::B(e) }
        }
        impl std::convert::From<some_sub_module::Thing> for MyError {
            fn from(e: some_sub_module::Thing) -> Self { Self::C(e) }
        }
    "
    .parse::<proc_macro2::TokenStream>()
    .unwrap();
    assert_eq!(output.to_string(), expected.to_string());
}

#[test]
fn derive_conversions_round_trip_from_tokens() {
    let input = "enum MyError { A(i8), B(String), C(Thing) }"
        .parse::<proc_macro2::TokenStream>()
        .unwrap();
    let convs = derive_conversions(&input).unwrap();
    assert_eq!(convs.len(), 3);
    assert_eq!(convs[0].tag, "A");
    let wrapped = convs[0].apply(2_i8);
    assert_eq!(wrapped.match_tag(&"A".to_string()), Some(2_i8));
    assert_eq!(convs[1].apply(String::from("Hello, world")).match_tag(&"B".to_string()),
        Some(String::from("Hello, world")));

    let bad = "enum Bad { X(i8, i8) }"
        .parse::<proc_macro2::TokenStream>()
        .unwrap();
    assert_eq!(
        derive_conversions(&bad).unwrap_err(),
        DeriveError::Rejected(TransformError::WrongSlotCount)
    );
}

#[test]
fn derive_from_rejects_two_slots() {
    let input = "enum Bad { X(i8, i8) }"
        .parse::<proc_macro2::TokenStream>()
        .unwrap();
    match derive_from(input) {
        Err(e) => assert_eq!(e, DeriveError::Rejected(TransformError::WrongSlotCount)),
        Ok(_) => panic!("expected rejection"),
    }
}

#[test]
fn derive_from_rejects_struct() {
    let input = "struct NotAUnion { a: i8 }"
        .parse::<proc_macro2::TokenStream>()
        .unwrap();
    match derive_from(input) {
        Err(e) => assert_eq!(
            e,
            DeriveError::Rejected(TransformError::UnsupportedDeclarationKind)
        ),
        Ok(_) => panic!("expected rejection"),
    }
}

#[test]
fn derive_from_rejects_malformed_input() {
    let input = "fn not_a_type() {}"
        .parse::<proc_macro2::TokenStream>()
        .unwrap();
    match derive_from(input) {
        Err(e) => assert!(matches!(e, DeriveError::MalformedInput(_))),
        Ok(_) => panic!("expected rejection"),
    }
}
