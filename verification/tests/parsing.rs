use enumify::parse::refuse;
use enumify::syntax::ItemParts;
use enumify::{Annotation, Enumifiable, Enumify, Form, Shape};

fn metas(annotations: &[Annotation]) -> Vec<String> {
    annotations.iter().map(|annotation| annotation.meta.clone()).collect()
}

fn messages(source: &str) -> Vec<String> {
    Enumify::parse(source).unwrap_err().messages().to_vec()
}

#[test]
fn reads_a_bare_head() {
    let batch = Enumify::parse("enum Term;").unwrap();
    assert!(batch.enum_attributes.is_empty());
    assert_eq!(batch.enum_visibility, "");
    assert_eq!(batch.enum_ident, "Term");
    assert_eq!(batch.enum_generics, "");
    assert!(batch.enumifiables.is_empty());
}

#[test]
fn reads_a_full_head() {
    let batch =
        Enumify::parse("#[derive(Debug)] #[non_exhaustive] pub(crate) enum Term<'a, V: Clone>;")
            .unwrap();
    assert_eq!(metas(&batch.enum_attributes), vec!["derive (Debug)", "non_exhaustive"]);
    assert_eq!(batch.enum_visibility, "pub (crate)");
    assert_eq!(batch.enum_ident, "Term");
    assert_eq!(batch.enum_generics, "< 'a , V : Clone >");
    assert!(batch.enumifiables.is_empty());
}

#[test]
fn reads_declared_types_in_order() {
    let batch = Enumify::parse(
        "pub enum Term<V>;
         pub struct Var<V>(V);
         #[enumify(Box)] struct App<V> { function: Term<V>, argument: Term<V> }
         enum Kind { Free, Bound(usize) }
         struct Unit;",
    )
    .unwrap();
    let read: Vec<(Shape, &str, &str)> = batch
        .enumifiables
        .iter()
        .map(|one| (one.shape, one.ident.as_str(), one.generics.as_str()))
        .collect();
    assert_eq!(
        read,
        vec![
            (Shape::Struct, "Var", "< V >"),
            (Shape::Struct, "App", "< V >"),
            (Shape::Enum, "Kind", ""),
            (Shape::Struct, "Unit", ""),
        ]
    );
    assert_eq!(batch.enumifiables[0].declaration, "pub struct Var < V > (V) ;");
    assert_eq!(
        batch.enumifiables[1].declaration,
        "struct App < V > { function : Term < V > , argument : Term < V > }"
    );
    assert_eq!(batch.enumifiables[2].declaration, "enum Kind { Free , Bound (usize) }");
    assert_eq!(batch.enumifiables[3].declaration, "struct Unit ;");
    assert_eq!(metas(&batch.enumifiables[1].attributes), vec!["enumify (Box)"]);
    assert!(batch.enumifiables[0].attributes.is_empty());
}

#[test]
fn reads_the_forms_of_annotations() {
    let batch = Enumify::parse(
        "enum Term;
         #[test]
         #[enumify(std::rc::Rc)]
         #[enumify[Box]]
         #[other::enumify(Box)]
         #[::enumify(Box)]
         #[doc = \"text\"]
         /// line
         #[enumify]
         struct Leaf;",
    )
    .unwrap();
    let read: Vec<(Option<&str>, &Form, &str)> = batch.enumifiables[0]
        .attributes
        .iter()
        .map(|one| (one.name.as_deref(), &one.form, one.meta.as_str()))
        .collect();
    assert_eq!(read.len(), 8);
    assert!(matches!(read[0], (Some("test"), Form::Path, "test")));
    assert!(matches!(read[1], (Some("enumify"), Form::List { .. }, "enumify (std :: rc :: Rc)")));
    assert!(matches!(read[2], (Some("enumify"), Form::List { .. }, "enumify [Box]")));
    assert!(matches!(read[3], (None, Form::List { .. }, "other :: enumify (Box)")));
    assert!(matches!(read[4], (None, Form::List { .. }, ":: enumify (Box)")));
    assert!(matches!(read[5], (Some("doc"), Form::NameValue, "doc = \"text\"")));
    assert!(matches!(read[6], (Some("doc"), Form::NameValue, "doc = \" line\"")));
    assert!(matches!(read[7], (Some("enumify"), Form::Path, "enumify")));
    let payloads: Vec<&str> =
        batch.enumifiables[0].attributes.iter().map(|one| one.payload()).collect();
    assert_eq!(payloads, vec!["", "std :: rc :: Rc", "Box", "Box", "Box", "", "", ""]);
    let wrappers: Vec<bool> =
        batch.enumifiables[0].attributes.iter().map(|one| one.is_wrapper()).collect();
    assert_eq!(wrappers, vec![false, true, true, false, false, false, false, false]);
}

#[test]
fn reads_one_item() {
    let batch = Enumify::parse("enum Term; #[derive(Clone)] pub struct Pair<A, B>(A, B);").unwrap();
    let declared = &batch.enumifiables[0];
    assert_eq!(declared.shape, Shape::Struct);
    assert_eq!(declared.ident, "Pair");
    assert_eq!(declared.generics, "< A , B >");
    assert_eq!(declared.declaration, "pub struct Pair < A , B > (A , B) ;");
    assert_eq!(metas(&declared.attributes), vec!["derive (Clone)"]);

    let batch = Enumify::parse("enum Term; enum Side { Left, Right }").unwrap();
    let declared = &batch.enumifiables[0];
    assert_eq!(declared.shape, Shape::Enum);
    assert_eq!(declared.ident, "Side");
    assert_eq!(declared.declaration, "enum Side { Left , Right }");
}

#[test]
fn refuses_other_items() {
    for item in ["fn f() {}", "union U { a: u8 }", "mod m {}", "type T = u8;", "impl T {}"] {
        assert_eq!(
            messages(&format!("enum Term; {} struct After;", item)),
            vec!["not `struct` or `enum`"],
            "{}",
            item
        );
        assert_eq!(
            messages(&format!("enum Term; {}", item)),
            vec!["unexpected end of input, not `struct` or `enum`"],
            "{}",
            item
        );
    }
}

#[test]
fn builds_a_declared_type_from_its_parts() {
    let parts = ItemParts {
        ident: "App".to_owned(),
        generics: "< V >".to_owned(),
        declaration: "struct App < V > ;".to_owned(),
    };
    let attributes = vec![
        Annotation {
            name: Some("enumify".to_owned()),
            form: Form::List { payload: "Box".to_owned() },
            meta: "enumify (Box)".to_owned(),
        },
        Annotation { name: None, form: Form::NameValue, meta: "a :: b = 1".to_owned() },
    ];
    let declared = Enumifiable::from_parts(Shape::Enum, attributes, parts);
    assert_eq!(declared.shape, Shape::Enum);
    assert_eq!(declared.ident, "App");
    assert_eq!(declared.generics, "< V >");
    assert_eq!(declared.declaration, "struct App < V > ;");
    assert_eq!(metas(&declared.attributes), vec!["enumify (Box)", "a :: b = 1"]);
    assert!(declared.attributes[0].is_wrapper());
    assert!(matches!(declared.attributes[1].form, Form::NameValue));
}

#[test]
fn refusal_says_where_the_item_stands() {
    assert_eq!(refuse(false).messages().to_vec(), vec!["not `struct` or `enum`"]);
    assert_eq!(refuse(true).messages().to_vec(), vec!["unexpected end of input, not `struct` or `enum`"]);
}

#[test]
fn annotations_of_an_item_are_not_part_of_its_declaration() {
    let batch = Enumify::parse(
        "enum Term; #[derive(Debug)] /// text\n #[enumify(Box)] pub struct App { #[inner] a: u8 }",
    )
    .unwrap();
    let declared = &batch.enumifiables[0];
    assert_eq!(metas(&declared.attributes), vec!["derive (Debug)", "doc = \" text\"", "enumify (Box)"]);
    assert_eq!(declared.declaration, "pub struct App { # [inner] a : u8 }");
}

#[test]
fn annotation_must_read() {
    assert_eq!(messages("enum Term; #[1 + 2] struct A;"), vec!["expected identifier"]);
    assert_eq!(messages("#[derive = ] enum Term;"), vec!["unexpected end of input, expected an expression"]);
    assert_eq!(messages("enum Term; #[a]"), vec!["unexpected end of input, expected one of: `fn`, `extern`, `use`, `static`, `const`, `unsafe`, `mod`, `type`, `struct`, `enum`, `union`, `trait`, `auto`, `impl`, `default`, `macro`, identifier, `self`, `super`, `crate`, `::`"]);
}

#[test]
fn empty_text_is_no_batch() {
    assert_eq!(messages(""), vec!["unexpected end of input, expected `enum`"]);
}

#[test]
fn head_needs_the_keyword() {
    assert_eq!(messages("pub struct Term;"), vec!["expected `enum`"]);
}

#[test]
fn head_needs_a_name() {
    assert_eq!(messages("pub enum"), vec!["unexpected end of input, expected identifier"]);
    assert_eq!(messages("pub enum ;"), vec!["expected identifier"]);
}

#[test]
fn head_needs_its_terminator() {
    assert_eq!(messages("pub enum Term struct A;"), vec!["expected `;`"]);
    assert_eq!(messages("pub enum Term"), vec!["expected `;`"]);
    assert_eq!(messages("pub enum Term { A }"), vec!["expected `;`"]);
    assert_eq!(messages("pub enum Term<T> where T: Clone;"), vec!["expected `;`"]);
}

#[test]
fn head_generics_must_close() {
    assert_eq!(messages("enum Term<T; struct A;"), vec!["expected `,`"]);
}

#[test]
fn text_must_lex() {
    assert_eq!(messages("enum Term; \"open"), vec!["cannot parse string into token stream"]);
    assert_eq!(messages("#[a pub enum Term;"), vec!["cannot parse string into token stream"]);
}

#[test]
fn item_must_be_struct_or_enum() {
    assert_eq!(messages("enum Term; fn f() {} struct A;"), vec!["not `struct` or `enum`"]);
    assert_eq!(
        messages("enum Term; fn f() {}"),
        vec!["unexpected end of input, not `struct` or `enum`"]
    );
    assert_eq!(
        messages("enum Term; struct A; union U { a: u8 }"),
        vec!["unexpected end of input, not `struct` or `enum`"]
    );
    assert_eq!(
        messages("enum Term; struct A; union U { a: u8 } enum B {}"),
        vec!["not `struct` or `enum`"]
    );
}

#[test]
fn first_violation_is_reported() {
    assert_eq!(messages("enum Term; fn f() {} struct"), vec!["not `struct` or `enum`"]);
    assert_eq!(messages("enum Term; struct A { x: u8 } struct B { : }"), vec!["expected identifier"]);
    assert_eq!(
        messages("enum struct A; fn f() {}"),
        vec!["expected identifier, found keyword `struct`"]
    );
}

#[test]
fn item_must_be_complete() {
    assert_eq!(messages("enum Term; struct"), vec!["unexpected end of input, expected identifier"]);
}

#[test]
fn nothing_is_read_after_an_error() {
    assert!(Enumify::parse("enum Term; struct A; struct B; fn f() {}").is_err());
    assert_eq!(Enumify::parse("enum Term; struct A; struct B;").unwrap().enumifiables.len(), 2);
}

#[test]
fn comments_and_blank_text_hold_no_item() {
    let batch = Enumify::parse("enum Term; // nothing more\n   ").unwrap();
    assert!(batch.enumifiables.is_empty());
}

#[test]
fn common_annotations_are_read_and_kept() {
    let annotations = [
        ("#[derive(Debug, Clone, PartialEq)]", "derive (Debug , Clone , PartialEq)"),
        ("#[cfg(all(unix, not(test)))]", "cfg (all (unix , not (test)))"),
        ("#[cfg_attr(feature = \"serde\", derive(Serialize))]", "cfg_attr (feature = \"serde\" , derive (Serialize))"),
        ("#[rustfmt::skip]", "rustfmt :: skip"),
        ("#[repr(C, align(8))]", "repr (C , align (8))"),
        ("#[doc = include_str!(\"notes.md\")]", "doc = include_str ! (\"notes.md\")"),
        ("#[unsafe(no_mangle)]", "unsafe (no_mangle)"),
        ("#[deprecated(since = \"1.2.0\", note = \"use `other`\")]", "deprecated (since = \"1.2.0\" , note = \"use `other`\")"),
        ("#[must_use = \"it does nothing alone\"]", "must_use = \"it does nothing alone\""),
        ("/** block */", "doc = \" block \""),
        ("#[allow(clippy::too_many_arguments)]", "allow (clippy :: too_many_arguments)"),
        ("#[macro_use]", "macro_use"),
        ("#[a::b::c{ x + y; }]", "a :: b :: c { x + y ; }"),
    ];
    for (written, meta) in annotations {
        let batch = Enumify::parse(&format!("enum Term; {} struct Leaf;", written)).unwrap();
        assert_eq!(metas(&batch.enumifiables[0].attributes), vec![meta], "{}", written);
        assert!(!batch.enumifiables[0].attributes[0].is_wrapper(), "{}", written);
        let head = Enumify::parse(&format!("{} enum Term;", written)).unwrap();
        assert_eq!(metas(&head.enum_attributes), vec![meta], "{}", written);
    }
}

#[test]
fn declarations_of_many_forms_are_read() {
    let declarations = [
        ("struct Unit;", "Unit", ""),
        ("pub struct Tuple(pub u8, String);", "Tuple", ""),
        ("pub(super) struct Named { pub a: u8, b: Vec<String> }", "Named", ""),
        ("struct Bounded<T: Clone + Send, U = u8> where U: Default { t: T, u: U }", "Bounded", "< T : Clone + Send , U = u8 >"),
        ("struct Borrowed<'a, 'b: 'a>(&'a str, &'b [u8]);", "Borrowed", "< 'a , 'b : 'a >"),
        ("struct Sized<const N: usize>([u8; N]);", "Sized", "< const N : usize >"),
        ("enum Empty {}", "Empty", ""),
        ("pub enum Choice<T> { One(T), Two { left: T, right: T }, Three = 3 }", "Choice", "< T >"),
        ("struct r#type;", "r#type", ""),
    ];
    for (written, ident, generics) in declarations {
        let batch = Enumify::parse(&format!("enum Term; {}", written)).unwrap();
        assert_eq!(batch.enumifiables.len(), 1, "{}", written);
        assert_eq!(batch.enumifiables[0].ident, ident, "{}", written);
        assert_eq!(batch.enumifiables[0].generics, generics, "{}", written);
        assert_eq!(
            batch.enumifiables[0].declaration,
            syn::parse_str::<proc_macro2::TokenStream>(
                &quote::ToTokens::to_token_stream(&syn::parse_str::<syn::Item>(written).unwrap())
                    .to_string()
            )
            .unwrap()
            .to_string(),
            "{}",
            written
        );
    }
}
