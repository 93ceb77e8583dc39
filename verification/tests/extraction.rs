use enumify::annotation::{read_type_path, reject_repeat};
use enumify::{Annotation, Diagnostic, Enumifiable, Form};

const REPEAT: &str = "at most one `#[enumify()]` attribute is allowed per
                    type corresponding to a variant";

fn path(name: &str) -> Annotation {
    Annotation { name: Some(name.to_owned()), form: Form::Path, meta: name.to_owned() }
}

fn list(name: &str, payload: &str) -> Annotation {
    Annotation {
        name: Some(name.to_owned()),
        form: Form::List { payload: payload.to_owned() },
        meta: format!("{} ({})", name, payload),
    }
}

fn namespaced_list(meta_path: &str, payload: &str) -> Annotation {
    Annotation {
        name: None,
        form: Form::List { payload: payload.to_owned() },
        meta: format!("{} ({})", meta_path, payload),
    }
}

fn name_value(name: &str, value: &str) -> Annotation {
    Annotation {
        name: Some(name.to_owned()),
        form: Form::NameValue,
        meta: format!("{} = {}", name, value),
    }
}

fn metas(annotations: &[Annotation]) -> Vec<String> {
    annotations.iter().map(|annotation| annotation.meta.clone()).collect()
}

#[test]
fn recognises_only_the_reserved_list() {
    assert!(list("enumify", "Box").is_wrapper());
    assert!(list("enumify", "").is_wrapper());
    assert!(!list("derive", "Debug").is_wrapper());
    assert!(!list("Enumify", "Box").is_wrapper());
    assert!(!list("enumif", "Box").is_wrapper());
    assert!(!list("enumifyy", "Box").is_wrapper());
    assert!(!path("enumify").is_wrapper());
    assert!(!name_value("enumify", "\"Box\"").is_wrapper());
    assert!(!namespaced_list("a :: enumify", "Box").is_wrapper());
    assert!(!namespaced_list(":: enumify", "Box").is_wrapper());
}

#[test]
fn payload_is_empty_unless_list() {
    assert_eq!(list("enumify", "Box").payload(), "Box");
    assert_eq!(path("test").payload(), "");
    assert_eq!(name_value("doc", "\"x\"").payload(), "");
}

#[test]
fn annotation_text_is_bracketed_meta() {
    assert_eq!(list("derive", "Debug").to_text(), "# [derive (Debug)]");
    assert_eq!(path("test").to_text(), "# [test]");
    assert_eq!(name_value("doc", "\"x\"").to_text(), "# [doc = \"x\"]");
}

#[test]
fn empty_list_yields_nothing() {
    let mut attributes: Vec<Annotation> = Vec::new();
    assert!(Enumifiable::extract_variant_wrapper(&mut attributes).is_none());
    assert!(attributes.is_empty());
}

#[test]
fn without_wrapper_all_annotations_stay() {
    let mut attributes =
        vec![list("derive", "Debug"), path("test"), name_value("doc", "\"x\""), list("allow", "dead_code")];
    let wrapper = Enumifiable::extract_variant_wrapper(&mut attributes);
    assert!(wrapper.is_none());
    assert_eq!(
        metas(&attributes),
        vec!["derive (Debug)", "test", "doc = \"x\"", "allow (dead_code)"]
    );
}

#[test]
fn single_wrapper_is_removed_and_returned() {
    let mut attributes = vec![list("derive", "Debug"), list("enumify", "Box"), list("allow", "dead_code")];
    let wrapper = Enumifiable::extract_variant_wrapper(&mut attributes);
    assert_eq!(wrapper.unwrap().unwrap(), "Box");
    assert_eq!(metas(&attributes), vec!["derive (Debug)", "allow (dead_code)"]);
}

#[test]
fn wrapper_in_first_and_last_place() {
    let mut first = vec![list("enumify", "Rc"), path("a"), path("b")];
    assert_eq!(Enumifiable::extract_variant_wrapper(&mut first).unwrap().unwrap(), "Rc");
    assert_eq!(metas(&first), vec!["a", "b"]);

    let mut last = vec![path("a"), path("b"), list("enumify", "Rc")];
    assert_eq!(Enumifiable::extract_variant_wrapper(&mut last).unwrap().unwrap(), "Rc");
    assert_eq!(metas(&last), vec!["a", "b"]);
}

#[test]
fn wrapper_path_is_printed_as_tokens() {
    let mut attributes = vec![list("enumify", "std::boxed::Box")];
    let wrapper = Enumifiable::extract_variant_wrapper(&mut attributes);
    assert_eq!(wrapper.unwrap().unwrap(), "std :: boxed :: Box");
    assert!(attributes.is_empty());
}

#[test]
fn second_wrapper_is_one_error() {
    let mut attributes =
        vec![list("enumify", "Box"), list("derive", "Debug"), list("enumify", "Rc"), path("test")];
    let wrapper = Enumifiable::extract_variant_wrapper(&mut attributes);
    let diagnostic = wrapper.unwrap().unwrap_err();
    assert_eq!(diagnostic.messages().to_vec(), vec![REPEAT]);
    assert_eq!(metas(&attributes), vec!["derive (Debug)", "enumify (Rc)", "test"]);
}

#[test]
fn third_wrapper_extends_the_same_error() {
    let mut attributes = vec![list("enumify", "Box"), list("enumify", "Rc"), list("enumify", "Arc")];
    let wrapper = Enumifiable::extract_variant_wrapper(&mut attributes);
    let diagnostic = wrapper.unwrap().unwrap_err();
    assert_eq!(diagnostic.messages().to_vec(), vec![REPEAT, REPEAT]);
    assert_eq!(metas(&attributes), vec!["enumify (Rc)", "enumify (Arc)"]);
}

#[test]
fn invalid_payload_is_the_reported_error() {
    let mut attributes = vec![list("enumify", "1 + 2"), path("test")];
    let wrapper = Enumifiable::extract_variant_wrapper(&mut attributes);
    let diagnostic = wrapper.unwrap().unwrap_err();
    assert_eq!(diagnostic.messages().to_vec(), vec!["expected identifier"]);
    assert_eq!(metas(&attributes), vec!["test"]);
}

#[test]
fn empty_payload_is_an_error() {
    let mut attributes = vec![list("enumify", "")];
    let diagnostic = Enumifiable::extract_variant_wrapper(&mut attributes).unwrap().unwrap_err();
    assert_eq!(diagnostic.messages().to_vec(), vec!["unexpected end of input, expected identifier"]);
}

#[test]
fn invalid_payload_then_repeat_combines() {
    let mut attributes = vec![list("enumify", "1 + 2"), list("enumify", "Box")];
    let diagnostic = Enumifiable::extract_variant_wrapper(&mut attributes).unwrap().unwrap_err();
    assert_eq!(diagnostic.messages().to_vec(), vec!["expected identifier", REPEAT]);
    assert_eq!(metas(&attributes), vec!["enumify (Box)"]);
}

#[test]
fn only_the_first_payload_is_read() {
    let mut attributes = vec![list("enumify", "Box"), list("enumify", "1 + 2")];
    let diagnostic = Enumifiable::extract_variant_wrapper(&mut attributes).unwrap().unwrap_err();
    assert_eq!(diagnostic.messages().to_vec(), vec![REPEAT]);
    assert_eq!(metas(&attributes), vec!["enumify (1 + 2)"]);
}

#[test]
fn lookalikes_are_kept() {
    let mut attributes = vec![
        namespaced_list("other :: enumify", "Box"),
        path("enumify"),
        name_value("enumify", "\"Box\""),
        list("enumify", "Box"),
    ];
    let wrapper = Enumifiable::extract_variant_wrapper(&mut attributes);
    assert_eq!(wrapper.unwrap().unwrap(), "Box");
    assert_eq!(
        metas(&attributes),
        vec!["other :: enumify (Box)", "enumify", "enumify = \"Box\""]
    );
}

#[test]
fn reads_type_paths() {
    assert_eq!(read_type_path("Box").unwrap(), "Box");
    assert_eq!(read_type_path("::std::rc::Rc").unwrap(), ":: std :: rc :: Rc");
    assert_eq!(read_type_path("Box Rc").unwrap_err().messages().to_vec(), vec!["unexpected token"]);
}

#[test]
fn repeat_turns_a_path_into_an_error() {
    let rejected = reject_repeat(Ok("Box".to_owned())).unwrap_err();
    assert_eq!(rejected.messages().to_vec(), vec![REPEAT]);
}

#[test]
fn repeat_extends_an_error() {
    let rejected = reject_repeat(Err(Diagnostic::new("first"))).unwrap_err();
    assert_eq!(rejected.messages().to_vec(), vec!["first", REPEAT]);
}

#[test]
fn copies_keep_every_part() {
    let annotations = vec![list("enumify", "Box"), path("test"), name_value("doc", "\"x\"")];
    let copy = enumify::annotation::clone_annotations(&annotations);
    assert_eq!(metas(&copy), metas(&annotations));
    assert_eq!(copy[0].name.as_deref(), Some("enumify"));
    assert_eq!(copy[0].payload(), "Box");
    assert!(copy[0].is_wrapper());
    assert!(matches!(copy[1].form, Form::Path));
    assert!(matches!(copy[2].form, Form::NameValue));
    let one = namespaced_list("a :: b", "c").clone();
    assert_eq!(one.name, None);
    assert_eq!(one.meta, "a :: b (c)");
    assert_eq!(one.payload(), "c");
}

#[test]
fn at_most_one_annotation_is_removed() {
    for wrappers in 0..5usize {
        let mut attributes = vec![path("first")];
        for place in 0..wrappers {
            attributes.push(list("enumify", "Box"));
            attributes.push(path(&format!("after_{}", place)));
        }
        let before = metas(&attributes);
        let wrapper = Enumifiable::extract_variant_wrapper(&mut attributes);
        let mut expected = before.clone();
        if wrappers > 0 {
            expected.remove(1);
        }
        assert_eq!(metas(&attributes), expected);
        assert_eq!(wrapper.is_some(), wrappers > 0);
        if wrappers > 1 {
            assert_eq!(wrapper.unwrap().unwrap_err().messages().len(), wrappers - 1);
        }
    }
}

#[test]
fn extracting_again_takes_the_next_wrapper() {
    let mut attributes = vec![list("enumify", "Box"), path("test"), list("enumify", "Rc")];
    assert!(Enumifiable::extract_variant_wrapper(&mut attributes).unwrap().is_err());
    assert_eq!(metas(&attributes), vec!["test", "enumify (Rc)"]);
    assert_eq!(Enumifiable::extract_variant_wrapper(&mut attributes).unwrap().unwrap(), "Rc");
    assert_eq!(metas(&attributes), vec!["test"]);
    assert!(Enumifiable::extract_variant_wrapper(&mut attributes).is_none());
    assert_eq!(metas(&attributes), vec!["test"]);
}
