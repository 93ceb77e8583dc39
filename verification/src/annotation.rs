//! Annotations of a declared type, and the extraction of the one that names
//! an indirection wrapper.

use vstd::prelude::*;
use crate::declared::Enumifiable;
use crate::diagnostic::Diagnostic;
use crate::syntax::{parse_type_path, type_path_of};
use crate::text::{enclose, enclosed};

verus! {

/// The three shapes of an annotation's content.
#[derive(Debug)]
pub enum Form {
    /// A bare path, as in `#[test]`.
    Path,
    /// A path followed by delimited tokens, as in `#[derive(Debug)]`; the
    /// payload is the text between the delimiters.
    List { payload: String },
    /// A path, `=` and a value, as in `#[path = "a.rs"]`.
    NameValue,
}

/// What a form is, as plain text.
pub enum FormView {
    Path,
    List { payload: Seq<char> },
    NameValue,
}

impl DeepView for Form {
    type V = FormView;

    open spec fn deep_view(&self) -> FormView {
        match self {
            Form::Path => FormView::Path,
            Form::List { payload } => FormView::List { payload: payload@ },
            Form::NameValue => FormView::NameValue,
        }
    }
}

/// One annotation, `#[meta]`.
#[derive(Debug)]
pub struct Annotation {
    /// The path of the annotation when it is a single bare identifier.
    pub name: Option<String>,
    pub form: Form,
    /// The text between `#[` and `]`.
    pub meta: String,
}

/// What an annotation is, as plain text.
pub struct AnnotationView {
    pub name: Option<Seq<char>>,
    pub form: FormView,
    pub meta: Seq<char>,
}

impl DeepView for Annotation {
    type V = AnnotationView;

    open spec fn deep_view(&self) -> AnnotationView {
        AnnotationView {
            name: match self.name {
                Some(name) => Some(name@),
                None => None,
            },
            form: self.form.deep_view(),
            meta: self.meta@,
        }
    }
}

/// The payload of a form; empty unless the form is a list.
pub open spec fn payload_of(form: FormView) -> Seq<char> {
    match form {
        FormView::List { payload } => payload,
        _ => Seq::empty(),
    }
}

/// The identifier that marks a wrapper annotation.
pub const RESERVED_WORD: &'static str = "enumify";

/// The message recorded for each wrapper annotation after the first.
pub const REPEAT_MESSAGE: &'static str =
    "at most one `#[enumify()]` attribute is allowed per\n                    type corresponding to a variant";

/// An annotation names a wrapper when it is a list whose path is the
/// reserved word alone.
pub open spec fn is_wrapper(annotation: AnnotationView) -> bool {
    annotation.form is List && annotation.name == Some(RESERVED_WORD@)
}

/// The annotations that extraction leaves in place: all but the first
/// wrapper annotation. Wrapper annotations after the first stay where they
/// are.
pub open spec fn retained(annotations: Seq<AnnotationView>) -> Seq<AnnotationView>
    decreases annotations.len(),
{
    if annotations.len() == 0 {
        annotations
    } else if is_wrapper(annotations.first()) {
        annotations.drop_first()
    } else {
        seq![annotations.first()] + retained(annotations.drop_first())
    }
}

/// The wrapper annotations among `annotations`, in order.
pub open spec fn wrappers(annotations: Seq<AnnotationView>) -> Seq<AnnotationView> {
    annotations.filter(|annotation: AnnotationView| is_wrapper(annotation))
}

/// Whether no annotation before `place` is a wrapper annotation.
pub open spec fn none_before(annotations: Seq<AnnotationView>, place: int) -> bool {
    forall|j: int| 0 <= j < place && j < annotations.len() ==> !is_wrapper(#[trigger] annotations[j])
}

/// The outcome for a wrapper annotation once one more wrapper annotation has
/// been met: a path gives way to an error, an error grows by one message.
pub open spec fn rejected(outcome: Result<Seq<char>, Seq<Seq<char>>>) -> Result<
    Seq<char>,
    Seq<Seq<char>>,
> {
    match outcome {
        Ok(_) => Err(seq![REPEAT_MESSAGE@]),
        Err(messages) => Err(messages.push(REPEAT_MESSAGE@)),
    }
}

/// `first` after `further` more wrapper annotations.
pub open spec fn settled(first: Result<Seq<char>, Seq<Seq<char>>>, further: nat) -> Result<
    Seq<char>,
    Seq<Seq<char>>,
>
    decreases further,
{
    if further == 0 {
        first
    } else {
        rejected(settled(first, (further - 1) as nat))
    }
}

/// What extraction returns for `annotations`: nothing without a wrapper
/// annotation; else what the first one's payload reads as, settled by the
/// number of wrapper annotations that follow it.
pub open spec fn extracted(annotations: Seq<AnnotationView>) -> Option<
    Result<Seq<char>, Seq<Seq<char>>>,
> {
    let found = wrappers(annotations);
    if found.len() == 0 {
        None
    } else {
        Some(settled(type_path_of(payload_of(found[0].form)), (found.len() - 1) as nat))
    }
}

/// What the reading of a wrapper is, as plain text: a type path, or the
/// messages of a diagnostic.
pub open spec fn reading_view(reading: Result<String, Diagnostic>) -> Result<
    Seq<char>,
    Seq<Seq<char>>,
> {
    match reading {
        Ok(path) => Ok(path@),
        Err(diagnostic) => Err(diagnostic.deep_view()),
    }
}

/// What an extraction result is, as plain text.
pub open spec fn outcome_view(outcome: Option<Result<String, Diagnostic>>) -> Option<
    Result<Seq<char>, Seq<Seq<char>>>,
> {
    match outcome {
        None => None,
        Some(reading) => Some(reading_view(reading)),
    }
}

/// The text of an annotation as it is emitted.
pub open spec fn annotation_text(annotation: AnnotationView) -> Seq<char> {
    enclosed("# ["@, annotation.meta, "]"@)
}

impl Clone for Form {
    fn clone(&self) -> (copy: Self)
        ensures
            copy.deep_view() == self.deep_view(),
    {
        match self {
            Form::Path => Form::Path,
            Form::List { payload } => Form::List { payload: payload.clone() },
            Form::NameValue => Form::NameValue,
        }
    }
}

impl Clone for Annotation {
    fn clone(&self) -> (copy: Self)
        ensures
            copy.deep_view() == self.deep_view(),
    {
        Annotation {
            name: match &self.name {
                Some(name) => Some(name.clone()),
                None => None,
            },
            form: self.form.clone(),
            meta: self.meta.clone(),
        }
    }
}

/// A copy of `annotations`.
pub fn clone_annotations(annotations: &Vec<Annotation>) -> (copy: Vec<Annotation>)
    ensures
        copy.deep_view() == annotations.deep_view(),
{
    let mut copy: Vec<Annotation> = Vec::new();
    let mut i: usize = 0;
    while i < annotations.len()
        invariant
            i <= annotations.len(),
            copy.deep_view() == annotations.deep_view().take(i as int),
        decreases annotations.len() - i,
    {
        let ghost before = copy.deep_view();
        copy.push(annotations[i].clone());
        assert(copy.deep_view() =~= before.push(annotations[i as int].deep_view()));
        assert(annotations.deep_view().take(i + 1) =~= before.push(annotations[i as int].deep_view()));
        i = i + 1;
    }
    assert(annotations.deep_view().take(i as int) =~= annotations.deep_view());
    copy
}

impl Annotation {
    /// Whether this annotation names a wrapper.
    pub fn is_wrapper(&self) -> (yes: bool)
        ensures
            yes == is_wrapper(self.deep_view()),
    {
        match (&self.form, &self.name) {
            (Form::List { .. }, Some(name)) => {
                let reserved = RESERVED_WORD.to_owned();
                *name == reserved
            },
            _ => false,
        }
    }

    /// The payload; empty unless the annotation is a list.
    pub fn payload(&self) -> (payload: &str)
        ensures
            payload@ == payload_of(self.deep_view().form),
    {
        proof {
            reveal_strlit("");
        }
        match &self.form {
            Form::List { payload } => payload.as_str(),
            _ => "",
        }
    }

    /// The annotation as source text.
    pub fn to_text(&self) -> (text: String)
        ensures
            text@ == annotation_text(self.deep_view()),
    {
        enclose("# [", self.meta.as_str(), "]")
    }
}

/// Reads `payload` as a type path.
pub fn read_type_path(payload: &str) -> (outcome: Result<String, Diagnostic>)
    ensures
        reading_view(outcome) == type_path_of(payload@),
        outcome matches Err(diagnostic) ==> diagnostic.deep_view().len() > 0,
{
    match parse_type_path(payload) {
        Ok(path) => Ok(path),
        Err(error) => Err(Diagnostic::from_syntax(&error)),
    }
}

/// Registers one more wrapper annotation against the outcome so far.
pub fn reject_repeat(outcome: Result<String, Diagnostic>) -> (next: Result<String, Diagnostic>)
    ensures
        reading_view(next) == rejected(reading_view(outcome)),
        next matches Err(diagnostic) && diagnostic.deep_view().len() > 0,
{
    let repeat = Diagnostic::new(REPEAT_MESSAGE);
    match outcome {
        Ok(_) => Err(repeat),
        Err(mut previous) => {
            let ghost before = previous.deep_view();
            previous.combine(repeat);
            assert(previous.deep_view() =~= before.push(REPEAT_MESSAGE@));
            Err(previous)
        },
    }
}

/// Adding one annotation at the end adds it to the wrapper annotations
/// exactly where it is one.
proof fn wrappers_push(annotations: Seq<AnnotationView>, last: AnnotationView)
    ensures
        wrappers(annotations.push(last)) == if is_wrapper(last) {
            wrappers(annotations).push(last)
        } else {
            wrappers(annotations)
        },
{
    annotations.lemma_filter_push(last, |annotation: AnnotationView| is_wrapper(annotation));
}

/// Without a wrapper annotation, all annotations are retained.
pub proof fn retained_without_wrapper(annotations: Seq<AnnotationView>)
    requires
        none_before(annotations, annotations.len() as int),
    ensures
        retained(annotations) == annotations,
    decreases annotations.len(),
{
    if annotations.len() > 0 {
        let rest = annotations.drop_first();
        assert forall|j: int| 0 <= j < rest.len() implies !is_wrapper(#[trigger] rest[j]) by {
            assert(rest[j] == annotations[j + 1]);
        }
        retained_without_wrapper(rest);
        assert(seq![annotations.first()] + rest =~= annotations);
    }
}

/// With the first wrapper annotation at `place`, the annotations retained
/// are all but the one at that place.
pub proof fn retained_with_wrapper(annotations: Seq<AnnotationView>, place: int)
    requires
        0 <= place < annotations.len(),
        is_wrapper(annotations[place]),
        none_before(annotations, place),
    ensures
        retained(annotations) == annotations.remove(place),
    decreases place,
{
    if place == 0 {
        assert(annotations.drop_first() =~= annotations.remove(0));
    } else {
        let rest = annotations.drop_first();
        assert(!is_wrapper(annotations[0]));
        assert forall|j: int| 0 <= j < place - 1 && j < rest.len() implies !is_wrapper(
            #[trigger] rest[j],
        ) by {
            assert(rest[j] == annotations[j + 1]);
        }
        assert(rest[place - 1] == annotations[place]);
        retained_with_wrapper(rest, place - 1);
        assert(seq![annotations.first()] + rest.remove(place - 1) =~= annotations.remove(place));
    }
}

impl Enumifiable {
    /// Removes the first wrapper annotation from `attributes`, leaving every
    /// other annotation at its relative place, and returns what the wrapper
    /// annotations amount to: nothing when there is none, the type path of
    /// the first one's payload when it reads as one and no other follows,
    /// and otherwise one diagnostic, which holds one message for every
    /// wrapper annotation after the first.
    pub fn extract_variant_wrapper(attributes: &mut Vec<Annotation>) -> (wrapper: Option<
        Result<String, Diagnostic>,
    >)
        ensures
            final(attributes).deep_view() == retained(old(attributes).deep_view()),
            outcome_view(wrapper) == extracted(old(attributes).deep_view()),
            wrapper is None ==> final(attributes).len() == old(attributes).len(),
            wrapper is Some ==> final(attributes).len() == old(attributes).len() - 1,
            wrapper matches Some(Err(diagnostic)) ==> diagnostic.deep_view().len() > 0,
    {
        let ghost given = attributes.deep_view();
        let ghost mut seen: int = 0;
        let ghost mut first: int = 0;
        let mut wrapper: Option<Result<String, Diagnostic>> = None;
        let mut next: usize = 0;
        proof {
            assert(given.take(0) =~= Seq::<AnnotationView>::empty());
            assert(wrappers(given.take(0)) =~= Seq::<AnnotationView>::empty()) by {
                reveal(Seq::filter);
            }
        }
        while next < attributes.len()
            invariant
                0 <= seen <= given.len(),
                wrapper is None ==> seen == next && attributes.deep_view() == given && none_before(
                    given,
                    seen,
                ),
                wrapper is Some ==> seen == next + 1 && 0 <= first < seen && is_wrapper(
                    given[first],
                ) && none_before(given, first) && attributes.deep_view() == given.remove(first),
                outcome_view(wrapper) == extracted(given.take(seen)),
                wrapper matches Some(Err(diagnostic)) ==> diagnostic.deep_view().len() > 0,
            decreases given.len() - seen,
        {
            let ghost current = attributes.deep_view();
            let ghost found = wrappers(given.take(seen));
            proof {
                assert(current.len() == attributes.len());
                assert(seen < given.len());
                assert(current[next as int] == given[seen]);
                assert(given.take(seen + 1) =~= given.take(seen).push(given[seen]));
                wrappers_push(given.take(seen), given[seen]);
            }
            if attributes[next].is_wrapper() {
                match wrapper {
                    None => {
                        let ghost before = attributes@;
                        let attribute = attributes.remove(next);
                        proof {
                            assert(attributes@ == before.remove(next as int));
                            assert(attribute.deep_view() == given[seen]);
                            assert forall|j: int| 0 <= j < given.len() - 1 implies (
                            #[trigger] attributes.deep_view()[j]) == given.remove(seen)[j] by {
                                if j < next {
                                    assert(attributes@[j] == before[j]);
                                    assert(current[j] == given[j]);
                                } else {
                                    assert(attributes@[j] == before[j + 1]);
                                    assert(current[j + 1] == given[j + 1]);
                                }
                            }
                            assert(attributes.deep_view() =~= given.remove(seen));
                            first = seen;
                        }
                        wrapper = Some(read_type_path(attribute.payload()));
                    },
                    Some(outcome) => {
                        wrapper = Some(reject_repeat(outcome));
                        next = next + 1;
                    },
                }
                proof {
                    assert(found.push(given[seen])[0] == if found.len() == 0 {
                        given[seen]
                    } else {
                        found[0]
                    });
                }
            } else {
                next = next + 1;
            }
            proof {
                seen = seen + 1;
            }
        }
        proof {
            assert(seen == given.len());
            assert(given.take(seen) =~= given);
            if wrapper is None {
                retained_without_wrapper(given);
            } else {
                retained_with_wrapper(given, first);
            }
        }
        wrapper
    }
}

} // verus!
