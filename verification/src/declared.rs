//! Declared types and the union variants synthesized from them.

use vstd::prelude::*;
use crate::annotation::{annotation_text, extracted, retained, Annotation, AnnotationView};
use crate::diagnostic::Diagnostic;
use crate::text::{enclose, enclosed, join_spaced, push_spaced, spaced, spaced_all};

verus! {

/// The two shapes of a declared type.
#[derive(Debug, Clone, Copy, PartialEq, Eq, Structural)]
pub enum Shape {
    Struct,
    Enum,
}

/// One declared type of a batch.
#[derive(Debug)]
pub struct Enumifiable {
    pub shape: Shape,
    pub attributes: Vec<Annotation>,
    pub ident: String,
    /// The generic-parameter list with its angle brackets, or empty.
    pub generics: String,
    /// The declaration as written, without its annotations.
    pub declaration: String,
}

/// What a declared type is, as plain text.
pub struct EnumifiableView {
    pub shape: Shape,
    pub attributes: Seq<AnnotationView>,
    pub ident: Seq<char>,
    pub generics: Seq<char>,
    pub declaration: Seq<char>,
}

impl DeepView for Enumifiable {
    type V = EnumifiableView;

    open spec fn deep_view(&self) -> EnumifiableView {
        EnumifiableView {
            shape: self.shape,
            attributes: self.attributes.deep_view(),
            ident: self.ident@,
            generics: self.generics@,
            declaration: self.declaration@,
        }
    }
}

/// One variant of the synthesized union: the tag is the declared type's name,
/// the payload that type applied to its own generics, inside the wrapper when
/// there is one.
#[derive(Debug)]
pub struct Variant {
    pub ident: String,
    pub generics: String,
    pub wrapper: Option<String>,
}

/// What a variant is, as plain text.
pub struct VariantView {
    pub ident: Seq<char>,
    pub generics: Seq<char>,
    pub wrapper: Option<Seq<char>>,
}

impl DeepView for Variant {
    type V = VariantView;

    open spec fn deep_view(&self) -> VariantView {
        VariantView {
            ident: self.ident@,
            generics: self.generics@,
            wrapper: match self.wrapper {
                Some(path) => Some(path@),
                None => None,
            },
        }
    }
}

/// The declared type as extraction leaves it: without its first wrapper
/// annotation, and otherwise as it was.
pub open spec fn stripped(declared: EnumifiableView) -> EnumifiableView {
    EnumifiableView { attributes: retained(declared.attributes), ..declared }
}

/// The variant for a declared type, or the messages of its diagnostic.
pub open spec fn synthesized(declared: EnumifiableView) -> Result<VariantView, Seq<Seq<char>>> {
    match extracted(declared.attributes) {
        None => Ok(
            VariantView { ident: declared.ident, generics: declared.generics, wrapper: None },
        ),
        Some(Ok(path)) => Ok(
            VariantView {
                ident: declared.ident,
                generics: declared.generics,
                wrapper: Some(path),
            },
        ),
        Some(Err(messages)) => Err(messages),
    }
}

/// What a synthesis result is, as plain text.
pub open spec fn synthesis_view(result: Result<Variant, Diagnostic>) -> Result<
    VariantView,
    Seq<Seq<char>>,
> {
    match result {
        Ok(variant) => Ok(variant.deep_view()),
        Err(diagnostic) => Err(diagnostic.deep_view()),
    }
}

/// A type applied to its generics.
pub open spec fn applied(ident: Seq<char>, generics: Seq<char>) -> Seq<char> {
    spaced(ident, generics)
}

/// The payload type of a variant.
pub open spec fn payload_text(variant: VariantView) -> Seq<char> {
    let bare = applied(variant.ident, variant.generics);
    match variant.wrapper {
        None => bare,
        Some(path) => spaced(spaced(spaced(path, "<"@), bare), ">"@),
    }
}

/// A variant as source text: the tag, then the payload type in parentheses.
pub open spec fn variant_text(variant: VariantView) -> Seq<char> {
    spaced(variant.ident, enclosed("("@, payload_text(variant), ")"@))
}

/// The annotations as source text, in order.
pub open spec fn annotations_text(annotations: Seq<AnnotationView>) -> Seq<char> {
    spaced_all(annotations.map_values(|annotation: AnnotationView| annotation_text(annotation)))
}

/// A declared type as source text: its annotations, then its declaration.
pub open spec fn declared_text(declared: EnumifiableView) -> Seq<char> {
    spaced(annotations_text(declared.attributes), declared.declaration)
}

/// Writes `annotations` as source text, in order.
pub fn annotations_to_text(annotations: &Vec<Annotation>) -> (text: String)
    ensures
        text@ == annotations_text(annotations.deep_view()),
{
    join_spaced(
        annotations,
        Annotation::to_text,
        Ghost(|annotation: AnnotationView| annotation_text(annotation)),
    )
}

impl Variant {
    /// The payload type as source text.
    pub fn payload_to_text(&self) -> (text: String)
        ensures
            text@ == payload_text(self.deep_view()),
    {
        let mut bare = self.ident.clone();
        push_spaced(&mut bare, self.generics.as_str());
        match &self.wrapper {
            None => bare,
            Some(path) => {
                let mut text = path.clone();
                push_spaced(&mut text, "<");
                push_spaced(&mut text, bare.as_str());
                push_spaced(&mut text, ">");
                text
            },
        }
    }

    /// The variant as source text.
    pub fn to_text(&self) -> (text: String)
        ensures
            text@ == variant_text(self.deep_view()),
    {
        let payload = self.payload_to_text();
        let group = enclose("(", payload.as_str(), ")");
        let mut text = self.ident.clone();
        push_spaced(&mut text, group.as_str());
        text
    }
}

impl Enumifiable {
    /// Extracts the first wrapper annotation of this declared type and
    /// builds its variant: the bare type without a wrapper annotation, the
    /// wrapper applied to the type with a single valid one, and otherwise
    /// the diagnostic, which holds a message.
    pub fn construct_enum_variant(&mut self) -> (result: Result<Variant, Diagnostic>)
        ensures
            final(self).deep_view() == stripped(old(self).deep_view()),
            synthesis_view(result) == synthesized(old(self).deep_view()),
            result matches Err(diagnostic) ==> diagnostic.deep_view().len() > 0,
    {
        match Enumifiable::extract_variant_wrapper(&mut self.attributes) {
            None => Ok(
                Variant { ident: self.ident.clone(), generics: self.generics.clone(), wrapper: None },
            ),
            Some(Ok(path)) => Ok(
                Variant {
                    ident: self.ident.clone(),
                    generics: self.generics.clone(),
                    wrapper: Some(path),
                },
            ),
            Some(Err(diagnostic)) => Err(diagnostic),
        }
    }

    /// The declared type as source text.
    pub fn to_text(&self) -> (text: String)
        ensures
            text@ == declared_text(self.deep_view()),
    {
        let mut text = annotations_to_text(&self.attributes);
        push_spaced(&mut text, self.declaration.as_str());
        text
    }
}

} // verus!
