//! A declaration batch and what it expands to: the synthesized union, the
//! declared types as they are emitted again, the conversions into the union
//! and the diagnostics.

use vstd::prelude::*;
use crate::annotation::{clone_annotations, Annotation, AnnotationView};
use crate::declared::{
    annotations_text, annotations_to_text, applied, declared_text, stripped, synthesized,
    variant_text, Enumifiable, EnumifiableView, Variant, VariantView,
};
use crate::diagnostic::{markers, Diagnostic};
use crate::text::{enclose, enclosed, join_spaced, push_spaced, separated, spaced, spaced_all};

verus! {

/// A declaration batch: the head of the union to synthesize, and the declared
/// types in the order in which they were written.
#[derive(Debug)]
pub struct Enumify {
    pub enum_attributes: Vec<Annotation>,
    pub enum_visibility: String,
    pub enum_ident: String,
    pub enum_generics: String,
    pub enumifiables: Vec<Enumifiable>,
}

/// What a batch is, as plain text.
pub struct EnumifyView {
    pub enum_attributes: Seq<AnnotationView>,
    pub enum_visibility: Seq<char>,
    pub enum_ident: Seq<char>,
    pub enum_generics: Seq<char>,
    pub enumifiables: Seq<EnumifiableView>,
}

impl DeepView for Enumify {
    type V = EnumifyView;

    open spec fn deep_view(&self) -> EnumifyView {
        EnumifyView {
            enum_attributes: self.enum_attributes.deep_view(),
            enum_visibility: self.enum_visibility@,
            enum_ident: self.enum_ident@,
            enum_generics: self.enum_generics@,
            enumifiables: self.enumifiables.deep_view(),
        }
    }
}

/// The synthesized union.
#[derive(Debug)]
pub struct EnumItem {
    pub attributes: Vec<Annotation>,
    pub visibility: String,
    pub ident: String,
    pub generics: String,
    pub variants: Vec<Variant>,
}

/// What a union is, as plain text.
pub struct EnumItemView {
    pub attributes: Seq<AnnotationView>,
    pub visibility: Seq<char>,
    pub ident: Seq<char>,
    pub generics: Seq<char>,
    pub variants: Seq<VariantView>,
}

impl DeepView for EnumItem {
    type V = EnumItemView;

    open spec fn deep_view(&self) -> EnumItemView {
        EnumItemView {
            attributes: self.attributes.deep_view(),
            visibility: self.visibility@,
            ident: self.ident@,
            generics: self.generics@,
            variants: self.variants.deep_view(),
        }
    }
}

/// The variants of the declared types whose synthesis succeeds, in order.
pub open spec fn variants_of(declared: Seq<EnumifiableView>) -> Seq<VariantView> {
    declared.filter_map(
        |one: EnumifiableView|
            match synthesized(one) {
                Ok(variant) => Some(variant),
                Err(_) => None,
            },
    )
}

/// The diagnostics of the declared types whose synthesis fails, in order.
pub open spec fn errors_of(declared: Seq<EnumifiableView>) -> Seq<Seq<Seq<char>>> {
    declared.filter_map(
        |one: EnumifiableView|
            match synthesized(one) {
                Ok(_) => None,
                Err(messages) => Some(messages),
            },
    )
}

/// Every declared type as extraction leaves it.
pub open spec fn all_stripped(declared: Seq<EnumifiableView>) -> Seq<EnumifiableView> {
    declared.map_values(|one: EnumifiableView| stripped(one))
}

/// The union synthesized for a batch.
pub open spec fn enum_item_of(batch: EnumifyView) -> EnumItemView {
    EnumItemView {
        attributes: batch.enum_attributes,
        visibility: batch.enum_visibility,
        ident: batch.enum_ident,
        generics: batch.enum_generics,
        variants: variants_of(batch.enumifiables),
    }
}

/// A conversion from one declared type into the union: the value, converted
/// into the payload type of its variant, inside that variant.
#[derive(Debug)]
pub struct Conversion {
    pub enum_ident: String,
    pub enum_generics: String,
    pub ident: String,
    pub generics: String,
}

/// What a conversion is, as plain text.
pub struct ConversionView {
    pub enum_ident: Seq<char>,
    pub enum_generics: Seq<char>,
    pub ident: Seq<char>,
    pub generics: Seq<char>,
}

impl DeepView for Conversion {
    type V = ConversionView;

    open spec fn deep_view(&self) -> ConversionView {
        ConversionView {
            enum_ident: self.enum_ident@,
            enum_generics: self.enum_generics@,
            ident: self.ident@,
            generics: self.generics@,
        }
    }
}

/// Everything that a batch expands to.
#[derive(Debug)]
pub struct Expansion {
    pub enum_item: EnumItem,
    pub items: Vec<Enumifiable>,
    pub impl_items: Vec<Conversion>,
    pub errors: Vec<Diagnostic>,
}

/// What an expansion is, as plain text; a diagnostic is the sequence of its
/// messages.
pub struct ExpansionView {
    pub enum_item: EnumItemView,
    pub items: Seq<EnumifiableView>,
    pub impl_items: Seq<ConversionView>,
    pub errors: Seq<Seq<Seq<char>>>,
}

impl DeepView for Expansion {
    type V = ExpansionView;

    open spec fn deep_view(&self) -> ExpansionView {
        ExpansionView {
            enum_item: self.enum_item.deep_view(),
            items: self.items.deep_view(),
            impl_items: self.impl_items.deep_view(),
            errors: self.errors.deep_view(),
        }
    }
}

/// The conversion into `item` for one of its variants.
pub open spec fn conversion_of(item: EnumItemView, variant: VariantView) -> ConversionView {
    ConversionView {
        enum_ident: item.ident,
        enum_generics: item.generics,
        ident: variant.ident,
        generics: variant.generics,
    }
}

/// The conversions into `item`: one for each variant, in order.
pub open spec fn conversions_of(item: EnumItemView) -> Seq<ConversionView> {
    item.variants.map_values(|variant: VariantView| conversion_of(item, variant))
}

/// What a batch expands to.
pub open spec fn expanded(batch: EnumifyView) -> ExpansionView {
    ExpansionView {
        enum_item: enum_item_of(batch),
        items: all_stripped(batch.enumifiables),
        impl_items: conversions_of(enum_item_of(batch)),
        errors: errors_of(batch.enumifiables),
    }
}

/// The variants of a union as source text, separated by commas.
pub open spec fn variants_text(variants: Seq<VariantView>) -> Seq<char> {
    separated(variants.map_values(|variant: VariantView| variant_text(variant)), ","@)
}

/// The union as source text.
pub open spec fn enum_item_text(item: EnumItemView) -> Seq<char> {
    let head = spaced(
        spaced(
            spaced(spaced(annotations_text(item.attributes), item.visibility), "enum"@),
            item.ident,
        ),
        item.generics,
    );
    spaced(spaced(spaced(head, "{"@), variants_text(item.variants)), "}"@)
}

/// The head of a conversion: the `From` implementation that it opens.
pub open spec fn conversion_head(conversion: ConversionView) -> Seq<char> {
    let source = applied(conversion.ident, conversion.generics);
    spaced(
        spaced(
            spaced(
                spaced(
                    spaced(
                        spaced("impl"@, conversion.enum_generics),
                        ":: core :: convert :: From <"@,
                    ),
                    source,
                ),
                "> for"@,
            ),
            conversion.enum_ident,
        ),
        conversion.enum_generics,
    )
}

/// The body of a conversion: the one function `from`.
pub open spec fn conversion_body(conversion: ConversionView) -> Seq<char> {
    let source = applied(conversion.ident, conversion.generics);
    let parameter = enclosed("("@, spaced("value :"@, source), ")"@);
    spaced(
        spaced(
            spaced(
                spaced(
                    spaced(spaced("{ fn from"@, parameter), "-> Self {"@),
                    conversion.enum_ident,
                ),
                "::"@,
            ),
            conversion.ident,
        ),
        "(value . into ()) } }"@,
    )
}

/// A conversion as source text.
pub open spec fn conversion_text(conversion: ConversionView) -> Seq<char> {
    spaced(conversion_head(conversion), conversion_body(conversion))
}

/// The declared types as source text, in order.
pub open spec fn items_text(items: Seq<EnumifiableView>) -> Seq<char> {
    spaced_all(items.map_values(|one: EnumifiableView| declared_text(one)))
}

/// The conversions as source text, in order.
pub open spec fn impl_items_text(impl_items: Seq<ConversionView>) -> Seq<char> {
    spaced_all(impl_items.map_values(|one: ConversionView| conversion_text(one)))
}

/// The markers of all diagnostics, in order.
pub open spec fn errors_text(errors: Seq<Seq<Seq<char>>>) -> Seq<char> {
    spaced_all(errors.map_values(|messages: Seq<Seq<char>>| markers(messages)))
}

/// An expansion as source text: the union, the declared types, the
/// conversions, the diagnostics.
pub open spec fn expansion_text(expansion: ExpansionView) -> Seq<char> {
    spaced(
        spaced(
            spaced(enum_item_text(expansion.enum_item), items_text(expansion.items)),
            impl_items_text(expansion.impl_items),
        ),
        errors_text(expansion.errors),
    )
}

impl Conversion {
    /// The conversion as source text.
    pub fn to_text(&self) -> (text: String)
        ensures
            text@ == conversion_text(self.deep_view()),
    {
        let mut source = self.ident.clone();
        push_spaced(&mut source, self.generics.as_str());
        let mut text = "impl".to_owned();
        push_spaced(&mut text, self.enum_generics.as_str());
        push_spaced(&mut text, ":: core :: convert :: From <");
        push_spaced(&mut text, source.as_str());
        push_spaced(&mut text, "> for");
        push_spaced(&mut text, self.enum_ident.as_str());
        push_spaced(&mut text, self.enum_generics.as_str());
        let mut inner = "value :".to_owned();
        push_spaced(&mut inner, source.as_str());
        let parameter = enclose("(", inner.as_str(), ")");
        let mut body = "{ fn from".to_owned();
        push_spaced(&mut body, parameter.as_str());
        push_spaced(&mut body, "-> Self {");
        push_spaced(&mut body, self.enum_ident.as_str());
        push_spaced(&mut body, "::");
        push_spaced(&mut body, self.ident.as_str());
        push_spaced(&mut body, "(value . into ()) } }");
        push_spaced(&mut text, body.as_str());
        text
    }
}

impl EnumItem {
    /// The conversions into this union: one for each variant, in order.
    pub fn construct_impl_items(&self) -> (impl_items: Vec<Conversion>)
        ensures
            impl_items.deep_view() == conversions_of(self.deep_view()),
    {
        let mut impl_items: Vec<Conversion> = Vec::new();
        let mut i: usize = 0;
        while i < self.variants.len()
            invariant
                i <= self.variants.len(),
                impl_items.deep_view() == conversions_of(self.deep_view()).take(i as int),
            decreases self.variants.len() - i,
        {
            let ghost before = impl_items.deep_view();
            let variant = &self.variants[i];
            impl_items.push(
                Conversion {
                    enum_ident: self.ident.clone(),
                    enum_generics: self.generics.clone(),
                    ident: variant.ident.clone(),
                    generics: variant.generics.clone(),
                },
            );
            proof {
                let all = conversions_of(self.deep_view());
                assert(impl_items.deep_view() =~= before.push(all[i as int]));
                assert(all.take(i + 1) =~= before.push(all[i as int]));
            }
            i = i + 1;
        }
        assert(conversions_of(self.deep_view()).take(i as int) =~= conversions_of(self.deep_view()));
        impl_items
    }

    /// The variants as source text, separated by commas.
    pub fn variants_to_text(&self) -> (text: String)
        ensures
            text@ == variants_text(self.deep_view().variants),
    {
        let ghost written = |variant: VariantView| variant_text(variant);
        let ghost all = self.variants.deep_view();
        let mut text = String::new();
        let mut i: usize = 0;
        while i < self.variants.len()
            invariant
                i <= self.variants.len(),
                all == self.variants.deep_view(),
                written == |variant: VariantView| variant_text(variant),
                text@ == separated(all.take(i as int).map_values(written), ","@),
            decreases self.variants.len() - i,
        {
            let one = self.variants[i].to_text();
            proof {
                assert(all.take(i + 1).map_values(written).drop_last() =~= all.take(
                    i as int,
                ).map_values(written));
            }
            if i == 0 {
                text = one;
            } else {
                push_spaced(&mut text, ",");
                push_spaced(&mut text, one.as_str());
            }
            i = i + 1;
        }
        assert(all.take(i as int) =~= all);
        text
    }

    /// The union as source text.
    pub fn to_text(&self) -> (text: String)
        ensures
            text@ == enum_item_text(self.deep_view()),
    {
        let mut text = annotations_to_text(&self.attributes);
        push_spaced(&mut text, self.visibility.as_str());
        push_spaced(&mut text, "enum");
        push_spaced(&mut text, self.ident.as_str());
        push_spaced(&mut text, self.generics.as_str());
        push_spaced(&mut text, "{");
        let variants = self.variants_to_text();
        push_spaced(&mut text, variants.as_str());
        push_spaced(&mut text, "}");
        text
    }
}

/// The declared types as source text, in order.
pub fn items_to_text(items: &Vec<Enumifiable>) -> (text: String)
    ensures
        text@ == items_text(items.deep_view()),
{
    join_spaced(items, Enumifiable::to_text, Ghost(|one: EnumifiableView| declared_text(one)))
}

/// The conversions as source text, in order.
pub fn impl_items_to_text(impl_items: &Vec<Conversion>) -> (text: String)
    ensures
        text@ == impl_items_text(impl_items.deep_view()),
{
    join_spaced(impl_items, Conversion::to_text, Ghost(|one: ConversionView| conversion_text(one)))
}

/// The markers of all diagnostics, in order.
pub fn errors_to_text(errors: &Vec<Diagnostic>) -> (text: String)
    ensures
        text@ == errors_text(errors.deep_view()),
{
    join_spaced(
        errors,
        Diagnostic::to_compile_error,
        Ghost(|messages: Seq<Seq<char>>| markers(messages)),
    )
}

impl Expansion {
    /// The expansion as source text: the union, the declared types, the
    /// conversions, the diagnostics.
    pub fn to_text(&self) -> (text: String)
        ensures
            text@ == expansion_text(self.deep_view()),
    {
        let mut text = self.enum_item.to_text();
        let items = items_to_text(&self.items);
        push_spaced(&mut text, items.as_str());
        let impl_items = impl_items_to_text(&self.impl_items);
        push_spaced(&mut text, impl_items.as_str());
        let errors = errors_to_text(&self.errors);
        push_spaced(&mut text, errors.as_str());
        text
    }
}

impl Enumify {
    /// Synthesizes the union: one variant for each declared type that yields
    /// one, in declaration order, and beside it the diagnostics of the
    /// others, each of which holds a message. Every declared type loses its
    /// first wrapper annotation.
    pub fn construct_enum_item(&mut self) -> (result: (EnumItem, Vec<Diagnostic>))
        ensures
            final(self).deep_view() == (EnumifyView {
                enumifiables: all_stripped(old(self).deep_view().enumifiables),
                ..old(self).deep_view()
            }),
            result.0.deep_view() == enum_item_of(old(self).deep_view()),
            result.1.deep_view() == errors_of(old(self).deep_view().enumifiables),
            forall|i: int|
                0 <= i < result.1.len() ==> (#[trigger] result.1.deep_view()[i]).len() > 0,
    {
        let ghost given = self.enumifiables.deep_view();
        let mut enum_variants: Vec<Variant> = Vec::new();
        let mut enum_errors: Vec<Diagnostic> = Vec::new();
        let mut i: usize = 0;
        while i < self.enumifiables.len()
            invariant
                i <= self.enumifiables.len(),
                self.enumifiables.len() == given.len(),
                self.enum_attributes == old(self).enum_attributes,
                self.enum_visibility == old(self).enum_visibility,
                self.enum_ident == old(self).enum_ident,
                self.enum_generics == old(self).enum_generics,
                self.enumifiables.deep_view() == all_stripped(given.take(i as int)) + given.skip(
                    i as int,
                ),
                enum_variants.deep_view() == variants_of(given.take(i as int)),
                enum_errors.deep_view() == errors_of(given.take(i as int)),
                forall|j: int|
                    0 <= j < enum_errors.len() ==> (#[trigger] enum_errors.deep_view()[j]).len()
                        > 0,
            decreases self.enumifiables.len() - i,
        {
            let ghost before = self.enumifiables.deep_view();
            let ghost variants_before = enum_variants.deep_view();
            let ghost errors_before = enum_errors.deep_view();
            let ghost held = self.enumifiables@;
            assert(before[i as int] == given[i as int]);
            let result = self.enumifiables[i].construct_enum_variant();
            proof {
                assert(self.enumifiables@.len() == held.len());
                assert(self.enumifiables@[i as int].deep_view() == stripped(given[i as int]));
                assert forall|j: int| 0 <= j < held.len() && j != i implies self.enumifiables@[j]
                    == held[j] by {}
            }
            proof {
                given.lemma_filter_map_take_succ(
                    |one: EnumifiableView|
                        match synthesized(one) {
                            Ok(variant) => Some(variant),
                            Err(_) => None,
                        },
                    i as int,
                );
                given.lemma_filter_map_take_succ(
                    |one: EnumifiableView|
                        match synthesized(one) {
                            Ok(_) => None,
                            Err(messages) => Some(messages),
                        },
                    i as int,
                );
            }
            match result {
                Ok(enum_variant) => {
                    enum_variants.push(enum_variant);
                    assert(enum_variants.deep_view() =~= variants_before.push(
                        synthesized(given[i as int])->Ok_0,
                    ));
                },
                Err(error) => {
                    enum_errors.push(error);
                    assert(enum_errors.deep_view() =~= errors_before.push(
                        synthesized(given[i as int])->Err_0,
                    ));
                },
            }
            proof {
                let target = all_stripped(given.take(i + 1)) + given.skip(i + 1);
                assert forall|j: int| 0 <= j < target.len() implies self.enumifiables.deep_view()[j]
                    == target[j] by {
                    if j < i {
                        assert(self.enumifiables@[j] == held[j]);
                        assert(before[j] == all_stripped(given.take(i as int))[j]);
                    } else if j > i {
                        assert(self.enumifiables@[j] == held[j]);
                        assert(before[j] == given.skip(i as int)[j - i]);
                    }
                }
                assert(self.enumifiables.deep_view() =~= target);
            }
            i = i + 1;
        }
        proof {
            assert(given.take(i as int) =~= given);
            assert(self.enumifiables.deep_view() =~= all_stripped(given));
        }
        let enum_item = EnumItem {
            attributes: clone_annotations(&self.enum_attributes),
            visibility: self.enum_visibility.clone(),
            ident: self.enum_ident.clone(),
            generics: self.enum_generics.clone(),
            variants: enum_variants,
        };
        (enum_item, enum_errors)
    }

    /// Expands the batch: the union, the declared types without their first
    /// wrapper annotation, one conversion for each variant, and the
    /// diagnostics of the declared types that yield no variant, each of
    /// which holds a message.
    pub fn expand(self) -> (expansion: Expansion)
        ensures
            expansion.deep_view() == expanded(self.deep_view()),
            forall|i: int|
                0 <= i < expansion.errors.len() ==> (#[trigger] expansion.deep_view().errors[i]).len()
                    > 0,
    {
        let mut batch = self;
        let (enum_item, errors) = batch.construct_enum_item();
        let impl_items = enum_item.construct_impl_items();
        Expansion { enum_item, items: batch.enumifiables, impl_items, errors }
    }

    /// The expansion of the batch as source text.
    pub fn generate_tokens(self) -> (text: String)
        ensures
            text@ == expansion_text(expanded(self.deep_view())),
    {
        self.expand().to_text()
    }
}

} // verus!
