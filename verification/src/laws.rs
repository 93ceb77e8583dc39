//! What holds of every batch.

use vstd::prelude::*;
use crate::annotation::{
    REPEAT_MESSAGE, is_wrapper, none_before, payload_of, retained, retained_with_wrapper,
    retained_without_wrapper, settled, wrappers, AnnotationView,
};
use crate::batch::{enum_item_of, errors_of, expanded, variants_of, EnumifyView};
use crate::declared::{
    applied, payload_text, stripped, synthesized, EnumifiableView, VariantView,
};
use crate::syntax::type_path_of;
use crate::text::spaced;

verus! {

/// The batch without the declared type at `index`.
pub open spec fn without(batch: EnumifyView, index: int) -> EnumifyView {
    EnumifyView { enumifiables: batch.enumifiables.remove(index), ..batch }
}

/// The variants and the diagnostics of a run of declared types are those of
/// its first part followed by those of its second part.
proof fn outcomes_of_joined(first: Seq<EnumifiableView>, second: Seq<EnumifiableView>)
    ensures
        variants_of(first + second) == variants_of(first) + variants_of(second),
        errors_of(first + second) == errors_of(first) + errors_of(second),
    decreases second.len(),
{
    if second.len() == 0 {
        assert(first + second =~= first);
        assert(variants_of(first) + variants_of(second) =~= variants_of(first));
        assert(errors_of(first) + errors_of(second) =~= errors_of(first));
    } else {
        outcomes_of_joined(first, second.drop_last());
        assert((first + second).drop_last() =~= first + second.drop_last());
        assert((first + second).last() == second.last());
        assert(variants_of(first + second) =~= variants_of(first) + variants_of(second));
        assert(errors_of(first + second) =~= errors_of(first) + errors_of(second));
    }
}

/// The variants and the diagnostics of a single declared type.
proof fn outcomes_of_one(one: EnumifiableView)
    ensures
        variants_of(seq![one]) == match synthesized(one) {
            Ok(variant) => seq![variant],
            Err(_) => Seq::<VariantView>::empty(),
        },
        errors_of(seq![one]) == match synthesized(one) {
            Ok(_) => Seq::<Seq<Seq<char>>>::empty(),
            Err(messages) => seq![messages],
        },
{
    Seq::lemma_filter_map_singleton(
        one,
        |one: EnumifiableView|
            match synthesized(one) {
                Ok(variant) => Some(variant),
                Err(_) => None,
            },
    );
    Seq::lemma_filter_map_singleton(
        one,
        |one: EnumifiableView|
            match synthesized(one) {
                Ok(_) => None,
                Err(messages) => Some(messages),
            },
    );
}

/// A batch without validation errors yields a union with exactly one
/// variant for each declared type, in declaration order: the variant at each
/// place is the one synthesized for the declared type at that place, and
/// carries its name. The conversions follow the variants, one for one.
pub proof fn one_variant_per_declared_type(batch: EnumifyView)
    requires
        expanded(batch).errors.len() == 0,
    ensures
        expanded(batch).enum_item.variants.len() == batch.enumifiables.len(),
        expanded(batch).impl_items.len() == batch.enumifiables.len(),
        forall|i: int|
            0 <= i < batch.enumifiables.len() ==> synthesized(#[trigger] batch.enumifiables[i])
                == Ok::<VariantView, Seq<Seq<char>>>(expanded(batch).enum_item.variants[i])
                && expanded(batch).enum_item.variants[i].ident == batch.enumifiables[i].ident
                && expanded(batch).impl_items[i].ident == batch.enumifiables[i].ident,
{
    all_succeed(batch.enumifiables);
}

/// Every declared type of a batch yields either a variant or a diagnostic,
/// and never both.
pub proof fn every_declared_type_is_accounted_for(batch: EnumifyView)
    ensures
        expanded(batch).enum_item.variants.len() + expanded(batch).errors.len()
            == batch.enumifiables.len(),
{
    all_accounted_for(batch.enumifiables);
}

/// The variants and the diagnostics of a run of declared types are as many
/// as the declared types.
proof fn all_accounted_for(declared: Seq<EnumifiableView>)
    ensures
        variants_of(declared).len() + errors_of(declared).len() == declared.len(),
    decreases declared.len(),
{
    if declared.len() > 0 {
        let before = declared.drop_last();
        assert(declared =~= before + seq![declared.last()]);
        outcomes_of_joined(before, seq![declared.last()]);
        outcomes_of_one(declared.last());
        all_accounted_for(before);
    } else {
        assert(variants_of(declared) =~= Seq::<VariantView>::empty());
        assert(errors_of(declared) =~= Seq::<Seq<Seq<char>>>::empty());
    }
}

/// Without diagnostics, the variants are the syntheses of the declared types.
proof fn all_succeed(declared: Seq<EnumifiableView>)
    requires
        errors_of(declared).len() == 0,
    ensures
        variants_of(declared).len() == declared.len(),
        forall|i: int|
            0 <= i < declared.len() ==> synthesized(#[trigger] declared[i]) == Ok::<
                VariantView,
                Seq<Seq<char>>,
            >(variants_of(declared)[i]) && variants_of(declared)[i].ident == declared[i].ident,
    decreases declared.len(),
{
    if declared.len() > 0 {
        let before = declared.drop_last();
        assert(declared =~= before + seq![declared.last()]);
        outcomes_of_joined(before, seq![declared.last()]);
        outcomes_of_one(declared.last());
        all_succeed(before);
    }
}

/// The variant of `declared` with the given wrapper.
pub open spec fn variant_with(declared: EnumifiableView, wrapper: Option<Seq<char>>) -> VariantView {
    VariantView { ident: declared.ident, generics: declared.generics, wrapper }
}

/// The payload of a variant follows the wrapper annotations of its declared
/// type: without one it is the bare type applied to its own generics; with
/// exactly one, whose payload reads as a type path, it is that path applied
/// to the bare type.
pub proof fn payload_follows_wrapper(declared: EnumifiableView)
    ensures
        wrappers(declared.attributes).len() == 0 ==> synthesized(declared) == Ok::<
            VariantView,
            Seq<Seq<char>>,
        >(variant_with(declared, None)),
        payload_text(variant_with(declared, None)) == applied(declared.ident, declared.generics),
        wrappers(declared.attributes).len() == 1 ==> forall|path: Seq<char>|
            type_path_of(payload_of(wrappers(declared.attributes)[0].form)) == Ok::<
                Seq<char>,
                Seq<Seq<char>>,
            >(path) ==> synthesized(declared) == Ok::<VariantView, Seq<Seq<char>>>(
                #[trigger] variant_with(declared, Some(path)),
            ),
        forall|path: Seq<char>|
            payload_text(#[trigger] variant_with(declared, Some(path))) == spaced(
                spaced(spaced(path, "<"@), applied(declared.ident, declared.generics)),
                ">"@,
            ),
{
}

/// After the first wrapper annotation, each further one adds one message to
/// the diagnostic; a path that the first one named is dropped.
pub proof fn settled_in_full(first: Result<Seq<char>, Seq<Seq<char>>>, further: nat)
    requires
        further > 0,
    ensures
        settled(first, further) == Err::<Seq<char>, Seq<Seq<char>>>(
            match first {
                Ok(_) => Seq::new(further, |i: int| REPEAT_MESSAGE@),
                Err(messages) => messages + Seq::new(further, |i: int| REPEAT_MESSAGE@),
            },
        ),
    decreases further,
{
    if further > 1 {
        settled_in_full(first, (further - 1) as nat);
        let shorter = Seq::new((further - 1) as nat, |i: int| REPEAT_MESSAGE@);
        let longer = Seq::new(further, |i: int| REPEAT_MESSAGE@);
        assert(shorter.push(REPEAT_MESSAGE@) =~= longer);
        match first {
            Ok(_) => {},
            Err(messages) => {
                assert((messages + shorter).push(REPEAT_MESSAGE@) =~= messages + longer);
            },
        }
    } else {
        assert(settled(first, 0) == first);
        let longer = Seq::new(further, |i: int| REPEAT_MESSAGE@);
        assert(seq![REPEAT_MESSAGE@] =~= longer);
        match first {
            Ok(_) => {},
            Err(messages) => {
                assert(messages.push(REPEAT_MESSAGE@) =~= messages + longer);
            },
        }
    }
}

/// A declared type that yields a diagnostic yields exactly one, and neither
/// a variant nor a conversion, and leaves the other declared types of its
/// batch as they are: the union and the conversions of the batch are those
/// of the batch without it, and so are the diagnostics before it and after
/// it.
pub proof fn failure_is_isolated(batch: EnumifyView, index: int)
    requires
        0 <= index < batch.enumifiables.len(),
        synthesized(batch.enumifiables[index]) is Err,
    ensures
        expanded(batch).enum_item == expanded(without(batch, index)).enum_item,
        expanded(batch).impl_items == expanded(without(batch, index)).impl_items,
        errors_of(batch.enumifiables.take(index)).len() <= expanded(
            without(batch, index),
        ).errors.len(),
        expanded(batch).errors == expanded(without(batch, index)).errors.insert(
            errors_of(batch.enumifiables.take(index)).len() as int,
            synthesized(batch.enumifiables[index])->Err_0,
        ),
{
    let all = batch.enumifiables;
    let one = all[index];
    let before = all.take(index);
    let after = all.skip(index + 1);
    assert(all =~= before + seq![one] + after);
    assert(all.remove(index) =~= before + after);
    outcomes_of_joined(before, seq![one]);
    outcomes_of_joined(before + seq![one], after);
    outcomes_of_joined(before, after);
    outcomes_of_one(one);
    assert(variants_of(all) =~= variants_of(all.remove(index)));
    assert(errors_of(all) =~= errors_of(all.remove(index)).insert(
        errors_of(before).len() as int,
        synthesized(one)->Err_0,
    ));
    assert(enum_item_of(batch) == enum_item_of(without(batch, index)));
}

/// A declared type with two or more wrapper annotations yields one
/// diagnostic: the messages of the error of reading the first payload, where
/// it does not read as a type path, followed by one message for each wrapper
/// annotation after the first. It yields neither a variant nor a conversion,
/// and the other declared types of its batch are left as they are.
pub proof fn repeated_wrapper_fails_alone(batch: EnumifyView, index: int)
    requires
        0 <= index < batch.enumifiables.len(),
        wrappers(batch.enumifiables[index].attributes).len() >= 2,
    ensures
        synthesized(batch.enumifiables[index]) == Err::<VariantView, Seq<Seq<char>>>(
            match type_path_of(payload_of(wrappers(batch.enumifiables[index].attributes)[0].form)) {
                Ok(_) => Seq::new(
                    (wrappers(batch.enumifiables[index].attributes).len() - 1) as nat,
                    |i: int| REPEAT_MESSAGE@,
                ),
                Err(messages) => messages + Seq::new(
                    (wrappers(batch.enumifiables[index].attributes).len() - 1) as nat,
                    |i: int| REPEAT_MESSAGE@,
                ),
            },
        ),
        expanded(batch).enum_item == expanded(without(batch, index)).enum_item,
        expanded(batch).impl_items == expanded(without(batch, index)).impl_items,
        expanded(batch).errors == expanded(without(batch, index)).errors.insert(
            errors_of(batch.enumifiables.take(index)).len() as int,
            synthesized(batch.enumifiables[index])->Err_0,
        ),
{
    let found = wrappers(batch.enumifiables[index].attributes);
    settled_in_full(type_path_of(payload_of(found[0].form)), (found.len() - 1) as nat);
    failure_is_isolated(batch, index);
}

/// Where the wrapper annotations are none, no annotation is one.
proof fn no_wrappers_means_none(annotations: Seq<AnnotationView>)
    requires
        wrappers(annotations).len() == 0,
    ensures
        none_before(annotations, annotations.len() as int),
{
    assert forall|j: int| 0 <= j < annotations.len() implies !is_wrapper(
        #[trigger] annotations[j],
    ) by {
        if is_wrapper(annotations[j]) {
            annotations.lemma_filter_contains(
                |annotation: AnnotationView| is_wrapper(annotation),
                j,
            );
        }
    }
}

/// The wrapper annotations of a run without one are none.
proof fn none_means_no_wrappers(annotations: Seq<AnnotationView>)
    requires
        none_before(annotations, annotations.len() as int),
    ensures
        wrappers(annotations).len() == 0,
    decreases annotations.len(),
{
    reveal(Seq::filter);
    if annotations.len() > 0 {
        let before = annotations.drop_last();
        assert forall|j: int| 0 <= j < before.len() implies !is_wrapper(#[trigger] before[j]) by {
            assert(before[j] == annotations[j]);
        }
        none_means_no_wrappers(before);
        assert(!is_wrapper(annotations[annotations.len() - 1]));
    }
}

/// With the first wrapper annotation at `index`, the wrapper annotations are
/// that one followed by those after it.
proof fn wrappers_from_first(annotations: Seq<AnnotationView>, index: int)
    requires
        0 <= index < annotations.len(),
        is_wrapper(annotations[index]),
        none_before(annotations, index),
    ensures
        wrappers(annotations) == seq![annotations[index]] + wrappers(annotations.skip(index + 1)),
        wrappers(annotations.remove(index)) == wrappers(annotations.skip(index + 1)),
{
    let marks = |annotation: AnnotationView| is_wrapper(annotation);
    let before = annotations.take(index);
    let one = seq![annotations[index]];
    let after = annotations.skip(index + 1);
    assert forall|j: int| 0 <= j < before.len() implies !is_wrapper(#[trigger] before[j]) by {
        assert(before[j] == annotations[j]);
    }
    none_means_no_wrappers(before);
    assert(wrappers(before) =~= Seq::<AnnotationView>::empty());
    assert(wrappers(one) =~= one) by {
        reveal_with_fuel(Seq::filter, 2);
        assert(one.drop_last() =~= Seq::<AnnotationView>::empty());
    }
    assert(annotations =~= (before + one) + after);
    assert(annotations.remove(index) =~= before + after);
    Seq::filter_distributes_over_add(before, one, marks);
    Seq::filter_distributes_over_add(before + one, after, marks);
    Seq::filter_distributes_over_add(before, after, marks);
    assert(wrappers(annotations) =~= one + wrappers(after));
    assert(wrappers(annotations.remove(index)) =~= wrappers(after));
}

/// The one wrapper annotation of a run is its first.
proof fn single_wrapper_is_first(annotations: Seq<AnnotationView>, index: int)
    requires
        0 <= index < annotations.len(),
        is_wrapper(annotations[index]),
        wrappers(annotations).len() == 1,
    ensures
        none_before(annotations, index),
{
    let marks = |annotation: AnnotationView| is_wrapper(annotation);
    assert forall|j: int| 0 <= j < index implies !is_wrapper(#[trigger] annotations[j]) by {
        if is_wrapper(annotations[j]) {
            let before = annotations.take(index);
            let after = annotations.skip(index);
            assert(annotations =~= before + after);
            Seq::filter_distributes_over_add(before, after, marks);
            assert(before[j] == annotations[j]);
            assert(after[0] == annotations[index]);
            before.lemma_filter_contains(marks, j);
            after.lemma_filter_contains(marks, 0);
            assert(wrappers(before).len() >= 1);
            assert(wrappers(after).len() >= 1);
        }
    }
}

/// A declared type is emitted again without its first wrapper annotation,
/// and with every other annotation at its relative place. Without a wrapper
/// annotation it is emitted as it was. With exactly one, at `index`, it is
/// emitted without the annotation at that place. With two or more, the first
/// at `index`, it is emitted without the annotation at that place, and the
/// wrapper annotations after the first are emitted with it. Nothing else of
/// it changes.
pub proof fn reemission_keeps_other_annotations(batch: EnumifyView, place: int, index: int)
    requires
        0 <= place < batch.enumifiables.len(),
    ensures
        expanded(batch).items.len() == batch.enumifiables.len(),
        expanded(batch).items[place] == stripped(batch.enumifiables[place]),
        wrappers(batch.enumifiables[place].attributes).len() == 0 ==> expanded(batch).items[place]
            == batch.enumifiables[place],
        wrappers(batch.enumifiables[place].attributes).len() == 1 && 0 <= index
            < batch.enumifiables[place].attributes.len() && is_wrapper(
            batch.enumifiables[place].attributes[index],
        ) ==> expanded(batch).items[place] == (EnumifiableView {
            attributes: batch.enumifiables[place].attributes.remove(index),
            ..batch.enumifiables[place]
        }),
        wrappers(batch.enumifiables[place].attributes).len() >= 2 && 0 <= index
            < batch.enumifiables[place].attributes.len() && is_wrapper(
            batch.enumifiables[place].attributes[index],
        ) && none_before(batch.enumifiables[place].attributes, index) ==> expanded(
            batch,
        ).items[place] == (EnumifiableView {
            attributes: batch.enumifiables[place].attributes.remove(index),
            ..batch.enumifiables[place]
        }) && wrappers(expanded(batch).items[place].attributes) == wrappers(
            batch.enumifiables[place].attributes,
        ).drop_first() && expanded(batch).items[place].attributes.len()
            == batch.enumifiables[place].attributes.len() - 1,
{
    let declared = batch.enumifiables[place];
    let attributes = declared.attributes;
    if wrappers(attributes).len() == 0 {
        no_wrappers_means_none(attributes);
        retained_without_wrapper(attributes);
    }
    if 0 <= index < attributes.len() && is_wrapper(attributes[index]) {
        if wrappers(attributes).len() == 1 {
            single_wrapper_is_first(attributes, index);
        }
        if none_before(attributes, index) {
            retained_with_wrapper(attributes, index);
            wrappers_from_first(attributes, index);
            assert((seq![attributes[index]] + wrappers(attributes.skip(index + 1))).drop_first()
                =~= wrappers(attributes.skip(index + 1)));
        }
    }
}

/// An annotation that is no wrapper annotation is retained.
proof fn other_is_retained(annotations: Seq<AnnotationView>, index: int)
    requires
        0 <= index < annotations.len(),
        !is_wrapper(annotations[index]),
    ensures
        retained(annotations).contains(annotations[index]),
    decreases annotations.len(),
{
    let rest = annotations.drop_first();
    if index == 0 {
        assert(retained(annotations)[0] == annotations[0]);
    } else {
        assert(rest[index - 1] == annotations[index]);
        if is_wrapper(annotations.first()) {
            assert(retained(annotations)[index - 1] == annotations[index]);
        } else {
            other_is_retained(rest, index - 1);
            let at = choose|at: int|
                0 <= at < retained(rest).len() && retained(rest)[at] == annotations[index];
            assert(retained(annotations)[at + 1] == annotations[index]);
        }
    }
}

/// An annotation whose path is more than one bare identifier, or that is no
/// list, is no wrapper annotation, whatever its path ends in, and is
/// retained.
pub proof fn lookalike_is_kept(annotations: Seq<AnnotationView>, index: int)
    requires
        0 <= index < annotations.len(),
        annotations[index].name is None || !(annotations[index].form is List),
    ensures
        !is_wrapper(annotations[index]),
        retained(annotations).contains(annotations[index]),
{
    other_is_retained(annotations, index);
}

} // verus!
