//! Reading a declaration batch from source text.
//!
//! A batch is: outer annotations, a visibility, `enum`, the name of the
//! union, an optional generic-parameter list and `;`, followed by
//! declarations of structs and enums up to the end of the text.

use vstd::prelude::*;
use proc_macro2::TokenStream;
use crate::annotation::{Annotation, AnnotationView};
use crate::batch::{Enumify, EnumifyView};
use crate::declared::{Enumifiable, EnumifiableView, Shape};
use crate::diagnostic::Diagnostic;
use crate::syntax::{
    enum_at_front, enum_keyword_at_front, generics_at_front, identifier_at_front, is_empty,
    item_at_front, lex, lexed, outer_attributes_at_front, semicolon_at_front, struct_at_front,
    take_enum, take_enum_keyword, take_generics, take_identifier, take_item,
    take_outer_attributes, take_semicolon, take_struct, take_visibility, token_trees,
    visibility_at_front, ItemParts, ItemPartsView,
};

verus! {

/// The message for an item that is neither a struct nor an enum.
pub const SHAPE_MESSAGE: &'static str = "not `struct` or `enum`";

/// The same message for such an item at the end of the text.
pub const LAST_SHAPE_MESSAGE: &'static str = "unexpected end of input, not `struct` or `enum`";

/// The message that refuses an item, given the tokens after it.
pub open spec fn refusal(rest: Seq<Seq<char>>) -> Seq<char> {
    if rest.len() == 0 {
        LAST_SHAPE_MESSAGE@
    } else {
        SHAPE_MESSAGE@
    }
}

/// The declared type of the given shape, annotations and parts.
pub open spec fn declared_of(
    shape: Shape,
    attributes: Seq<AnnotationView>,
    parts: ItemPartsView,
) -> EnumifiableView {
    EnumifiableView {
        shape,
        attributes,
        ident: parts.ident,
        generics: parts.generics,
        declaration: parts.declaration,
    }
}

/// The declared type at the front of `tokens` and the tokens after it: its
/// annotations are the outer attributes that stand there, and it is a
/// struct, or else an enum. Where neither stands there, the error is that of
/// reading an item, and an item of another kind is refused.
pub open spec fn declared_at_front(tokens: Seq<Seq<char>>) -> Result<
    (EnumifiableView, Seq<Seq<char>>),
    Seq<Seq<char>>,
> {
    match outer_attributes_at_front(tokens) {
        Err(messages) => Err(messages),
        Ok((attributes, _)) => match struct_at_front(tokens) {
            Some((parts, rest)) => Ok((declared_of(Shape::Struct, attributes, parts), rest)),
            None => match enum_at_front(tokens) {
                Some((parts, rest)) => Ok((declared_of(Shape::Enum, attributes, parts), rest)),
                None => match item_at_front(tokens) {
                    Ok(rest) => Err(seq![refusal(rest)]),
                    Err(messages) => Err(messages),
                },
            },
        },
    }
}

/// The tokens left after an item was taken from the front of `tokens`: taking
/// an item always leaves fewer tokens.
pub open spec fn left_of(tokens: Seq<Seq<char>>, rest: Seq<Seq<char>>) -> Seq<Seq<char>> {
    if rest.len() < tokens.len() {
        rest
    } else {
        Seq::empty()
    }
}

/// The declared types that `tokens` hold, up to their end; the messages of
/// the first error on the way.
pub open spec fn items_parsed(tokens: Seq<Seq<char>>) -> Result<
    Seq<EnumifiableView>,
    Seq<Seq<char>>,
>
    decreases tokens.len(),
{
    if tokens.len() == 0 {
        Ok(Seq::empty())
    } else {
        match declared_at_front(tokens) {
            Err(messages) => Err(messages),
            Ok((first, rest)) => match items_parsed(left_of(tokens, rest)) {
                Err(messages) => Err(messages),
                Ok(others) => Ok(seq![first] + others),
            },
        }
    }
}

/// The name and the generics of the union, and the tokens after its head,
/// read from the tokens that follow its visibility.
pub open spec fn naming_parsed(tokens: Seq<Seq<char>>) -> Result<
    (Seq<char>, Seq<char>, Seq<Seq<char>>),
    Seq<Seq<char>>,
> {
    match enum_keyword_at_front(tokens) {
        Err(messages) => Err(messages),
        Ok(named) => match identifier_at_front(named) {
            Err(messages) => Err(messages),
            Ok((ident, parameterized)) => match generics_at_front(parameterized) {
                Err(messages) => Err(messages),
                Ok((generics, ended)) => match semicolon_at_front(ended) {
                    Err(messages) => Err(messages),
                    Ok(rest) => Ok((ident, generics, rest)),
                },
            },
        },
    }
}

/// The batch that `tokens` hold; the messages of the first error on the way.
pub open spec fn batch_parsed(tokens: Seq<Seq<char>>) -> Result<EnumifyView, Seq<Seq<char>>> {
    match outer_attributes_at_front(tokens) {
        Err(messages) => Err(messages),
        Ok((enum_attributes, qualified)) => match visibility_at_front(qualified) {
            Err(messages) => Err(messages),
            Ok((enum_visibility, keyed)) => match naming_parsed(keyed) {
                Err(messages) => Err(messages),
                Ok((enum_ident, enum_generics, rest)) => match items_parsed(rest) {
                    Err(messages) => Err(messages),
                    Ok(enumifiables) => Ok(
                        EnumifyView {
                            enum_attributes,
                            enum_visibility,
                            enum_ident,
                            enum_generics,
                            enumifiables,
                        },
                    ),
                },
            },
        },
    }
}

/// The batch that `source` holds; the messages of the first error on the way.
pub open spec fn parsed(source: Seq<char>) -> Result<EnumifyView, Seq<Seq<char>>> {
    match lexed(source) {
        Err(messages) => Err(messages),
        Ok(tokens) => batch_parsed(tokens),
    }
}

/// The diagnostic that refuses an item which is neither a struct nor an
/// enum; `last` says that nothing follows the item.
pub fn refuse(last: bool) -> (diagnostic: Diagnostic)
    ensures
        diagnostic.deep_view() == seq![
            if last {
                LAST_SHAPE_MESSAGE@
            } else {
                SHAPE_MESSAGE@
            },
        ],
{
    if last {
        Diagnostic::new(LAST_SHAPE_MESSAGE)
    } else {
        Diagnostic::new(SHAPE_MESSAGE)
    }
}

impl Enumifiable {
    /// The declared type of the given shape, annotations and parts.
    pub fn from_parts(shape: Shape, attributes: Vec<Annotation>, parts: ItemParts) -> (declared:
        Enumifiable)
        ensures
            declared.deep_view() == declared_of(
                shape,
                attributes.deep_view(),
                parts.deep_view(),
            ),
    {
        Enumifiable {
            shape,
            attributes,
            ident: parts.ident,
            generics: parts.generics,
            declaration: parts.declaration,
        }
    }

    /// The declared type at the front of `tokens`, and the tokens after it.
    /// Its annotations are the outer attributes at the front; the item is
    /// read as a struct, else as an enum, and else as an item of any kind,
    /// which is refused where it reads.
    pub(crate) fn parse(tokens: &TokenStream) -> (read: Result<
        (Enumifiable, TokenStream),
        Diagnostic,
    >)
        ensures
            declared_at_front(token_trees(*tokens)) == match read {
                Ok((declared, rest)) => Ok::<
                    (EnumifiableView, Seq<Seq<char>>),
                    Seq<Seq<char>>,
                >((declared.deep_view(), token_trees(rest))),
                Err(diagnostic) => Err(diagnostic.deep_view()),
            },
            read matches Ok((_, rest)) ==> token_trees(rest).len() < token_trees(*tokens).len(),
            read matches Err(diagnostic) ==> diagnostic.deep_view().len() > 0,
    {
        let attributes = match take_outer_attributes(tokens) {
            Ok((attributes, _)) => attributes,
            Err(error) => {
                return Err(Diagnostic::from_syntax(&error));
            },
        };
        match take_struct(tokens) {
            Some((parts, rest)) => Ok(
                (Enumifiable::from_parts(Shape::Struct, attributes, parts), rest),
            ),
            None => match take_enum(tokens) {
                Some((parts, rest)) => Ok(
                    (Enumifiable::from_parts(Shape::Enum, attributes, parts), rest),
                ),
                None => match take_item(tokens) {
                    Ok(rest) => Err(refuse(is_empty(&rest))),
                    Err(error) => Err(Diagnostic::from_syntax(&error)),
                },
            },
        }
    }
}

/// The declared types that `tokens` hold, up to their end.
fn parse_items(tokens: TokenStream) -> (read: Result<Vec<Enumifiable>, Diagnostic>)
    ensures
        items_parsed(token_trees(tokens)) == match read {
            Ok(enumifiables) => Ok::<Seq<EnumifiableView>, Seq<Seq<char>>>(
                enumifiables.deep_view(),
            ),
            Err(diagnostic) => Err(diagnostic.deep_view()),
        },
        read matches Err(diagnostic) ==> diagnostic.deep_view().len() > 0,
{
    let ghost given = token_trees(tokens);
    let mut rest = tokens;
    let mut enumifiables: Vec<Enumifiable> = Vec::new();
    proof {
        assert(enumifiables.deep_view() =~= Seq::<EnumifiableView>::empty());
        match items_parsed(given) {
            Ok(others) => {
                assert(enumifiables.deep_view() + others =~= others);
            },
            Err(_) => {},
        }
    }
    while !is_empty(&rest)
        invariant
            given == token_trees(tokens),
            items_parsed(given) == match items_parsed(token_trees(rest)) {
                Ok(others) => Ok::<Seq<EnumifiableView>, Seq<Seq<char>>>(
                    enumifiables.deep_view() + others,
                ),
                Err(messages) => Err(messages),
            },
        decreases token_trees(rest).len(),
    {
        let ghost before = enumifiables.deep_view();
        let ghost held = token_trees(rest);
        match Enumifiable::parse(&rest) {
            Err(diagnostic) => {
                return Err(diagnostic);
            },
            Ok((declared, after)) => {
                let ghost first = declared.deep_view();
                enumifiables.push(declared);
                proof {
                    assert(left_of(held, token_trees(after)) == token_trees(after));
                    assert(enumifiables.deep_view() =~= before.push(first));
                    match items_parsed(token_trees(after)) {
                        Ok(others) => {
                            assert(before + (seq![first] + others) =~= before.push(first)
                                + others);
                        },
                        Err(_) => {},
                    }
                }
                rest = after;
            },
        }
    }
    proof {
        assert(enumifiables.deep_view() + Seq::<EnumifiableView>::empty()
            =~= enumifiables.deep_view());
    }
    Ok(enumifiables)
}

/// The name and the generics of the union, and the tokens after its head.
fn parse_naming(tokens: &TokenStream) -> (read: Result<(String, String, TokenStream), Diagnostic>)
    ensures
        naming_parsed(token_trees(*tokens)) == match read {
            Ok((ident, generics, rest)) => Ok::<
                (Seq<char>, Seq<char>, Seq<Seq<char>>),
                Seq<Seq<char>>,
            >((ident@, generics@, token_trees(rest))),
            Err(diagnostic) => Err(diagnostic.deep_view()),
        },
        read matches Err(diagnostic) ==> diagnostic.deep_view().len() > 0,
{
    let named = match take_enum_keyword(tokens) {
        Ok(named) => named,
        Err(error) => {
            return Err(Diagnostic::from_syntax(&error));
        },
    };
    let (ident, parameterized) = match take_identifier(&named) {
        Ok(taken) => taken,
        Err(error) => {
            return Err(Diagnostic::from_syntax(&error));
        },
    };
    let (generics, ended) = match take_generics(&parameterized) {
        Ok(taken) => taken,
        Err(error) => {
            return Err(Diagnostic::from_syntax(&error));
        },
    };
    match take_semicolon(&ended) {
        Ok(rest) => Ok((ident, generics, rest)),
        Err(error) => Err(Diagnostic::from_syntax(&error)),
    }
}

/// The batch that `tokens` hold.
fn parse_batch(tokens: TokenStream) -> (read: Result<Enumify, Diagnostic>)
    ensures
        batch_parsed(token_trees(tokens)) == match read {
            Ok(batch) => Ok::<EnumifyView, Seq<Seq<char>>>(batch.deep_view()),
            Err(diagnostic) => Err(diagnostic.deep_view()),
        },
        read matches Err(diagnostic) ==> diagnostic.deep_view().len() > 0,
{
    let (enum_attributes, qualified) = match take_outer_attributes(&tokens) {
        Ok(taken) => taken,
        Err(error) => {
            return Err(Diagnostic::from_syntax(&error));
        },
    };
    let (enum_visibility, keyed) = match take_visibility(&qualified) {
        Ok(taken) => taken,
        Err(error) => {
            return Err(Diagnostic::from_syntax(&error));
        },
    };
    let (enum_ident, enum_generics, rest) = match parse_naming(&keyed) {
        Ok(read) => read,
        Err(diagnostic) => {
            return Err(diagnostic);
        },
    };
    match parse_items(rest) {
        Ok(enumifiables) => Ok(
            Enumify { enum_attributes, enum_visibility, enum_ident, enum_generics, enumifiables },
        ),
        Err(diagnostic) => Err(diagnostic),
    }
}

impl Enumify {
    /// Reads a batch from source text. The text is read front to back, and
    /// the first error ends the reading; its diagnostic holds a message.
    pub fn parse(source: &str) -> (read: Result<Enumify, Diagnostic>)
        ensures
            parsed(source@) == match read {
                Ok(batch) => Ok::<EnumifyView, Seq<Seq<char>>>(batch.deep_view()),
                Err(diagnostic) => Err(diagnostic.deep_view()),
            },
            read matches Err(diagnostic) ==> diagnostic.deep_view().len() > 0,
    {
        match lex(source) {
            Ok(tokens) => parse_batch(tokens),
            Err(error) => Err(Diagnostic::from_syntax(&error)),
        }
    }
}

} // verus!
