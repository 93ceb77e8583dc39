//! The boundary to the Rust syntax crates. Every item here states what an
//! outside function returns; none of these statements is proved.
//!
//! The crates are built without their tie to the compiler's own token
//! streams, so what they read and print is the same in every process. A
//! build that turns the `proc-macro` feature of `proc-macro2` on prints
//! through the compiler where one is at hand, and what is stated here of
//! printed text then holds of that compiler's printing only.
//!
//! Every token stream that this library holds comes from the lexer or is
//! what a parser left of such a stream. The lexer makes no group without
//! delimiters, and where this file counts the token trees of a stream it
//! speaks of streams without such groups.

use vstd::prelude::*;
use proc_macro2::TokenStream;
use quote::ToTokens;
use syn::parse::{ParseStream, Parser};
use syn::{Attribute, Meta};
use crate::annotation::{Annotation, AnnotationView, Form};

verus! {

/// `proc_macro2::TokenStream`: the tokens yet to be read. Nothing inside it
/// is looked at here.
#[verifier::external_type_specification]
#[verifier::external_body]
pub struct ExTokenStream(TokenStream);

/// `syn::Error`: the error of a parser. It is turned into a diagnostic as
/// soon as it is met.
#[verifier::external_type_specification]
#[verifier::external_body]
pub struct ExSyntaxError(syn::Error);

/// The parts of a declaration that the batch works with, each as text.
#[derive(Debug)]
pub struct ItemParts {
    pub ident: String,
    /// The generic-parameter list with its angle brackets, or empty.
    pub generics: String,
    /// The declaration printed without its annotations.
    pub declaration: String,
}

/// What the parts of a declaration are, as plain text.
pub struct ItemPartsView {
    pub ident: Seq<char>,
    pub generics: Seq<char>,
    pub declaration: Seq<char>,
}

impl DeepView for ItemParts {
    type V = ItemPartsView;

    open spec fn deep_view(&self) -> ItemPartsView {
        ItemPartsView {
            ident: self.ident@,
            generics: self.generics@,
            declaration: self.declaration@,
        }
    }
}

/// The token trees that a stream holds, first to last, each written out in
/// full: its characters, for a punctuation mark whether the next one is
/// joined to it, for a group its delimiters and what they enclose. Where a
/// token stood in the source is no part of it.
pub uninterp spec fn token_trees(stream: TokenStream) -> Seq<Seq<char>>;

/// The messages that a `syn::Error` holds, first to last: what iterating over
/// the error yields, each entry by its `Display` text.
pub uninterp spec fn error_messages(error: syn::Error) -> Seq<Seq<char>>;

/// The token trees that `source` lexes to, or the messages of the error.
pub uninterp spec fn lexed(source: Seq<char>) -> Result<Seq<Seq<char>>, Seq<Seq<char>>>;

/// The outer attributes at the front of `tokens` and the tokens after them;
/// or the messages of the error. Of each attribute: its path where that is a
/// single bare identifier, its form, and its content as text.
pub uninterp spec fn outer_attributes_at_front(tokens: Seq<Seq<char>>) -> Result<
    (Seq<AnnotationView>, Seq<Seq<char>>),
    Seq<Seq<char>>,
>;

/// The visibility at the front of `tokens` as text, empty when none is
/// written, and the tokens after it; or the messages of the error.
pub uninterp spec fn visibility_at_front(tokens: Seq<Seq<char>>) -> Result<
    (Seq<char>, Seq<Seq<char>>),
    Seq<Seq<char>>,
>;

/// The tokens after the keyword `enum` at the front of `tokens`; or the
/// messages of the error.
pub uninterp spec fn enum_keyword_at_front(tokens: Seq<Seq<char>>) -> Result<
    Seq<Seq<char>>,
    Seq<Seq<char>>,
>;

/// The identifier at the front of `tokens` and the tokens after it; or the
/// messages of the error.
pub uninterp spec fn identifier_at_front(tokens: Seq<Seq<char>>) -> Result<
    (Seq<char>, Seq<Seq<char>>),
    Seq<Seq<char>>,
>;

/// The generic-parameter list at the front of `tokens` as text, empty when
/// none is written, and the tokens after it; or the messages of the error.
pub uninterp spec fn generics_at_front(tokens: Seq<Seq<char>>) -> Result<
    (Seq<char>, Seq<Seq<char>>),
    Seq<Seq<char>>,
>;

/// The tokens after the `;` at the front of `tokens`; or the messages of the
/// error.
pub uninterp spec fn semicolon_at_front(tokens: Seq<Seq<char>>) -> Result<
    Seq<Seq<char>>,
    Seq<Seq<char>>,
>;

/// The parts of the struct declaration at the front of `tokens`, its outer
/// attributes left aside, and the tokens after it, where one stands there.
pub uninterp spec fn struct_at_front(tokens: Seq<Seq<char>>) -> Option<
    (ItemPartsView, Seq<Seq<char>>),
>;

/// The parts of the enum declaration at the front of `tokens`, its outer
/// attributes left aside, and the tokens after it, where one stands there.
pub uninterp spec fn enum_at_front(tokens: Seq<Seq<char>>) -> Option<
    (ItemPartsView, Seq<Seq<char>>),
>;

/// The tokens after the item at the front of `tokens`, of whatever kind the
/// item is; or the messages of the error.
pub uninterp spec fn item_at_front(tokens: Seq<Seq<char>>) -> Result<
    Seq<Seq<char>>,
    Seq<Seq<char>>,
>;

/// What `syn` makes of `payload` read as a type path: the path printed as
/// text, or the messages of the error that `syn` reports.
pub uninterp spec fn type_path_of(payload: Seq<char>) -> Result<Seq<char>, Seq<Seq<char>>>;

/// The text of the `compile_error!` invocation that `syn` renders for one
/// message.
pub uninterp spec fn compile_error_text(message: Seq<char>) -> Seq<char>;

/// `syn::Error::into_iter`, each message taken by `to_string`. An error is
/// made with one message and only ever extended, so it holds at least one.
#[verifier::external_body]
pub(crate) fn messages_of(error: &syn::Error) -> (messages: Vec<String>)
    ensures
        messages.deep_view() == error_messages(*error),
        messages.len() > 0,
{
    error.into_iter().map(|message| message.to_string()).collect()
}

/// `syn::Error::to_compile_error` on an error made by `syn::Error::new` from
/// `message` at the call site, printed as text.
#[verifier::external_body]
pub(crate) fn compile_error_marker(message: &str) -> (marker: String)
    ensures
        marker@ == compile_error_text(message@),
{
    syn::Error::new(proc_macro2::Span::call_site(), message).to_compile_error().to_string()
}

/// `syn::parse_str::<syn::Path>`, the path printed by `to_token_stream`.
#[verifier::external_body]
pub(crate) fn parse_type_path(payload: &str) -> (parsed: Result<String, syn::Error>)
    ensures
        type_path_of(payload@) == match parsed {
            Ok(path) => Ok::<Seq<char>, Seq<Seq<char>>>(path@),
            Err(error) => Err(error_messages(error)),
        },
{
    syn::parse_str::<syn::Path>(payload).map(|path| path.to_token_stream().to_string())
}

/// `syn::parse_str::<TokenStream>`: the lexer of `proc_macro2`, its error
/// turned into a `syn::Error`.
#[verifier::external_body]
pub(crate) fn lex(source: &str) -> (tokens: Result<TokenStream, syn::Error>)
    ensures
        lexed(source@) == match tokens {
            Ok(stream) => Ok::<Seq<Seq<char>>, Seq<Seq<char>>>(token_trees(stream)),
            Err(error) => Err(error_messages(error)),
        },
{
    syn::parse_str::<TokenStream>(source)
}

/// `TokenStream::is_empty`.
#[verifier::external_body]
pub(crate) fn is_empty(tokens: &TokenStream) -> (empty: bool)
    ensures
        empty == (token_trees(*tokens).len() == 0),
{
    tokens.is_empty()
}

/// `syn::Attribute::parse_outer` at the front of `tokens`. Of each attribute
/// it hands out `syn::Path::get_ident` of its path, which of the three
/// variants of `syn::Meta` its `meta` is, with the `tokens` of a list as text,
/// and the `meta` printed as text.
#[verifier::external_body]
pub(crate) fn take_outer_attributes(tokens: &TokenStream) -> (taken: Result<
    (Vec<Annotation>, TokenStream),
    syn::Error,
>)
    ensures
        outer_attributes_at_front(token_trees(*tokens)) == match taken {
            Ok((attributes, rest)) => Ok::<(Seq<AnnotationView>, Seq<Seq<char>>), Seq<Seq<char>>>(
                (attributes.deep_view(), token_trees(rest)),
            ),
            Err(error) => Err(error_messages(error)),
        },
{
    let front = |input: ParseStream| Ok((input.call(Attribute::parse_outer)?, input.parse()?));
    let (attributes, rest): (Vec<Attribute>, TokenStream) = front.parse2(tokens.clone())?;
    let described = attributes.iter().map(|one| Annotation {
        name: one.path().get_ident().map(|ident| ident.to_string()),
        form: match &one.meta {
            Meta::Path(_) => Form::Path,
            Meta::List(list) => Form::List { payload: list.tokens.to_string() },
            Meta::NameValue(_) => Form::NameValue,
        },
        meta: one.meta.to_token_stream().to_string(),
    });
    Ok((described.collect(), rest))
}

/// `syn::Visibility::parse` at the front of `tokens`.
#[verifier::external_body]
pub(crate) fn take_visibility(tokens: &TokenStream) -> (taken: Result<
    (String, TokenStream),
    syn::Error,
>)
    ensures
        visibility_at_front(token_trees(*tokens)) == match taken {
            Ok((visibility, rest)) => Ok::<(Seq<char>, Seq<Seq<char>>), Seq<Seq<char>>>(
                (visibility@, token_trees(rest)),
            ),
            Err(error) => Err(error_messages(error)),
        },
{
    let front = |input: ParseStream| Ok((input.parse()?, input.parse()?));
    let (visibility, rest): (syn::Visibility, TokenStream) = front.parse2(tokens.clone())?;
    Ok((visibility.to_token_stream().to_string(), rest))
}

/// The parser of the keyword token `enum` at the front of `tokens`. The
/// keyword is one token, so what is left is what was given without its
/// first token.
#[verifier::external_body]
pub(crate) fn take_enum_keyword(tokens: &TokenStream) -> (taken: Result<TokenStream, syn::Error>)
    ensures
        enum_keyword_at_front(token_trees(*tokens)) == match taken {
            Ok(rest) => Ok::<Seq<Seq<char>>, Seq<Seq<char>>>(token_trees(rest)),
            Err(error) => Err(error_messages(error)),
        },
        taken matches Ok(rest) ==> token_trees(*tokens).len() > 0 && token_trees(rest)
            == token_trees(*tokens).drop_first(),
{
    let front = |input: ParseStream| Ok((input.parse()?, input.parse()?));
    let (_, rest): (syn::token::Enum, TokenStream) = front.parse2(tokens.clone())?;
    Ok(rest)
}

/// `syn::Ident::parse` at the front of `tokens`.
#[verifier::external_body]
pub(crate) fn take_identifier(tokens: &TokenStream) -> (taken: Result<
    (String, TokenStream),
    syn::Error,
>)
    ensures
        identifier_at_front(token_trees(*tokens)) == match taken {
            Ok((ident, rest)) => Ok::<(Seq<char>, Seq<Seq<char>>), Seq<Seq<char>>>(
                (ident@, token_trees(rest)),
            ),
            Err(error) => Err(error_messages(error)),
        },
{
    let front = |input: ParseStream| Ok((input.parse()?, input.parse()?));
    let (ident, rest): (syn::Ident, TokenStream) = front.parse2(tokens.clone())?;
    Ok((ident.to_string(), rest))
}

/// `syn::Generics::parse` at the front of `tokens`.
#[verifier::external_body]
pub(crate) fn take_generics(tokens: &TokenStream) -> (taken: Result<
    (String, TokenStream),
    syn::Error,
>)
    ensures
        generics_at_front(token_trees(*tokens)) == match taken {
            Ok((generics, rest)) => Ok::<(Seq<char>, Seq<Seq<char>>), Seq<Seq<char>>>(
                (generics@, token_trees(rest)),
            ),
            Err(error) => Err(error_messages(error)),
        },
{
    let front = |input: ParseStream| Ok((input.parse()?, input.parse()?));
    let (generics, rest): (syn::Generics, TokenStream) = front.parse2(tokens.clone())?;
    Ok((generics.to_token_stream().to_string(), rest))
}

/// The parser of the punctuation token `;` at the front of `tokens`. The
/// mark is one token, so what is left is what was given without its first
/// token.
#[verifier::external_body]
pub(crate) fn take_semicolon(tokens: &TokenStream) -> (taken: Result<TokenStream, syn::Error>)
    ensures
        semicolon_at_front(token_trees(*tokens)) == match taken {
            Ok(rest) => Ok::<Seq<Seq<char>>, Seq<Seq<char>>>(token_trees(rest)),
            Err(error) => Err(error_messages(error)),
        },
        taken matches Ok(rest) ==> token_trees(*tokens).len() > 0 && token_trees(rest)
            == token_trees(*tokens).drop_first(),
{
    let front = |input: ParseStream| Ok((input.parse()?, input.parse()?));
    let (_, rest): (syn::token::Semi, TokenStream) = front.parse2(tokens.clone())?;
    Ok(rest)
}

/// `syn::ItemStruct::parse` at the front of `tokens`: the identifier, the
/// generics, and the item printed without its attributes. A struct holds its
/// keyword at least, so fewer tokens are left than were given; this is said
/// of streams without groups that have no delimiters, and the library holds
/// no other.
#[verifier::external_body]
pub(crate) fn take_struct(tokens: &TokenStream) -> (taken: Option<(ItemParts, TokenStream)>)
    ensures
        struct_at_front(token_trees(*tokens)) == match taken {
            Some((parts, rest)) => Some((parts.deep_view(), token_trees(rest))),
            None => None,
        },
        taken matches Some((_, rest)) ==> token_trees(rest).len() < token_trees(*tokens).len(),
{
    let front = |input: ParseStream| Ok((input.parse()?, input.parse()?));
    let (mut item, rest): (syn::ItemStruct, TokenStream) = front.parse2(tokens.clone()).ok()?;
    item.attrs.clear();
    let parts = ItemParts {
        ident: item.ident.to_string(),
        generics: item.generics.to_token_stream().to_string(),
        declaration: item.to_token_stream().to_string(),
    };
    Some((parts, rest))
}

/// `syn::ItemEnum::parse` at the front of `tokens`, handed out as a struct
/// is. An enum holds its keyword at least, so fewer tokens are left than
/// were given; this is said of streams without groups that have no
/// delimiters, and the library holds no other.
#[verifier::external_body]
pub(crate) fn take_enum(tokens: &TokenStream) -> (taken: Option<(ItemParts, TokenStream)>)
    ensures
        enum_at_front(token_trees(*tokens)) == match taken {
            Some((parts, rest)) => Some((parts.deep_view(), token_trees(rest))),
            None => None,
        },
        taken matches Some((_, rest)) ==> token_trees(rest).len() < token_trees(*tokens).len(),
{
    let front = |input: ParseStream| Ok((input.parse()?, input.parse()?));
    let (mut item, rest): (syn::ItemEnum, TokenStream) = front.parse2(tokens.clone()).ok()?;
    item.attrs.clear();
    let parts = ItemParts {
        ident: item.ident.to_string(),
        generics: item.generics.to_token_stream().to_string(),
        declaration: item.to_token_stream().to_string(),
    };
    Some((parts, rest))
}

/// `syn::Item::parse` at the front of `tokens`, for an item of any kind.
#[verifier::external_body]
pub(crate) fn take_item(tokens: &TokenStream) -> (taken: Result<TokenStream, syn::Error>)
    ensures
        item_at_front(token_trees(*tokens)) == match taken {
            Ok(rest) => Ok::<Seq<Seq<char>>, Seq<Seq<char>>>(token_trees(rest)),
            Err(error) => Err(error_messages(error)),
        },
{
    let front = |input: ParseStream| Ok((input.parse()?, input.parse()?));
    let (_, rest): (syn::Item, TokenStream) = front.parse2(tokens.clone())?;
    Ok(rest)
}

} // verus!
