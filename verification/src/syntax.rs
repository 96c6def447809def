//! The syntax tree, as far as the library reads it. The tree itself is `syn`'s
//! and stays opaque; what is read of a node is handed out as plain values.

use crate::stream::{tokens, Token};
use proc_macro2::{Span, TokenStream};
use quote::ToTokens;
use syn::spanned::Spanned;
use vstd::prelude::*;

verus! {

/// `syn::Item`: what `syn` has parsed an item into.
#[verifier::external_type_specification]
#[verifier::external_body]
pub struct ExItem(syn::Item);

/// `syn::ItemFn`: a function, with its signature and its body.
#[verifier::external_type_specification]
#[verifier::external_body]
pub struct ExItemFn(syn::ItemFn);

/// `syn::Type`: a type as it is written in the source.
#[verifier::external_type_specification]
#[verifier::external_body]
pub struct ExType(syn::Type);

/// `syn::Error`: what `syn` says where it cannot parse.
#[verifier::external_type_specification]
#[verifier::external_body]
pub struct ExError(syn::Error);

/// What `syn::parse2` makes of a stream when it is asked for an item: the
/// item, or the parser's error. The parser reads the stream and nothing
/// else, so this is a function of the stream; which streams parse, and into
/// what, is not said here.
pub uninterp spec fn parsed_item(item: TokenStream) -> Result<syn::Item, syn::Error>;

/// The function that an item is, or `None` for an item of any other kind.
pub uninterp spec fn item_function(item: syn::Item) -> Option<syn::ItemFn>;

/// The token trees that a function is printed back as.
pub uninterp spec fn printed_function(function: syn::ItemFn) -> Seq<Token>;

/// The message of a `syn::Error`, as it prints.
pub uninterp spec fn error_text(error: syn::Error) -> Seq<char>;

/// `syn::parse2`, asked for an item: what comes back is `parsed_item` of the
/// stream. A literal of a kind that `syn` does not know, or one that it
/// cannot read, is no failure of its own: `syn` keeps such a token as it
/// stands.
#[verifier::external_body]
pub(crate) fn parse_item(item: &TokenStream) -> (parsed: Result<syn::Item, syn::Error>)
    ensures
        parsed == parsed_item(*item),
{
    syn::parse2(item.clone())
}

/// The function inside an item, where the item is `syn::Item::Fn`: what
/// comes back is `item_function` of the item.
#[verifier::external_body]
pub(crate) fn as_function(item: &syn::Item) -> (function: Option<&syn::ItemFn>)
    ensures
        match function {
            Some(found) => item_function(*item) == Some(*found),
            None => item_function(*item) is None,
        },
{
    match item {
        syn::Item::Fn(function) => Some(function),
        _ => None,
    }
}

/// `ToTokens::to_token_stream` of a function: the function printed back as
/// tokens, which are `printed_function` of it.
#[verifier::external_body]
pub(crate) fn function_tokens(function: &syn::ItemFn) -> (printed: TokenStream)
    ensures
        tokens(printed) == printed_function(*function),
{
    function.to_token_stream()
}

/// `ToString::to_string` of a `syn::Error`: its message, which is
/// `error_text` of it.
#[verifier::external_body]
pub(crate) fn error_message(error: &syn::Error) -> (message: String)
    ensures
        message@ == error_text(*error),
{
    error.to_string()
}

/// `Spanned::span` of a stream: where its tokens stand.
#[verifier::external_body]
pub(crate) fn stream_span(stream: &TokenStream) -> Span {
    stream.span()
}

} // verus!
