//! Token streams as the rest of the library sees them: a sequence of token
//! trees, each with its text and its place in the source.

use proc_macro2::{Span, TokenStream};
use vstd::prelude::*;

verus! {

/// `proc_macro2::TokenStream`, of which the library sees what `tokens` and
/// `text` say and nothing else.
#[verifier::external_type_specification]
#[verifier::external_body]
pub struct ExTokenStream(TokenStream);

/// `proc_macro2::Span`: a place in the source. The library hands it on and
/// never looks inside.
#[verifier::external_type_specification]
#[verifier::external_body]
pub struct ExSpan(Span);

/// What the library says of a token tree: the text that it prints as, and
/// the place in the source that it stands for.
pub struct Token {
    pub text: Seq<char>,
    pub span: Span,
}

/// The token with a text and a place.
pub open spec fn token(text: Seq<char>, span: Span) -> Token {
    Token { text, span }
}

/// The top-level token trees of a stream, in order: for each the text that
/// `TokenTree`'s `Display` prints and the place that `TokenTree::span` gives.
pub uninterp spec fn tokens(stream: TokenStream) -> Seq<Token>;

/// The text that a stream prints as, by `TokenStream`'s `Display`.
pub uninterp spec fn text(stream: TokenStream) -> Seq<char>;

/// `TokenStream::new` makes a stream with no token tree in it.
pub assume_specification[ TokenStream::new ]() -> (stream: TokenStream)
    ensures
        tokens(stream) == Seq::<Token>::empty(),
;

/// `TokenStream::is_empty` tells whether a stream holds no token tree.
pub assume_specification[ TokenStream::is_empty ](stream: &TokenStream) -> (empty: bool)
    ensures
        empty == (tokens(*stream).len() == 0),
;

/// `Extend<TokenStream>::extend` with one stream: the token trees of `more`
/// are put behind those of `body`, which keeps its own.
///
/// `proc_macro2` makes streams of two kinds, the compiler's and its own, and
/// settles once in a process which of them it makes. `extend` panics where
/// the two kinds meet, which takes a call of `proc_macro2::fallback::force`
/// or `unforce` between the making of `body` and of `more`. Nothing here
/// makes such a call.
#[verifier::external_body]
pub(crate) fn append(body: &mut TokenStream, more: TokenStream)
    ensures
        tokens(*final(body)) == tokens(*old(body)) + tokens(more),
{
    body.extend(core::iter::once(more));
}

/// `ToString::to_string` of a stream: the text that it prints as.
#[verifier::external_body]
pub(crate) fn stream_text(stream: &TokenStream) -> (printed: String)
    ensures
        printed@ == text(*stream),
{
    stream.to_string()
}

} // verus!
