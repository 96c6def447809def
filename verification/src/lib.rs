//! Requires that a function writes out the lifetime of every reference type
//! in its signature.
//!
//! The signature of the annotated function is walked, and each reference type
//! without a lifetime, or with the anonymous one, becomes a `compile_error!`
//! behind the function. The attribute's own argument says what stands in the
//! function's place then: nothing (`!`), the argument itself, or, without an
//! argument, the function as it was.

pub mod samples;
pub mod stream;
pub mod syntax;
pub mod type_visitor;

use crate::stream::{append, stream_text, text, token, tokens, Token};
use crate::syntax::{
    as_function, error_message, error_text, function_tokens, item_function, parse_item,
    parsed_item, printed_function, stream_span,
};
use crate::type_visitor::{
    signature_sites, site_findings, walk_signature, LifetimeError, TypeVisitor,
};
use proc_macro2::{Span, TokenStream};
use vstd::prelude::*;
use vstd::string::StringExecFns;

verus! {

/// The text of the braced group that `compile_error!` is given: the message
/// as a string literal, between braces.
pub uninterp spec fn message_group(message: Seq<char>) -> Seq<char>;

/// The tokens of an invocation of `::core::compile_error!` with a message,
/// all of them standing for the place `span`: the macro's path, the `!`, and
/// the group that holds the message.
pub open spec fn error_invocation(message: Seq<char>, span: Span) -> Seq<Token> {
    seq![
        token(":"@, span),
        token(":"@, span),
        token("core"@, span),
        token(":"@, span),
        token(":"@, span),
        token("compile_error"@, span),
        token("!"@, span),
        token(message_group(message), span),
    ]
}

/// The tokens of the invocations of `compile_error!` for a list of errors, one
/// behind the other, each with the message of its problem and at its place.
pub open spec fn error_tokens(errors: Seq<LifetimeError>) -> Seq<Token>
    decreases errors.len(),
{
    if errors.len() == 0 {
        Seq::empty()
    } else {
        error_tokens(errors.drop_last()) + error_invocation(
            errors.last().problem.spec_message(),
            errors.last().span,
        )
    }
}

/// The message for an item that is no function.
pub open spec fn spec_invalid_item() -> Seq<char> {
    "Attribute not valid on this item type."@
}

/// Whether `out` takes the place of the function `item`, parsed as
/// `function`, in whose signature `errors` were found, under the attribute's
/// argument `attr`.
///
/// Without errors the item stays as it is. With errors, one `compile_error!`
/// for each of them stands at the end, in their order, and before them what
/// the argument asks for: nothing for `!`, the argument itself if it is
/// anything else, and without an argument the function printed back.
pub open spec fn expands_function(
    attr: TokenStream,
    item: TokenStream,
    function: syn::ItemFn,
    errors: Seq<LifetimeError>,
    out: TokenStream,
) -> bool {
    if errors.len() == 0 {
        out == item
    } else if tokens(attr).len() == 0 {
        tokens(out) == printed_function(function) + error_tokens(errors)
    } else if text(attr) == "!"@ {
        tokens(out) == error_tokens(errors)
    } else {
        tokens(out) == tokens(attr) + error_tokens(errors)
    }
}

/// Whether `out` is what an item that is no function is answered with: the
/// item, and behind it a `compile_error!` that is reported at `span`.
pub open spec fn rejects_item(item: TokenStream, span: Span, out: TokenStream) -> bool {
    tokens(out) == tokens(item) + error_invocation(spec_invalid_item(), span)
}

/// Whether `out` takes the place of `item`, which was parsed as `ast`, where
/// the attribute's argument `attr` stands at `span`.
///
/// A function is answered by what is reported of the reference types in its
/// signature, as `expands_function` says. An item of any other kind is
/// answered as `rejects_item` says.
pub open spec fn answers(
    attr: TokenStream,
    item: TokenStream,
    span: Span,
    ast: syn::Item,
    out: TokenStream,
) -> bool {
    match item_function(ast) {
        Some(function) => expands_function(
            attr,
            item,
            function,
            site_findings(signature_sites(function)),
            out,
        ),
        None => rejects_item(item, span, out),
    }
}

/// Whether `out` takes the place of `item`, which was parsed as `ast`, for
/// some place of the attribute's argument `attr`.
pub open spec fn expands(
    attr: TokenStream,
    item: TokenStream,
    ast: syn::Item,
    out: TokenStream,
) -> bool {
    exists|span: Span| #[trigger] answers(attr, item, span, ast, out)
}

/// The item could not be parsed.
#[derive(Debug)]
pub struct ParseFailure {
    /// What the parser said.
    pub message: String,
}

/// Checks the signature of the function in `item`, and gives the tokens that
/// take the item's place.
///
/// An item that does not parse is a failure with the parser's message. A
/// function without an error in its signature comes back as it is. A function
/// with errors is replaced as the attribute's argument `attr` says, and one
/// `compile_error!` for each reference type without a lifetime, or with the
/// anonymous one, stands behind the replacement, in the order of the
/// signature. Any other item comes back with one `compile_error!` behind it,
/// reported where the argument stands.
pub fn require_lifetimes(attr: TokenStream, item: TokenStream) -> (expanded: Result<
    TokenStream,
    ParseFailure,
>)
    ensures
        match parsed_item(item) {
            Err(error) => expanded matches Err(failure) && failure.message@ == error_text(error),
            Ok(ast) => expanded matches Ok(out) && expands(attr, item, ast, out),
        },
{
    let attr_span = stream_span(&attr);
    let parsed = parse_item(&item);
    let expanded = expand_parsed(attr, item, &attr_span, parsed);
    proof {
        if parsed_item(item) is Ok {
            assert(answers(attr, item, attr_span, parsed_item(item)->Ok_0, expanded->Ok_0));
        }
    }
    expanded
}

/// What the attribute answers once the parser has spoken. Where `parsed` is
/// the parser's error, the answer is a failure with the parser's message;
/// where it is an item, the answer is what `expand_item` gives for it.
/// `attr_span` is where the attribute's argument stands.
pub fn expand_parsed(
    attr: TokenStream,
    item: TokenStream,
    attr_span: &Span,
    parsed: Result<syn::Item, syn::Error>,
) -> (expanded: Result<TokenStream, ParseFailure>)
    ensures
        match parsed {
            Err(error) => expanded matches Err(failure) && failure.message@ == error_text(error),
            Ok(ast) => expanded matches Ok(out) && answers(attr, item, *attr_span, ast, out),
        },
{
    match parsed {
        Err(error) => Err(ParseFailure { message: error_message(&error) }),
        Ok(ast) => {
            let function = as_function(&ast);
            Ok(expand_item(attr, item, attr_span, function))
        },
    }
}

/// The tokens that take the place of `item`, which was parsed as the function
/// `function`, or as an item of another kind where `function` is `None`.
///
/// The signature of a function is walked, and the function comes back as
/// `expand_function` says, with the errors of the reference types that the
/// walk has come by. Any other item comes back with one `compile_error!`
/// behind it, reported at `attr_span`.
pub fn expand_item(
    attr: TokenStream,
    item: TokenStream,
    attr_span: &Span,
    function: Option<&syn::ItemFn>,
) -> (out: TokenStream)
    ensures
        match function {
            Some(found) => expands_function(
                attr,
                item,
                *found,
                site_findings(signature_sites(*found)),
                out,
            ),
            None => rejects_item(item, *attr_span, out),
        },
{
    match function {
        Some(function) => {
            let mut visitor = TypeVisitor::default();
            walk_signature(&mut visitor, function);
            expand_function(attr, item, function, &visitor.errors)
        },
        None => error_to_final_token_stream(
            item,
            attr_span,
            "Attribute not valid on this item type.",
        ),
    }
}

/// The tokens that take the place of the function `item`, parsed as
/// `function`, once `errors` have been found in its signature.
pub fn expand_function(
    attr: TokenStream,
    item: TokenStream,
    function: &syn::ItemFn,
    errors: &Vec<LifetimeError>,
) -> (out: TokenStream)
    ensures
        expands_function(attr, item, *function, errors@, out),
{
    if errors.len() == 0 {
        return item;
    }
    let replacement = match parse_error_case_from_attribute(attr) {
        Some(replacement) => replacement,
        None => function_tokens(function),
    };
    with_errors(replacement, errors)
}

/// Puts one `compile_error!` for each error behind `replacement`, in their
/// order.
pub fn with_errors(replacement: TokenStream, errors: &Vec<LifetimeError>) -> (out: TokenStream)
    ensures
        tokens(out) == tokens(replacement) + error_tokens(errors@),
{
    let mut error_stream = TokenStream::new();
    let mut i: usize = 0;
    while i < errors.len()
        invariant
            i <= errors.len(),
            tokens(error_stream) == error_tokens(errors@.take(i as int)),
        decreases errors.len() - i,
    {
        let error = &errors[i];
        let rendered = error_to_token_stream(&error.span, error.problem.message());
        append(&mut error_stream, rendered);
        proof {
            assert(errors@.take(i + 1).drop_last() == errors@.take(i as int));
        }
        i = i + 1;
    }
    proof {
        assert(errors@.take(i as int) == errors@);
    }
    let mut out = replacement;
    append(&mut out, error_stream);
    out
}

/// `syn::Error::new` and then `syn::Error::to_compile_error`: an invocation of
/// `::core::compile_error!` with the message, which the compiler reports at
/// `span`. It is eight token trees, each of them standing for `span`: the
/// path `::core::compile_error`, of which each colon is a tree of its own,
/// the `!`, and a braced group that holds the message as a string literal.
#[verifier::external_body]
fn error_to_token_stream(span: &Span, message: &'static str) -> (rendered: TokenStream)
    ensures
        tokens(rendered) == seq![
            token(":"@, *span),
            token(":"@, *span),
            token("core"@, *span),
            token(":"@, *span),
            token(":"@, *span),
            token("compile_error"@, *span),
            token("!"@, *span),
            token(message_group(message@), *span),
        ],
{
    syn::Error::new(*span, message).to_compile_error()
}

/// Puts the error with `message`, reported at `span`, behind `body`.
pub fn error_to_final_token_stream(
    body: TokenStream,
    span: &Span,
    message: &'static str,
) -> (out: TokenStream)
    ensures
        tokens(out) == tokens(body) + error_invocation(message@, *span),
{
    let mut body = body;
    let error = error_to_token_stream(span, message);
    append(&mut body, error);
    body
}

/// Reads the attribute's argument: what is to replace a function with
/// errors. `None` stands for the function itself, which is what no argument
/// asks for. The argument `!` asks for nothing, any other for itself.
pub fn parse_error_case_from_attribute(attr: TokenStream) -> (replacement: Option<TokenStream>)
    ensures
        match replacement {
            None => tokens(attr).len() == 0,
            Some(stream) => {
                &&& tokens(attr).len() > 0
                &&& if text(attr) == "!"@ {
                    tokens(stream).len() == 0
                } else {
                    stream == attr
                }
            },
        },
{
    if attr.is_empty() {
        None
    } else if stream_text(&attr) == String::from_str("!") {
        Some(TokenStream::new())
    } else {
        Some(attr)
    }
}

} // verus!
