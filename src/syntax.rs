use vstd::prelude::*;
use crate::config::opt_text;

verus! {

// Every wrapper below switches proc-macro2 to its own fallback implementation
// for the length of the call, so lexing and printing never go through the
// compiler's proc_macro bridge, whose behaviour depends on the running
// compiler. Only plain values leave a wrapper, so no fallback token meets a
// compiler token afterwards.

/// Whether the whole text is one Rust expression in syn's grammar, lexed by
/// proc-macro2's fallback lexer.
pub uninterp spec fn parses_as_expr(text: Seq<char>) -> bool;

/// The tokens of the block of an `unsafe` block expression written as `text`,
/// printed back by proc-macro2's fallback printer; `None` where `text` is not
/// such a block.
pub uninterp spec fn unsafe_block_tokens(text: Seq<char>) -> Option<Seq<char>>;

/// The source text of a string literal whose value is `text`, as
/// proc-macro2's fallback `Literal::string` escapes it.
pub uninterp spec fn string_literal_tokens(text: Seq<char>) -> Seq<char>;

/// Relies on `syn::parse_str::<syn::Expr>`, which succeeds exactly when the
/// text lexes and all of its tokens form one expression; literals it does
/// not know become `Lit::Verbatim`, so it does not panic.
#[verifier::external_body]
pub(crate) fn is_expression(text: &str) -> (r: bool)
    ensures
        r == parses_as_expr(text@),
{
    proc_macro2::fallback::force();
    let r = syn::parse_str::<syn::Expr>(text).is_ok();
    proc_macro2::fallback::unforce();
    r
}

/// Relies on `syn::parse_str::<syn::ExprUnsafe>` to recognise an `unsafe`
/// block, whose `block` field is printed back through quote's `ToTokens`.
#[verifier::external_body]
pub(crate) fn unsafe_block(text: &str) -> (r: Option<String>)
    ensures
        opt_text(r) == unsafe_block_tokens(text@),
{
    proc_macro2::fallback::force();
    let r = syn::parse_str::<syn::ExprUnsafe>(text).ok().map(
        |e| quote::ToTokens::to_token_stream(&e.block).to_string(),
    );
    proc_macro2::fallback::unforce();
    r
}

/// Relies on quote's `ToTokens` for `str`, which emits
/// `proc_macro2::Literal::string(text)`: a string literal holding `text`.
#[verifier::external_body]
pub(crate) fn string_literal(text: &str) -> (r: String)
    ensures
        r@ == string_literal_tokens(text@),
{
    proc_macro2::fallback::force();
    let r = quote::ToTokens::to_token_stream(text).to_string();
    proc_macro2::fallback::unforce();
    r
}

} // verus!
