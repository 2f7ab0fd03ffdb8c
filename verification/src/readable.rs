//! Which attributes are handed to the parser.
//!
//! The parser of attributes gives up on a literal of a kind that it does not
//! know, wherever in the attribute the literal stands, and it goes as deep as
//! the attribute is nested. A format template is a string literal directly
//! after `=`, so an attribute that holds any other literal supplies no
//! template, whatever the parser would make of it. Such an attribute is not
//! parsed at all, nor is one whose groups are nested deeper than
//! [`GROUP_DEPTH`]; both count as attributes of another shape.

use vstd::prelude::*;
use crate::syntax::{
    attribute_tokens,
    spec_attribute_tokens,
    spec_token_group,
    spec_token_literal,
    token_group,
    token_literal,
};

verus! {

/// How many groups deep an attribute is looked into.
pub const GROUP_DEPTH: usize = 128;

/// Whether `text` is the text of a string literal: it begins with `"`, or
/// with the `r` of a raw string. No literal of another kind begins so.
pub open spec fn is_string_literal_text(text: Seq<char>) -> bool {
    text.len() > 0 && (text[0] == '"' || text[0] == 'r')
}

/// Whether every literal in `token` is a string literal and the groups in
/// `token` are nested no deeper than `depth`.
pub open spec fn token_readable(token: proc_macro2::TokenTree, depth: nat) -> bool
    decreases depth,
{
    match spec_token_literal(token) {
        Some(text) => is_string_literal_text(text),
        None => match spec_token_group(token) {
            Some(inner) => depth > 0 && forall|i: int|
                0 <= i < inner.len() ==> token_readable(#[trigger] inner[i], (depth - 1) as nat),
            None => true,
        },
    }
}

/// Whether each of `tokens` is readable to this depth.
pub open spec fn tokens_readable(tokens: Seq<proc_macro2::TokenTree>, depth: nat) -> bool {
    forall|i: int| 0 <= i < tokens.len() ==> token_readable(#[trigger] tokens[i], depth)
}

/// Whether an attribute is handed to the parser.
pub open spec fn attribute_readable(attribute: syn::Attribute) -> bool {
    tokens_readable(spec_attribute_tokens(attribute), GROUP_DEPTH as nat)
}

/// Tells whether `text` is the text of a string literal.
pub fn is_string_literal(text: &str) -> (result: bool)
    ensures
        result == is_string_literal_text(text@),
{
    if text.is_empty() {
        return false;
    }
    let first = text.get_char(0);
    first == '"' || first == 'r'
}

fn is_token_readable(token: &proc_macro2::TokenTree, depth: usize) -> (result: bool)
    ensures
        result == token_readable(*token, depth as nat),
    decreases depth, 0nat,
{
    match token_literal(token) {
        Some(text) => is_string_literal(text.as_str()),
        None => match token_group(token) {
            Some(inner) => {
                if depth == 0 {
                    false
                } else {
                    let result = are_tokens_readable(&inner, depth - 1);
                    proof {
                        let group = spec_token_group(*token)->0;
                        if token_readable(*token, depth as nat) {
                            assert(forall|i: int|
                                0 <= i < group.len() ==> token_readable(
                                    #[trigger] group[i],
                                    (depth as nat - 1) as nat,
                                ));
                        }
                    }
                    result
                }
            },
            None => true,
        },
    }
}

fn are_tokens_readable(tokens: &Vec<proc_macro2::TokenTree>, depth: usize) -> (result: bool)
    ensures
        result == tokens_readable(tokens@, depth as nat),
    decreases depth, 1nat,
{
    let mut index: usize = 0;
    while index < tokens.len()
        invariant
            index <= tokens.len(),
            forall|i: int| 0 <= i < index ==> token_readable(#[trigger] tokens@[i], depth as nat),
        decreases tokens.len() - index,
    {
        if !is_token_readable(&tokens[index], depth) {
            return false;
        }
        index = index + 1;
    }
    true
}

/// Tells whether an attribute is handed to the parser.
pub fn is_attribute_readable(attribute: &syn::Attribute) -> (result: bool)
    ensures
        result == attribute_readable(*attribute),
{
    let tokens = attribute_tokens(attribute);
    are_tokens_readable(&tokens, GROUP_DEPTH)
}

} // verus!
