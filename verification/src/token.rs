//! The lexical units of an authored template.
//!
//! The upstream tokenizer hands templates over as trees of identifiers,
//! literals, punctuation and bracketed groups.  The library works on the
//! flattened form: a group contributes one `GroupOpen` token positioned at
//! its opening bracket and one `GroupClose` token at its closing bracket,
//! with its contents in between, in traversal order.

use vstd::prelude::*;
use vstd::string::StrSliceExecFns;
use vstd::string::StringExecFns;
use crate::span::Span;

verus! {

/// The bracket kind of a group.
#[derive(Clone, Copy, Debug, PartialEq, Eq, Structural)]
pub enum Delimiter {
    Brace,
    Bracket,
    Parenthesis,
}

/// One lexical unit of an authored template, with its position in the
/// original text.
#[derive(Clone, Debug)]
pub enum Token {
    Identifier { text: String, span: Span },
    Literal { text: String, span: Span },
    Punctuation { text: String, span: Span },
    GroupOpen { delimiter: Delimiter, span: Span },
    GroupClose { delimiter: Delimiter, span: Span },
}

/// The position a token occupies in the authored text.
pub open spec fn spec_token_span(t: Token) -> Span {
    match t {
        Token::Identifier { span, .. } => span,
        Token::Literal { span, .. } => span,
        Token::Punctuation { span, .. } => span,
        Token::GroupOpen { span, .. } => span,
        Token::GroupClose { span, .. } => span,
    }
}

/// The opening bracket character re-emitted for a group.
pub open spec fn open_text(d: Delimiter) -> Seq<char> {
    match d {
        Delimiter::Brace => seq!['{'],
        Delimiter::Bracket => seq!['['],
        Delimiter::Parenthesis => seq!['('],
    }
}

/// The closing bracket character re-emitted for a group.
pub open spec fn close_text(d: Delimiter) -> Seq<char> {
    match d {
        Delimiter::Brace => seq!['}'],
        Delimiter::Bracket => seq![']'],
        Delimiter::Parenthesis => seq![')'],
    }
}

/// The literal text a token contributes when it is not part of a variable
/// reference.
pub open spec fn lit_text(t: Token) -> Seq<char> {
    match t {
        Token::Identifier { text, .. } => text@,
        Token::Literal { text, .. } => text@,
        Token::Punctuation { text, .. } => text@,
        Token::GroupOpen { delimiter, .. } => open_text(delimiter),
        Token::GroupClose { delimiter, .. } => close_text(delimiter),
    }
}

/// The name carried by an identifier token.
pub open spec fn ident_name(t: Token) -> Seq<char> {
    match t {
        Token::Identifier { text, .. } => text@,
        _ => Seq::empty(),
    }
}

/// Whether a token is the variable marker sigil `#`.
pub open spec fn is_marker(t: Token) -> bool {
    match t {
        Token::Punctuation { text, .. } => text@ == seq!['#'],
        _ => false,
    }
}

pub fn token_span(t: &Token) -> (r: Span)
    ensures
        r == spec_token_span(*t),
{
    match t {
        Token::Identifier { span, .. } => *span,
        Token::Literal { span, .. } => *span,
        Token::Punctuation { span, .. } => *span,
        Token::GroupOpen { span, .. } => *span,
        Token::GroupClose { span, .. } => *span,
    }
}

pub fn token_is_marker(t: &Token) -> (r: bool)
    ensures
        r == is_marker(*t),
{
    match t {
        Token::Punctuation { text, .. } => {
            let s = text.as_str();
            if s.unicode_len() == 1 {
                let r = s.get_char(0) == '#';
                proof {
                    if r {
                        assert(text@ =~= seq!['#']);
                    }
                }
                r
            } else {
                false
            }
        },
        _ => false,
    }
}

/// The literal text of a token as an owned string.
pub fn token_text(t: &Token) -> (r: String)
    ensures
        r@ == lit_text(*t),
{
    match t {
        Token::Identifier { text, .. } => text.clone(),
        Token::Literal { text, .. } => text.clone(),
        Token::Punctuation { text, .. } => text.clone(),
        Token::GroupOpen { delimiter, .. } => {
            match delimiter {
                Delimiter::Brace => {
                    proof {
                        reveal_strlit("{");
                        assert("{"@ =~= seq!['{']);
                    }
                    String::from_str("{")
                },
                Delimiter::Bracket => {
                    proof {
                        reveal_strlit("[");
                        assert("["@ =~= seq!['[']);
                    }
                    String::from_str("[")
                },
                Delimiter::Parenthesis => {
                    proof {
                        reveal_strlit("(");
                        assert("("@ =~= seq!['(']);
                    }
                    String::from_str("(")
                },
            }
        },
        Token::GroupClose { delimiter, .. } => {
            match delimiter {
                Delimiter::Brace => {
                    proof {
                        reveal_strlit("}");
                        assert("}"@ =~= seq!['}']);
                    }
                    String::from_str("}")
                },
                Delimiter::Bracket => {
                    proof {
                        reveal_strlit("]");
                        assert("]"@ =~= seq![']']);
                    }
                    String::from_str("]")
                },
                Delimiter::Parenthesis => {
                    proof {
                        reveal_strlit(")");
                        assert(")"@ =~= seq![')']);
                    }
                    String::from_str(")")
                },
            }
        },
    }
}

} // verus!
