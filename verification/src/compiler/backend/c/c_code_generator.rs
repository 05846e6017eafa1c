//! Pieces of C code generation: C names of qualified names, C types of primitive types,
//! and C operators of token types.
use vstd::prelude::*;
use crate::base::error::{FelicoError, FelicoResult};
use crate::compiler::frontend::lex::token::TokenType;
use crate::compiler::infra::full_name::{FullName, UNRESOLVED_NAME_PART};
use crate::compiler::model::types::{PrimitiveType, Type, TypeKind};
use crate::text::{join_with, push_str};

verus! {

/// The C name of a qualified name: its parts joined by `__`.
pub open spec fn c_name(parts: Seq<Seq<char>>) -> Seq<char> {
    join_with(parts, "__"@)
}

/// The C name of `full_name` (its parts joined by `__`); an unresolved name has none.
pub fn fullname_to_c(full_name: &FullName) -> (r: FelicoResult<String>)
    ensures
        full_name@ == seq![UNRESOLVED_NAME_PART@] ==> (r matches Err(e) && e.message@
            == "Fullname is unresolved"@),
        full_name@ != seq![UNRESOLVED_NAME_PART@] ==> (r matches Ok(s) && s@ == c_name(full_name@)),
{
    if full_name.is_unresolved() {
        let mut message = String::new();
        push_str(&mut message, "Fullname is unresolved");
        return Err(FelicoError::message(message));
    }
    let parts = full_name.parts();
    let ghost views = parts@.map_values(|p: String| p@);
    let mut name = String::new();
    let mut i: usize = 0;
    while i < parts.len()
        invariant
            views == parts@.map_values(|p: String| p@),
            i <= parts@.len(),
            name@ == c_name(views.take(i as int)),
        decreases parts.len() - i,
    {
        if i > 0 {
            push_str(&mut name, "__");
        }
        push_str(&mut name, parts[i].as_str());
        proof {
            assert(views.take(i + 1).drop_last() =~= views.take(i as int));
            if i == 0 {
                assert(views.take(0) =~= Seq::<Seq<char>>::empty());
            }
        }
        i = i + 1;
        assert(name@ =~= c_name(views.take(i as int)));
    }
    assert(views.take(parts@.len() as int) =~= views);
    Ok(name)
}

/// The C type of a primitive type.
pub open spec fn c_primitive_type(p: PrimitiveType) -> Seq<char> {
    match p {
        PrimitiveType::Bool => "_Bool"@,
        PrimitiveType::F64 => "double"@,
        PrimitiveType::I64 => "int64_t"@,
        PrimitiveType::Str => "char*"@,
    }
}

/// The C type of `ty`; only primitive types have one so far.
pub fn get_c_type(ty: &Type) -> (r: FelicoResult<&'static str>)
    ensures
        match ty.spec_kind() {
            TypeKind::Primitive(p) => r matches Ok(s) && s@ == c_primitive_type(p),
            _ => r matches Err(e) && e.message@ == "Implement get_c_type for type "@
                + ty.type_text(),
        },
{
    match ty.kind() {
        TypeKind::Primitive(primitive) => Ok(
            match primitive {
                PrimitiveType::Bool => "_Bool",
                PrimitiveType::F64 => "double",
                PrimitiveType::I64 => "int64_t",
                PrimitiveType::Str => "char*",
            },
        ),
        _ => {
            let mut message = String::new();
            push_str(&mut message, "Implement get_c_type for type ");
            ty.push_display(&mut message);
            Err(FelicoError::message(message))
        },
    }
}

/// The C operator of a binary operator token: arithmetic, logic and comparison.
pub open spec fn c_binary_operator_text(t: TokenType) -> Option<Seq<char>> {
    match t {
        TokenType::Plus => Some("+"@),
        TokenType::Minus => Some("-"@),
        TokenType::Star => Some("*"@),
        TokenType::Slash => Some("/"@),
        TokenType::And => Some("&&"@),
        TokenType::Or => Some("||"@),
        TokenType::EqualEqual => Some("=="@),
        TokenType::Greater => Some(">"@),
        TokenType::GreaterEqual => Some(">="@),
        TokenType::Less => Some("<"@),
        TokenType::LessEqual => Some("<="@),
        _ => None,
    }
}


proof fn lemma_c_operator_chars(t: TokenType)
    ensures
        match t {
            TokenType::Plus => c_binary_operator_text(t) == Some(seq!['+']),
            TokenType::Minus => c_binary_operator_text(t) == Some(seq!['-']),
            TokenType::Star => c_binary_operator_text(t) == Some(seq!['*']),
            TokenType::Slash => c_binary_operator_text(t) == Some(seq!['/']),
            TokenType::And => c_binary_operator_text(t) == Some(seq!['&', '&']),
            TokenType::Or => c_binary_operator_text(t) == Some(seq!['|', '|']),
            TokenType::EqualEqual => c_binary_operator_text(t) == Some(seq!['=', '=']),
            TokenType::Greater => c_binary_operator_text(t) == Some(seq!['>']),
            TokenType::GreaterEqual => c_binary_operator_text(t) == Some(seq!['>', '=']),
            TokenType::Less => c_binary_operator_text(t) == Some(seq!['<']),
            TokenType::LessEqual => c_binary_operator_text(t) == Some(seq!['<', '=']),
            _ => c_binary_operator_text(t) is None,
        },
{
    reveal_strlit("+");
    reveal_strlit("-");
    reveal_strlit("*");
    reveal_strlit("/");
    reveal_strlit("&&");
    reveal_strlit("||");
    reveal_strlit("==");
    reveal_strlit(">");
    reveal_strlit(">=");
    reveal_strlit("<");
    reveal_strlit("<=");
    match t {
        TokenType::Plus => assert("+"@ =~= seq!['+']),
        TokenType::Minus => assert("-"@ =~= seq!['-']),
        TokenType::Star => assert("*"@ =~= seq!['*']),
        TokenType::Slash => assert("/"@ =~= seq!['/']),
        TokenType::And => assert("&&"@ =~= seq!['&', '&']),
        TokenType::Or => assert("||"@ =~= seq!['|', '|']),
        TokenType::EqualEqual => assert("=="@ =~= seq!['=', '=']),
        TokenType::Greater => assert(">"@ =~= seq!['>']),
        TokenType::GreaterEqual => assert(">="@ =~= seq!['>', '=']),
        TokenType::Less => assert("<"@ =~= seq!['<']),
        TokenType::LessEqual => assert("<="@ =~= seq!['<', '=']),
        _ => {},
    }
}

/// The length and the first and last characters of the C operator of `t`.
spec fn operator_key(t: TokenType) -> (nat, char, char) {
    let s = c_binary_operator_text(t)->0;
    (s.len(), s[0], s.last())
}

/// Distinct binary operator tokens have distinct C operators: no two operators of the
/// source language are translated to the same C operator.
pub proof fn law_c_binary_operator_injective(a: TokenType, b: TokenType)
    requires
        c_binary_operator_text(a) is Some,
        c_binary_operator_text(a) == c_binary_operator_text(b),
    ensures
        a == b,
{
    lemma_c_operator_chars(a);
    lemma_c_operator_chars(b);
    assert(operator_key(a) == operator_key(b));
}

/// The C operators of the comparisons keep their meaning: the orderings start with the
/// C character of their direction, `>` for greater and `<` for less, and exactly the
/// comparisons that also hold on equality (`>=`, `<=`, `==`) end in `=`; each arithmetic
/// and logical operator starts with its own symbol, which no other operator starts with.
pub proof fn law_c_binary_operator_meaning(t: TokenType)
    requires
        c_binary_operator_text(t) is Some,
    ensures
        ({
            let s = c_binary_operator_text(t)->0;
            &&& (s[0] == '>') == (t == TokenType::Greater || t == TokenType::GreaterEqual)
            &&& (s[0] == '<') == (t == TokenType::Less || t == TokenType::LessEqual)
            &&& (s.last() == '=') == (t == TokenType::GreaterEqual || t == TokenType::LessEqual
                || t == TokenType::EqualEqual)
            &&& (t == TokenType::Plus) == (s[0] == '+')
            &&& (t == TokenType::Minus) == (s[0] == '-')
            &&& (t == TokenType::Star) == (s[0] == '*')
            &&& (t == TokenType::Slash) == (s[0] == '/')
            &&& (t == TokenType::And) == (s[0] == '&')
            &&& (t == TokenType::Or) == (s[0] == '|')
        }),
{
    lemma_c_operator_chars(t);
    let s = c_binary_operator_text(t)->0;
    assert(s.len() > 0);
}

/// The C operator of a binary operator token (see `c_binary_operator_text`); other tokens
/// have none.
pub fn c_binary_operator(t: TokenType) -> (r: Option<&'static str>)
    ensures
        match c_binary_operator_text(t) {
            Some(s) => r matches Some(x) && x@ == s,
            None => r is None,
        },
{
    match t {
        TokenType::Plus => Some("+"),
        TokenType::Minus => Some("-"),
        TokenType::Star => Some("*"),
        TokenType::Slash => Some("/"),
        TokenType::And => Some("&&"),
        TokenType::Or => Some("||"),
        TokenType::EqualEqual => Some("=="),
        TokenType::Greater => Some(">"),
        TokenType::GreaterEqual => Some(">="),
        TokenType::Less => Some("<"),
        TokenType::LessEqual => Some("<="),
        _ => None,
    }
}

/// The C operator of a unary operator token: `+` and `-`; other tokens have none.
pub fn c_unary_operator(t: TokenType) -> (r: Option<&'static str>)
    ensures
        t == TokenType::Plus ==> (r matches Some(x) && x@ == "+"@),
        t == TokenType::Minus ==> (r matches Some(x) && x@ == "-"@),
        t != TokenType::Plus && t != TokenType::Minus ==> r is None,
{
    match t {
        TokenType::Plus => Some("+"),
        TokenType::Minus => Some("-"),
        _ => None,
    }
}

} // verus!
