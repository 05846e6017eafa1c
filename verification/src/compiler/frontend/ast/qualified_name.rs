//! Qualified names as written in source: the tokens of their parts.
use vstd::prelude::*;
use crate::compiler::frontend::ast::node::AstNode;
use crate::compiler::frontend::ast::AstData;
use crate::compiler::frontend::lex::token::Token;
use crate::compiler::infra::full_name::FullName;
use crate::text::{join_with, push_str};

verus! {

/// A qualified name: the tokens of its parts, and the name they stand for.
pub struct QualifiedName {
    pub parts: Vec<Token>,
    pub full_name: FullName,
}

impl AstData for QualifiedName {}

/// The texts of the tokens of a qualified name.
pub open spec fn part_texts(parts: Seq<Token>) -> Seq<Seq<char>> {
    parts.map_values(|t: Token| t.inner.value@)
}

impl AstNode<QualifiedName> {
    /// How the name is shown: the texts of its parts joined by `::`.
    pub fn to_display_string(&self) -> (s: String)
        ensures
            s@ == join_with(part_texts(self.data.parts@), "::"@),
    {
        let parts = &self.data.parts;
        let ghost texts = part_texts(parts@);
        let mut s = String::new();
        let mut i: usize = 0;
        while i < parts.len()
            invariant
                parts@ == self.data.parts@,
                texts == part_texts(parts@),
                i <= parts@.len(),
                s@ == join_with(texts.take(i as int), "::"@),
            decreases parts.len() - i,
        {
            if i > 0 {
                push_str(&mut s, "::");
            }
            push_str(&mut s, parts[i].lexeme());
            proof {
                assert(texts.take(i + 1).drop_last() =~= texts.take(i as int));
                if i == 0 {
                    assert(texts.take(0) =~= Seq::<Seq<char>>::empty());
                }
            }
            i = i + 1;
            assert(s@ =~= join_with(texts.take(i as int), "::"@));
        }
        assert(texts.take(parts@.len() as int) =~= texts);
        s
    }
}

} // verus!
