//! Qualified names: a name part under an optional parent name, shown as `a::b::c`.
use vstd::prelude::*;
use std::rc::Rc;
use crate::text::{join_with, push_str};

verus! {

/// A qualified name, shared by everything that refers to it.
#[derive(Clone)]
pub struct FullName {
    pub(crate) inner: Rc<FullNameInner>,
}

/// The last part of a qualified name, and the name it stands under.
pub struct FullNameInner {
    pub name_part: String,
    pub parent: Option<FullName>,
}

/// The name part of the name that stands for "not resolved".
pub const UNRESOLVED_NAME_PART: &'static str = "<unresolved>";

/// `parts` joined by `::`.
pub open spec fn joined(parts: Seq<Seq<char>>) -> Seq<char> {
    join_with(parts, "::"@)
}

impl View for FullName {
    type V = Seq<Seq<char>>;

    /// The parts of the name, outermost first.
    closed spec fn view(&self) -> Seq<Seq<char>>
        decreases self,
    {
        match self.inner.parent {
            None => seq![self.inner.name_part@],
            Some(p) => p.view().push(self.inner.name_part@),
        }
    }
}

impl FullName {
    /// A name has at least one part; its last part is its name part, the others are its
    /// parent's.
    pub(crate) proof fn lemma_view(&self)
        ensures
            self@.len() >= 1,
            self@.last() == self.inner.name_part@,
            self.inner.parent matches Some(p) ==> self@ == p@.push(self.inner.name_part@),
            self.inner.parent is None ==> self@ == seq![self.inner.name_part@],
        decreases self,
    {
        if let Some(p) = &self.inner.parent {
            p.lemma_view();
        }
    }

    /// The name with the single part `name_part`.
    pub fn new(name_part: &str) -> (n: Self)
        ensures
            n@ == seq![name_part@],
    {
        let n = FullName { inner: Rc::new(FullNameInner { name_part: name_part.to_owned(), parent: None }) };
        proof {
            n.lemma_view();
        }
        n
    }

    /// The last part of the name.
    pub fn short_name(&self) -> (s: &str)
        ensures
            s@ == self@.last(),
    {
        proof {
            self.lemma_view();
        }
        self.inner.name_part.as_str()
    }

    /// The name that stands for "not resolved": the single part `<unresolved>`.
    pub fn unresolved() -> (n: Self)
        ensures
            n@ == seq![UNRESOLVED_NAME_PART@],
    {
        let n = FullName {
            inner: Rc::new(FullNameInner { name_part: UNRESOLVED_NAME_PART.to_owned(), parent: None }),
        };
        proof {
            n.lemma_view();
        }
        n
    }

    /// Whether this is the name that stands for "not resolved".
    pub fn is_unresolved(&self) -> (b: bool)
        ensures
            b == (self@ == seq![UNRESOLVED_NAME_PART@]),
    {
        let unresolved = Self::unresolved();
        self.eq(&unresolved)
    }

    /// The parts of the name, outermost first.
    pub fn parts(&self) -> (v: Vec<String>)
        ensures
            v@.map_values(|s: String| s@) == self@,
    {
        proof {
            self.lemma_view();
        }
        let mut reversed: Vec<String> = Vec::new();
        reversed.push(self.inner.name_part.clone());
        let mut maybe_parent: Option<&FullName> = self.inner.parent.as_ref();
        proof {
            assert(reversed@.map_values(|s: String| s@).reverse() =~= seq![self.inner.name_part@]);
        }
        while maybe_parent.is_some()
            invariant
                match maybe_parent {
                    Some(p) => self@ == p@ + reversed@.map_values(|s: String| s@).reverse(),
                    None => self@ == reversed@.map_values(|s: String| s@).reverse(),
                },
                reversed@.len() <= self@.len(),
            decreases self@.len() - reversed@.len(),
        {
            let parent = maybe_parent.unwrap();
            proof {
                parent.lemma_view();
            }
            let ghost before = reversed@.map_values(|s: String| s@);
            reversed.push(parent.inner.name_part.clone());
            proof {
                let after = reversed@.map_values(|s: String| s@);
                assert(after =~= before.push(parent.inner.name_part@));
                assert(after.reverse() =~= seq![parent.inner.name_part@] + before.reverse());
                match &parent.inner.parent {
                    Some(q) => {
                        assert(parent@ =~= q@ + seq![parent.inner.name_part@]);
                        assert(self@ =~= q@ + after.reverse());
                    },
                    None => {
                        assert(self@ =~= after.reverse());
                    },
                }
            }
            maybe_parent = parent.inner.parent.as_ref();
        }
        let mut parts: Vec<String> = Vec::new();
        let mut i: usize = reversed.len();
        while i > 0
            invariant
                i <= reversed@.len(),
                self@ == reversed@.map_values(|s: String| s@).reverse(),
                parts@.len() == reversed@.len() - i,
                forall|j: int| 0 <= j < parts@.len() ==> #[trigger] parts@[j]@ == reversed@[reversed@.len() - 1 - j]@,
            decreases i,
        {
            i = i - 1;
            parts.push(reversed[i].clone());
        }
        assert(parts@.map_values(|s: String| s@) =~= self@);
        parts
    }

    /// Appends the name, its parts joined by `::`.
    pub fn push_display(&self, out: &mut String)
        ensures
            final(out)@ == old(out)@ + joined(self@),
        decreases self@.len(),
    {
        proof {
            self.lemma_view();
        }
        match &self.inner.parent {
            Some(p) => {
                proof {
                    p.lemma_view();
                }
                p.push_display(out);
                push_str(out, "::");
            },
            None => {},
        }
        push_str(out, self.inner.name_part.as_str());
        proof {
            if let Some(p) = &self.inner.parent {
                assert(self@.drop_last() =~= p@);
            }
        }
        assert(out@ =~= old(out)@ + joined(self@));
    }

    /// The name, its parts joined by `::`.
    pub fn to_display_string(&self) -> (s: String)
        ensures
            s@ == joined(self@),
    {
        let mut s = String::new();
        self.push_display(&mut s);
        assert(s@ =~= joined(self@));
        s
    }
}

impl PartialEq for FullName {
    fn eq(&self, other: &Self) -> (r: bool) {
        let a = self.parts();
        let b = other.parts();
        if a.len() != b.len() {
            assert(a@.map_values(|s: String| s@).len() != b@.map_values(|s: String| s@).len());
            return false;
        }
        let mut i: usize = 0;
        while i < a.len()
            invariant
                a@.map_values(|s: String| s@) == self@,
                b@.map_values(|s: String| s@) == other@,
                a@.len() == b@.len(),
                i <= a@.len(),
                forall|j: int| 0 <= j < i ==> a@[j]@ == b@[j]@,
            decreases a.len() - i,
        {
            if a[i] != b[i] {
                assert(self@[i as int] != other@[i as int]);
                return false;
            }
            i = i + 1;
        }
        assert(self@ =~= other@);
        true
    }
}

impl vstd::std_specs::cmp::PartialEqSpecImpl for FullName {
    open spec fn obeys_eq_spec() -> bool {
        true
    }

    open spec fn eq_spec(&self, other: &Self) -> bool {
        self@ == other@
    }
}

/// Makes qualified names. Names own their parts and share them by reference counting, so
/// the arena keeps nothing itself.
pub struct Arena {}

impl Arena {
    /// An arena.
    pub fn new() -> (a: Self) {
        Arena {}
    }

    /// The name with the single part `name`, which must not be empty.
    pub fn make_full_name(&self, name: &str) -> (n: FullName)
        requires
            name@.len() > 0,
        ensures
            n@ == seq![name@],
    {
        let n = FullName { inner: Rc::new(FullNameInner { name_part: name.to_owned(), parent: None }) };
        proof {
            n.lemma_view();
        }
        n
    }

    /// The name `name` under `parent`; `name` must not be empty.
    pub fn make_child_name(&self, parent: FullName, name: &str) -> (n: FullName)
        requires
            name@.len() > 0,
        ensures
            n@ == parent@.push(name@),
    {
        let n = FullName {
            inner: Rc::new(FullNameInner { name_part: name.to_owned(), parent: Some(parent) }),
        };
        proof {
            n.lemma_view();
        }
        n
    }
}


/// A child name shows as its parent, `::`, then its own part.
pub proof fn law_child_display(parent: FullName, child: FullName, name: Seq<char>)
    requires
        child@ == parent@.push(name),
    ensures
        joined(child@) == joined(parent@) + "::"@ + name,
{
    parent.lemma_view();
    assert(child@.drop_last() =~= parent@);
}

} // verus!
