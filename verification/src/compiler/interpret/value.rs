//! Panics of interpreted programs, and the factory of values.
use vstd::prelude::*;
use std::rc::Rc;
use crate::compiler::model::type_factory::TypeFactory;
use crate::text::push_str;

verus! {

/// A panic: its message and the stack of frames it passed, innermost last.
pub struct Panic {
    pub message: String,
    pub stack: Vec<String>,
}

/// How a panic is shown: the message, then each frame on a line of its own indented by
/// four spaces, innermost first.
pub open spec fn panic_text(message: Seq<char>, stack: Seq<Seq<char>>) -> Seq<char> {
    message + frames_text(stack, stack.len() as int)
}

/// The lines of the first `n` frames of `stack`, in reverse order: frame `n - 1` first.
pub open spec fn frames_text(stack: Seq<Seq<char>>, n: int) -> Seq<char>
    decreases n,
{
    if n <= 0 || n > stack.len() {
        Seq::empty()
    } else {
        "\n    "@ + stack[n - 1] + frames_text(stack, n - 1)
    }
}

impl Panic {
    /// How the panic is shown (see `panic_text`).
    pub fn to_display_string(&self) -> (s: String)
        ensures
            s@ == panic_text(self.message@, self.stack@.map_values(|f: String| f@)),
    {
        let ghost frames = self.stack@.map_values(|f: String| f@);
        let mut s = String::new();
        push_str(&mut s, self.message.as_str());
        let mut i: usize = self.stack.len();
        while i > 0
            invariant
                frames == self.stack@.map_values(|f: String| f@),
                i <= self.stack@.len(),
                s@ + frames_text(frames, i as int) == panic_text(self.message@, frames),
            decreases i,
        {
            i = i - 1;
            push_str(&mut s, "\n    ");
            push_str(&mut s, self.stack[i].as_str());
        }
        assert(frames_text(frames, 0) =~= Seq::<char>::empty());
        assert(s@ + Seq::<char>::empty() =~= s@);
        s
    }
}

/// Makes the values of interpreted programs, with their types.
pub struct ValueFactory {
    inner: Rc<ValueFactoryInner>,
}

/// What the value factory holds: the factory of the values' types.
pub struct ValueFactoryInner {
    type_factory: TypeFactory,
}

impl ValueFactory {
    /// The factory of the values' types, in specifications.
    pub closed spec fn spec_type_factory(&self) -> TypeFactory {
        self.inner.type_factory
    }

    /// A value factory whose values take their types from `type_factory`.
    pub fn new(type_factory: TypeFactory) -> (f: Self)
        ensures
            f.spec_type_factory() == type_factory,
    {
        ValueFactory { inner: Rc::new(ValueFactoryInner { type_factory }) }
    }
}

} // verus!
