//! Environments of the interpreter: the values of variables, in frames from the outermost
//! to the innermost, and how reads and writes find them.
use vstd::prelude::*;
use crate::text::{owned, push_signed_decimal, push_str, signed_decimal, str_equal};

verus! {

/// The value bound to `name` in a frame: the latest binding, if any.
pub open spec fn frame_lookup<V>(frame: Seq<(String, V)>, name: Seq<char>) -> Option<V>
    decreases frame.len(),
{
    if frame.len() == 0 {
        None
    } else if frame.last().0@ == name {
        Some(frame.last().1)
    } else {
        frame_lookup(frame.drop_last(), name)
    }
}

/// The index of the innermost of the first `n` frames that binds `name`, if any.
pub open spec fn binding_frame<V>(frames: Seq<Seq<(String, V)>>, name: Seq<char>, n: nat) -> Option<int>
    decreases n,
{
    if n == 0 || n > frames.len() {
        None
    } else if frame_lookup(frames[n - 1], name) is Some {
        Some(n - 1)
    } else {
        binding_frame(frames, name, (n - 1) as nat)
    }
}

/// The error for a read of a variable that no frame binds.
pub open spec fn get_error(name: Seq<char>) -> Seq<char> {
    "No variable named '"@ + name + "' defined (get)"@
}

/// The error for a write to a variable that no frame binds.
pub open spec fn assign_error(name: Seq<char>) -> Seq<char> {
    "No variable named '"@ + name + "' defined (assign)"@
}

/// The error for a read or write at `distance` of a variable that that frame does not bind.
pub open spec fn distance_error(name: Seq<char>, distance: int) -> Seq<char> {
    "No variable named '"@ + name + "' defined (get at distance "@ + signed_decimal(distance)
        + ") "@
}

/// The error for a distance past the outermost frame.
pub open spec fn parent_error(name: Seq<char>) -> Seq<char> {
    "Failed to get parent when retrieving '"@ + name + "'"@
}

/// The frame `distance` frames out from the innermost of `len` frames (a negative distance
/// counts as none), if there is one.
pub open spec fn frame_at_distance(len: nat, distance: int) -> Option<int> {
    let d = if distance < 0 {
        0
    } else {
        distance
    };
    if d < len {
        Some(len - 1 - d)
    } else {
        None
    }
}

/// The values of variables, in frames: the first is the outermost, the last the innermost.
pub struct Environment<V> {
    frames: Vec<Vec<(String, V)>>,
}

impl<V> Environment<V> {
    /// The frames, outermost first.
    pub closed spec fn spec_frames(&self) -> Seq<Seq<(String, V)>> {
        self.frames@.map_values(|f: Vec<(String, V)>| f@)
    }

    /// An environment of one empty frame.
    pub fn new() -> (e: Self)
        ensures
            e.spec_frames() == seq![Seq::<(String, V)>::empty()],
    {
        let mut frames = Vec::new();
        frames.push(Vec::new());
        let e = Environment { frames };
        assert(e.spec_frames() =~= seq![Seq::<(String, V)>::empty()]);
        e
    }

    /// The index of the latest binding of `name` in `frame`, if any.
    fn frame_find(frame: &Vec<(String, V)>, name: &str) -> (r: Option<usize>)
        ensures
            match frame_lookup(frame@, name@) {
                Some(v) => r matches Some(j) && j < frame@.len() && frame@[j as int].1 == v,
                None => r is None,
            },
    {
        let mut i = frame.len();
        assert(frame@.take(i as int) =~= frame@);
        while i > 0
            invariant
                i <= frame@.len(),
                frame_lookup(frame@, name@) == frame_lookup(frame@.take(i as int), name@),
            decreases i,
        {
            assert(frame@.take(i as int).last() == frame@[i - 1]);
            assert(frame@.take(i as int).drop_last() =~= frame@.take(i - 1));
            if str_equal(frame[i - 1].0.as_str(), name) {
                return Some(i - 1);
            }
            i = i - 1;
        }
        None
    }

    /// The index of the innermost frame that binds `name` (see `binding_frame`).
    fn find_frame(&self, name: &str) -> (r: Option<usize>)
        ensures
            r matches Some(k) ==> binding_frame(self.spec_frames(), name@, self.spec_frames().len()) == Some(k as int)
                && k < self.spec_frames().len() && frame_lookup(self.spec_frames()[k as int], name@) is Some,
            r is None ==> binding_frame(self.spec_frames(), name@, self.spec_frames().len()) is None,
    {
        let ghost frames = self.spec_frames();
        let mut k = self.frames.len();
        while k > 0
            invariant
                k <= frames.len(),
                frames == self.spec_frames(),
                frames.len() == self.frames@.len(),
                binding_frame(frames, name@, frames.len()) == binding_frame(frames, name@, k as nat),
            decreases k,
        {
            assert(frames[k - 1] == self.frames@[k - 1]@);
            if Self::frame_find(&self.frames[k - 1], name).is_some() {
                return Some(k - 1);
            }
            k = k - 1;
        }
        None
    }

    /// The value bound to `name` in the frame `k`.
    fn value_in(&self, k: usize, name: &str) -> (r: &V)
        requires
            k < self.spec_frames().len(),
            frame_lookup(self.spec_frames()[k as int], name@) is Some,
        ensures
            frame_lookup(self.spec_frames()[k as int], name@) == Some(*r),
    {
        let frame = &self.frames[k];
        assert(frame@ == self.spec_frames()[k as int]);
        match Self::frame_find(frame, name) {
            Some(j) => &frame[j].1,
            None => {
                assert(false);
                &frame[0].1
            },
        }
    }

    /// Binds `value` to `name` in `self`'s frame `k` (see `rebound`).
    fn bind_in(&mut self, k: usize, name: &str, value: V)
        requires
            k < old(self).spec_frames().len(),
        ensures
            rebound(old(self).spec_frames(), final(self).spec_frames(), k as int, name@, value),
    {
        let ghost before = self.frames@;
        let mut frame = self.frames.remove(k);
        let ghost old_frame = frame@;
        frame.push((owned(name), value));
        let ghost new_frame = frame@;
        self.frames.insert(k, frame);
        proof {
            assert(self.frames@ =~= before.update(k as int, self.frames@[k as int]));
            assert(self.frames@[k as int]@ == new_frame);
            assert forall|i: int| 0 <= i < before.len() && i != k implies #[trigger] self.spec_frames()[i]
                == old(self).spec_frames()[i] by {
                assert(self.frames@[i] == before[i]);
            }
            assert(new_frame.drop_last() =~= old_frame);
        }
    }

    /// Binds `value` to `name` in the innermost frame.
    pub fn define(&mut self, name: &str, value: V)
        requires
            old(self).spec_frames().len() > 0,
        ensures
            rebound(old(self).spec_frames(), final(self).spec_frames(), old(self).spec_frames().len() - 1, name@, value),
    {
        let k = self.frames.len() - 1;
        self.bind_in(k, name, value);
    }

    /// The value of the variable `name`: the binding of the innermost frame that binds it
    /// (see `env_value`); an error when no frame does.
    pub fn get(&self, name: &str) -> (r: Result<&V, String>)
        ensures
            match env_value(self.spec_frames(), name@) {
                Some(v) => r matches Ok(x) && *x == v,
                None => r matches Err(m) && m@ == get_error(name@),
            },
    {
        match self.find_frame(name) {
            Some(k) => Ok(self.value_in(k, name)),
            None => {
                let mut m = owned("No variable named '");
                push_str(&mut m, name);
                push_str(&mut m, "' defined (get)");
                Err(m)
            },
        }
    }

    /// Writes `value` to the variable `name` in the innermost frame that binds it; an
    /// error, and no change, when no frame does.
    pub fn assign(&mut self, name: &str, value: V) -> (r: Result<(), String>)
        ensures
            match binding_frame(old(self).spec_frames(), name@, old(self).spec_frames().len()) {
                Some(k) => r is Ok && rebound(old(self).spec_frames(), final(self).spec_frames(), k, name@, value),
                None => r matches Err(m) && m@ == assign_error(name@) && final(self).spec_frames() == old(self).spec_frames(),
            },
    {
        match self.find_frame(name) {
            Some(k) => {
                self.bind_in(k, name, value);
                Ok(())
            },
            None => {
                let mut m = owned("No variable named '");
                push_str(&mut m, name);
                push_str(&mut m, "' defined (assign)");
                Err(m)
            },
        }
    }

    /// The error for a read or write of `name` at `distance`: a distance past the outermost
    /// frame, or a frame that does not bind the name.
    fn distance_error_message(&self, name: &str, distance: i32) -> (m: String)
        requires
            self.spec_frames().len() > 0,
        ensures
            m@ == if frame_at_distance(self.spec_frames().len(), distance as int) is None {
                parent_error(name@)
            } else {
                distance_error(name@, distance as int)
            },
    {
        let len = self.frames.len();
        let d: usize = if distance < 0 { 0 } else { distance as usize };
        if d >= len {
            let mut m = owned("Failed to get parent when retrieving '");
            push_str(&mut m, name);
            push_str(&mut m, "'");
            m
        } else {
            let mut m = owned("No variable named '");
            push_str(&mut m, name);
            push_str(&mut m, "' defined (get at distance ");
            push_signed_decimal(&mut m, distance as i64);
            push_str(&mut m, ") ");
            m
        }
    }

    /// The frame `distance` frames out from the innermost (see `frame_at_distance`).
    fn frame_index_at(&self, distance: i32) -> (r: Option<usize>)
        ensures
            r matches Some(k) ==> frame_at_distance(self.spec_frames().len(), distance as int) == Some(k as int),
            r is None ==> frame_at_distance(self.spec_frames().len(), distance as int) is None,
    {
        let len = self.frames.len();
        let d: usize = if distance < 0 { 0 } else { distance as usize };
        if d < len {
            Some(len - 1 - d)
        } else {
            None
        }
    }

    /// The value of `name` in the frame `distance` frames out from the innermost, as name
    /// resolution found it; an error when there is no such frame or it does not bind the
    /// name.
    pub fn get_at_distance(&self, name: &str, distance: i32) -> (r: Result<&V, String>)
        requires
            self.spec_frames().len() > 0,
        ensures
            match frame_at_distance(self.spec_frames().len(), distance as int) {
                None => r matches Err(m) && m@ == parent_error(name@),
                Some(k) => match frame_lookup(self.spec_frames()[k], name@) {
                    Some(v) => r matches Ok(x) && *x == v,
                    None => r matches Err(m) && m@ == distance_error(name@, distance as int),
                },
            },
    {
        match self.frame_index_at(distance) {
            Some(k) => {
                assert(frame_at_distance(self.spec_frames().len(), distance as int) == Some(k as int));
                let frame = &self.frames[k];
                assert(frame@ == self.spec_frames()[k as int]);
                match Self::frame_find(frame, name) {
                    Some(j) => Ok(&frame[j].1),
                    None => Err(self.distance_error_message(name, distance)),
                }
            },
            None => Err(self.distance_error_message(name, distance)),
        }
    }

    /// Writes `value` to `name` in the frame `distance` frames out from the innermost; an
    /// error, and no change, when there is no such frame or it does not bind the name.
    pub fn assign_at_distance(&mut self, name: &str, distance: i32, value: V) -> (r: Result<(), String>)
        requires
            old(self).spec_frames().len() > 0,
        ensures
            match frame_at_distance(old(self).spec_frames().len(), distance as int) {
                None => r matches Err(m) && m@ == parent_error(name@) && final(self).spec_frames() == old(self).spec_frames(),
                Some(k) => match frame_lookup(old(self).spec_frames()[k], name@) {
                    Some(_) => r is Ok && rebound(old(self).spec_frames(), final(self).spec_frames(), k, name@, value),
                    None => r matches Err(m) && m@ == distance_error(name@, distance as int)
                        && final(self).spec_frames() == old(self).spec_frames(),
                },
            },
    {
        match self.frame_index_at(distance) {
            Some(k) => {
                assert(frame_at_distance(self.spec_frames().len(), distance as int) == Some(k as int));
                assert(self.frames@[k as int]@ == self.spec_frames()[k as int]);
                if Self::frame_find(&self.frames[k], name).is_some() {
                    self.bind_in(k, name, value);
                    Ok(())
                } else {
                    Err(self.distance_error_message(name, distance))
                }
            },
            None => Err(self.distance_error_message(name, distance)),
        }
    }

    /// Opens a new innermost frame, empty.
    pub fn enter_new(&mut self)
        ensures
            final(self).spec_frames() == old(self).spec_frames().push(Seq::empty()),
    {
        self.frames.push(Vec::new());
        assert(self.spec_frames() =~= old(self).spec_frames().push(Seq::empty()));
    }

    /// Closes the innermost frame.
    pub fn exit(&mut self)
        requires
            old(self).spec_frames().len() > 1,
        ensures
            final(self).spec_frames() == old(self).spec_frames().drop_last(),
    {
        self.frames.pop();
        assert(self.spec_frames() =~= old(self).spec_frames().drop_last());
    }
}

/// `after` is `before` with `value` bound to `name` last in frame `k`, the other frames
/// as they were.
pub open spec fn rebound<V>(before: Seq<Seq<(String, V)>>, after: Seq<Seq<(String, V)>>, k: int, name: Seq<char>, value: V) -> bool {
    &&& after.len() == before.len()
    &&& 0 <= k < before.len()
    &&& after[k].len() == before[k].len() + 1
    &&& after[k].drop_last() == before[k]
    &&& after[k].last().0@ == name
    &&& after[k].last().1 == value
    &&& forall|i: int| 0 <= i < before.len() && i != k ==> #[trigger] after[i] == before[i]
}

/// The value of `name`: its binding in the innermost frame that binds it, if any.
pub open spec fn env_value<V>(frames: Seq<Seq<(String, V)>>, name: Seq<char>) -> Option<V> {
    match binding_frame(frames, name, frames.len()) {
        Some(k) => frame_lookup(frames[k], name),
        None => None,
    }
}

/// A read after a definition in the innermost frame gives the defined value.
pub proof fn law_get_after_define<V>(before: Seq<Seq<(String, V)>>, after: Seq<Seq<(String, V)>>, name: Seq<char>, value: V)
    requires
        before.len() > 0,
        rebound(before, after, before.len() - 1, name, value),
    ensures
        env_value(after, name) == Some(value),
{
    assert(after[after.len() - 1].drop_last() == before[before.len() - 1]);
}

/// A definition or assignment of one name leaves the value of every other name as it was.
pub proof fn law_rebind_keeps_others<V>(before: Seq<Seq<(String, V)>>, after: Seq<Seq<(String, V)>>, k: int, name: Seq<char>, value: V, other: Seq<char>)
    requires
        rebound(before, after, k, name, value),
        other != name,
    ensures
        env_value(after, other) == env_value(before, other),
{
    assert(after[k].drop_last() == before[k]);
    assert(frame_lookup(after[k], other) == frame_lookup(before[k], other));
    lemma_binding_frame_same(before, after, k, other, before.len());
    match binding_frame(before, other, before.len()) {
        Some(j) => {
            lemma_binding_frame_bounds(before, other, before.len());
            if j != k {
                assert(after[j] == before[j]);
            }
        },
        None => {},
    }
}

proof fn lemma_binding_frame_bounds<V>(frames: Seq<Seq<(String, V)>>, name: Seq<char>, n: nat)
    ensures
        binding_frame(frames, name, n) matches Some(k) ==> 0 <= k < n && k < frames.len(),
    decreases n,
{
    if n > 0 {
        lemma_binding_frame_bounds(frames, name, (n - 1) as nat);
    }
}

proof fn lemma_binding_frame_same<V>(before: Seq<Seq<(String, V)>>, after: Seq<Seq<(String, V)>>, k: int, other: Seq<char>, n: nat)
    requires
        after.len() == before.len(),
        n <= before.len(),
        frame_lookup(after[k], other) == frame_lookup(before[k], other),
        forall|i: int| 0 <= i < before.len() && i != k ==> #[trigger] after[i] == before[i],
    ensures
        binding_frame(after, other, n) == binding_frame(before, other, n),
    decreases n,
{
    if n > 0 {
        lemma_binding_frame_same(before, after, k, other, (n - 1) as nat);
    }
}

} // verus!
