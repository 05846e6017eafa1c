//! A typed arena: values are added and removed, and reached through handles that
//! carry the arena's cookie, the value's index and the entry's generation.
use vstd::prelude::*;
use std::marker::PhantomData;
use crate::base::error::{FelicoError, FelicoResult};
use crate::text::{decimal, push_decimal, push_str};

verus! {

/// Calls `rand::random::<u8>()`: a random byte (any byte may come back).
#[verifier::external_body]
fn random_u8() -> u8 {
    rand::random::<u8>()
}

/// A typed arena.
pub struct TypedArena<T> {
    data: Vec<ArenaEntry<T>>,
    next_free: u32,
    cookie: u64,
}

enum ArenaEntry<T> {
    Occupied { value: T, generation: u8 },
    Free { next_free: u32, generation: u8 },
}

/// A handle to a value of a typed arena.
pub struct TypedArenaHandle<T> {
    phantom_data: PhantomData<T>,
    key: u64,
}

/// The mask of the cookie bits of a key.
pub const COOKIE_MASK: u64 = 0xFF00_0000_0000_0000;

/// The error for a handle of another arena.
pub const WRONG_COOKIE: &'static str = "Wrong cookie used to access arena";

/// The start of the error for an index past the arena.
pub const INDEX_OUT_OF_BOUNDS: &'static str = "Index out of bounds: ";

/// The start of the error for a stale handle.
pub const GENERATION_MISMATCH: &'static str = "Generation mismatch - expected: ";

/// The start of the error for a handle to a removed value.
pub const ARENA_IS_FREE: &'static str = "Arena is free at index ";

/// The cookie bits of a key.
pub open spec fn key_cookie(key: u64) -> u64 {
    key & 0xFF00_0000_0000_0000u64
}

/// The generation carried by a key.
pub open spec fn key_generation(key: u64) -> u8 {
    ((key >> 48u64) & 0xFFu64) as u8
}

/// The index carried by a key.
pub open spec fn key_index(key: u64) -> u64 {
    key & 0xFFFF_FFFFu64
}

/// The key of the value at `index` with generation `generation` in an arena with `cookie`.
pub open spec fn make_key(index: u64, generation: u64, cookie: u64) -> u64 {
    (index & 0xFFFF_FFFFu64) | (generation << 48u64) | cookie
}

/// A key made for index `index`, generation 0 and a cookie with only its top byte
/// set carries that cookie, generation 0 and the low 32 bits of the index.
pub proof fn lemma_make_key(index: u64, cookie: u64)
    requires
        cookie & 0x00FF_FFFF_FFFF_FFFFu64 == 0,
    ensures
        key_cookie(make_key(index, 0, cookie)) == cookie,
        key_generation(make_key(index, 0, cookie)) == 0,
        key_index(make_key(index, 0, cookie)) == index & 0xFFFF_FFFFu64,
{
    assert(((index & 0xFFFF_FFFFu64) | (0u64 << 48u64) | cookie) & 0xFF00_0000_0000_0000u64 == cookie)
        by (bit_vector)
        requires
            cookie & 0x00FF_FFFF_FFFF_FFFFu64 == 0,
    ;
    assert(((((index & 0xFFFF_FFFFu64) | (0u64 << 48u64) | cookie) >> 48u64) & 0xFFu64) as u8 == 0)
        by (bit_vector)
        requires
            cookie & 0x00FF_FFFF_FFFF_FFFFu64 == 0,
    ;
    assert(((index & 0xFFFF_FFFFu64) | (0u64 << 48u64) | cookie) & 0xFFFF_FFFFu64 == index
        & 0xFFFF_FFFFu64) by (bit_vector)
        requires
            cookie & 0x00FF_FFFF_FFFF_FFFFu64 == 0,
    ;
}

/// What looking up `key` in an arena gives: the value, or the error message.
pub open spec fn spec_lookup<T>(a: TypedArena<T>, key: u64) -> Result<T, Seq<char>> {
    let index = key_index(key);
    if key_cookie(key) != a.spec_cookie() {
        Err(WRONG_COOKIE@)
    } else if index >= a.spec_len() {
        Err(INDEX_OUT_OF_BOUNDS@ + decimal(index as nat) + " >= "@ + decimal(a.spec_len()))
    } else {
        match a.spec_value_at(index as int) {
            Some(v) => if key_generation(key) != a.spec_generation_at(index as int) {
                Err(GENERATION_MISMATCH@ + decimal(a.spec_generation_at(index as int) as nat)
                    + ", actual: "@ + decimal(key_generation(key) as nat))
            } else {
                Ok(v)
            },
            None => Err(ARENA_IS_FREE@ + decimal(index as nat)),
        }
    }
}

/// `b` is `a` with `value` added as a new last entry of generation 0.
pub open spec fn spec_added<T>(a: TypedArena<T>, b: TypedArena<T>, value: T) -> bool {
    &&& b.spec_len() == a.spec_len() + 1
    &&& b.spec_cookie() == a.spec_cookie()
    &&& b.spec_cookie() & 0x00FF_FFFF_FFFF_FFFFu64 == 0
    &&& b.spec_value_at(a.spec_len() as int) == Some(value)
    &&& b.spec_generation_at(a.spec_len() as int) == 0
    &&& forall|i: int|
        0 <= i < a.spec_len() ==> #[trigger] b.spec_value_at(i) == a.spec_value_at(i)
            && b.spec_generation_at(i) == a.spec_generation_at(i)
}

/// `b` is `a` with the entry that `key` indexes freed, one generation later.
pub open spec fn spec_removed<T>(a: TypedArena<T>, b: TypedArena<T>, key: u64) -> bool {
    &&& b.spec_len() == a.spec_len()
    &&& b.spec_cookie() == a.spec_cookie()
    &&& b.spec_value_at(key_index(key) as int) is None
    &&& b.spec_generation_at(key_index(key) as int) == key_generation(key) + 1
    &&& forall|i: int|
        0 <= i < a.spec_len() && i != key_index(key) ==> #[trigger] b.spec_value_at(i)
            == a.spec_value_at(i) && b.spec_generation_at(i) == a.spec_generation_at(i)
}

/// Reading back an added value: the handle that `add` returns gives the value
/// (while the arena has fewer than 2^32 entries, so that the index fits the key).
pub proof fn law_get_after_add<T>(a: TypedArena<T>, b: TypedArena<T>, value: T)
    requires
        spec_added(a, b, value),
        a.spec_len() < 0x1_0000_0000,
    ensures
        spec_lookup(b, make_key(a.spec_len() as u64, 0, a.spec_cookie())) == Ok::<T, Seq<char>>(
            value,
        ),
{
    let index = a.spec_len() as u64;
    lemma_make_key(index, a.spec_cookie());
    assert(index & 0xFFFF_FFFFu64 == index) by (bit_vector)
        requires
            index < 0x1_0000_0000u64,
    ;
}

/// A removed value cannot be reached any more: its handle reports the freed index.
pub proof fn law_get_after_remove<T>(a: TypedArena<T>, b: TypedArena<T>, key: u64)
    requires
        spec_lookup(a, key) is Ok,
        spec_removed(a, b, key),
    ensures
        spec_lookup(b, key) == Err::<T, Seq<char>>(ARENA_IS_FREE@ + decimal(key_index(key) as nat)),
{
}

/// Removing one value leaves every handle to another index as it was.
pub proof fn law_remove_keeps_others<T>(a: TypedArena<T>, b: TypedArena<T>, key: u64, other: u64)
    requires
        spec_lookup(a, key) is Ok,
        spec_removed(a, b, key),
        key_index(other) != key_index(key),
    ensures
        spec_lookup(b, other) == spec_lookup(a, other),
{
}


/// Removing a value twice: after a removal that succeeded, the handle reports the freed
/// index, so a second `remove` (like `get`) fails with "Arena is free at index i" and,
/// by the contract of `remove`, leaves the arena as it is; every handle to another index
/// reads as it did before the removal.
pub proof fn law_remove_twice<T>(a: TypedArena<T>, b: TypedArena<T>, key: u64, other: u64)
    requires
        spec_lookup(a, key) is Ok,
        spec_removed(a, b, key),
        key_index(other) != key_index(key),
    ensures
        spec_lookup(b, key) == Err::<T, Seq<char>>(ARENA_IS_FREE@ + decimal(key_index(key) as nat)),
        spec_lookup(b, other) == spec_lookup(a, other),
{
    law_get_after_remove(a, b, key);
    law_remove_keeps_others(a, b, key, other);
}

impl<T> TypedArenaHandle<T> {
    /// The key of the handle, in specifications.
    pub closed spec fn spec_key(&self) -> u64 {
        self.key
    }
}

impl<T> TypedArena<T> {
    /// The number of entries (occupied or free), in specifications.
    pub closed spec fn spec_len(&self) -> nat {
        self.data@.len()
    }

    /// The cookie of the arena, in specifications.
    pub closed spec fn spec_cookie(&self) -> u64 {
        self.cookie
    }

    /// The value at `index`, if the entry is occupied.
    pub closed spec fn spec_value_at(&self, index: int) -> Option<T> {
        match self.data@[index] {
            ArenaEntry::Occupied { value, .. } => Some(value),
            ArenaEntry::Free { .. } => None,
        }
    }

    /// The generation of the entry at `index`.
    pub closed spec fn spec_generation_at(&self, index: int) -> u8 {
        match self.data@[index] {
            ArenaEntry::Occupied { generation, .. } => generation,
            ArenaEntry::Free { generation, .. } => generation,
        }
    }

    /// Cookies only use the top byte; occupied entries are of generation 0.
    #[verifier::type_invariant]
    closed spec fn inv(&self) -> bool {
        &&& self.cookie & 0x00FF_FFFF_FFFF_FFFFu64 == 0
        &&& forall|i: int|
            0 <= i < self.data@.len() ==> (#[trigger] self.data@[i] matches ArenaEntry::Occupied {
                generation,
                ..
            } ==> generation == 0)
    }

    /// An empty arena, with a random cookie.
    pub fn new() -> (a: Self)
        ensures
            a.spec_len() == 0,
    {
        let r = random_u8();
        let cookie = (r as u64) << 56u64;
        assert(cookie & 0x00FF_FFFF_FFFF_FFFFu64 == 0) by (bit_vector)
            requires
                cookie == (r as u64) << 56u64,
        ;
        Self { data: Vec::new(), next_free: u32::MAX, cookie }
    }

    /// Adds a value; the handle carries the arena's cookie, generation 0 and the
    /// value's index.
    pub fn add(&mut self, value: T) -> (r: FelicoResult<TypedArenaHandle<T>>)
        ensures
            spec_added(*old(self), *final(self), value),
            r matches Ok(h) && h.spec_key() == make_key(
                old(self).spec_len() as u64,
                0,
                old(self).spec_cookie(),
            ),
    {
        proof { use_type_invariant(&*self); }
        let generation: u64 = 0;
        let key = ((self.data.len() as u64) & 0xFFFF_FFFF) | (generation << 48u64) | self.cookie;
        let mut data: Vec<ArenaEntry<T>> = Vec::new();
        std::mem::swap(&mut data, &mut self.data);
        data.push(ArenaEntry::Occupied { value, generation: 0 });
        self.data = data;
        Ok(TypedArenaHandle { phantom_data: PhantomData, key })
    }

    fn check_and_extract_index(&self, handle: &TypedArenaHandle<T>) -> (r: FelicoResult<(u8, u64)>)
        ensures
            match r {
                Ok((generation, index)) => {
                    &&& key_cookie(handle.spec_key()) == self.spec_cookie()
                    &&& index == key_index(handle.spec_key())
                    &&& generation == key_generation(handle.spec_key())
                    &&& index < self.spec_len()
                },
                Err(e) => {
                    &&& spec_lookup(*self, handle.spec_key()) == Err::<T, Seq<char>>(e.message@)
                    &&& (key_cookie(handle.spec_key()) != self.spec_cookie()
                        || key_index(handle.spec_key()) >= self.spec_len())
                },
            },
    {
        let cookie = handle.key & COOKIE_MASK;
        if cookie != self.cookie {
            let mut message = String::new();
            push_str(&mut message, WRONG_COOKIE);
            return Err(FelicoError::message(message));
        }
        let index_generation = ((handle.key >> 48u64) & 0xFF) as u8;
        let index = handle.key & 0xFFFF_FFFF;
        if index >= self.data.len() as u64 {
            let mut message = String::new();
            push_str(&mut message, INDEX_OUT_OF_BOUNDS);
            push_decimal(&mut message, index);
            push_str(&mut message, " >= ");
            push_decimal(&mut message, self.data.len() as u64);
            return Err(FelicoError::message(message));
        }
        Ok((index_generation, index))
    }

    /// The value a handle refers to; an error when the handle belongs to another
    /// arena, its index is past the arena, its generation is stale or the value
    /// was removed.
    pub fn get(&self, handle: &TypedArenaHandle<T>) -> (r: FelicoResult<&T>)
        ensures
            match spec_lookup(*self, handle.spec_key()) {
                Ok(v) => r matches Ok(x) && *x == v,
                Err(m) => r matches Err(e) && e.message@ == m,
            },
    {
        let (index_generation, index) = match self.check_and_extract_index(handle) {
            Ok(p) => p,
            Err(e) => { return Err(e); },
        };
        let len = self.data.len();
        assert(index < len);
        let i = index as usize;
        let entry = &self.data[i];
        assert(*entry == self.data@[index as int]);
        match entry {
            ArenaEntry::Occupied { value, generation } => {
                if index_generation != *generation {
                    let mut message = String::new();
                    push_str(&mut message, GENERATION_MISMATCH);
                    push_decimal(&mut message, *generation as u64);
                    push_str(&mut message, ", actual: ");
                    push_decimal(&mut message, index_generation as u64);
                    return Err(FelicoError::message(message));
                }
                Ok(value)
            },
            ArenaEntry::Free { .. } => {
                let mut message = String::new();
                push_str(&mut message, ARENA_IS_FREE);
                push_decimal(&mut message, index);
                Err(FelicoError::message(message))
            },
        }
    }
}

impl<T> TypedArena<T> {
    /// Removes the value a handle refers to: its entry becomes free, one generation
    /// later; the errors are those of `get`, and then nothing changes.
    pub fn remove(&mut self, handle: &TypedArenaHandle<T>) -> (r: FelicoResult<()>)
        ensures
            match spec_lookup(*old(self), handle.spec_key()) {
                Ok(_) => {
                    &&& r is Ok
                    &&& spec_removed(*old(self), *final(self), handle.spec_key())
                },
                Err(m) => r matches Err(e) && e.message@ == m && *final(self) == *old(self),
            },
    {
        proof { use_type_invariant(&*self); }
        let (index_generation, index) = match self.check_and_extract_index(handle) {
            Ok(p) => p,
            Err(e) => { return Err(e); },
        };
        let len = self.data.len();
        assert(index < len);
        let i = index as usize;
        let (generation, free) = match &self.data[i] {
            ArenaEntry::Occupied { generation, .. } => (*generation, false),
            ArenaEntry::Free { generation, .. } => (*generation, true),
        };
        if free {
            let mut message = String::new();
            push_str(&mut message, ARENA_IS_FREE);
            push_decimal(&mut message, index);
            return Err(FelicoError::message(message));
        }
        if index_generation != generation {
            let mut message = String::new();
            push_str(&mut message, GENERATION_MISMATCH);
            push_decimal(&mut message, generation as u64);
            push_str(&mut message, ", actual: ");
            push_decimal(&mut message, index_generation as u64);
            return Err(FelicoError::message(message));
        }
        let key = handle.key;
        assert(index <= 0xFFFF_FFFFu64) by (bit_vector)
            requires
                index == key & 0xFFFF_FFFFu64,
        ;
        let mut data: Vec<ArenaEntry<T>> = Vec::new();
        std::mem::swap(&mut data, &mut self.data);
        data.set(i, ArenaEntry::Free { next_free: self.next_free, generation: index_generation + 1 });
        self.data = data;
        self.next_free = index as u32;
        Ok(())
    }
}

impl<T> Default for TypedArena<T> {
    fn default() -> (a: Self)
        ensures
            a.spec_len() == 0,
    {
        Self::new()
    }
}

} // verus!
