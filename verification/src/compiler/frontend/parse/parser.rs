//! The module name that the parser gives a source file.
use vstd::prelude::*;
use crate::text::{push_char, str_chars};

verus! {

/// The name of the module defined by the file at `file_path`: the file name (what follows
/// the last `/`) up to its first `.`.
pub fn module_name_from_path(file_path: &str) -> (r: String)
    ensures
        exists|k: int, m: int|
            #![trigger file_path@.subrange(k, m)]
            0 <= k <= m <= file_path@.len() && (k == 0 || file_path@[k - 1] == '/') && (forall|
                j: int,
            |
                k <= j < file_path@.len() ==> file_path@[j] != '/') && (forall|j: int|
                k <= j < m ==> file_path@[j] != '.') && (m == file_path@.len() || file_path@[m]
                == '.') && r@ == file_path@.subrange(k, m),
{
    let chars = str_chars(file_path);
    let mut k: usize = chars.len();
    while k > 0 && chars[k - 1] != '/'
        invariant
            chars@ == file_path@,
            k <= chars@.len(),
            forall|j: int| k <= j < chars@.len() ==> chars@[j] != '/',
        decreases k,
    {
        k = k - 1;
    }
    let mut m: usize = k;
    while m < chars.len() && chars[m] != '.'
        invariant
            chars@ == file_path@,
            k <= m <= chars@.len(),
            forall|j: int| k <= j < m ==> chars@[j] != '.',
        decreases chars.len() - m,
    {
        m = m + 1;
    }
    let mut name = String::new();
    let mut i: usize = k;
    while i < m
        invariant
            chars@ == file_path@,
            k <= i <= m <= chars@.len(),
            name@ == chars@.subrange(k as int, i as int),
        decreases m - i,
    {
        push_char(&mut name, chars[i]);
        i = i + 1;
        assert(name@ =~= chars@.subrange(k as int, i as int));
    }
    name
}

} // verus!
