//! Manifests: the entries that a module exports, with their type signatures.
use vstd::prelude::*;
use vstd::multiset::Multiset;
use vstd::utf8::encode_utf8;
use itertools::Itertools;
use crate::compiler::infra::full_name::FullName;
use crate::text::push_str;

verus! {

/// The manifests of the modules of a bundle.
pub struct BundleManifest {
    pub name: FullName,
    pub modules: Vec<ModuleManifest>,
}

/// The entries of a module, each under its key.
pub struct ModuleManifest {
    pub name: FullName,
    pub module_entries: Vec<(String, ModuleEntry)>,
}

/// An entry of a module: its name and type signature.
pub struct ModuleEntry {
    pub name: String,
    pub type_signature: String,
}

/// `a` comes no later than `b` in the lexicographic order of their bytes (the order of
/// `str`).
pub open spec fn bytes_le(a: Seq<u8>, b: Seq<u8>) -> bool
    decreases a.len(),
{
    if a.len() == 0 {
        true
    } else if b.len() == 0 {
        false
    } else if a[0] != b[0] {
        a[0] < b[0]
    } else {
        bytes_le(a.skip(1), b.skip(1))
    }
}

/// The keys of the entries come in the order of `str`.
pub open spec fn sorted_by_key(s: Seq<(String, ModuleEntry)>) -> bool {
    forall|i: int, j: int|
        0 <= i < j < s.len() ==> bytes_le(encode_utf8(#[trigger] s[i].0@), encode_utf8(#[trigger] s[j].0@))
}

/// The line of an entry: two spaces, the name, `: ` and the type signature.
pub open spec fn entry_line(e: ModuleEntry) -> Seq<char> {
    "  "@ + e.name@ + ": "@ + e.type_signature@ + "\n"@
}

/// The lines of the first `n` entries.
pub open spec fn entries_text(s: Seq<(String, ModuleEntry)>, n: int) -> Seq<char>
    decreases n,
{
    if n <= 0 || n > s.len() {
        Seq::empty()
    } else {
        entries_text(s, n - 1) + entry_line(s[n - 1].1)
    }
}

/// The printed manifest: `Module`, then the lines of the entries in the given order.
pub open spec fn manifest_text(s: Seq<(String, ModuleEntry)>) -> Seq<char> {
    "Module\n"@ + entries_text(s, s.len() as int)
}

/// The entries ordered by key (`Itertools::sorted_by_key`, a stable sort by the keys'
/// `str` order): a permutation of them in which the keys come in order.
#[verifier::external_body]
fn sorted_by_name(entries: &Vec<(String, ModuleEntry)>) -> (r: Vec<&(String, ModuleEntry)>)
    ensures
        r@.map_values(|e: &(String, ModuleEntry)| *e).to_multiset() == entries@.to_multiset(),
        sorted_by_key(r@.map_values(|e: &(String, ModuleEntry)| *e)),
{
    entries.iter().sorted_by_key(|entry| &entry.0).collect()
}

/// No two entries have keys of the same text: the entries form a map by key.
pub open spec fn keys_unique(entries: Seq<(String, ModuleEntry)>) -> bool {
    forall|i: int, j: int|
        0 <= i < entries.len() && 0 <= j < entries.len() && i != j ==> #[trigger] entries[i].0@
            != #[trigger] entries[j].0@
}

impl ModuleManifest {
    /// The entries form a map by key, as every manifest's entries do.
    pub open spec fn wf(&self) -> bool {
        keys_unique(self.module_entries@)
    }

    /// The manifest as text: `Module`, then one line per entry in the order of their keys
    /// (see `manifest_text`); every ordering of the entries by key gives this text.
    pub fn as_pretty_string(&self) -> (s: String)
        requires
            self.wf(),
        ensures
            exists|p: Seq<(String, ModuleEntry)>|
                #![trigger manifest_text(p)]
                p.to_multiset() == self.module_entries@.to_multiset() && sorted_by_key(p) && s@
                    == manifest_text(p),
            forall|p: Seq<(String, ModuleEntry)>|
                p.to_multiset() == self.module_entries@.to_multiset() && sorted_by_key(p) ==> s@
                    == #[trigger] manifest_text(p),
    {
        let mut string = String::new();
        push_str(&mut string, "Module\n");
        let sorted = sorted_by_name(&self.module_entries);
        let ghost p = sorted@.map_values(|e: &(String, ModuleEntry)| *e);
        let mut i: usize = 0;
        while i < sorted.len()
            invariant
                p == sorted@.map_values(|e: &(String, ModuleEntry)| *e),
                i <= sorted@.len(),
                string@ == "Module\n"@ + entries_text(p, i as int),
            decreases sorted.len() - i,
        {
            let entry = &sorted[i].1;
            push_str(&mut string, "  ");
            push_str(&mut string, entry.name.as_str());
            push_str(&mut string, ": ");
            push_str(&mut string, entry.type_signature.as_str());
            push_str(&mut string, "\n");
            i = i + 1;
            assert(string@ =~= "Module\n"@ + entries_text(p, i as int));
        }
        assert(manifest_text(p) == string@);
        proof {
            lemma_unique_keys_determine_entries(self.module_entries@);
            assert forall|q: Seq<(String, ModuleEntry)>|
                q.to_multiset() == self.module_entries@.to_multiset() && sorted_by_key(q) implies string@
                    == #[trigger] manifest_text(q) by {
                law_sorted_entries_unique(p, q);
            }
        }
        string
    }
}

/// Two entries of `m` with the same key text are the same entry, as in a map by key.
pub open spec fn keys_determine_entries(m: Multiset<(String, ModuleEntry)>) -> bool {
    forall|x: (String, ModuleEntry), y: (String, ModuleEntry)|
        #![trigger m.count(x), m.count(y)]
        m.count(x) > 0 && m.count(y) > 0 && x.0@ == y.0@ ==> x == y
}

pub(crate) proof fn lemma_bytes_le_antisymmetric(a: Seq<u8>, b: Seq<u8>)
    requires
        bytes_le(a, b),
        bytes_le(b, a),
    ensures
        a == b,
    decreases a.len(),
{
    if a.len() == 0 {
        assert(a =~= b);
    } else {
        lemma_bytes_le_antisymmetric(a.skip(1), b.skip(1));
        assert(a =~= seq![a[0]] + a.skip(1));
        assert(b =~= seq![b[0]] + b.skip(1));
    }
}

/// The order of the entries is determined: two orderings by key of the same entries, whose
/// keys determine them, are the same sequence; so the manifest's text is determined too.
pub proof fn law_sorted_entries_unique(p: Seq<(String, ModuleEntry)>, q: Seq<(String, ModuleEntry)>)
    requires
        p.to_multiset() == q.to_multiset(),
        sorted_by_key(p),
        sorted_by_key(q),
        keys_determine_entries(p.to_multiset()),
    ensures
        p == q,
        manifest_text(p) == manifest_text(q),
    decreases p.len(),
{
    broadcast use vstd::seq_lib::group_to_multiset_ensures;

    assert(p.len() == p.to_multiset().len());
    assert(q.len() == q.to_multiset().len());
    if p.len() == 0 {
        assert(q.len() == 0);
        assert(p =~= q);
    } else {
        let x = p[0];
        let y = q[0];
        assert(q.contains(y));
        assert(p.to_multiset().count(y) > 0);
        assert(p.contains(y));
        let i = choose|i: int| 0 <= i < p.len() && p[i] == y;
        assert(p.contains(x));
        assert(q.to_multiset().count(x) > 0);
        assert(q.contains(x));
        let j = choose|j: int| 0 <= j < q.len() && q[j] == x;
        if i > 0 {
            assert(bytes_le(encode_utf8(p[0].0@), encode_utf8(p[i].0@)));
        }
        if j > 0 {
            assert(bytes_le(encode_utf8(q[0].0@), encode_utf8(q[j].0@)));
        }
        if i > 0 && j > 0 {
            lemma_bytes_le_antisymmetric(encode_utf8(x.0@), encode_utf8(y.0@));
        }
        vstd::utf8::encode_utf8_decode_utf8(x.0@);
        vstd::utf8::encode_utf8_decode_utf8(y.0@);
        assert(x.0@ == y.0@);
        assert(p.to_multiset().count(x) > 0 && p.to_multiset().count(y) > 0);
        assert(x == y);
        let p1 = p.remove(0);
        let q1 = q.remove(0);
        assert(p1.to_multiset() == p.to_multiset().remove(x));
        assert(q1.to_multiset() == q.to_multiset().remove(y));
        assert forall|i1: int, j1: int| 0 <= i1 < j1 < p1.len() implies bytes_le(
            encode_utf8(#[trigger] p1[i1].0@),
            encode_utf8(#[trigger] p1[j1].0@),
        ) by {
            assert(p1[i1] == p[i1 + 1] && p1[j1] == p[j1 + 1]);
        }
        assert forall|i1: int, j1: int| 0 <= i1 < j1 < q1.len() implies bytes_le(
            encode_utf8(#[trigger] q1[i1].0@),
            encode_utf8(#[trigger] q1[j1].0@),
        ) by {
            assert(q1[i1] == q[i1 + 1] && q1[j1] == q[j1 + 1]);
        }
        assert forall|a: (String, ModuleEntry), b: (String, ModuleEntry)|
            p1.to_multiset().count(a) > 0 && p1.to_multiset().count(b) > 0 && a.0@ == b.0@ implies a
            == b by {
            assert(p.to_multiset().count(a) > 0 && p.to_multiset().count(b) > 0);
        }
        law_sorted_entries_unique(p1, q1);
        assert(p =~= seq![x] + p1);
        assert(q =~= seq![y] + q1);
    }
}

/// Entries with unique keys are determined by their keys.
pub proof fn lemma_unique_keys_determine_entries(entries: Seq<(String, ModuleEntry)>)
    requires
        keys_unique(entries),
    ensures
        keys_determine_entries(entries.to_multiset()),
{
    broadcast use vstd::seq_lib::group_to_multiset_ensures;

    assert forall|x: (String, ModuleEntry), y: (String, ModuleEntry)|
        entries.to_multiset().count(x) > 0 && entries.to_multiset().count(y) > 0 && x.0@ == y.0@ implies x
        == y by {
        assert(entries.contains(x));
        assert(entries.contains(y));
        let i = choose|i: int| 0 <= i < entries.len() && entries[i] == x;
        let j = choose|j: int| 0 <= j < entries.len() && entries[j] == y;
        if i != j {
            assert(entries[i].0@ != entries[j].0@);
        }
    }
}

} // verus!
