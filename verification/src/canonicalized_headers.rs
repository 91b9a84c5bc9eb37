//! The provider headers of a request in canonical form: the part of the
//! signed text that lists every `x-oss-` header, lower-cased, one per line,
//! in ascending order of name.

use crate::request::Header;
use crate::text::{
    ascii_lower, ascii_lowercase, compare_str, has_prefix, lemma_lex_lt_asymmetric,
    lemma_lex_lt_irreflexive, lemma_lex_lt_transitive, lex_lt, str_starts_with, utf8_text,
    TextOrder,
};
use vstd::prelude::*;
use vstd::utf8::{decode_utf8, valid_utf8};

verus! {

/// The prefix that the name of a provider header starts with, in lower case.
pub open spec fn signed_prefix() -> Seq<char> {
    seq!['x', '-', 'o', 's', 's', '-']
}

/// Whether the keys of `e` stand in strictly ascending lexicographic order.
/// Such a sequence holds no key twice.
pub open spec fn keys_ascending(e: Seq<(Seq<char>, Seq<char>)>) -> bool {
    forall|i: int, j: int| #![trigger e[i], e[j]] 0 <= i < j < e.len() ==> lex_lt(e[i].0, e[j].0)
}

/// The mapping that the pairs of `e` build when they are entered one after
/// the other: of two pairs with the same key, the later one stays.
pub open spec fn entries_map(e: Seq<(Seq<char>, Seq<char>)>) -> Map<Seq<char>, Seq<char>>
    decreases e.len(),
{
    if e.len() == 0 {
        Map::empty()
    } else {
        entries_map(e.drop_last()).insert(e.last().0, e.last().1)
    }
}

/// Whether a header is part of the signed text: its name, in lower case,
/// starts with the provider prefix, and its value is well-formed UTF-8.
pub open spec fn is_signed_header(h: (Seq<char>, Seq<u8>)) -> bool {
    has_prefix(ascii_lower(h.0), signed_prefix()) && valid_utf8(h.1)
}

/// The pairs of lower-cased name and value text of the headers of `headers`
/// that are signed, in the order of `headers`.
pub open spec fn signed_entries(headers: Seq<(Seq<char>, Seq<u8>)>) -> Seq<(Seq<char>, Seq<char>)>
    decreases headers.len(),
{
    if headers.len() == 0 {
        Seq::empty()
    } else {
        let h = headers.last();
        let rest = signed_entries(headers.drop_last());
        if is_signed_header(h) {
            rest.push((ascii_lower(h.0), decode_utf8(h.1)))
        } else {
            rest
        }
    }
}

/// The lines `name:value\n` of the pairs of `e`, in the order of `e`.
pub open spec fn entry_lines(e: Seq<(Seq<char>, Seq<char>)>) -> Seq<char>
    decreases e.len(),
{
    if e.len() == 0 {
        Seq::empty()
    } else {
        entry_lines(e.drop_last()) + e.last().0 + seq![':'] + e.last().1 + seq!['\n']
    }
}

/// A key is in the mapping of `e` exactly when a pair of `e` has it.
pub proof fn lemma_entries_map_dom(e: Seq<(Seq<char>, Seq<char>)>, k: Seq<char>)
    ensures
        entries_map(e).dom().contains(k) <==> exists|i: int|
            0 <= i < e.len() && (#[trigger] e[i]).0 == k,
    decreases e.len(),
{
    if e.len() > 0 {
        let d = e.drop_last();
        lemma_entries_map_dom(d, k);
        if entries_map(e).dom().contains(k) {
            if k == e.last().0 {
                assert(e[e.len() - 1].0 == k);
            } else {
                let i = choose|i: int| 0 <= i < d.len() && (#[trigger] d[i]).0 == k;
                assert(e[i].0 == k);
            }
        }
        if exists|i: int| 0 <= i < e.len() && (#[trigger] e[i]).0 == k {
            let i = choose|i: int| 0 <= i < e.len() && (#[trigger] e[i]).0 == k;
            if i < e.len() - 1 {
                assert(d[i].0 == k);
            }
        }
    }
}

/// Entering a pair whose key stands between the keys before `i` and the
/// keys from `i` on keeps the order, and enters the pair in the mapping.
proof fn lemma_insert_at(e: Seq<(Seq<char>, Seq<char>)>, i: int, k: Seq<char>, v: Seq<char>)
    requires
        keys_ascending(e),
        0 <= i <= e.len(),
        forall|j: int| 0 <= j < i ==> lex_lt((#[trigger] e[j]).0, k),
        forall|j: int| i <= j < e.len() ==> lex_lt(k, (#[trigger] e[j]).0),
    ensures
        keys_ascending(e.insert(i, (k, v))),
        entries_map(e.insert(i, (k, v))) == entries_map(e).insert(k, v),
    decreases e.len(),
{
    let n = e.insert(i, (k, v));
    assert forall|a: int, b: int| #![trigger n[a], n[b]] 0 <= a < b < n.len() implies lex_lt(
        n[a].0,
        n[b].0,
    ) by {
        if a < i && b > i {
            assert(n[a] == e[a]);
            assert(n[b] == e[b - 1]);
        } else if a > i {
            assert(n[a] == e[a - 1]);
            assert(n[b] == e[b - 1]);
        } else if b < i {
            assert(n[a] == e[a]);
            assert(n[b] == e[b]);
        } else if a == i {
            assert(n[b] == e[b - 1]);
        } else {
            assert(n[a] == e[a]);
        }
    }
    if i == e.len() {
        assert(n.drop_last() =~= e);
    } else {
        let d = e.drop_last();
        let last = e.last();
        assert(n.drop_last() =~= d.insert(i, (k, v)));
        assert(n.last() == last);
        assert forall|a: int, b: int| #![trigger d[a], d[b]] 0 <= a < b < d.len() implies lex_lt(
            d[a].0,
            d[b].0,
        ) by {
            assert(d[a] == e[a]);
            assert(d[b] == e[b]);
        }
        assert forall|j: int| 0 <= j < i implies lex_lt((#[trigger] d[j]).0, k) by {
            assert(d[j] == e[j]);
        }
        assert forall|j: int| i <= j < d.len() implies lex_lt(k, (#[trigger] d[j]).0) by {
            assert(d[j] == e[j]);
        }
        lemma_insert_at(d, i, k, v);
        assert(lex_lt(k, e[e.len() - 1].0));
        lemma_lex_lt_irreflexive(k);
        assert(entries_map(d).insert(k, v).insert(last.0, last.1) =~= entries_map(d).insert(
            last.0,
            last.1,
        ).insert(k, v));
    }
}

/// Giving the pair at `i` a new value keeps the order, and enters the new
/// value in the mapping.
proof fn lemma_replace_at(e: Seq<(Seq<char>, Seq<char>)>, i: int, v: Seq<char>)
    requires
        keys_ascending(e),
        0 <= i < e.len(),
    ensures
        keys_ascending(e.update(i, (e[i].0, v))),
        entries_map(e.update(i, (e[i].0, v))) == entries_map(e).insert(e[i].0, v),
    decreases e.len(),
{
    let k = e[i].0;
    let n = e.update(i, (k, v));
    assert forall|a: int, b: int| #![trigger n[a], n[b]] 0 <= a < b < n.len() implies lex_lt(
        n[a].0,
        n[b].0,
    ) by {
        assert(n[a].0 == e[a].0);
        assert(n[b].0 == e[b].0);
    }
    let d = e.drop_last();
    let last = e.last();
    if i == e.len() - 1 {
        assert(n.drop_last() =~= d);
        assert(entries_map(d).insert(k, v) =~= entries_map(d).insert(k, last.1).insert(k, v));
    } else {
        assert(n.drop_last() =~= d.update(i, (k, v)));
        assert(n.last() == last);
        assert forall|a: int, b: int| #![trigger d[a], d[b]] 0 <= a < b < d.len() implies lex_lt(
            d[a].0,
            d[b].0,
        ) by {
            assert(d[a] == e[a]);
            assert(d[b] == e[b]);
        }
        assert(d[i] == e[i]);
        lemma_replace_at(d, i, v);
        assert(lex_lt(e[i].0, e[e.len() - 1].0));
        lemma_lex_lt_irreflexive(k);
        assert(entries_map(d).insert(k, v).insert(last.0, last.1) =~= entries_map(d).insert(
            last.0,
            last.1,
        ).insert(k, v));
    }
}

/// A mapping has one canonical form: two sequences of pairs in ascending
/// order of key that build the same mapping are the same sequence. So
/// canonicalizing an input twice gives the same entries both times, and
/// canonicalizing entries that are canonical already gives them back.
pub proof fn lemma_canonical_unique(
    a: Seq<(Seq<char>, Seq<char>)>,
    b: Seq<(Seq<char>, Seq<char>)>,
)
    requires
        keys_ascending(a),
        keys_ascending(b),
        entries_map(a) == entries_map(b),
    ensures
        a == b,
    decreases a.len(),
{
    if a.len() == 0 {
        if b.len() > 0 {
            assert(entries_map(b).dom().contains(b.last().0));
            assert(false);
        }
        assert(a =~= b);
    } else {
        if b.len() == 0 {
            assert(entries_map(a).dom().contains(a.last().0));
            assert(false);
        }
        let ka = a.last().0;
        let kb = b.last().0;
        let da = a.drop_last();
        let db = b.drop_last();
        lemma_entries_map_dom(b, ka);
        lemma_entries_map_dom(a, kb);
        assert(entries_map(a).dom().contains(ka));
        assert(entries_map(b).dom().contains(kb));
        let j = choose|j: int| 0 <= j < b.len() && (#[trigger] b[j]).0 == ka;
        let i = choose|i: int| 0 <= i < a.len() && (#[trigger] a[i]).0 == kb;
        if j < b.len() - 1 {
            assert(lex_lt(b[j].0, b[b.len() - 1].0));
        }
        if i < a.len() - 1 {
            assert(lex_lt(a[i].0, a[a.len() - 1].0));
        }
        lemma_lex_lt_asymmetric(ka, kb);
        assert(ka == kb);
        assert(entries_map(a)[ka] == a.last().1);
        assert(entries_map(b)[kb] == b.last().1);
        // Neither shorter sequence has the last key.
        lemma_entries_map_dom(da, ka);
        lemma_entries_map_dom(db, kb);
        lemma_lex_lt_irreflexive(ka);
        if entries_map(da).dom().contains(ka) {
            let x = choose|x: int| 0 <= x < da.len() && (#[trigger] da[x]).0 == ka;
            assert(da[x] == a[x]);
            assert(lex_lt(a[x].0, a[a.len() - 1].0));
        }
        if entries_map(db).dom().contains(kb) {
            let x = choose|x: int| 0 <= x < db.len() && (#[trigger] db[x]).0 == kb;
            assert(db[x] == b[x]);
            assert(lex_lt(b[x].0, b[b.len() - 1].0));
        }
        assert(entries_map(da) =~= entries_map(a).remove(ka));
        assert(entries_map(db) =~= entries_map(b).remove(kb));
        assert forall|x: int, y: int| #![trigger da[x], da[y]] 0 <= x < y < da.len() implies lex_lt(
            da[x].0,
            da[y].0,
        ) by {
            assert(da[x] == a[x]);
            assert(da[y] == a[y]);
        }
        assert forall|x: int, y: int| #![trigger db[x], db[y]] 0 <= x < y < db.len() implies lex_lt(
            db[x].0,
            db[y].0,
        ) by {
            assert(db[x] == b[x]);
            assert(db[y] == b[y]);
        }
        lemma_canonical_unique(da, db);
        assert(a =~= da.push(a.last()));
        assert(b =~= db.push(b.last()));
    }
}

/// A sequence in strictly ascending order of key holds no key twice.
pub proof fn lemma_ascending_keys_are_unique(e: Seq<(Seq<char>, Seq<char>)>, i: int, j: int)
    requires
        keys_ascending(e),
        0 <= i < e.len(),
        0 <= j < e.len(),
        i != j,
    ensures
        e[i].0 != e[j].0,
{
    lemma_lex_lt_irreflexive(e[i].0);
    if i < j {
        assert(lex_lt(e[i].0, e[j].0));
    } else {
        assert(lex_lt(e[j].0, e[i].0));
    }
}

/// The canonical form of a sequence of pairs: the sequence in strictly
/// ascending order of key that builds the same mapping.
pub open spec fn canonical_entries(pairs: Seq<(Seq<char>, Seq<char>)>) -> Seq<
    (Seq<char>, Seq<char>),
> {
    choose|e: Seq<(Seq<char>, Seq<char>)>| is_canonical_form(e, pairs)
}

/// Whether `e` is in ascending order of key and builds the mapping that
/// `pairs` builds.
pub open spec fn is_canonical_form(
    e: Seq<(Seq<char>, Seq<char>)>,
    pairs: Seq<(Seq<char>, Seq<char>)>,
) -> bool {
    keys_ascending(e) && entries_map(e) == entries_map(pairs)
}

/// Every key of a sequence in ascending order whose mapping is given comes
/// before `bound`, where every key of the mapping does.
proof fn lemma_keys_below(e: Seq<(Seq<char>, Seq<char>)>, bound: Seq<char>, i: int)
    requires
        0 <= i < e.len(),
        forall|k: Seq<char>| #[trigger] entries_map(e).dom().contains(k) ==> lex_lt(k, bound),
    ensures
        lex_lt(e[i].0, bound),
{
    lemma_entries_map_dom(e, e[i].0);
}

/// A sequence in ascending order of key can take one more pair and stay so.
proof fn lemma_canonical_insert_exists(e: Seq<(Seq<char>, Seq<char>)>, k: Seq<char>, v: Seq<char>)
    requires
        keys_ascending(e),
    ensures
        exists|r: Seq<(Seq<char>, Seq<char>)>|
            keys_ascending(r) && #[trigger] entries_map(r) == entries_map(e).insert(k, v),
    decreases e.len(),
{
    if e.len() == 0 {
        lemma_insert_at(e, 0, k, v);
        assert(entries_map(e.insert(0, (k, v))) == entries_map(e).insert(k, v));
    } else {
        let last = e.last();
        let d = e.drop_last();
        crate::text::lemma_lex_lt_total(k, last.0);
        if k == last.0 {
            lemma_replace_at(e, e.len() - 1, v);
            assert(entries_map(e.update(e.len() - 1, (k, v))) == entries_map(e).insert(k, v));
        } else if lex_lt(last.0, k) {
            assert forall|j: int| 0 <= j < e.len() implies lex_lt((#[trigger] e[j]).0, k) by {
                if j < e.len() - 1 {
                    assert(lex_lt(e[j].0, e[e.len() - 1].0));
                    lemma_lex_lt_transitive(e[j].0, last.0, k);
                }
            }
            lemma_insert_at(e, e.len() as int, k, v);
            assert(entries_map(e.insert(e.len() as int, (k, v))) == entries_map(e).insert(k, v));
        } else {
            assert forall|a: int, b: int|
                #![trigger d[a], d[b]]
                0 <= a < b < d.len() implies lex_lt(d[a].0, d[b].0) by {
                assert(d[a] == e[a]);
                assert(d[b] == e[b]);
            }
            lemma_canonical_insert_exists(d, k, v);
            let r0 = choose|r: Seq<(Seq<char>, Seq<char>)>|
                keys_ascending(r) && #[trigger] entries_map(r) == entries_map(d).insert(k, v);
            let r = r0.push(last);
            assert forall|q: Seq<char>| #[trigger]
                entries_map(r0).dom().contains(q) implies lex_lt(q, last.0) by {
                if q != k {
                    lemma_entries_map_dom(d, q);
                    let x = choose|x: int| 0 <= x < d.len() && (#[trigger] d[x]).0 == q;
                    assert(d[x] == e[x]);
                    assert(lex_lt(e[x].0, e[e.len() - 1].0));
                }
            }
            assert forall|a: int, b: int|
                #![trigger r[a], r[b]]
                0 <= a < b < r.len() implies lex_lt(r[a].0, r[b].0) by {
                if b < r0.len() {
                    assert(r[a] == r0[a]);
                    assert(r[b] == r0[b]);
                } else {
                    assert(r[a] == r0[a]);
                    lemma_keys_below(r0, last.0, a);
                }
            }
            assert(r.drop_last() =~= r0);
            lemma_lex_lt_irreflexive(k);
            assert(entries_map(d).insert(k, v).insert(last.0, last.1) =~= entries_map(d).insert(
                last.0,
                last.1,
            ).insert(k, v));
            assert(entries_map(r) == entries_map(e).insert(k, v));
        }
    }
}

/// Every sequence of pairs has a canonical form: `canonical_entries(pairs)`
/// is in strictly ascending order of key, so it holds no key twice, and it
/// builds the mapping that `pairs` builds.
pub proof fn lemma_canonical_entries(pairs: Seq<(Seq<char>, Seq<char>)>)
    ensures
        keys_ascending(canonical_entries(pairs)),
        entries_map(canonical_entries(pairs)) == entries_map(pairs),
    decreases pairs.len(),
{
    if pairs.len() == 0 {
        let e = Seq::<(Seq<char>, Seq<char>)>::empty();
        assert(is_canonical_form(e, pairs));
    } else {
        let d = pairs.drop_last();
        lemma_canonical_entries(d);
        lemma_canonical_insert_exists(canonical_entries(d), pairs.last().0, pairs.last().1);
        let r = choose|r: Seq<(Seq<char>, Seq<char>)>|
            keys_ascending(r) && #[trigger] entries_map(r) == entries_map(
                canonical_entries(d),
            ).insert(pairs.last().0, pairs.last().1);
        assert(is_canonical_form(r, pairs));
    }
}

/// A sequence that is in ascending order of key and builds the mapping of
/// `pairs` is the canonical form of `pairs`.
pub proof fn lemma_canonical_entries_is(
    e: Seq<(Seq<char>, Seq<char>)>,
    pairs: Seq<(Seq<char>, Seq<char>)>,
)
    requires
        keys_ascending(e),
        entries_map(e) == entries_map(pairs),
    ensures
        canonical_entries(pairs) == e,
{
    lemma_canonical_entries(pairs);
    lemma_canonical_unique(canonical_entries(pairs), e);
}

/// Canonicalizing is idempotent: the canonical form of a canonical form is
/// that form.
pub proof fn lemma_canonical_idempotent(pairs: Seq<(Seq<char>, Seq<char>)>)
    ensures
        canonical_entries(canonical_entries(pairs)) == canonical_entries(pairs),
{
    lemma_canonical_entries(pairs);
    lemma_canonical_entries_is(canonical_entries(pairs), canonical_entries(pairs));
}

/// The canonical provider headers of a request with the headers `headers`:
/// absent where no header is signed, else the canonical form of the signed
/// ones.
pub open spec fn canonical_headers(headers: Seq<(Seq<char>, Seq<u8>)>) -> Option<
    Seq<(Seq<char>, Seq<char>)>,
> {
    if signed_entries(headers).len() == 0 {
        None
    } else {
        Some(canonical_entries(signed_entries(headers)))
    }
}

/// A request none of whose headers has a name with the provider prefix has
/// no section of provider headers: the section is absent, not empty.
pub proof fn lemma_no_provider_header_no_section(headers: Seq<(Seq<char>, Seq<u8>)>)
    requires
        forall|i: int|
            0 <= i < headers.len() ==> !has_prefix(
                ascii_lower((#[trigger] headers[i]).0),
                signed_prefix(),
            ),
    ensures
        canonical_headers(headers) is None,
    decreases headers.len(),
{
    if headers.len() > 0 {
        let d = headers.drop_last();
        assert forall|i: int| 0 <= i < d.len() implies !has_prefix(
            ascii_lower((#[trigger] d[i]).0),
            signed_prefix(),
        ) by {
            assert(d[i] == headers[i]);
        }
        lemma_no_provider_header_no_section(d);
        assert(!is_signed_header(headers[headers.len() - 1]));
    }
}

/// The provider headers of a request, ready for signing. Either the section
/// is absent, or it holds pairs of header name and value in strictly
/// ascending order of name.
#[derive(Debug)]
pub struct CanonicalizedHeaders {
    entries: Option<Vec<(String, String)>>,
}

impl View for CanonicalizedHeaders {
    type V = Option<Seq<(Seq<char>, Seq<char>)>>;

    closed spec fn view(&self) -> Option<Seq<(Seq<char>, Seq<char>)>> {
        match self.entries {
            Some(v) => Some(v.deep_view()),
            None => None,
        }
    }
}

/// Enters the pair of `key` and `value` at its place in `entries`; a pair
/// that has the same key already gets the new value.
fn insert_entry(entries: &mut Vec<(String, String)>, key: String, value: String)
    requires
        keys_ascending(old(entries).deep_view()),
    ensures
        keys_ascending(final(entries).deep_view()),
        entries_map(final(entries).deep_view()) == entries_map(old(entries).deep_view()).insert(
            key@,
            value@,
        ),
        final(entries).len() > 0,
{
    let ghost e0 = entries.deep_view();
    let mut i: usize = 0;
    while i < entries.len()
        invariant
            i <= entries.len(),
            entries.deep_view() == e0,
            old(entries).deep_view() == e0,
            keys_ascending(e0),
            forall|j: int| 0 <= j < i ==> lex_lt((#[trigger] e0[j]).0, key@),
        decreases entries.len() - i,
    {
        assert(e0[i as int].0 == entries@[i as int].0@);
        match compare_str(entries[i].0.as_str(), key.as_str()) {
            TextOrder::Before => {
                i += 1;
            },
            TextOrder::Same => {
                proof {
                    lemma_replace_at(e0, i as int, value@);
                }
                entries.set(i, (key, value));
                assert(entries.deep_view() =~= e0.update(i as int, (key@, value@)));
                return ;
            },
            TextOrder::After => {
                proof {
                    assert forall|j: int| i <= j < e0.len() implies lex_lt(
                        key@,
                        (#[trigger] e0[j]).0,
                    ) by {
                        if j > i {
                            assert(lex_lt(e0[i as int].0, e0[j].0));
                            lemma_lex_lt_transitive(key@, e0[i as int].0, e0[j].0);
                        }
                    }
                    lemma_insert_at(e0, i as int, key@, value@);
                }
                entries.insert(i, (key, value));
                assert(entries.deep_view() =~= e0.insert(i as int, (key@, value@)));
                return ;
            },
        }
    }
    proof {
        lemma_insert_at(e0, i as int, key@, value@);
    }
    entries.push((key, value));
    assert(entries.deep_view() =~= e0.insert(i as int, (key@, value@)));
}

impl CanonicalizedHeaders {
    /// Whether the entries, where the section is present, are in canonical
    /// order: their keys strictly ascending. This is the invariant of the
    /// type: it holds of every value.
    #[verifier::type_invariant]
    pub open spec fn wf(&self) -> bool {
        self@ matches Some(e) ==> keys_ascending(e)
    }

    /// The canonical form of a mapping given as pairs: absent where `map` is
    /// absent; else the pairs in ascending order of key, the last of the
    /// pairs with the same key winning.
    pub fn new(map: Option<Vec<(String, String)>>) -> (r: Self)
        ensures
            r.wf(),
            r@ == match map {
                Some(pairs) => Some(canonical_entries(pairs.deep_view())),
                None => None,
            },
    {
        match map {
            None => CanonicalizedHeaders { entries: None },
            Some(pairs) => {
                let mut entries: Vec<(String, String)> = Vec::new();
                let mut i: usize = 0;
                assert(pairs.deep_view().take(0) =~= Seq::empty());
                while i < pairs.len()
                    invariant
                        i <= pairs.len(),
                        keys_ascending(entries.deep_view()),
                        entries_map(entries.deep_view()) == entries_map(
                            pairs.deep_view().take(i as int),
                        ),
                    decreases pairs.len() - i,
                {
                    let key = pairs[i].0.clone();
                    let value = pairs[i].1.clone();
                    proof {
                        let p = pairs.deep_view();
                        assert(p.take(i + 1).drop_last() =~= p.take(i as int));
                        assert(p.take(i + 1).last() == (key@, value@));
                    }
                    insert_entry(&mut entries, key, value);
                    i += 1;
                }
                proof {
                    assert(pairs.deep_view().take(pairs.len() as int) =~= pairs.deep_view());
                    lemma_canonical_entries_is(entries.deep_view(), pairs.deep_view());
                }
                CanonicalizedHeaders { entries: Some(entries) }
            },
        }
    }

    /// The canonical provider headers of a request with the headers
    /// `headers`. A header is taken when its name starts with `x-oss-`,
    /// whatever the case of its letters, and its value is well-formed UTF-8;
    /// its name is lower-cased. Of two headers with the same lower-cased
    /// name, the later one in `headers` wins. Where no header is taken, the
    /// section is absent.
    pub fn from_headers(headers: &[Header]) -> (r: Self)
        ensures
            r.wf(),
            r@ == canonical_headers(headers.deep_view()),
    {
        let ghost hs = headers.deep_view();
        let mut entries: Vec<(String, String)> = Vec::new();
        let mut i: usize = 0;
        assert(hs.take(0) =~= Seq::empty());
        while i < headers.len()
            invariant
                i <= headers.len(),
                hs == headers.deep_view(),
                keys_ascending(entries.deep_view()),
                entries_map(entries.deep_view()) == entries_map(signed_entries(hs.take(i as int))),
                entries.len() == 0 <==> signed_entries(hs.take(i as int)).len() == 0,
            decreases headers.len() - i,
        {
            let header = &headers[i];
            proof {
                assert(hs.take(i + 1).drop_last() =~= hs.take(i as int));
                assert(hs.take(i + 1).last() == (header.name@, header.value@));
            }
            let name = ascii_lowercase(header.name.as_str());
            proof {
                reveal_strlit("x-oss-");
                assert("x-oss-"@ =~= signed_prefix());
            }
            if str_starts_with(name.as_str(), "x-oss-") {
                match utf8_text(header.value.as_slice()) {
                    Some(value) => {
                        proof {
                            let rest = signed_entries(hs.take(i as int));
                            assert(signed_entries(hs.take(i + 1)) == rest.push((name@, value@)));
                            assert(rest.push((name@, value@)).drop_last() =~= rest);
                        }
                        insert_entry(&mut entries, name, value);
                    },
                    None => {},
                }
            }
            i += 1;
        }
        proof {
            assert(hs.take(headers.len() as int) =~= hs);
            lemma_canonical_entries_is(entries.deep_view(), signed_entries(hs));
        }
        if entries.len() == 0 {
            CanonicalizedHeaders { entries: None }
        } else {
            CanonicalizedHeaders { entries: Some(entries) }
        }
    }

    /// The text that the section adds to the signed text: nothing where it
    /// is absent, else one line `name:value\n` for each entry, in order:
    /// the names strictly ascending, none twice.
    pub fn string_for_sign(&self) -> (r: Option<String>)
        ensures
            self.wf(),
            self@ is None <==> r is None,
            r matches Some(s) ==> s@ == entry_lines(self@->0),
    {
        proof {
            use_type_invariant(self);
        }
        match &self.entries {
            Some(entries) => {
                let ghost e = entries.deep_view();
                let mut buf = String::new();
                let mut i: usize = 0;
                assert(e.take(0) =~= Seq::empty());
                while i < entries.len()
                    invariant
                        i <= entries.len(),
                        e == entries.deep_view(),
                        buf@ == entry_lines(e.take(i as int)),
                    decreases entries.len() - i,
                {
                    proof {
                        assert(e.take(i + 1).drop_last() =~= e.take(i as int));
                        assert(e.take(i + 1).last() == (
                            entries@[i as int].0@,
                            entries@[i as int].1@,
                        ));
                    }
                    buf.append(entries[i].0.as_str());
                    buf.push(':');
                    buf.append(entries[i].1.as_str());
                    buf.push('\n');
                    i += 1;
                }
                assert(e.take(entries.len() as int) =~= e);
                Some(buf)
            },
            None => None,
        }
    }
}

impl Default for CanonicalizedHeaders {
    /// The absent section.
    fn default() -> (r: Self)
        ensures
            r@ is None,
            r.wf(),
    {
        CanonicalizedHeaders { entries: None }
    }
}

} // verus!
