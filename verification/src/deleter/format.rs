//! Texts that the content-type, metadata and tag regex filters match
//! against.

use vstd::prelude::*;

use crate::text::{join, join_strings, seq_lt, str_lt, string_views, url_encode, url_encoded};

verus! {

/// An object tag.
#[derive(Debug)]
pub struct Tag {
    pub key: String,
    pub value: String,
}

/// The views of key/value pairs.
pub open spec fn pair_views(v: Seq<(String, String)>) -> Seq<(Seq<char>, Seq<char>)> {
    v.map_values(|p: (String, String)| (p.0@, p.1@))
}

/// The views of tags as key/value pairs.
pub open spec fn tag_views(v: Seq<Tag>) -> Seq<(Seq<char>, Seq<char>)> {
    v.map_values(|t: Tag| (t.key@, t.value@))
}

/// Inserts `e` into `s` before the first entry whose key is greater than
/// the key of `e` (so after every entry with an equal key).
pub open spec fn insert_by_key(e: (Seq<char>, Seq<char>), s: Seq<(Seq<char>, Seq<char>)>) -> Seq<
    (Seq<char>, Seq<char>),
>
    decreases s.len(),
{
    if s.len() == 0 {
        seq![e]
    } else if seq_lt(e.0, s[0].0) {
        seq![e] + s
    } else {
        seq![s[0]] + insert_by_key(e, s.drop_first())
    }
}

/// The entries stably sorted by key (insertion sort).
pub open spec fn sort_by_key(s: Seq<(Seq<char>, Seq<char>)>) -> Seq<(Seq<char>, Seq<char>)>
    decreases s.len(),
{
    if s.len() == 0 {
        s
    } else {
        insert_by_key(s.last(), sort_by_key(s.drop_last()))
    }
}

/// Inserting before the first greater key is inserting at that position.
proof fn lemma_insert_at(e: (Seq<char>, Seq<char>), s: Seq<(Seq<char>, Seq<char>)>, j: int)
    requires
        0 <= j <= s.len(),
        forall|k: int| 0 <= k < j ==> !seq_lt(e.0, #[trigger] s[k].0),
        j < s.len() ==> seq_lt(e.0, s[j].0),
    ensures
        insert_by_key(e, s) == s.insert(j, e),
    decreases j,
{
    if j == 0 {
        assert(s.insert(0, e) =~= seq![e] + s);
    } else {
        assert(!seq_lt(e.0, s[0].0));
        let t = s.drop_first();
        assert forall|k: int| 0 <= k < j - 1 implies !seq_lt(e.0, #[trigger] t[k].0) by {
            assert(t[k] == s[k + 1]);
        }
        lemma_insert_at(e, t, j - 1);
        assert(s.insert(j, e) =~= seq![s[0]] + t.insert(j - 1, e));
    }
}

/// Copies key/value pairs and sorts them stably by key.
fn sort_pairs(entries: &Vec<(String, String)>) -> (r: Vec<(String, String)>)
    ensures
        pair_views(r@) == sort_by_key(pair_views(entries@)),
{
    let ghost input = pair_views(entries@);
    let mut out: Vec<(String, String)> = Vec::new();
    let n = entries.len();
    for i in 0..n
        invariant
            n == entries.len(),
            input == pair_views(entries@),
            pair_views(out@) == sort_by_key(input.take(i as int)),
    {
        let e = (entries[i].0.clone(), entries[i].1.clone());
        let ghost ev = (e.0@, e.1@);
        let ghost before = pair_views(out@);
        let mut j: usize = 0;
        while j < out.len() && !str_lt(e.0.as_str(), out[j].0.as_str())
            invariant
                j <= out.len(),
                before == pair_views(out@),
                ev == (e.0@, e.1@),
                forall|k: int| 0 <= k < j ==> !seq_lt(ev.0, #[trigger] before[k].0),
            decreases out.len() - j,
        {
            j = j + 1;
        }
        proof {
            lemma_insert_at(ev, before, j as int);
            assert(input.take(i + 1).drop_last() =~= input.take(i as int));
            assert(input.take(i + 1).last() == ev);
        }
        out.insert(j, e);
        proof {
            assert(pair_views(out@) =~= before.insert(j as int, ev));
        }
    }
    assert(input.take(n as int) =~= input);
    out
}

/// The metadata entry text: the key, `=`, and the URL-encoded value.
pub open spec fn metadata_part(p: (Seq<char>, Seq<char>)) -> Seq<char> {
    p.0 + "="@ + url_encoded(p.1)
}

/// The tag text: the URL-encoded key, `=`, and the URL-encoded value.
pub open spec fn tag_part(p: (Seq<char>, Seq<char>)) -> Seq<char> {
    url_encoded(p.0) + "="@ + url_encoded(p.1)
}

/// The metadata entry texts of the pairs.
pub open spec fn metadata_parts(s: Seq<(Seq<char>, Seq<char>)>) -> Seq<Seq<char>> {
    s.map_values(|p: (Seq<char>, Seq<char>)| metadata_part(p))
}

/// The tag texts of the pairs.
pub open spec fn tag_parts(s: Seq<(Seq<char>, Seq<char>)>) -> Seq<Seq<char>> {
    s.map_values(|p: (Seq<char>, Seq<char>)| tag_part(p))
}

/// The text that metadata regex filters match: the entries sorted by key,
/// each as `key=value` with the value URL-encoded, joined with commas.
pub open spec fn metadata_text(entries: Seq<(Seq<char>, Seq<char>)>) -> Seq<char> {
    join(metadata_parts(sort_by_key(entries)), ","@)
}

/// The text that tag regex filters match: the tags sorted by key, each as
/// `key=value` with key and value URL-encoded, joined with `&`.
pub open spec fn tags_text(tags: Seq<(Seq<char>, Seq<char>)>) -> Seq<char> {
    join(tag_parts(sort_by_key(tags)), "&"@)
}

/// No two entries have the same key, as in a map.
pub open spec fn keys_distinct(s: Seq<(Seq<char>, Seq<char>)>) -> bool {
    forall|i: int, j: int| #![trigger s[i], s[j]] 0 <= i < j < s.len() ==> s[i].0 != s[j].0
}

/// Formats user-defined metadata, a map from keys to values, for metadata
/// regex matching.
pub fn format_metadata(metadata: &Vec<(String, String)>) -> (r: String)
    requires
        keys_distinct(pair_views(metadata@)),
    ensures
        r@ == metadata_text(pair_views(metadata@)),
{
    let sorted = sort_pairs(metadata);
    let ghost sv = pair_views(sorted@);
    let ghost target = metadata_parts(sv);
    let mut parts: Vec<String> = Vec::new();
    let n = sorted.len();
    for i in 0..n
        invariant
            n == sorted.len(),
            sv == pair_views(sorted@),
            target == metadata_parts(sv),
            sv.len() == n,
            parts.len() == i,
            string_views(parts@) == target.take(i as int),
    {
        let mut part = sorted[i].0.clone();
        part.append("=");
        let encoded = url_encode(sorted[i].1.as_str());
        part.append(encoded.as_str());
        let ghost old_parts = parts@;
        parts.push(part);
        proof {
            assert forall|k: int| 0 <= k < i + 1 implies #[trigger] string_views(parts@)[k] == target.take(
                i + 1,
            )[k] by {
                if k < i {
                    assert(parts@[k] == old_parts[k]);
                    assert(string_views(old_parts)[k] == target.take(i as int)[k]);
                } else {
                    assert(sv[k] == (sorted@[k].0@, sorted@[k].1@));
                }
            }
            assert(string_views(parts@) =~= target.take(i + 1));
        }
    }
    proof {
        assert(target.take(n as int) =~= target);
    }
    join_strings(&parts, ",")
}

/// Copies tags into key/value pairs.
fn tag_pairs(tags: &Vec<Tag>) -> (r: Vec<(String, String)>)
    ensures
        pair_views(r@) == tag_views(tags@),
{
    let mut out: Vec<(String, String)> = Vec::new();
    let n = tags.len();
    for i in 0..n
        invariant
            n == tags.len(),
            out.len() == i,
            pair_views(out@) == tag_views(tags@).take(i as int),
    {
        let ghost old_out = out@;
        out.push((tags[i].key.clone(), tags[i].value.clone()));
        proof {
            assert forall|k: int| 0 <= k < i + 1 implies #[trigger] pair_views(out@)[k] == tag_views(tags@).take(
                i + 1,
            )[k] by {
                if k < i {
                    assert(out@[k] == old_out[k]);
                    assert(pair_views(old_out)[k] == tag_views(tags@).take(i as int)[k]);
                }
            }
            assert(pair_views(out@) =~= tag_views(tags@).take(i + 1));
        }
    }
    assert(tag_views(tags@).take(n as int) =~= tag_views(tags@));
    out
}

/// Builds the `key=value` texts of the pairs, both parts URL-encoded.
fn encoded_tag_parts(pairs: &Vec<(String, String)>) -> (r: Vec<String>)
    ensures
        string_views(r@) == tag_parts(pair_views(pairs@)),
{
    let ghost pv = pair_views(pairs@);
    let ghost target = tag_parts(pv);
    let mut parts: Vec<String> = Vec::new();
    let n = pairs.len();
    for i in 0..n
        invariant
            n == pairs.len(),
            pv == pair_views(pairs@),
            target == tag_parts(pv),
            pv.len() == n,
            parts.len() == i,
            string_views(parts@) == target.take(i as int),
    {
        let mut part = url_encode(pairs[i].0.as_str());
        part.append("=");
        let encoded = url_encode(pairs[i].1.as_str());
        part.append(encoded.as_str());
        let ghost old_parts = parts@;
        parts.push(part);
        proof {
            assert forall|k: int| 0 <= k < i + 1 implies #[trigger] string_views(parts@)[k] == target.take(
                i + 1,
            )[k] by {
                if k < i {
                    assert(parts@[k] == old_parts[k]);
                    assert(string_views(old_parts)[k] == target.take(i as int)[k]);
                } else {
                    assert(pv[k] == (pairs@[k].0@, pairs@[k].1@));
                }
            }
            assert(string_views(parts@) =~= target.take(i + 1));
        }
    }
    assert(target.take(n as int) =~= target);
    parts
}

/// Formats tags for tag regex matching.
pub fn format_tags(tags: &Vec<Tag>) -> (r: String)
    ensures
        r@ == tags_text(tag_views(tags@)),
{
    let pairs = tag_pairs(tags);
    let sorted = sort_pairs(&pairs);
    let parts = encoded_tag_parts(&sorted);
    join_strings(&parts, "&")
}

/// The tagging text for display: the tags in their given order, each as
/// `key=value` URL-encoded, joined with `&`; empty for no tags.
pub open spec fn tagging_text(tags: Seq<(Seq<char>, Seq<char>)>) -> Seq<char> {
    join(tag_parts(tags), "&"@)
}

/// Formats the tag set of a `GetObjectTagging` response for display; `None`
/// when there is no response.
pub fn generate_tagging_string(tag_set: &Option<Vec<Tag>>) -> (r: Option<String>)
    ensures
        tag_set is None ==> r is None,
        tag_set matches Some(tags) ==> r matches Some(s) && s@ == tagging_text(tag_views(tags@)),
{
    match tag_set {
        None => None,
        Some(tags) => {
            if tags.len() == 0 {
                return Some(String::new());
            }
            let pairs = tag_pairs(tags);
            let parts = encoded_tag_parts(&pairs);
            Some(join_strings(&parts, "&"))
        },
    }
}

// ---------------------------------------------------------------------------
// Laws of the key order
// ---------------------------------------------------------------------------

/// Consecutive entries have non-decreasing keys.
pub open spec fn keys_sorted(s: Seq<(Seq<char>, Seq<char>)>) -> bool {
    forall|i: int, j: int|
        #![trigger s[i], s[j]]
        0 <= i && j == i + 1 && j < s.len() ==> !seq_lt(s[j].0, s[i].0)
}

/// The character order is asymmetric.
pub proof fn lemma_seq_lt_asymmetric(a: Seq<char>, b: Seq<char>)
    ensures
        seq_lt(a, b) ==> !seq_lt(b, a),
    decreases a.len(),
{
    if a.len() > 0 && b.len() > 0 && a[0] == b[0] {
        lemma_seq_lt_asymmetric(a.drop_first(), b.drop_first());
    }
}

/// The first entry after inserting is the inserted entry or the former first.
proof fn lemma_insert_first(e: (Seq<char>, Seq<char>), s: Seq<(Seq<char>, Seq<char>)>)
    ensures
        insert_by_key(e, s).len() == s.len() + 1,
        insert_by_key(e, s)[0] == e || (s.len() > 0 && insert_by_key(e, s)[0] == s[0]),
    decreases s.len(),
{
    if s.len() > 0 && !seq_lt(e.0, s[0].0) {
        lemma_insert_first(e, s.drop_first());
    }
}

/// Inserting into key-sorted entries keeps them key-sorted.
proof fn lemma_insert_keeps_sorted(e: (Seq<char>, Seq<char>), s: Seq<(Seq<char>, Seq<char>)>)
    requires
        keys_sorted(s),
    ensures
        keys_sorted(insert_by_key(e, s)),
    decreases s.len(),
{
    if s.len() == 0 {
    } else if seq_lt(e.0, s[0].0) {
        lemma_seq_lt_asymmetric(e.0, s[0].0);
        let r = seq![e] + s;
        assert forall|i: int, j: int| #![trigger r[i], r[j]] 0 <= i && j == i + 1 && j < r.len() implies !seq_lt(
            r[j].0,
            r[i].0,
        ) by {
            if i > 0 {
                assert(r[i] == s[i - 1] && r[j] == s[j - 1]);
            }
        }
    } else {
        let t = s.drop_first();
        assert forall|i: int, j: int| #![trigger t[i], t[j]] 0 <= i && j == i + 1 && j < t.len() implies !seq_lt(
            t[j].0,
            t[i].0,
        ) by {
            assert(t[i] == s[i + 1] && t[j] == s[j + 1]);
        }
        lemma_insert_keeps_sorted(e, t);
        lemma_insert_first(e, t);
        let x = insert_by_key(e, t);
        let r = seq![s[0]] + x;
        assert forall|i: int, j: int| #![trigger r[i], r[j]] 0 <= i && j == i + 1 && j < r.len() implies !seq_lt(
            r[j].0,
            r[i].0,
        ) by {
            if i == 0 {
                assert(r[j] == x[0]);
                if x[0] != e {
                    assert(s[0] == s[0] && s[1] == t[0]);
                }
            } else {
                assert(r[i] == x[i - 1] && r[j] == x[j - 1]);
            }
        }
    }
}

/// Law: sorting by key yields entries whose keys never decrease.
pub proof fn law_sorted_keys_never_decrease(s: Seq<(Seq<char>, Seq<char>)>)
    ensures
        keys_sorted(sort_by_key(s)),
    decreases s.len(),
{
    if s.len() > 0 {
        law_sorted_keys_never_decrease(s.drop_last());
        lemma_insert_keeps_sorted(s.last(), sort_by_key(s.drop_last()));
    }
}

/// Inserting adds exactly the inserted entry.
proof fn lemma_insert_multiset(e: (Seq<char>, Seq<char>), s: Seq<(Seq<char>, Seq<char>)>)
    ensures
        insert_by_key(e, s).to_multiset() == s.to_multiset().insert(e),
    decreases s.len(),
{
    broadcast use vstd::seq_lib::group_to_multiset_ensures;

    if s.len() == 0 {
        assert(seq![e] =~= s.insert(0, e));
    } else if seq_lt(e.0, s[0].0) {
        assert(seq![e] + s =~= s.insert(0, e));
    } else {
        let t = s.drop_first();
        lemma_insert_multiset(e, t);
        let x = insert_by_key(e, t);
        assert(seq![s[0]] + x =~= x.insert(0, s[0]));
        assert(s =~= t.insert(0, s[0]));
        assert(insert_by_key(e, s).to_multiset() =~= s.to_multiset().insert(e));
    }
}

/// Law: sorting by key keeps exactly the given entries (a permutation).
pub proof fn law_sort_is_permutation(s: Seq<(Seq<char>, Seq<char>)>)
    ensures
        sort_by_key(s).to_multiset() == s.to_multiset(),
    decreases s.len(),
{
    broadcast use vstd::seq_lib::group_to_multiset_ensures;

    if s.len() > 0 {
        law_sort_is_permutation(s.drop_last());
        lemma_insert_multiset(s.last(), sort_by_key(s.drop_last()));
        assert(s =~= s.drop_last().push(s.last()));
    }
}

} // verus!
