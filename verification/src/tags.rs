//! Case-insensitive exact and prefix lookup over the tag vocabulary.
//!
//! Comparisons fold ASCII letters to lower case, consistently for the exact
//! and the prefix lookup. Prefix search returns at most a caller-given
//! number of matches, in store order, and returns an empty sequence — not an
//! error — on an empty query or when nothing matches.

use crate::account::Backend;
use vstd::prelude::*;
use vstd::string::StrSliceExecFns;

verus! {

/// ASCII case fold of one character: an upper-case ASCII letter becomes its
/// lower-case form, every other character stays itself.
pub open spec fn fold_char(c: char) -> char {
    if 65 <= c as u32 && c as u32 <= 90 {
        (((c as u32) + 32) as u8) as char
    } else {
        c
    }
}

/// The two texts are equal after case folding.
pub open spec fn equal_fold(a: Seq<char>, b: Seq<char>) -> bool {
    a.len() == b.len() && (forall|i: int| 0 <= i < a.len() ==> fold_char(a[i]) == fold_char(b[i]))
}

/// `p` is a leading substring of `t` after case folding.
pub open spec fn prefix_fold(p: Seq<char>, t: Seq<char>) -> bool {
    p.len() <= t.len() && (forall|i: int| 0 <= i < p.len() ==> fold_char(p[i]) == fold_char(t[i]))
}

/// The first text among `tags` equal to `q` after case folding, in order,
/// or nothing when none is.
pub open spec fn exact_lookup(tags: Seq<Seq<char>>, q: Seq<char>) -> Option<Seq<char>>
    decreases tags.len(),
{
    if tags.len() == 0 {
        None
    } else if equal_fold(tags[0], q) {
        Some(tags[0])
    } else {
        exact_lookup(tags.drop_first(), q)
    }
}

/// The first texts among `tags` that `p` is a case-folded prefix of, in
/// order, at most `amount` of them.
pub open spec fn prefix_lookup(tags: Seq<Seq<char>>, p: Seq<char>, amount: int) -> Seq<Seq<char>>
    decreases tags.len(),
{
    if amount <= 0 || tags.len() == 0 {
        Seq::empty()
    } else if prefix_fold(p, tags[0]) {
        seq![tags[0]] + prefix_lookup(tags.drop_first(), p, amount - 1)
    } else {
        prefix_lookup(tags.drop_first(), p, amount)
    }
}

/// ASCII case fold of one character.
fn fold_char_exec(c: char) -> (r: char)
    ensures
        r == fold_char(c),
{
    let u = c as u32;
    if 65 <= u && u <= 90 {
        ((u + 32) as u8) as char
    } else {
        c
    }
}

/// The two texts are equal after case folding.
#[verifier::loop_isolation(false)]
fn equal_fold_exec(a: &String, b: &String) -> (r: bool)
    ensures
        r == equal_fold(a@, b@),
{
    let a = a.as_str();
    let b = b.as_str();
    let n = a.unicode_len();
    if n != b.unicode_len() {
        return false;
    }
    let mut i: usize = 0;
    while i < n
        invariant
            i <= n,
            n == a@.len(),
            n == b@.len(),
            forall|j: int| 0 <= j < i ==> fold_char(a@[j]) == fold_char(b@[j]),
        decreases n - i,
    {
        if fold_char_exec(a.get_char(i)) != fold_char_exec(b.get_char(i)) {
            proof {
                assert(!equal_fold(a@, b@)) by {
                    if equal_fold(a@, b@) {
                        assert(fold_char(a@[i as int]) == fold_char(b@[i as int]));
                    }
                    assert(fold_char(a@[i as int]) != fold_char(b@[i as int]));
                }
            }
            return false;
        }
        i = i + 1;
    }
    true
}

/// `p` is a leading substring of `t` after case folding.
#[verifier::loop_isolation(false)]
fn prefix_fold_exec(p: &String, t: &String) -> (r: bool)
    ensures
        r == prefix_fold(p@, t@),
{
    let p = p.as_str();
    let t = t.as_str();
    let n = p.unicode_len();
    if n > t.unicode_len() {
        return false;
    }
    let mut i: usize = 0;
    while i < n
        invariant
            i <= n,
            n == p@.len(),
            n <= t@.len(),
            forall|j: int| 0 <= j < i ==> fold_char(p@[j]) == fold_char(t@[j]),
        decreases n - i,
    {
        if fold_char_exec(p.get_char(i)) != fold_char_exec(t.get_char(i)) {
            proof {
                assert(!prefix_fold(p@, t@)) by {
                    if prefix_fold(p@, t@) {
                        assert(fold_char(p@[i as int]) == fold_char(t@[i as int]));
                    }
                    assert(fold_char(p@[i as int]) != fold_char(t@[i as int]));
                }
            }
            return false;
        }
        i = i + 1;
    }
    true
}

impl Backend {
    /// Single-record lookup: the first stored tag equal to `tag` after case
    /// folding, or nothing.
    pub fn search_tag_with_exact(&self, tag: String) -> (r: Option<String>)
        ensures
            match r {
                Some(t) => exact_lookup(self.store.tag_texts(), tag@) == Some(t@),
                None => exact_lookup(self.store.tag_texts(), tag@) is None,
            },
    {
        let ghost texts = self.store.tag_texts();
        proof {
            assert(texts.skip(0) =~= texts);
        }
        let n = self.store.tags.len();
        let mut i: usize = 0;
        while i < n
            invariant
                i <= n,
                n == self.store.tags@.len(),
                texts == self.store.tag_texts(),
                exact_lookup(texts, tag@) == exact_lookup(texts.skip(i as int), tag@),
            decreases n - i,
        {
            proof {
                assert(texts.skip(i as int)[0] == texts[i as int]);
                assert(texts.skip(i as int).drop_first() =~= texts.skip(i + 1));
            }
            if equal_fold_exec(&self.store.tags[i].tag, &tag) {
                return Some(self.store.tags[i].tag.clone());
            }
            i = i + 1;
        }
        proof {
            assert(texts.skip(n as int) =~= Seq::<Seq<char>>::empty());
        }
        None
    }

    /// Prefix lookup: the first stored tags that `tag` is a case-folded
    /// prefix of, in store order, at most `amount` of them. An empty query
    /// returns an empty sequence, as does one that nothing matches.
    pub fn search_tag_with_prefix(&self, tag: String, amount: i64) -> (r: Vec<String>)
        ensures
            tag@.len() == 0 ==> r@ == Seq::<String>::empty(),
            tag@.len() > 0 ==> r.deep_view() == prefix_lookup(
                self.store.tag_texts(),
                tag@,
                amount as int,
            ),
    {
        if tag.as_str().unicode_len() == 0 {
            return Vec::new();
        }
        let ghost texts = self.store.tag_texts();
        proof {
            assert(texts.skip(0) =~= texts);
        }
        let mut out: Vec<String> = Vec::new();
        proof {
            assert(out.deep_view() =~= Seq::<Seq<char>>::empty());
            assert(out.deep_view() + texts.skip(0) =~= texts);
        }
        let mut remaining: i64 = amount;
        let n = self.store.tags.len();
        let mut i: usize = 0;
        while i < n && remaining > 0
            invariant
                i <= n,
                n == self.store.tags@.len(),
                texts == self.store.tag_texts(),
                remaining == amount - out@.len(),
                prefix_lookup(texts, tag@, amount as int) == out.deep_view() + prefix_lookup(
                    texts.skip(i as int),
                    tag@,
                    remaining as int,
                ),
            decreases n - i,
        {
            proof {
                assert(texts.skip(i as int)[0] == texts[i as int]);
                assert(texts.skip(i as int).drop_first() =~= texts.skip(i + 1));
            }
            if prefix_fold_exec(&tag, &self.store.tags[i].tag) {
                let ghost prev = out.deep_view();
                out.push(self.store.tags[i].tag.clone());
                remaining = remaining - 1;
                proof {
                    assert(out.deep_view() =~= prev.push(texts[i as int]));
                    assert(prev.push(texts[i as int]) + prefix_lookup(
                        texts.skip(i + 1),
                        tag@,
                        remaining as int,
                    ) =~= prev + (seq![texts[i as int]] + prefix_lookup(
                        texts.skip(i + 1),
                        tag@,
                        remaining as int,
                    )));
                }
            }
            i = i + 1;
        }
        proof {
            if i == n {
                assert(texts.skip(n as int) =~= Seq::<Seq<char>>::empty());
            }
            assert(prefix_lookup(texts.skip(i as int), tag@, remaining as int)
                =~= Seq::<Seq<char>>::empty());
            assert(out.deep_view() + Seq::<Seq<char>>::empty() =~= out.deep_view());
        }
        out
    }
}

/// Exact-lookup law: a found text really is a stored tag equal to the query
/// after case folding, and nothing is found only when no stored tag matches.
pub proof fn lemma_exact_lookup_complete(tags: Seq<Seq<char>>, q: Seq<char>)
    ensures
        exact_lookup(tags, q) is None ==> forall|j: int|
            0 <= j < tags.len() ==> !equal_fold(tags[j], q),
        exact_lookup(tags, q) matches Some(t) ==> equal_fold(t, q) && tags.contains(t),
    decreases tags.len(),
{
    if tags.len() == 0 {
    } else if equal_fold(tags[0], q) {
        assert(tags.contains(tags[0]));
    } else {
        lemma_exact_lookup_complete(tags.drop_first(), q);
        assert forall|j: int|
            exact_lookup(tags, q) is None && 0 <= j < tags.len() implies !equal_fold(
            tags[j],
            q,
        ) by {
            if j > 0 {
                assert(tags.drop_first()[j - 1] == tags[j]);
            }
        }
        if exact_lookup(tags.drop_first(), q) is Some {
            let t = exact_lookup(tags.drop_first(), q)->Some_0;
            let k = choose|k: int| 0 <= k < tags.drop_first().len() && tags.drop_first()[k] == t;
            assert(tags[k + 1] == t);
        }
    }
}

/// Prefix-lookup law, soundness: no more than `amount` texts come back, and
/// each carries the query as a case-folded prefix and is a stored tag.
pub proof fn lemma_prefix_lookup_sound(tags: Seq<Seq<char>>, p: Seq<char>, amount: int)
    ensures
        amount >= 0 ==> prefix_lookup(tags, p, amount).len() <= amount,
        forall|k: int|
            0 <= k < prefix_lookup(tags, p, amount).len() ==> prefix_fold(
                p,
                #[trigger] prefix_lookup(tags, p, amount)[k],
            ) && tags.contains(prefix_lookup(tags, p, amount)[k]),
    decreases tags.len(),
{
    if amount <= 0 || tags.len() == 0 {
    } else {
        let rest = tags.drop_first();
        lemma_prefix_lookup_sound(rest, p, amount - 1);
        lemma_prefix_lookup_sound(rest, p, amount);
        assert forall|k: int|
            0 <= k < prefix_lookup(tags, p, amount).len() implies prefix_fold(
            p,
            #[trigger] prefix_lookup(tags, p, amount)[k],
        ) && tags.contains(prefix_lookup(tags, p, amount)[k]) by {
            let found = prefix_lookup(tags, p, amount)[k];
            if prefix_fold(p, tags[0]) && k == 0 {
                assert(tags.contains(tags[0]));
            } else {
                let sub = if prefix_fold(p, tags[0]) {
                    prefix_lookup(rest, p, amount - 1)
                } else {
                    prefix_lookup(rest, p, amount)
                };
                let k_sub = if prefix_fold(p, tags[0]) {
                    k - 1
                } else {
                    k
                };
                assert(sub[k_sub] == found);
                let j = choose|j: int| 0 <= j < rest.len() && rest[j] == found;
                assert(tags[j + 1] == found);
            }
        }
    }
}

/// Prefix-lookup law, completeness: with a cap no smaller than the number of
/// stored tags, every stored tag that carries the query as a case-folded
/// prefix comes back.
pub proof fn lemma_prefix_lookup_complete(tags: Seq<Seq<char>>, p: Seq<char>, amount: int)
    requires
        amount >= tags.len(),
    ensures
        forall|j: int|
            0 <= j < tags.len() && prefix_fold(p, #[trigger] tags[j]) ==> prefix_lookup(
                tags,
                p,
                amount,
            ).contains(tags[j]),
    decreases tags.len(),
{
    if tags.len() == 0 {
    } else {
        let rest = tags.drop_first();
        lemma_prefix_lookup_complete(rest, p, amount - 1);
        lemma_prefix_lookup_complete(rest, p, amount);
        assert forall|j: int|
            0 <= j < tags.len() && prefix_fold(p, #[trigger] tags[j]) implies prefix_lookup(
            tags,
            p,
            amount,
        ).contains(tags[j]) by {
            let sub = if prefix_fold(p, tags[0]) {
                prefix_lookup(rest, p, amount - 1)
            } else {
                prefix_lookup(rest, p, amount)
            };
            let offset: int = if prefix_fold(p, tags[0]) {
                1
            } else {
                0
            };
            if j == 0 {
                assert(prefix_lookup(tags, p, amount)[0] == tags[0]);
            } else {
                assert(rest[j - 1] == tags[j]);
                assert(sub.contains(tags[j]));
                let k = choose|k: int| 0 <= k < sub.len() && sub[k] == tags[j];
                assert(prefix_lookup(tags, p, amount)[k + offset] == tags[j]);
            }
        }
    }
}

} // verus!
