use vstd::prelude::*;

verus! {

/// `s` contains no underscore.  Canonical names are built by joining
/// underscore-free tokens with underscores, which makes them parseable and
/// therefore collision-free.
pub open spec fn underscore_free(s: Seq<char>) -> bool {
    forall|i: int| 0 <= i < s.len() ==> s[i] != '_'
}

/// The tokens joined with a single underscore between consecutive tokens.
pub open spec fn join_underscore(parts: Seq<Seq<char>>) -> Seq<char>
    decreases parts.len(),
{
    if parts.len() == 0 {
        Seq::empty()
    } else if parts.len() == 1 {
        parts[0]
    } else {
        parts[0] + seq!['_'] + join_underscore(parts.drop_first())
    }
}

/// Joining a concatenation of two non-empty token lists is joining each and
/// putting an underscore between.
pub proof fn lemma_join_append(a: Seq<Seq<char>>, b: Seq<Seq<char>>)
    requires
        a.len() >= 1,
        b.len() >= 1,
    ensures
        join_underscore(a + b) == join_underscore(a) + seq!['_'] + join_underscore(b),
    decreases a.len(),
{
    if a.len() == 1 {
        assert((a + b).drop_first() =~= b);
        assert(join_underscore(a + b) =~= join_underscore(a) + seq!['_'] + join_underscore(b));
    } else {
        lemma_join_append(a.drop_first(), b);
        assert((a + b).drop_first() =~= a.drop_first() + b);
        assert(join_underscore(a + b) =~= join_underscore(a) + seq!['_'] + join_underscore(b));
    }
}

/// The index of the first underscore in `s`, or `s.len()` if there is none.
pub open spec fn first_underscore(s: Seq<char>) -> int
    decreases s.len(),
{
    if s.len() == 0 {
        0
    } else if s[0] == '_' {
        0
    } else {
        1 + first_underscore(s.drop_first())
    }
}

pub proof fn lemma_first_underscore_bounds(s: Seq<char>)
    ensures
        0 <= first_underscore(s) <= s.len(),
        forall|j: int| 0 <= j < first_underscore(s) ==> s[j] != '_',
        first_underscore(s) < s.len() ==> s[first_underscore(s)] == '_',
    decreases s.len(),
{
    if s.len() > 0 && s[0] != '_' {
        lemma_first_underscore_bounds(s.drop_first());
        assert forall|j: int| 0 <= j < first_underscore(s) implies s[j] != '_' by {
            if j > 0 {
                assert(s.drop_first()[j - 1] != '_');
            }
        }
        if first_underscore(s) < s.len() {
            assert(s[first_underscore(s)] == s.drop_first()[first_underscore(s.drop_first())]);
        }
    }
}

pub proof fn lemma_first_underscore_free(s: Seq<char>)
    requires
        underscore_free(s),
    ensures
        first_underscore(s) == s.len(),
    decreases s.len(),
{
    if s.len() > 0 {
        assert(underscore_free(s.drop_first())) by {
            assert(forall|i: int|
                0 <= i < s.drop_first().len() ==> s.drop_first()[i] == s[i + 1]);
        }
        lemma_first_underscore_free(s.drop_first());
    }
}

/// In `token ++ "_" ++ rest`, with `token` underscore-free, the first
/// underscore is the one spliced in after `token`.
pub proof fn lemma_first_underscore_concat(t: Seq<char>, rest: Seq<char>)
    requires
        underscore_free(t),
    ensures
        first_underscore(t + seq!['_'] + rest) == t.len(),
    decreases t.len(),
{
    let s = t + seq!['_'] + rest;
    if t.len() == 0 {
        assert(s[0] == '_');
    } else {
        assert(s[0] == t[0]);
        assert(underscore_free(t.drop_first())) by {
            assert(forall|i: int|
                0 <= i < t.drop_first().len() ==> t.drop_first()[i] == t[i + 1]);
        }
        lemma_first_underscore_concat(t.drop_first(), rest);
        assert(s.drop_first() =~= t.drop_first() + seq!['_'] + rest);
    }
}

/// `s` split at each underscore, the underscores themselves dropped.
pub open spec fn split_underscore(s: Seq<char>) -> Seq<Seq<char>>
    decreases s.len(),
{
    let i = first_underscore(s);
    if 0 <= i && i < s.len() {
        seq![s.subrange(0, i)] + split_underscore(s.subrange(i + 1, s.len() as int))
    } else {
        seq![s]
    }
}

/// Splitting undoes joining, provided every token is underscore-free.
pub proof fn lemma_split_join(parts: Seq<Seq<char>>)
    requires
        parts.len() >= 1,
        forall|i: int| 0 <= i < parts.len() ==> underscore_free(#[trigger] parts[i]),
    ensures
        split_underscore(join_underscore(parts)) == parts,
    decreases parts.len(),
{
    if parts.len() == 1 {
        lemma_first_underscore_free(parts[0]);
        assert(split_underscore(join_underscore(parts)) =~= parts);
    } else {
        let t = parts[0];
        let rest = join_underscore(parts.drop_first());
        let s = t + seq!['_'] + rest;
        assert(join_underscore(parts) == s);
        lemma_first_underscore_concat(t, rest);
        assert(s.subrange(0, t.len() as int) =~= t);
        assert(s.subrange(t.len() as int + 1, s.len() as int) =~= rest);
        lemma_split_join(parts.drop_first());
        assert(split_underscore(s) =~= seq![t] + parts.drop_first());
        assert(seq![t] + parts.drop_first() =~= parts);
    }
}

/// Joining with underscores is injective on non-empty lists of
/// underscore-free tokens.
pub proof fn lemma_join_injective(p1: Seq<Seq<char>>, p2: Seq<Seq<char>>)
    requires
        p1.len() >= 1,
        p2.len() >= 1,
        forall|i: int| 0 <= i < p1.len() ==> underscore_free(#[trigger] p1[i]),
        forall|i: int| 0 <= i < p2.len() ==> underscore_free(#[trigger] p2[i]),
        join_underscore(p1) == join_underscore(p2),
    ensures
        p1 == p2,
{
    lemma_split_join(p1);
    lemma_split_join(p2);
}

} // verus!
