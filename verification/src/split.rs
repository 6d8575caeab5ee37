//! Splitting a byte sequence on a separator, the way the inventory blob is
//! split into tokens and a token into fields: a split always yields one part
//! more than there are separators, and parts keep source order.

use vstd::prelude::*;

verus! {

/// The parts of `s` between occurrences of `sep`, in order. A sequence with
/// no separator is one part; every separator opens a new (possibly empty)
/// part, so the result always has one part more than there are separators.
pub open spec fn split_on(s: Seq<u8>, sep: u8) -> Seq<Seq<u8>>
    decreases s.len(),
{
    if s.len() == 0 {
        seq![Seq::empty()]
    } else if s[0] == sep {
        seq![Seq::<u8>::empty()] + split_on(s.skip(1), sep)
    } else {
        let rest = split_on(s.skip(1), sep);
        seq![seq![s[0]] + rest[0]] + rest.skip(1)
    }
}

/// How many times `sep` occurs in `s`.
pub open spec fn count_byte(s: Seq<u8>, sep: u8) -> int
    decreases s.len(),
{
    if s.len() == 0 {
        0
    } else {
        count_byte(s.skip(1), sep) + if s[0] == sep {
            1int
        } else {
            0int
        }
    }
}

pub proof fn lemma_split_on_len(s: Seq<u8>, sep: u8)
    ensures
        split_on(s, sep).len() == count_byte(s, sep) + 1,
    decreases s.len(),
{
    if s.len() > 0 {
        lemma_split_on_len(s.skip(1), sep);
    }
}

/// Extending the input by one byte extends the split: a separator opens a new
/// empty part, any other byte lands at the end of the last part.
pub proof fn lemma_split_on_push(s: Seq<u8>, sep: u8, c: u8)
    ensures
        c == sep ==> split_on(s.push(c), sep) == split_on(s, sep).push(Seq::empty()),
        c != sep ==> split_on(s.push(c), sep) == split_on(s, sep).update(
            split_on(s, sep).len() - 1,
            split_on(s, sep).last().push(c),
        ),
    decreases s.len(),
{
    lemma_split_on_len(s, sep);
    if s.len() == 0 {
        assert(s.push(c) =~= seq![c]);
        assert(s.push(c).skip(1) =~= Seq::<u8>::empty());
        assert(split_on(Seq::<u8>::empty(), sep) == seq![Seq::<u8>::empty()]);
        if c == sep {
            assert(split_on(s.push(c), sep) =~~= split_on(s, sep).push(Seq::empty()));
        } else {
            assert(seq![c] + split_on(Seq::<u8>::empty(), sep)[0] =~= seq![c]);
            assert(split_on(s.push(c), sep) =~~= split_on(s, sep).update(
                0,
                split_on(s, sep).last().push(c),
            ));
        }
    } else {
        let t = s.skip(1);
        lemma_split_on_len(t, sep);
        assert(s.push(c).skip(1) =~= t.push(c));
        lemma_split_on_push(t, sep, c);
        let rt = split_on(t, sep);
        let rtc = split_on(t.push(c), sep);
        if s[0] == sep {
            if c == sep {
                assert(split_on(s.push(c), sep) =~~= split_on(s, sep).push(Seq::empty()));
            } else {
                assert(rtc[0] == rt[0].push(c) || rt.len() > 1);
                assert(split_on(s.push(c), sep) =~~= split_on(s, sep).update(
                    split_on(s, sep).len() - 1,
                    split_on(s, sep).last().push(c),
                ));
            }
        } else {
            if c == sep {
                assert(rtc =~~= rt.push(Seq::empty()));
                assert(rtc[0] == rt[0]);
                assert(rtc.skip(1) =~~= rt.skip(1).push(Seq::empty()));
                assert(split_on(s.push(c), sep) =~~= split_on(s, sep).push(Seq::empty()));
            } else {
                assert(rtc == rt.update(rt.len() - 1, rt.last().push(c)));
                if rt.len() == 1 {
                    assert(rtc[0] == rt[0].push(c));
                    assert(rtc.skip(1) =~~= rt.skip(1));
                    assert(seq![s[0]] + rt[0].push(c) =~= (seq![s[0]] + rt[0]).push(c));
                    assert(split_on(s.push(c), sep) =~= split_on(s, sep).update(
                        split_on(s, sep).len() - 1,
                        split_on(s, sep).last().push(c),
                    ));
                } else {
                    assert(rtc[0] == rt[0]);
                    assert(rtc.skip(1) =~~= rt.skip(1).update(
                        rt.len() - 2,
                        rt.last().push(c),
                    ));
                    assert(split_on(s, sep).last() == rt.last());
                    assert(split_on(s.push(c), sep) =~= split_on(s, sep).update(
                        split_on(s, sep).len() - 1,
                        split_on(s, sep).last().push(c),
                    ));
                }
            }
        }
    }
}

/// A sequence without the separator splits into itself alone.
pub proof fn lemma_split_on_no_sep(s: Seq<u8>, sep: u8)
    requires
        forall|i: int| 0 <= i < s.len() ==> s[i] != sep,
    ensures
        split_on(s, sep) == seq![s],
    decreases s.len(),
{
    if s.len() == 0 {
        assert(split_on(s, sep) =~~= seq![s]);
    } else {
        lemma_split_on_no_sep(s.skip(1), sep);
        assert(seq![s[0]] + s.skip(1) =~= s);
        assert(split_on(s, sep) =~~= seq![s]);
    }
}

/// Splitting `a + sep + b` where `a` holds no separator yields `a` first and
/// then the parts of `b`.
pub proof fn lemma_split_on_concat(a: Seq<u8>, b: Seq<u8>, sep: u8)
    requires
        forall|i: int| 0 <= i < a.len() ==> a[i] != sep,
    ensures
        split_on(a + seq![sep] + b, sep) == seq![a] + split_on(b, sep),
    decreases a.len(),
{
    let s = a + seq![sep] + b;
    if a.len() == 0 {
        assert(s[0] == sep);
        assert(s.skip(1) =~= b);
        assert(split_on(s, sep) =~~= seq![a] + split_on(b, sep));
    } else {
        assert(s[0] == a[0]);
        assert(s.skip(1) =~= a.skip(1) + seq![sep] + b);
        lemma_split_on_concat(a.skip(1), b, sep);
        let rest = split_on(s.skip(1), sep);
        assert(rest == seq![a.skip(1)] + split_on(b, sep));
        assert(rest[0] == a.skip(1));
        assert(seq![s[0]] + rest[0] =~= a);
        assert(rest.skip(1) =~~= split_on(b, sep));
        assert(split_on(s, sep) =~~= seq![a] + split_on(b, sep));
    }
}

/// Splits `s` on `sep`, exactly as `split_on` says.
pub fn split_bytes(s: &[u8], sep: u8) -> (r: Vec<Vec<u8>>)
    ensures
        r@.len() == split_on(s@, sep).len(),
        forall|j: int| 0 <= j < r@.len() ==> #[trigger] r@[j]@ == split_on(s@, sep)[j],
{
    let n = s.len();
    let mut done: Vec<Vec<u8>> = Vec::new();
    let mut cur: Vec<u8> = Vec::new();
    let mut i: usize = 0;
    proof {
        assert(s@.subrange(0, 0) =~= Seq::<u8>::empty());
    }
    while i < n
        invariant
            0 <= i <= n,
            n == s@.len(),
            done@.len() + 1 == split_on(s@.subrange(0, i as int), sep).len(),
            forall|j: int|
                0 <= j < done@.len() ==> #[trigger] done@[j]@ == split_on(
                    s@.subrange(0, i as int),
                    sep,
                )[j],
            cur@ == split_on(s@.subrange(0, i as int), sep).last(),
        decreases n - i,
    {
        let b = s[i];
        proof {
            assert(s@.subrange(0, i + 1int) =~= s@.subrange(0, i as int).push(s@[i as int]));
            lemma_split_on_push(s@.subrange(0, i as int), sep, s@[i as int]);
        }
        if b == sep {
            done.push(cur);
            cur = Vec::new();
        } else {
            cur.push(b);
        }
        i = i + 1;
    }
    assert(s@.subrange(0, n as int) =~= s@);
    done.push(cur);
    done
}

} // verus!
