//! Edit distance between strings, used to match preset names against file
//! names.

use vstd::prelude::*;

verus! {

/// The least of three naturals.
pub open spec fn least3(a: nat, b: nat, c: nat) -> nat {
    if a <= b && a <= c {
        a
    } else if b <= c {
        b
    } else {
        c
    }
}

/// The edit distance between two character sequences: the least number of
/// single-character insertions, deletions and substitutions that turn one
/// into the other.
pub open spec fn edit_distance(s: Seq<char>, t: Seq<char>) -> nat
    decreases s.len() + t.len(),
{
    if s.len() == 0 {
        t.len()
    } else if t.len() == 0 {
        s.len()
    } else {
        least3(
            edit_distance(s.drop_last(), t) + 1,
            edit_distance(s, t.drop_last()) + 1,
            edit_distance(s.drop_last(), t.drop_last()) + if s.last() == t.last() {
                0nat
            } else {
                1nat
            },
        )
    }
}

/// The edit distance never exceeds the longer input's length.
pub proof fn lemma_edit_distance_le_max(s: Seq<char>, t: Seq<char>)
    ensures
        edit_distance(s, t) <= vstd::math::max(s.len() as int, t.len() as int),
    decreases s.len() + t.len(),
{
    if s.len() != 0 && t.len() != 0 {
        lemma_edit_distance_le_max(s.drop_last(), t.drop_last());
    }
}

/// Unfolding of `edit_distance` on prefixes: the distance of the prefixes of
/// lengths `i` and `j` is determined by the three shorter-prefix distances.
proof fn lemma_edit_distance_step(s: Seq<char>, t: Seq<char>, i: int, j: int)
    requires
        1 <= i <= s.len(),
        1 <= j <= t.len(),
    ensures
        edit_distance(s.take(i), t.take(j)) == least3(
            edit_distance(s.take(i - 1), t.take(j)) + 1,
            edit_distance(s.take(i), t.take(j - 1)) + 1,
            edit_distance(s.take(i - 1), t.take(j - 1)) + if s[i - 1] == t[j - 1] {
                0nat
            } else {
                1nat
            },
        ),
{
    assert(s.take(i).drop_last() =~= s.take(i - 1));
    assert(t.take(j).drop_last() =~= t.take(j - 1));
    assert(s.take(i).last() == s[i - 1]);
    assert(t.take(j).last() == t[j - 1]);
}

/// The characters of a string, as a vector.
fn chars_of(s: &str) -> (v: Vec<char>)
    ensures
        v@ == s@,
{
    let n = s.unicode_len();
    let mut v: Vec<char> = Vec::new();
    let mut i: usize = 0;
    while i < n
        invariant
            i <= n,
            n == s@.len(),
            v@ == s@.take(i as int),
        decreases n - i,
    {
        v.push(s.get_char(i));
        i = i + 1;
        assert(v@ =~= s@.take(i as int));
    }
    assert(v@ =~= s@);
    v
}

/// The edit distance between two strings, by dynamic programming over rows.
pub fn distance(s: &str, t: &str) -> (r: usize)
    requires
        s@.len() + t@.len() < usize::MAX,
    ensures
        r == edit_distance(s@, t@),
{
    let sv = chars_of(s);
    let tv = chars_of(t);
    let m = sv.len();
    let n = tv.len();
    let mut v0: Vec<usize> = Vec::new();
    let mut j: usize = 0;
    while j <= n
        invariant
            j <= n + 1,
            n == tv@.len(),
            n < usize::MAX,
            v0@.len() == j,
            forall|jj: int| 0 <= jj < j ==> v0@[jj] == jj,
        decreases n + 1 - j,
    {
        v0.push(j);
        j = j + 1;
    }
    assert forall|jj: int| 0 <= jj <= n implies v0@[jj] == edit_distance(
        sv@.take(0),
        tv@.take(jj),
    ) by {
        assert(sv@.take(0).len() == 0);
        assert(tv@.take(jj).len() == jj);
    }
    let mut i: usize = 0;
    while i < m
        invariant
            i <= m,
            m == sv@.len(),
            n == tv@.len(),
            sv@ == s@,
            tv@ == t@,
            s@.len() + t@.len() < usize::MAX,
            v0@.len() == n + 1,
            forall|jj: int|
                0 <= jj <= n ==> v0@[jj] == edit_distance(sv@.take(i as int), tv@.take(jj)),
        decreases m - i,
    {
        let mut v1: Vec<usize> = Vec::new();
        proof {
            lemma_edit_distance_le_max(sv@.take(i as int + 1), tv@.take(0));
        }
        v1.push(i + 1);
        assert(edit_distance(sv@.take(i as int + 1), tv@.take(0)) == i + 1) by {
            assert(tv@.take(0).len() == 0);
            assert(sv@.take(i as int + 1).len() == i + 1);
        }
        let mut j: usize = 0;
        while j < n
            invariant
                j <= n,
                i < m,
                m == sv@.len(),
                n == tv@.len(),
                sv@ == s@,
                tv@ == t@,
                s@.len() + t@.len() < usize::MAX,
                v0@.len() == n + 1,
                v1@.len() == j + 1,
                forall|jj: int|
                    0 <= jj <= n ==> v0@[jj] == edit_distance(sv@.take(i as int), tv@.take(jj)),
                forall|jj: int|
                    0 <= jj <= j ==> v1@[jj] == edit_distance(
                        sv@.take(i as int + 1),
                        tv@.take(jj),
                    ),
            decreases n - j,
        {
            proof {
                lemma_edit_distance_le_max(sv@.take(i as int), tv@.take(j + 1));
                lemma_edit_distance_le_max(sv@.take(i as int + 1), tv@.take(j as int));
                lemma_edit_distance_le_max(sv@.take(i as int), tv@.take(j as int));
                lemma_edit_distance_step(sv@, tv@, i as int + 1, j as int + 1);
            }
            let deletion_cost = v0[j + 1] + 1;
            let insertion_cost = v1[j] + 1;
            let substitution_cost = if sv[i] == tv[j] {
                v0[j]
            } else {
                v0[j] + 1
            };
            let mut best = deletion_cost;
            if insertion_cost < best {
                best = insertion_cost;
            }
            if substitution_cost < best {
                best = substitution_cost;
            }
            v1.push(best);
            j = j + 1;
        }
        v0 = v1;
        i = i + 1;
    }
    assert(sv@.take(m as int) =~= s@);
    assert(tv@.take(n as int) =~= t@);
    v0[n]
}

} // verus!
