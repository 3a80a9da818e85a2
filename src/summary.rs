use vstd::prelude::*;
use crate::repo::{Repo, line_of};

verus! {

broadcast use vstd::seq_lib::group_to_multiset_ensures;

/// Whether a repository has at least one star.
pub open spec fn is_starred(r: Repo) -> bool {
    r.stargazers_count > 0
}

/// The starred repositories of `s`, in their original order.
pub open spec fn starred(s: Seq<Repo>) -> Seq<Repo> {
    s.filter(|r: Repo| is_starred(r))
}

/// Places `r` into `s` after every repository with at least as many stars,
/// so that among equal star counts the earlier one stays first.
pub open spec fn insert_ranked(s: Seq<Repo>, r: Repo) -> Seq<Repo>
    decreases s.len(),
{
    if s.len() == 0 {
        seq![r]
    } else if s[0].stargazers_count >= r.stargazers_count {
        seq![s[0]] + insert_ranked(s.drop_first(), r)
    } else {
        seq![r] + s
    }
}

/// The starred repositories of `s`, by star count from most to fewest;
/// repositories with equal counts keep the order they had in `s`.
pub open spec fn ranked(s: Seq<Repo>) -> Seq<Repo>
    decreases s.len(),
{
    if s.len() == 0 {
        Seq::empty()
    } else if !is_starred(s.last()) {
        ranked(s.drop_last())
    } else {
        insert_ranked(ranked(s.drop_last()), s.last())
    }
}

/// Every repository in `s` is starred, and star counts never rise along `s`.
pub open spec fn is_ranked(s: Seq<Repo>) -> bool {
    &&& forall|i: int| 0 <= i < s.len() ==> is_starred(#[trigger] s[i])
    &&& forall|i: int, j: int|
        0 <= i < j < s.len() ==> #[trigger] s[i].stargazers_count >= #[trigger] s[j].stargazers_count
}

/// The lines that summarize `s`: one per starred repository, in ranked order.
pub open spec fn summary(s: Seq<Repo>) -> Seq<Seq<char>> {
    ranked(s).map_values(|r: Repo| line_of(r))
}

/// The text of each line of `lines`.
pub open spec fn texts(lines: Seq<String>) -> Seq<Seq<char>> {
    lines.map_values(|l: String| l@)
}

/// Inserting `r` at the first position whose star count is below its own
/// gives `insert_ranked`.
proof fn lemma_insert_at(s: Seq<Repo>, r: Repo, j: int)
    requires
        0 <= j <= s.len(),
        forall|k: int| 0 <= k < j ==> s[k].stargazers_count >= r.stargazers_count,
        j < s.len() ==> s[j].stargazers_count < r.stargazers_count,
    ensures
        insert_ranked(s, r) == s.insert(j, r),
    decreases s.len(),
{
    if s.len() == 0 {
        assert(s.insert(j, r) =~= seq![r]);
    } else if j == 0 {
        assert(s.insert(j, r) =~= seq![r] + s);
    } else {
        lemma_insert_at(s.drop_first(), r, j - 1);
        assert(s.insert(j, r) =~= seq![s[0]] + s.drop_first().insert(j - 1, r));
    }
}

proof fn lemma_insert_ranked_keeps_order(s: Seq<Repo>, r: Repo)
    requires
        is_ranked(s),
        is_starred(r),
    ensures
        is_ranked(insert_ranked(s, r)),
        insert_ranked(s, r).to_multiset() == s.to_multiset().insert(r),
    decreases s.len(),
{
    let t = insert_ranked(s, r);
    if s.len() == 0 {
        assert(t.to_multiset() == seq![r].to_multiset());
        assert(seq![r] =~= Seq::<Repo>::empty().push(r));
    } else if s[0].stargazers_count >= r.stargazers_count {
        let rest = insert_ranked(s.drop_first(), r);
        lemma_insert_ranked_keeps_order(s.drop_first(), r);
        assert(rest.to_multiset() == s.drop_first().to_multiset().insert(r));
        assert forall|k: int| 0 <= k < rest.len() implies s[0].stargazers_count
            >= #[trigger] rest[k].stargazers_count by {
            assert(rest.to_multiset().count(rest[k]) > 0);
            if rest[k] != r {
                assert(s.drop_first().to_multiset().count(rest[k]) > 0);
                assert(s.drop_first().contains(rest[k]));
            }
        }
        assert forall|i: int, j: int| 0 <= i < j < t.len() implies #[trigger] t[i].stargazers_count
            >= #[trigger] t[j].stargazers_count by {
            if i > 0 {
                assert(t[i] == rest[i - 1]);
            }
            assert(t[j] == rest[j - 1]);
        }
        assert(s =~= s.drop_first().insert(0, s[0]));
        assert(t =~= rest.insert(0, s[0]));
    } else {
        assert(t =~= s.insert(0, r));
    }
}

proof fn lemma_ranked_properties(s: Seq<Repo>)
    ensures
        is_ranked(ranked(s)),
        ranked(s).to_multiset() == starred(s).to_multiset(),
    decreases s.len(),
{
    reveal(Seq::filter);
    if s.len() > 0 {
        lemma_ranked_properties(s.drop_last());
        if is_starred(s.last()) {
            lemma_insert_ranked_keeps_order(ranked(s.drop_last()), s.last());
        }
    }
}

/// Puts `r` into the ranked `out`, after every repository with at least as many stars.
fn insert_into_ranked(out: &mut Vec<Repo>, r: Repo)
    ensures
        final(out)@ == insert_ranked(old(out)@, r),
{
    let mut j: usize = 0;
    while j < out.len() && out[j].stargazers_count >= r.stargazers_count
        invariant
            0 <= j <= out@.len(),
            forall|k: int| 0 <= k < j ==> out@[k].stargazers_count >= r.stargazers_count,
        decreases out@.len() - j,
    {
        j = j + 1;
    }
    proof {
        lemma_insert_at(out@, r, j as int);
    }
    out.insert(j, r);
}

/// Drops the repositories without stars and orders the rest by star count,
/// most stars first; repositories with equal counts keep their input order.
pub fn rank(repos: Vec<Repo>) -> (r: Vec<Repo>)
    ensures
        r@ == ranked(repos@),
        is_ranked(r@),
        r@.to_multiset() == starred(repos@).to_multiset(),
{
    let ghost input = repos@;
    let mut rest = repos;
    let mut out: Vec<Repo> = Vec::new();
    let n = rest.len();
    let mut i: usize = 0;
    while i < n
        invariant
            n == input.len(),
            i <= n,
            rest@ == input.subrange(i as int, n as int),
            out@ == ranked(input.subrange(0, i as int)),
        decreases n - i,
    {
        let r = rest.remove(0);
        proof {
            assert(input.subrange(0, i + 1).drop_last() =~= input.subrange(0, i as int));
            assert(input.subrange(0, i + 1).last() == r);
        }
        if r.stargazers_count > 0 {
            insert_into_ranked(&mut out, r);
        }
        assert(rest@ =~= input.subrange(i + 1, n as int));
        i = i + 1;
    }
    assert(input.subrange(0, n as int) =~= input);
    proof {
        lemma_ranked_properties(input);
    }
    out
}

/// Renders each repository of `repos` as one line.
pub fn render_lines(repos: &Vec<Repo>) -> (lines: Vec<String>)
    ensures
        lines@.len() == repos@.len(),
        texts(lines@) == repos@.map_values(|r: Repo| line_of(r)),
{
    let mut lines: Vec<String> = Vec::new();
    let mut i: usize = 0;
    while i < repos.len()
        invariant
            i <= repos@.len(),
            lines@.len() == i,
            texts(lines@) == repos@.subrange(0, i as int).map_values(|r: Repo| line_of(r)),
        decreases repos@.len() - i,
    {
        let line = repos[i].to_string();
        let ghost prev = lines@;
        lines.push(line);
        assert forall|k: int| 0 <= k < i + 1 implies #[trigger] texts(lines@)[k] == line_of(
            repos@[k],
        ) by {
            if k < i {
                assert(lines@[k] == prev[k]);
                assert(texts(prev)[k] == repos@.subrange(0, i as int).map_values(
                    |r: Repo| line_of(r),
                )[k]);
            }
        }
        assert(texts(lines@) =~= repos@.subrange(0, i + 1).map_values(|r: Repo| line_of(r)));
        i = i + 1;
    }
    assert(repos@.subrange(0, i as int) =~= repos@);
    lines
}

/// The summary of `repos`: one rendered line for each repository with at
/// least one star, from the most starred down.
pub fn summarize(repos: Vec<Repo>) -> (lines: Vec<String>)
    ensures
        texts(lines@) == summary(repos@),
        lines@.len() == starred(repos@).len(),
{
    let ghost input = repos@;
    let ranked_repos = rank(repos);
    proof {
        lemma_ranked_properties(input);
        assert(ranked(input).to_multiset().len() == starred(input).to_multiset().len());
    }
    render_lines(&ranked_repos)
}

/// A ranked sequence is unchanged by ranking it again.
proof fn lemma_ranked_fixed(s: Seq<Repo>)
    requires
        is_ranked(s),
    ensures
        ranked(s) == s,
    decreases s.len(),
{
    if s.len() > 0 {
        let init = s.drop_last();
        assert forall|i: int, j: int| 0 <= i < j < init.len() implies #[trigger] init[i].stargazers_count
            >= #[trigger] init[j].stargazers_count by {
            assert(init[j] == s[j]);
        }
        assert(forall|i: int| 0 <= i < init.len() ==> #[trigger] init[i] == s[i]);
        lemma_ranked_fixed(init);
        assert(is_starred(s[s.len() - 1]));
        lemma_insert_at(init, s.last(), init.len() as int);
        assert(init.insert(init.len() as int, s.last()) =~= s);
    }
}

/// The repositories that a summary shows are the starred ones of the input,
/// each as often as it occurs there, from the most starred down.
pub proof fn lemma_ranked_is_starred_permutation(s: Seq<Repo>)
    ensures
        is_ranked(ranked(s)),
        ranked(s).to_multiset() == starred(s).to_multiset(),
{
    lemma_ranked_properties(s);
}

/// Ranking is idempotent: summarizing the ranked repositories again renders
/// exactly the same lines.
pub proof fn lemma_summary_idempotent(s: Seq<Repo>)
    ensures
        ranked(ranked(s)) == ranked(s),
        summary(ranked(s)) == summary(s),
{
    lemma_ranked_properties(s);
    lemma_ranked_fixed(ranked(s));
}

/// A repository without stars never appears among the ranked repositories,
/// so no line of the summary renders it.
pub proof fn lemma_unstarred_absent(s: Seq<Repo>, r: Repo)
    requires
        r.stargazers_count == 0,
    ensures
        !ranked(s).contains(r),
{
    lemma_ranked_properties(s);
}

} // verus!
