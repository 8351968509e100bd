//! Reading an `owner/repo` reference.
use vstd::prelude::*;

verus! {

/// The separator between the owner and the repository name.
pub open spec fn is_separator(c: char) -> bool {
    c == '/'
}

/// How many separators `s` holds.
pub open spec fn separator_count(s: Seq<char>) -> nat
    decreases s.len(),
{
    if s.len() == 0 {
        0
    } else {
        separator_count(s.drop_last()) + if is_separator(s.last()) {
            1nat
        } else {
            0nat
        }
    }
}

/// Counting separators distributes over concatenation.
pub proof fn lemma_separator_count_concat(a: Seq<char>, b: Seq<char>)
    ensures
        separator_count(a + b) == separator_count(a) + separator_count(b),
    decreases b.len(),
{
    if b.len() == 0 {
        assert(a + b =~= a);
    } else {
        lemma_separator_count_concat(a, b.drop_last());
        assert((a + b).drop_last() =~= a + b.drop_last());
    }
}

/// A text without separators holds no `/` at any position.
pub proof fn lemma_no_separator(s: Seq<char>, i: int)
    requires
        separator_count(s) == 0,
        0 <= i < s.len(),
    ensures
        !is_separator(s[i]),
    decreases s.len(),
{
    if i < s.len() - 1 {
        assert(s.drop_last()[i] == s[i]);
        lemma_no_separator(s.drop_last(), i);
    }
}

/// A text splits in at most one way into two separator-free parts around a
/// `/`: the owner and repository name that `parse_owner_repo` returns for
/// `owner/repo` are `owner` and `repo` themselves.
pub proof fn lemma_split_unique(owner: Seq<char>, repo: Seq<char>, o: Seq<char>, p: Seq<char>)
    requires
        separator_count(owner) == 0,
        separator_count(repo) == 0,
        separator_count(o) == 0,
        separator_count(p) == 0,
        owner + seq!['/'] + repo == o + seq!['/'] + p,
    ensures
        o == owner,
        p == repo,
{
    let s = owner + seq!['/'] + repo;
    let t = o + seq!['/'] + p;
    if owner.len() < o.len() {
        assert(s[owner.len() as int] == '/');
        assert(t[owner.len() as int] == o[owner.len() as int]);
        lemma_no_separator(o, owner.len() as int);
    } else if o.len() < owner.len() {
        assert(t[o.len() as int] == '/');
        assert(s[o.len() as int] == owner[o.len() as int]);
        lemma_no_separator(owner, o.len() as int);
    }
    assert(owner.len() == o.len());
    assert(o =~= s.take(o.len() as int));
    assert(owner =~= s.take(o.len() as int));
    assert(p =~= s.skip(o.len() as int + 1));
    assert(repo =~= s.skip(o.len() as int + 1));
}

/// Splits `input` at its one `/` into owner and repository name.
///
/// There is an answer exactly when `input` holds a single `/`; the two parts
/// are then the text before and after it, either of which may be empty.
pub fn parse_owner_repo(input: &str) -> (r: Option<(&str, &str)>)
    ensures
        r is Some <==> separator_count(input@) == 1,
        r matches Some((owner, repo)) ==> {
            &&& input@ == owner@ + seq!['/'] + repo@
            &&& separator_count(owner@) == 0
            &&& separator_count(repo@) == 0
        },
{
    let n = input.unicode_len();
    let mut count: usize = 0;
    let mut first: usize = 0;
    let mut i: usize = 0;
    while i < n
        invariant
            n == input@.len(),
            i <= n,
            count <= i,
            count == separator_count(input@.take(i as int)),
            count >= 1 ==> {
                &&& first < i
                &&& is_separator(input@[first as int])
                &&& separator_count(input@.take(first as int)) == 0
            },
        decreases n - i,
    {
        let c = input.get_char(i);
        assert(input@.take(i + 1).drop_last() =~= input@.take(i as int));
        if c == '/' {
            if count == 0 {
                first = i;
            }
            count = count + 1;
        }
        i = i + 1;
    }
    assert(input@.take(n as int) =~= input@);
    if count == 1 {
        let owner = input.substring_char(0, first);
        let repo = input.substring_char(first + 1, n);
        proof {
            let s = input@;
            let f = first as int;
            assert(s.take(f) + s.subrange(f, f + 1) + s.skip(f + 1) =~= s);
            assert(s.subrange(f, f + 1) =~= seq![s[f]]);
            assert(seq![s[f]].drop_last() =~= Seq::<char>::empty());
            lemma_separator_count_concat(s.take(f), s.subrange(f, f + 1));
            lemma_separator_count_concat(s.take(f) + s.subrange(f, f + 1), s.skip(f + 1));
            assert(owner@ =~= s.take(f));
            assert(repo@ =~= s.skip(f + 1));
            assert(input@ =~= owner@ + seq!['/'] + repo@);
        }
        Some((owner, repo))
    } else {
        None
    }
}

} // verus!
