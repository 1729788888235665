//! Path safety: query stripping, traversal rejection, mapping a
//! target to a path under the document root, and the canonical-prefix
//! check that guards against escapes the string checks cannot see.

use vstd::prelude::*;
use crate::text::str_eq;

verus! {

/// The decoded target without query and fragment: its prefix up to
/// the first `?` or `#`.
pub open spec fn spec_strip_query(s: Seq<char>) -> Seq<char>
    decreases s.len(),
{
    if s.len() == 0 || s[0] == '?' || s[0] == '#' {
        Seq::empty()
    } else {
        seq![s[0]] + spec_strip_query(s.skip(1))
    }
}

proof fn lemma_strip_query_scan(s: Seq<char>, r: int)
    requires
        0 <= r <= s.len(),
        forall|j: int| 0 <= j < r ==> s[j] != '?' && s[j] != '#',
        r < s.len() ==> s[r] == '?' || s[r] == '#',
    ensures
        spec_strip_query(s) =~= s.subrange(0, r),
    decreases r,
{
    if r == 0 {
        assert(s.subrange(0, 0) =~= Seq::<char>::empty());
    } else {
        lemma_strip_query_scan(s.skip(1), r - 1);
        assert(seq![s[0]] + s.skip(1).subrange(0, r - 1) =~= s.subrange(0, r));
    }
}

/// Cut the query and fragment parts off a decoded target.
pub fn strip_query_fragment(p: &str) -> (r: String)
    ensures
        r@ == spec_strip_query(p@),
{
    let n = p.unicode_len();
    let mut i: usize = 0;
    loop
        invariant
            n == p@.len(),
            0 <= i <= n,
            forall|j: int| 0 <= j < i ==> p@[j] != '?' && p@[j] != '#',
        ensures
            0 <= i <= n,
            forall|j: int| 0 <= j < i ==> p@[j] != '?' && p@[j] != '#',
            i < n ==> p@[i as int] == '?' || p@[i as int] == '#',
        decreases n - i,
    {
        if i == n {
            break ;
        }
        let c = p.get_char(i);
        if c == '?' || c == '#' {
            break ;
        }
        i = i + 1;
    }
    proof {
        lemma_strip_query_scan(p@, i as int);
    }
    p.substring_char(0, i).to_owned()
}

/// True when two dots stand next to each other somewhere in `s`.
pub open spec fn spec_contains_dotdot(s: Seq<char>) -> bool {
    exists|i: int| 0 <= i && i + 2 <= s.len() && #[trigger] s[i] == '.' && s[i + 1] == '.'
}

/// Does the path hold the substring `..` anywhere?
pub fn contains_dotdot(p: &str) -> (r: bool)
    ensures
        r == spec_contains_dotdot(p@),
{
    let n = p.unicode_len();
    if n < 2 {
        return false;
    }
    let mut i: usize = 0;
    while i < n - 1
        invariant
            n == p@.len(),
            2 <= n,
            0 <= i,
            i + 2 <= n + 1,
            forall|j: int| 0 <= j < i ==> !(#[trigger] p@[j] == '.' && p@[j + 1] == '.'),
        decreases n - i,
    {
        if p.get_char(i) == '.' && p.get_char(i + 1) == '.' {
            assert(spec_contains_dotdot(p@));
            return true;
        }
        i = i + 1;
    }
    false
}

/// The path under the document root that the stripped target asks
/// for: the default resource for `/`, otherwise the target without
/// its leading slash; nothing for an empty target.
pub open spec fn spec_rel_path(s: Seq<char>) -> Option<Seq<char>> {
    if s.len() == 0 {
        None
    } else if s == seq!['/'] {
        Some("index.html"@)
    } else {
        Some(s.skip(1))
    }
}

/// Map a stripped target to its path under the document root, or
/// report an empty target with `None`.
pub fn target_rel_path(path_only: &str) -> (r: Option<String>)
    ensures
        r is Some <==> spec_rel_path(path_only@) is Some,
        r is Some ==> r.unwrap()@ == spec_rel_path(path_only@).unwrap(),
{
    let n = path_only.unicode_len();
    if n == 0 {
        return None;
    }
    proof {
        reveal_strlit("/");
        assert("/"@ =~= seq!['/']);
    }
    if str_eq(path_only, "/") {
        proof {
            assert(path_only@ =~= seq!['/']);
        }
        Some("index.html".to_owned())
    } else {
        proof {
            assert(path_only@ != seq!['/']);
        }
        Some(path_only.substring_char(1, n).to_owned())
    }
}

/// Component-wise prefix test on canonical absolute paths: the target
/// is the root itself or lies below it.
pub open spec fn spec_within_root(target: Seq<char>, root: Seq<char>) -> bool {
    target == root || (root.len() < target.len() && target.subrange(0, root.len() as int) == root
        && (target[root.len() as int] == '/' || (root.len() > 0 && root[root.len() - 1] == '/')))
}

/// Does the canonical target lie at or under the canonical root?
pub fn is_within_root(target: &str, root: &str) -> (r: bool)
    ensures
        r == spec_within_root(target@, root@),
{
    let nt = target.unicode_len();
    let nr = root.unicode_len();
    if nt == nr {
        let same = str_eq(target, root);
        proof {
            if !same {
                assert(!spec_within_root(target@, root@));
            }
        }
        return same;
    }
    if nt < nr {
        return false;
    }
    let mut i: usize = 0;
    while i < nr
        invariant
            nt == target@.len(),
            nr == root@.len(),
            nr < nt,
            0 <= i <= nr,
            forall|j: int| 0 <= j < i ==> target@[j] == root@[j],
        decreases nr - i,
    {
        if target.get_char(i) != root.get_char(i) {
            assert(target@.subrange(0, nr as int)[i as int] != root@[i as int]);
            return false;
        }
        i = i + 1;
    }
    proof {
        assert(target@.subrange(0, nr as int) =~= root@);
    }
    if target.get_char(nr) == '/' {
        return true;
    }
    if nr > 0 && root.get_char(nr - 1) == '/' {
        return true;
    }
    false
}

} // verus!
