use vstd::prelude::*;
use vstd::string::StrSliceExecFns;

use crate::ids::{is_id_char, ID_LEN};

verus! {

/// A mention `<@ID>` of a 26-character id starts at position `i` of `s`.
pub open spec fn mention_at(s: Seq<char>, i: int) -> bool {
    &&& 0 <= i
    &&& i + 29 <= s.len()
    &&& s[i] == '<'
    &&& s[i + 1] == '@'
    &&& s[i + 28] == '>'
    &&& forall|k: int| i + 2 <= k < i + 28 ==> is_id_char(#[trigger] s[k])
}

/// The ids that `s` mentions.
pub open spec fn mentioned_ids(s: Seq<char>) -> Set<Seq<char>> {
    Set::new(|id: Seq<char>| exists|i: int| mention_at(s, i) && id == s.subrange(i + 2, i + 28))
}

/// Some string of `v` reads `x`.
pub open spec fn holds_view(v: Seq<String>, x: Seq<char>) -> bool {
    exists|i: int| 0 <= i < v.len() && #[trigger] v[i]@ == x
}

/// No two strings of `v` read the same.
pub open spec fn distinct_views(v: Seq<String>) -> bool {
    forall|i: int, j: int| 0 <= i < j < v.len() ==> #[trigger] v[i]@ != #[trigger] v[j]@
}

/// Whether `c` belongs to the id alphabet.
pub fn id_char(c: char) -> (r: bool)
    ensures
        r == is_id_char(c),
{
    ('0' <= c && c <= '9') || ('A' <= c && c <= 'H') || c == 'J' || c == 'K' || c == 'M' || c
        == 'N' || ('P' <= c && c <= 'T') || ('V' <= c && c <= 'Z')
}

/// Adds `x` to `v` unless a string reading the same is already there.
pub fn push_unique(v: &mut Vec<String>, x: String)
    requires
        distinct_views(old(v)@),
    ensures
        distinct_views(final(v)@),
        forall|y: Seq<char>|
            #[trigger] holds_view(final(v)@, y) == (holds_view(old(v)@, y) || y == x@),
{
    let mut i: usize = 0;
    while i < v.len()
        invariant
            i <= v@.len(),
            v@ == old(v)@,
            distinct_views(v@),
            forall|k: int| 0 <= k < i ==> v@[k]@ != x@,
        decreases v@.len() - i,
    {
        if v[i] == x {
            assert forall|y: Seq<char>| #[trigger]
                holds_view(v@, y) == (holds_view(v@, y) || y == x@) by {
                if y == x@ {
                    assert(v@[i as int]@ == y);
                }
            }
            return ;
        }
        i = i + 1;
    }
    let ghost prev = v@;
    v.push(x);
    assert forall|y: Seq<char>| #[trigger] holds_view(v@, y) == (holds_view(prev, y) || y == x@) by {
        if holds_view(prev, y) {
            let k = choose|k: int| 0 <= k < prev.len() && #[trigger] prev[k]@ == y;
            assert(v@[k]@ == y);
        }
        if y == x@ {
            assert(v@[prev.len() as int]@ == y);
        }
        if holds_view(v@, y) {
            let k = choose|k: int| 0 <= k < v@.len() && #[trigger] v@[k]@ == y;
            if k < prev.len() {
                assert(prev[k]@ == y);
            }
        }
    }
}

/// Whether a mention starts at character position `i` of `s`.
pub fn is_mention_at(s: &str, n: usize, i: usize) -> (r: bool)
    requires
        n == s@.len(),
    ensures
        r == mention_at(s@, i as int),
{
    if i >= n || n - i < 29 {
        return false;
    }
    if s.get_char(i) != '<' || s.get_char(i + 1) != '@' || s.get_char(i + 28) != '>' {
        return false;
    }
    let mut k: usize = i + 2;
    while k < i + 28
        invariant
            i + 29 <= n,
            n == s@.len(),
            i + 2 <= k <= i + 28,
            forall|j: int| i + 2 <= j < k ==> is_id_char(#[trigger] s@[j]),
        decreases i + 28 - k,
    {
        if !id_char(s.get_char(k)) {
            return false;
        }
        k = k + 1;
    }
    true
}

/// The ids mentioned in `content`, each once, in order of first mention.
pub fn extract_mentions(content: &str) -> (r: Vec<String>)
    ensures
        distinct_views(r@),
        forall|x: Seq<char>| #[trigger] holds_view(r@, x) == mentioned_ids(content@).contains(x),
{
    let n = content.unicode_len();
    let mut out: Vec<String> = Vec::new();
    let mut i: usize = 0;
    while i < n
        invariant
            n == content@.len(),
            i <= n,
            distinct_views(out@),
            forall|x: Seq<char>|
                #[trigger] holds_view(out@, x) == exists|j: int|
                    0 <= j < i && mention_at(content@, j) && x == content@.subrange(j + 2, j + 28),
        decreases n - i,
    {
        let ghost before = out@;
        if is_mention_at(content, n, i) {
            let id = content.substring_char(i + 2, i + 2 + ID_LEN).to_owned();
            push_unique(&mut out, id);
        }
        assert forall|x: Seq<char>| #[trigger]
            holds_view(out@, x) == exists|j: int|
                0 <= j < i + 1 && mention_at(content@, j) && x == content@.subrange(j + 2, j + 28) by {
            if holds_view(before, x) {
                let j = choose|j: int|
                    0 <= j < i && mention_at(content@, j) && x == content@.subrange(j + 2, j + 28);
                assert(0 <= j < i + 1);
            }
            if exists|j: int|
                0 <= j < i + 1 && mention_at(content@, j) && x == content@.subrange(j + 2, j + 28) {
                let j = choose|j: int|
                    0 <= j < i + 1 && mention_at(content@, j) && x == content@.subrange(j + 2, j + 28);
                if j < i {
                    assert(holds_view(before, x));
                }
            }
        }
        i = i + 1;
    }
    assert forall|x: Seq<char>| #[trigger]
        holds_view(out@, x) == mentioned_ids(content@).contains(x) by {
        if mentioned_ids(content@).contains(x) {
            let j = choose|j: int| mention_at(content@, j) && x == content@.subrange(j + 2, j + 28);
            assert(0 <= j < i);
        }
    }
    out
}

} // verus!
