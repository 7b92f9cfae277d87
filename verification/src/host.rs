//! Leaf-subdomain extraction from a Host header.
//!
//! A host such as `foo.bar.example.com` is read right-to-left: the last two
//! dot-separated labels are the fixed parent domain, and everything before
//! them (dots included) is the leaf subdomain. A host with two or fewer
//! labels has no subdomain.

use vstd::prelude::*;

verus! {

/// Index of the last `'.'` strictly before position `end` in `s`,
/// or `None` if no dot occurs there.
pub open spec fn last_dot_before(s: Seq<char>, end: int) -> Option<int>
    decreases end,
{
    if end <= 0 {
        None
    } else if s[end - 1] == '.' {
        Some(end - 1)
    } else {
        last_dot_before(s, end - 1)
    }
}

/// What `last_dot_before` finds is a dot, lies in range, and nothing
/// after it (up to `end`) is a dot.
pub proof fn lemma_last_dot_before(s: Seq<char>, end: int)
    requires
        0 <= end <= s.len(),
    ensures
        match last_dot_before(s, end) {
            Some(i) => 0 <= i < end && s[i] == '.' && (forall|k: int| i < k < end ==> s[k] != '.'),
            None => forall|k: int| 0 <= k < end ==> s[k] != '.',
        },
    decreases end,
{
    if end > 0 && s[end - 1] != '.' {
        lemma_last_dot_before(s, end - 1);
    }
}

/// The leaf subdomain of a host: everything before the second dot counted
/// from the right, or `None` when the host holds fewer than two dots.
pub open spec fn subdomain_spec(s: Seq<char>) -> Option<Seq<char>> {
    match last_dot_before(s, s.len() as int) {
        None => None,
        Some(i) => match last_dot_before(s, i) {
            None => None,
            Some(j) => Some(s.take(j)),
        },
    }
}

/// The dot-separated labels of `s`, in order. A string without dots is one
/// label; each dot ends a label, so `"a.b"` has labels `["a", "b"]` and
/// `"a."` has labels `["a", ""]`.
pub open spec fn labels(s: Seq<char>) -> Seq<Seq<char>>
    decreases s.len(),
    via labels_decreases
{
    match last_dot_before(s, s.len() as int) {
        None => seq![s],
        Some(i) => labels(s.take(i)).push(s.skip(i + 1)),
    }
}

#[via_fn]
proof fn labels_decreases(s: Seq<char>) {
    lemma_last_dot_before(s, s.len() as int);
}

/// The labels joined back with single dots.
pub open spec fn join_dots(parts: Seq<Seq<char>>) -> Seq<char>
    decreases parts.len(),
{
    if parts.len() == 0 {
        Seq::empty()
    } else if parts.len() == 1 {
        parts[0]
    } else {
        join_dots(parts.drop_last()) + seq!['.'] + parts.last()
    }
}

/// Every string splits into at least one label.
proof fn lemma_labels_nonempty(s: Seq<char>)
    ensures
        labels(s).len() >= 1,
{
    lemma_last_dot_before(s, s.len() as int);
}

/// `last_dot_before` looks only at positions below `end`, so two strings
/// that agree there agree on it.
proof fn lemma_last_dot_prefix(s: Seq<char>, t: Seq<char>, end: int)
    requires
        0 <= end <= s.len(),
        end <= t.len(),
        forall|k: int| 0 <= k < end ==> s[k] == t[k],
    ensures
        last_dot_before(s, end) == last_dot_before(t, end),
    decreases end,
{
    if end > 0 && s[end - 1] != '.' {
        lemma_last_dot_prefix(s, t, end - 1);
    }
}

/// Joining the labels of `s` with dots gives back `s`.
pub proof fn lemma_join_labels(s: Seq<char>)
    ensures
        join_dots(labels(s)) == s,
    decreases s.len(),
{
    lemma_last_dot_before(s, s.len() as int);
    match last_dot_before(s, s.len() as int) {
        None => {
            assert(join_dots(seq![s]) == s);
        },
        Some(i) => {
            lemma_join_labels(s.take(i));
            lemma_labels_nonempty(s.take(i));
            let parts = labels(s);
            assert(parts.drop_last() == labels(s.take(i)));
            assert(parts.last() == s.skip(i + 1));
            assert(s.take(i) + seq!['.'] + s.skip(i + 1) =~= s);
        },
    }
}

/// A host has a subdomain exactly when it splits into at least three labels.
pub proof fn lemma_subdomain_some_iff(s: Seq<char>)
    ensures
        (subdomain_spec(s) is Some) <==> labels(s).len() >= 3,
{
    lemma_last_dot_before(s, s.len() as int);
    match last_dot_before(s, s.len() as int) {
        None => {},
        Some(i) => {
            let t = s.take(i);
            lemma_last_dot_prefix(s, t, i);
            lemma_last_dot_before(t, i);
            match last_dot_before(s, i) {
                None => {
                    assert(labels(t) == seq![t]);
                },
                Some(j) => {
                    lemma_labels_nonempty(t.take(j));
                    assert(labels(t) == labels(t.take(j)).push(t.skip(j + 1)));
                },
            }
        },
    }
}

/// The subdomain of a host with at least three labels is every label but
/// the last two, joined by dots.
pub proof fn lemma_subdomain_is_leading_labels(s: Seq<char>)
    requires
        labels(s).len() >= 3,
    ensures
        subdomain_spec(s) == Some(join_dots(labels(s).take(labels(s).len() - 2))),
{
    lemma_last_dot_before(s, s.len() as int);
    match last_dot_before(s, s.len() as int) {
        None => {
            assert(false);
        },
        Some(i) => {
            let t = s.take(i);
            lemma_last_dot_prefix(s, t, i);
            lemma_last_dot_before(t, i);
            match last_dot_before(s, i) {
                None => {
                    assert(labels(t) == seq![t]);
                    assert(false);
                },
                Some(j) => {
                    assert(labels(t) == labels(t.take(j)).push(t.skip(j + 1)));
                    assert(t.take(j) =~= s.take(j));
                    assert(labels(s).take(labels(s).len() - 2) == labels(s.take(j)));
                    lemma_join_labels(s.take(j));
                },
            }
        },
    }
}

/// Extraction keeps no state: any two results that meet `subdomain`'s
/// contract for one host are equal, so repeated calls agree.
pub proof fn lemma_subdomain_idempotent(
    host: Seq<char>,
    first: Option<Seq<char>>,
    second: Option<Seq<char>>,
)
    requires
        first == subdomain_spec(host),
        second == subdomain_spec(host),
    ensures
        first == second,
{
}

/// Index of the last dot strictly before `end`, scanning the string itself.
fn rfind_dot(s: &str, end: usize) -> (r: Option<usize>)
    requires
        end <= s@.len(),
    ensures
        match r {
            Some(j) => last_dot_before(s@, end as int) == Some(j as int),
            None => last_dot_before(s@, end as int) is None,
        },
{
    let mut i: usize = end;
    while i > 0
        invariant
            i <= end <= s@.len(),
            last_dot_before(s@, end as int) == last_dot_before(s@, i as int),
        decreases i,
    {
        i = i - 1;
        let c = s.get_char(i);
        if c == '.' {
            return Some(i);
        }
    }
    None
}

/// The leaf subdomain of `host`: every label but the last two, joined by
/// dots, or `None` when the host has two or fewer labels.
pub fn subdomain(host: &str) -> (r: Option<&str>)
    ensures
        match r {
            Some(sub) => subdomain_spec(host@) == Some(sub@),
            None => subdomain_spec(host@) is None,
        },
{
    let n = host.unicode_len();
    match rfind_dot(host, n) {
        None => None,
        Some(i) => {
            proof {
                lemma_last_dot_before(host@, n as int);
            }
            match rfind_dot(host, i) {
                None => None,
                Some(j) => {
                    proof {
                        lemma_last_dot_before(host@, i as int);
                    }
                    Some(host.substring_char(0, j))
                },
            }
        },
    }
}

} // verus!
