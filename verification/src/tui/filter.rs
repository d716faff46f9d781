//! Which servers the dashboard shows: those of the chosen group whose
//! nickname, host, username or group holds the search text, ASCII case
//! aside, and the list of groups to choose from.

use vstd::prelude::*;
use crate::storage::ServerConnection;
use crate::text::{chars_of, eq_ignore_ascii_case_seq, fold_code};

verus! {

/// `q` occurs in `t`, ASCII case aside; the empty text occurs everywhere.
pub open spec fn contains_ignore_case(t: Seq<char>, q: Seq<char>) -> bool {
    exists|i: int|
        0 <= i && i + q.len() <= t.len() && #[trigger] eq_ignore_ascii_case_seq(
            t.subrange(i, i + q.len()),
            q,
        )
}

/// Whether `q` occurs in `t`, ASCII case aside.
pub fn contains_ignore_ascii_case(t: &Vec<char>, q: &Vec<char>) -> (r: bool)
    ensures
        r == contains_ignore_case(t@, q@),
{
    if q.len() > t.len() {
        return false;
    }
    let last = t.len() - q.len();
    let mut i: usize = 0;
    while i <= last
        invariant
            last == t.len() - q.len(),
            q.len() <= t.len(),
            forall|j: int|
                0 <= j < i ==> !#[trigger] eq_ignore_ascii_case_seq(t@.subrange(j, j + q.len()), q@),
        decreases last + 1 - i,
    {
        let mut k: usize = 0;
        let mut same = true;
        while k < q.len()
            invariant
                i <= last,
                last == t.len() - q.len(),
                k <= q.len(),
                same == forall|x: int| 0 <= x < k ==> #[trigger] fold_code(t@[i + x]) == fold_code(q@[x]),
            decreases q.len() - k,
        {
            if !(fold_code_of(t[i + k]) == fold_code_of(q[k])) {
                same = false;
            }
            k = k + 1;
        }
        proof {
            let w = t@.subrange(i as int, i + q.len());
            if same {
                assert forall|x: int| 0 <= x < w.len() implies #[trigger] fold_code(w[x]) == fold_code(q@[x]) by {
                    assert(w[x] == t@[i + x]);
                }
                assert(eq_ignore_ascii_case_seq(t@.subrange(i as int, i + q.len()), q@));
            } else {
                let x = choose|x: int| 0 <= x < q.len() && !(fold_code(t@[i + x]) == fold_code(q@[x]));
                assert(w[x] == t@[i + x]);
            }
        }
        if same {
            return true;
        }
        i = i + 1;
    }
    false
}

fn fold_code_of(c: char) -> (r: u32)
    ensures
        r == fold_code(c),
{
    let code = c as u32;
    if 65 <= code && code <= 90 {
        code + 32
    } else {
        code
    }
}

/// The text of an optional string.
pub open spec fn opt_text(o: Option<String>) -> Option<Seq<char>> {
    match o {
        Some(s) => Some(s@),
        None => None,
    }
}

/// `c` belongs to the chosen group (any group when none is chosen) and its
/// nickname, host, username or group holds `query`, ASCII case aside.
pub open spec fn shows(c: ServerConnection, group: Option<Seq<char>>, query: Seq<char>) -> bool {
    &&& match group {
        Some(g) => opt_text(c.group) == Some(g),
        None => true,
    }
    &&& {
        ||| contains_ignore_case(c.nickname@, query)
        ||| contains_ignore_case(c.host@, query)
        ||| contains_ignore_case(c.username@, query)
        ||| match c.group {
            Some(g) => contains_ignore_case(g@, query),
            None => false,
        }
    }
}

/// The indices, in order, of the connections of `s` that the dashboard
/// shows.
pub open spec fn visible_spec(s: Seq<ServerConnection>, group: Option<Seq<char>>, query: Seq<char>) -> Seq<usize>
    decreases s.len(),
{
    if s.len() == 0 {
        Seq::empty()
    } else if shows(s.last(), group, query) {
        visible_spec(s.drop_last(), group, query).push((s.len() - 1) as usize)
    } else {
        visible_spec(s.drop_last(), group, query)
    }
}

/// Every index that `visible_spec` gives lies within `s`.
pub proof fn lemma_visible_in_range(s: Seq<ServerConnection>, group: Option<Seq<char>>, query: Seq<char>)
    ensures
        forall|k: int|
            0 <= k < visible_spec(s, group, query).len() ==> #[trigger] visible_spec(s, group, query)[k]
                < s.len(),
        visible_spec(s, group, query).len() <= s.len(),
    decreases s.len(),
{
    if s.len() > 0 {
        lemma_visible_in_range(s.drop_last(), group, query);
    }
}

/// Whether the dashboard shows `c`.
pub fn shows_connection(c: &ServerConnection, group: &Option<String>, query: &Vec<char>) -> (r: bool)
    ensures
        r == shows(*c, opt_text(*group), query@),
{
    let in_group = match group {
        Some(g) => match &c.group {
            Some(cg) => cg.clone() == g.clone(),
            None => false,
        },
        None => true,
    };
    if !in_group {
        return false;
    }
    if contains_ignore_ascii_case(&chars_of(c.nickname.as_str()), query) {
        return true;
    }
    if contains_ignore_ascii_case(&chars_of(c.host.as_str()), query) {
        return true;
    }
    if contains_ignore_ascii_case(&chars_of(c.username.as_str()), query) {
        return true;
    }
    match &c.group {
        Some(g) => contains_ignore_ascii_case(&chars_of(g.as_str()), query),
        None => false,
    }
}

/// The indices, in order, of the connections the dashboard shows.
pub fn visible_indices(conns: &Vec<ServerConnection>, group: &Option<String>, query: &Vec<char>) -> (r: Vec<usize>)
    ensures
        r@ == visible_spec(conns@, opt_text(*group), query@),
        forall|k: int| 0 <= k < r.len() ==> #[trigger] r@[k] < conns.len(),
{
    let mut r: Vec<usize> = Vec::new();
    let mut i: usize = 0;
    while i < conns.len()
        invariant
            i <= conns.len(),
            r@ == visible_spec(conns@.take(i as int), opt_text(*group), query@),
        decreases conns.len() - i,
    {
        assert(conns@.take(i + 1).drop_last() =~= conns@.take(i as int));
        if shows_connection(&conns[i], group, query) {
            r.push(i);
        }
        i = i + 1;
    }
    assert(conns@.take(conns.len() as int) =~= conns@);
    proof {
        lemma_visible_in_range(conns@, opt_text(*group), query@);
    }
    r
}

/// The groups of the connections of `s`, each once, in the order they first
/// appear.
pub open spec fn groups_spec(s: Seq<ServerConnection>) -> Seq<Seq<char>>
    decreases s.len(),
{
    if s.len() == 0 {
        Seq::empty()
    } else {
        let g = groups_spec(s.drop_last());
        match s.last().group {
            Some(x) => if g.contains(x@) {
                g
            } else {
                g.push(x@)
            },
            None => g,
        }
    }
}

/// The text of each string of `v`.
pub open spec fn texts(v: Seq<String>) -> Seq<Seq<char>> {
    v.map_values(|s: String| s@)
}

/// The groups of `conns`, each once, in the order they first appear.
pub fn unique_groups(conns: &Vec<ServerConnection>) -> (r: Vec<String>)
    ensures
        texts(r@) == groups_spec(conns@),
{
    let mut r: Vec<String> = Vec::new();
    let mut i: usize = 0;
    assert(texts(r@) =~= Seq::<Seq<char>>::empty());
    while i < conns.len()
        invariant
            i <= conns.len(),
            texts(r@) == groups_spec(conns@.take(i as int)),
        decreases conns.len() - i,
    {
        assert(conns@.take(i + 1).drop_last() =~= conns@.take(i as int));
        assert(conns@.take(i + 1).last() == conns@[i as int]);
        match &conns[i].group {
            Some(g) => {
                let mut found = false;
                let mut k: usize = 0;
                while k < r.len()
                    invariant
                        k <= r.len(),
                        found == exists|j: int| 0 <= j < k && #[trigger] texts(r@)[j] == g@,
                    decreases r.len() - k,
                {
                    if r[k].clone() == g.clone() {
                        assert(texts(r@)[k as int] == g@);
                        found = true;
                    }
                    k = k + 1;
                }
                proof {
                    if found {
                        let j = choose|j: int| 0 <= j < r.len() && #[trigger] texts(r@)[j] == g@;
                        assert(texts(r@).contains(g@));
                    } else {
                        assert(!texts(r@).contains(g@));
                    }
                }
                if !found {
                    let ghost before = r@;
                    r.push(g.clone());
                    assert(texts(r@) =~= texts(before).push(g@));
                }
            },
            None => {},
        }
        i = i + 1;
    }
    assert(conns@.take(conns.len() as int) =~= conns@);
    r
}

/// The dashboard shows exactly the servers that match the group and the
/// search text, in their order in the store, each once.
pub proof fn law_shown_are_the_matching(s: Seq<ServerConnection>, group: Option<Seq<char>>, query: Seq<char>)
    requires
        s.len() <= usize::MAX,
    ensures
        forall|k: int|
            0 <= k < visible_spec(s, group, query).len() ==> shows(
                s[#[trigger] visible_spec(s, group, query)[k] as int],
                group,
                query,
            ),
        forall|i: int| 0 <= i < s.len() && shows(s[i], group, query) ==> #[trigger] visible_spec(
            s,
            group,
            query,
        ).contains(i as usize),
        forall|a: int, b: int|
            0 <= a < b < visible_spec(s, group, query).len() ==> #[trigger] visible_spec(
                s,
                group,
                query,
            )[a] < #[trigger] visible_spec(s, group, query)[b],
    decreases s.len(),
{
    lemma_visible_in_range(s, group, query);
    if s.len() > 0 {
        let t = s.drop_last();
        law_shown_are_the_matching(t, group, query);
        lemma_visible_in_range(t, group, query);
        let v = visible_spec(t, group, query);
        let w = visible_spec(s, group, query);
        assert forall|k: int| 0 <= k < w.len() implies shows(s[#[trigger] w[k] as int], group, query) by {
            if k < v.len() {
                assert(w[k] == v[k]);
                assert(s[v[k] as int] == t[v[k] as int]);
            } else {
                assert(w[k] as int == s.len() - 1);
            }
        }
        assert forall|i: int| 0 <= i < s.len() && shows(s[i], group, query) implies #[trigger] w.contains(
            i as usize,
        ) by {
            if i < s.len() - 1 {
                assert(t[i] == s[i]);
                assert(v.contains(i as usize));
                let j = choose|j: int| 0 <= j < v.len() && v[j] == i as usize;
                assert(w[j] == v[j]);
            } else {
                assert(w[w.len() - 1] == i as usize);
            }
        }
        assert forall|a: int, b: int| 0 <= a < b < w.len() implies #[trigger] w[a] < #[trigger] w[b] by {
            if b < v.len() {
                assert(w[a] == v[a] && w[b] == v[b]);
            } else {
                assert(w[a] == v[a]);
                assert(w[b] as int == s.len() - 1);
            }
        }
    }
}

/// The search looks in each of the four fields: a server of the chosen
/// group (any server when no group is chosen) is shown as soon as its
/// nickname, its host, its username or its group holds the search text,
/// ASCII case aside; and no server outside the chosen group is ever shown.
pub proof fn law_search_covers_each_field(
    s: Seq<ServerConnection>,
    group: Option<Seq<char>>,
    query: Seq<char>,
    i: int,
)
    requires
        s.len() <= usize::MAX,
        0 <= i < s.len(),
    ensures
        ({
            let c = s[i];
            let in_group = match group {
                Some(g) => c.group is Some && c.group.unwrap()@ == g,
                None => true,
            };
            let shown = visible_spec(s, group, query).contains(i as usize);
            &&& in_group && contains_ignore_case(c.nickname@, query) ==> shown
            &&& in_group && contains_ignore_case(c.host@, query) ==> shown
            &&& in_group && contains_ignore_case(c.username@, query) ==> shown
            &&& in_group && c.group is Some && contains_ignore_case(c.group.unwrap()@, query) ==> shown
            &&& shown ==> in_group
        }),
{
    law_shown_are_the_matching(s, group, query);
    let v = visible_spec(s, group, query);
    if v.contains(i as usize) {
        let k = choose|k: int| 0 <= k < v.len() && v[k] == i as usize;
        assert(shows(s[v[k] as int], group, query));
    }
}

/// With no group chosen and no search text, every server is shown.
pub proof fn law_no_filter_shows_all(s: Seq<ServerConnection>)
    requires
        s.len() <= usize::MAX,
    ensures
        visible_spec(s, None, Seq::empty()) == Seq::new(s.len(), |i: int| i as usize),
    decreases s.len(),
{
    if s.len() > 0 {
        law_no_filter_shows_all(s.drop_last());
        let e = Seq::<char>::empty();
        assert(s.last().nickname@.subrange(0int, 0int + e.len()) =~= e);
        assert(eq_ignore_ascii_case_seq(s.last().nickname@.subrange(0int, 0int + e.len()), e));
        assert(contains_ignore_case(s.last().nickname@, Seq::empty()));
        assert(visible_spec(s, None, Seq::empty()) =~= Seq::new(s.len(), |i: int| i as usize));
    }
}

} // verus!
