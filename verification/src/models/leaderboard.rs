//! Leaderboard rows and their order-insensitive content model.
//!
//! The remote side may return leaderboard entries in any order, so the diff
//! layer compares leaderboards as finite maps keyed by player id, never as
//! positional sequences.

use crate::text::opt_string_eq;
use vstd::prelude::*;

verus! {

/// Payload of [`LeaderBoardResponse`].
#[derive(Debug)]
pub struct LeaderboardData {
    pub leaderboard: Vec<Leaderboard>,
}

/// Response shape of the leaderboard query.
#[derive(Debug)]
pub struct LeaderBoardResponse {
    pub data: LeaderboardData,
}

/// One leaderboard row, keyed by player id.
#[derive(Clone, Debug)]
pub struct Leaderboard {
    pub id: String,
    pub name: Option<String>,
    pub elo: u32,
    pub matches: u32,
    pub won: u32,
    pub lost: u32,
}

/// Mathematical content of a [`Leaderboard`] row.
#[verifier::ext_equal]
pub ghost struct LeaderboardView {
    pub id: Seq<char>,
    pub name: Option<Seq<char>>,
    pub elo: u32,
    pub matches: u32,
    pub won: u32,
    pub lost: u32,
}

impl DeepView for Leaderboard {
    type V = LeaderboardView;

    open spec fn deep_view(&self) -> LeaderboardView {
        LeaderboardView {
            id: self.id@,
            name: self.name.deep_view(),
            elo: self.elo,
            matches: self.matches,
            won: self.won,
            lost: self.lost,
        }
    }
}

impl Leaderboard {
    /// Content equality of two rows, stated over their abstract views.
    pub fn content_eq(&self, other: &Leaderboard) -> (r: bool)
        ensures
            r == (self.deep_view() == other.deep_view()),
    {
        let r = self.id == other.id && opt_string_eq(&self.name, &other.name)
            && self.elo == other.elo && self.matches == other.matches && self.won == other.won
            && self.lost == other.lost;
        proof {
            if r {
                assert(self.deep_view() =~= other.deep_view());
            }
        }
        r
    }

    /// Name of the sink table holding the leaderboard.
    pub fn table_name() -> (r: &'static str)
        ensures
            r@ == "leaderboard"@,
    {
        "leaderboard"
    }

    /// Primary-key column of the leaderboard table.
    pub fn primary_key() -> (r: &'static str)
        ensures
            r@ == "id"@,
    {
        "id"
    }
}

/// The content of a fetched leaderboard as a finite map from player id to
/// row. A duplicated id keeps the later row, mirroring insertion order.
pub open spec fn lb_map(s: Seq<LeaderboardView>) -> Map<Seq<char>, LeaderboardView>
    decreases s.len(),
{
    if s.len() == 0 {
        Map::empty()
    } else {
        lb_map(s.drop_last()).insert(s.last().id, s.last())
    }
}

/// Whether every row of `s` carries a distinct player id.
pub open spec fn lb_ids_unique(s: Seq<LeaderboardView>) -> bool {
    forall|i: int, j: int| 0 <= i < j < s.len() ==> s[i].id != s[j].id
}

/// With distinct ids, the content map holds exactly the rows of the
/// sequence, each under its own id.
pub proof fn lemma_lb_map_characterization(s: Seq<LeaderboardView>)
    requires
        lb_ids_unique(s),
    ensures
        forall|i: int| 0 <= i < s.len() ==> #[trigger] lb_map(s).contains_key(s[i].id),
        forall|i: int| 0 <= i < s.len() ==> lb_map(s)[#[trigger] s[i].id] == s[i],
        forall|k: Seq<char>|
            #[trigger] lb_map(s).contains_key(k) ==> exists|i: int|
                0 <= i < s.len() && s[i].id == k,
    decreases s.len(),
{
    if s.len() > 0 {
        lemma_lb_map_characterization(s.drop_last());
        assert forall|i: int| 0 <= i < s.len() implies #[trigger] lb_map(s).contains_key(
            s[i].id,
        ) by {
            if i < s.len() - 1 {
                assert(s.drop_last()[i] == s[i]);
                assert(lb_map(s.drop_last()).contains_key(s.drop_last()[i].id));
            }
        }
        assert forall|i: int| 0 <= i < s.len() implies lb_map(s)[#[trigger] s[i].id] == s[i] by {
            if i < s.len() - 1 {
                assert(s.drop_last()[i] == s[i]);
                assert(lb_map(s.drop_last())[s.drop_last()[i].id] == s.drop_last()[i]);
                assert(s[i].id != s.last().id);
            }
        }
        assert forall|k: Seq<char>| #[trigger] lb_map(s).contains_key(k) implies exists|i: int|
            0 <= i < s.len() && s[i].id == k by {
            if k != s.last().id {
                assert(lb_map(s.drop_last()).contains_key(k));
                let i = choose|i: int| 0 <= i < s.drop_last().len() && s.drop_last()[i].id == k;
                assert(s[i].id == k);
            } else {
                assert(s[s.len() - 1].id == k);
            }
        }
    }
}

/// Order-insensitivity of the leaderboard content model: two fetches whose
/// rows are the same up to reordering (and carry distinct ids) have the same
/// content map, so neither triggers a write when the other is cached.
pub proof fn lemma_lb_map_order_insensitive(a: Seq<LeaderboardView>, b: Seq<LeaderboardView>)
    requires
        a.to_multiset() == b.to_multiset(),
        lb_ids_unique(a),
        lb_ids_unique(b),
    ensures
        lb_map(a) == lb_map(b),
{
    broadcast use vstd::seq_lib::group_to_multiset_ensures;

    lemma_lb_map_characterization(a);
    lemma_lb_map_characterization(b);
    assert forall|k: Seq<char>| lb_map(a).contains_key(k) implies lb_map(b).contains_key(k)
        && lb_map(a)[k] == lb_map(b)[k] by {
        let i = choose|i: int| 0 <= i < a.len() && a[i].id == k;
        assert(a.to_multiset().contains(a[i]));
        assert(b.to_multiset().contains(a[i]));
        assert(b.contains(a[i]));
        let j = choose|j: int| 0 <= j < b.len() && b[j] == a[i];
        assert(lb_map(b)[k] == a[i]);
    }
    assert forall|k: Seq<char>| lb_map(b).contains_key(k) implies lb_map(a).contains_key(k) by {
        let j = choose|j: int| 0 <= j < b.len() && b[j].id == k;
        assert(b.to_multiset().contains(b[j]));
        assert(a.to_multiset().contains(b[j]));
        assert(a.contains(b[j]));
        let i = choose|i: int| 0 <= i < a.len() && a[i] == b[j];
        assert(lb_map(a).contains_key(a[i].id));
    }
    assert(lb_map(a) =~= lb_map(b));
}

/// The content map holds, under each id, the row at that id's latest
/// position in the sequence.
proof fn lemma_lb_map_last_occurrence(s: Seq<LeaderboardView>, i: int, k: Seq<char>)
    requires
        0 <= i < s.len(),
        s[i].id == k,
        forall|j: int| i < j < s.len() ==> s[j].id != k,
    ensures
        lb_map(s).contains_key(k),
        lb_map(s)[k] == s[i],
    decreases s.len(),
{
    if i < s.len() - 1 {
        assert(s.drop_last()[i] == s[i]);
        lemma_lb_map_last_occurrence(s.drop_last(), i, k);
    }
}

/// An id carried by no row is absent from the content map.
proof fn lemma_lb_map_no_occurrence(s: Seq<LeaderboardView>, k: Seq<char>)
    requires
        forall|j: int| 0 <= j < s.len() ==> s[j].id != k,
    ensures
        !lb_map(s).contains_key(k),
    decreases s.len(),
{
    if s.len() > 0 {
        lemma_lb_map_no_occurrence(s.drop_last(), k);
    }
}

/// Finds the row with the given id whose position is latest, which is the row
/// the content map holds for that id.
pub fn find_last_by_id<'a>(rows: &'a Vec<Leaderboard>, id: &String) -> (r: Option<
    &'a Leaderboard,
>)
    ensures
        match r {
            Some(row) => lb_map(rows.deep_view()).contains_key(id@) && lb_map(rows.deep_view())[id@]
                == row.deep_view(),
            None => !lb_map(rows.deep_view()).contains_key(id@),
        },
{
    let ghost s = rows.deep_view();
    let mut i: usize = rows.len();
    while i > 0
        invariant
            i <= rows.len(),
            s == rows.deep_view(),
            forall|j: int| i <= j < s.len() ==> s[j].id != id@,
        decreases i,
    {
        i -= 1;
        if rows[i].id == *id {
            proof {
                lemma_lb_map_last_occurrence(s, i as int, id@);
            }
            return Some(&rows[i]);
        }
    }
    proof {
        lemma_lb_map_no_occurrence(s, id@);
    }
    None
}

/// Whether two fetched leaderboards have the same content, compared key by
/// key so that a reordering of rows is never mistaken for a change.
pub fn lb_content_equal(a: &Vec<Leaderboard>, b: &Vec<Leaderboard>) -> (r: bool)
    ensures
        r == (lb_map(a.deep_view()) == lb_map(b.deep_view())),
{
    let ghost sa = a.deep_view();
    let ghost sb = b.deep_view();
    let mut i: usize = 0;
    while i < a.len()
        invariant
            i <= a.len(),
            sa == a.deep_view(),
            sb == b.deep_view(),
            forall|j: int|
                0 <= j < i ==> {
                    &&& #[trigger] lb_map(sb).contains_key(sa[j].id)
                    &&& lb_map(sb)[sa[j].id] == lb_map(sa)[sa[j].id]
                },
        decreases a.len() - i,
    {
        let canon_a = find_last_by_id(a, &a[i].id);
        let canon_b = find_last_by_id(b, &a[i].id);
        proof {
            lemma_lb_map_last_occurrence_exists(sa, i as int);
            assert(sa[i as int] == a@[i as int].deep_view());
        }
        match (canon_a, canon_b) {
            (Some(ra), Some(rb)) => {
                if !ra.content_eq(rb) {
                    proof {
                        assert(lb_map(sa)[sa[i as int].id] == ra.deep_view());
                        assert(lb_map(sb)[sa[i as int].id] == rb.deep_view());
                    }
                    return false;
                }
                proof {
                    assert(lb_map(sa)[sa[i as int].id] == ra.deep_view());
                    assert(lb_map(sb)[sa[i as int].id] == rb.deep_view());
                }
            },
            _ => {
                return false;
            },
        }
        proof {
            assert(lb_map(sb).contains_key(sa[i as int].id));
            assert(lb_map(sb)[sa[i as int].id] == lb_map(sa)[sa[i as int].id]);
            assert forall|j: int|
                0 <= j <= i as int implies #[trigger] lb_map(sb).contains_key(sa[j].id) && lb_map(
                sb,
            )[sa[j].id] == lb_map(sa)[sa[j].id] by {
                if j < i as int {
                    assert(lb_map(sb).contains_key(sa[j].id));
                }
            }
        }
        i += 1;
    }
    let mut j: usize = 0;
    while j < b.len()
        invariant
            j <= b.len(),
            sa == a.deep_view(),
            sb == b.deep_view(),
            forall|t: int|
                0 <= t < sa.len() ==> {
                    &&& #[trigger] lb_map(sb).contains_key(sa[t].id)
                    &&& lb_map(sb)[sa[t].id] == lb_map(sa)[sa[t].id]
                },
            forall|t: int| 0 <= t < j ==> #[trigger] lb_map(sa).contains_key(sb[t].id),
        decreases b.len() - j,
    {
        let present = find_last_by_id(a, &b[j].id);
        proof {
            lemma_lb_map_last_occurrence_exists(sb, j as int);
        }
        if present.is_none() {
            return false;
        }
        j += 1;
    }
    proof {
        lemma_lb_map_domains(sa);
        lemma_lb_map_domains(sb);
        assert forall|k: Seq<char>| lb_map(sa).contains_key(k) implies lb_map(
            sb,
        ).contains_key(k) && lb_map(sa)[k] == lb_map(sb)[k] by {
            let t = choose|t: int| 0 <= t < sa.len() && sa[t].id == k;
            assert(lb_map(sb).contains_key(sa[t].id));
        }
        assert forall|k: Seq<char>| lb_map(sb).contains_key(k) implies lb_map(
            sa,
        ).contains_key(k) by {
            let t = choose|t: int| 0 <= t < sb.len() && sb[t].id == k;
            assert(lb_map(sa).contains_key(sb[t].id));
        }
        assert(lb_map(sa) =~= lb_map(sb));
    }
    true
}

/// Every row's id is a key of the content map, and every key of the content
/// map is some row's id.
proof fn lemma_lb_map_domains(s: Seq<LeaderboardView>)
    ensures
        forall|k: Seq<char>|
            #[trigger] lb_map(s).contains_key(k) ==> exists|i: int|
                0 <= i < s.len() && s[i].id == k,
        forall|i: int| 0 <= i < s.len() ==> #[trigger] lb_map(s).contains_key(s[i].id),
    decreases s.len(),
{
    if s.len() > 0 {
        lemma_lb_map_domains(s.drop_last());
        assert forall|k: Seq<char>| #[trigger] lb_map(s).contains_key(k) implies exists|i: int|
            0 <= i < s.len() && s[i].id == k by {
            if k != s.last().id {
                assert(lb_map(s.drop_last()).contains_key(k));
                let i = choose|i: int| 0 <= i < s.drop_last().len() && s.drop_last()[i].id == k;
                assert(s[i].id == k);
            } else {
                assert(s[s.len() - 1].id == k);
            }
        }
        assert forall|i: int| 0 <= i < s.len() implies #[trigger] lb_map(s).contains_key(
            s[i].id,
        ) by {
            if i < s.len() - 1 {
                assert(s.drop_last()[i] == s[i]);
                assert(lb_map(s.drop_last()).contains_key(s[i].id));
            }
        }
    }
}

/// There is a latest occurrence of the id of any given row.
proof fn lemma_lb_map_last_occurrence_exists(s: Seq<LeaderboardView>, i: int)
    requires
        0 <= i < s.len(),
    ensures
        lb_map(s).contains_key(s[i].id),
    decreases s.len(),
{
    lemma_lb_map_domains(s);
}

} // verus!
