//! The leaders that a run follows.

use vstd::prelude::*;

use crate::decimal::{dec, push_u64};
use crate::text::{
    chars_of, find_char, first_of, join, joined, joining_puts_separators_between, lower,
    same_text_ignoring_case, text_of, texts, the_first_occurrence_splits_a_text, trim, trimmed,
};

verus! {

/// A leader by name and address.
#[derive(Debug)]
pub struct CopyShadowSmokeLeader {
    pub leader_id: String,
    pub leader_address: String,
}

/// What a leader is.
pub struct Leader {
    pub id: Seq<char>,
    pub address: Seq<char>,
}

impl View for CopyShadowSmokeLeader {
    type V = Leader;

    open spec fn view(&self) -> Leader {
        Leader { id: self.leader_id@, address: self.leader_address@ }
    }
}

impl Clone for CopyShadowSmokeLeader {
    fn clone(&self) -> (r: Self)
        ensures
            r == *self,
    {
        CopyShadowSmokeLeader {
            leader_id: self.leader_id.clone(),
            leader_address: self.leader_address.clone(),
        }
    }
}

/// What a list of leaders is.
pub open spec fn leader_views(v: Seq<CopyShadowSmokeLeader>) -> Seq<Leader> {
    v.map_values(|l: CopyShadowSmokeLeader| l@)
}

/// A text split at the first `=`, else at the first `:`, else taken for both
/// parts.
pub open spec fn leader_parts(t: Seq<char>) -> Leader {
    let e = first_of(t, '=');
    let c = first_of(t, ':');
    if e < t.len() {
        Leader {
            id: trimmed(t.subrange(0, e)),
            address: trimmed(t.subrange(e + 1, t.len() as int)),
        }
    } else if c < t.len() {
        Leader {
            id: trimmed(t.subrange(0, c)),
            address: trimmed(t.subrange(c + 1, t.len() as int)),
        }
    } else {
        Leader { id: t, address: t }
    }
}

/// The leader at position `i` of a list, named after its position where the
/// text gives no name of its own.
pub open spec fn named_leader(parts: Leader, i: int) -> Leader {
    if lower(parts.id) == lower(parts.address) {
        Leader { id: "leader_"@ + dec((i + 1) as nat), address: parts.address }
    } else {
        parts
    }
}

/// The first `n` leaders of a list, or the text that names none.
pub open spec fn leaders_upto(raw: Seq<Seq<char>>, n: int) -> Result<Seq<Leader>, Seq<char>>
    decreases n,
{
    if n <= 0 {
        Ok(Seq::empty())
    } else {
        match leaders_upto(raw, n - 1) {
            Err(e) => Err(e),
            Ok(before) => {
                let t = trimmed(raw[n - 1]);
                let parts = leader_parts(t);
                if t.len() == 0 {
                    Ok(before)
                } else if parts.id.len() == 0 || parts.address.len() == 0 {
                    Err(
                        "invalid --leader "@ + raw[n - 1] + "; use leader_id=0xAddress"@,
                    )
                } else {
                    Ok(before.push(named_leader(parts, n - 1)))
                }
            },
        }
    }
}

/// The leaders that a list of texts names, or what is wrong with it.
pub open spec fn leaders_of(raw: Seq<Seq<char>>) -> Result<Seq<Leader>, Seq<char>> {
    leaders_upto(raw, raw.len() as int)
}

proof fn leaders_error_stays(raw: Seq<Seq<char>>, n: int, m: int)
    requires
        n <= m,
        leaders_upto(raw, n) is Err,
    ensures
        leaders_upto(raw, m) == leaders_upto(raw, n),
    decreases m - n,
{
    if n < m {
        leaders_error_stays(raw, n, m - 1);
    }
}

fn split_leader(t: &String) -> (r: CopyShadowSmokeLeader)
    ensures
        r@ == leader_parts(t@),
{
    let v: Vec<char> = chars_of(t.as_str());
    let n: usize = v.len();
    let e: usize = find_char(&v, '=');
    let c: usize = find_char(&v, ':');
    let at: usize = if e < n {
        e
    } else {
        c
    };
    if at < n {
        let id: String = text_of(&v, 0, at);
        let address: String = text_of(&v, at + 1, n);
        CopyShadowSmokeLeader { leader_id: trim(id.as_str()), leader_address: trim(address.as_str()) }
    } else {
        CopyShadowSmokeLeader { leader_id: t.clone(), leader_address: t.clone() }
    }
}

fn is_empty(s: &String) -> (r: bool)
    ensures
        r == (s@.len() == 0),
{
    s.as_str().is_empty()
}

/// Reads leaders written as `id=address`, `id:address` or an address alone.
pub fn parse_copy_shadow_smoke_leaders(raw: &Vec<String>) -> (r: Result<
    Vec<CopyShadowSmokeLeader>,
    String,
>)
    ensures
        match leaders_of(texts(raw@)) {
            Ok(v) => r is Ok && leader_views(r->Ok_0@) == v,
            Err(e) => r is Err && r->Err_0@ == e,
        },
{
    let ghost all = texts(raw@);
    let mut leaders: Vec<CopyShadowSmokeLeader> = Vec::new();
    let mut i: usize = 0;
    assert(leader_views(leaders@) =~= Seq::empty());
    while i < raw.len()
        invariant
            i <= raw@.len(),
            all == texts(raw@),
            leaders_upto(all, i as int) == Ok::<Seq<Leader>, Seq<char>>(leader_views(leaders@)),
        decreases raw@.len() - i,
    {
        assert(all[i as int] == raw@[i as int]@);
        let t: String = trim(raw[i].as_str());
        if !is_empty(&t) {
            let mut leader: CopyShadowSmokeLeader = split_leader(&t);
            if is_empty(&leader.leader_id) || is_empty(&leader.leader_address) {
                let mut e: String = "invalid --leader ".to_owned();
                e.append(raw[i].as_str());
                e.append("; use leader_id=0xAddress");
                proof {
                    leaders_error_stays(all, i as int + 1, all.len() as int);
                }
                return Err(e);
            }
            if same_text_ignoring_case(
                leader.leader_id.as_str(),
                leader.leader_address.as_str(),
            ) {
                let mut name: String = "leader_".to_owned();
                push_u64(&mut name, i as u64 + 1);
                leader.leader_id = name;
            }
            let ghost before = leader_views(leaders@);
            leaders.push(leader);
            assert(leader_views(leaders@) =~= before.push(leader@));
        }
        i += 1;
    }
    Ok(leaders)
}

/// How a leader is given on a command line.
pub open spec fn leader_argument(l: Leader) -> Seq<char> {
    "--leader "@ + l.id + "="@ + l.address
}

/// How leaders are given on a command line.
pub open spec fn leader_arguments(v: Seq<Leader>) -> Seq<char> {
    let all = joined(v.map_values(|l: Leader| leader_argument(l)), " "@);
    if all.len() == 0 {
        "--leader leader_a=0xLEADER_ADDRESS"@
    } else {
        all
    }
}

/// How leaders are given on a command line.
pub fn leader_arguments_of(v: &Vec<CopyShadowSmokeLeader>) -> (r: String)
    ensures
        r@ == leader_arguments(leader_views(v@)),
{
    let ghost goal = leader_views(v@).map_values(|l: Leader| leader_argument(l));
    let mut parts: Vec<String> = Vec::new();
    let mut i: usize = 0;
    assert(texts(parts@) =~= goal.subrange(0, 0));
    while i < v.len()
        invariant
            i <= v@.len(),
            goal == leader_views(v@).map_values(|l: Leader| leader_argument(l)),
            texts(parts@) == goal.subrange(0, i as int),
        decreases v@.len() - i,
    {
        let mut s: String = "--leader ".to_owned();
        s.append(v[i].leader_id.as_str());
        s.append("=");
        s.append(v[i].leader_address.as_str());
        let ghost before = texts(parts@);
        parts.push(s);
        assert(texts(parts@) =~= before.push(s@));
        assert(leader_views(v@)[i as int] == v@[i as int]@);
        assert(goal[i as int] == s@);
        assert(goal.subrange(0, i as int + 1) =~= goal.subrange(0, i as int).push(goal[i as int]));
        i += 1;
    }
    assert(goal.subrange(0, goal.len() as int) =~= goal);
    let all: String = join(&parts, " ");
    if is_empty(&all) {
        "--leader leader_a=0xLEADER_ADDRESS".to_owned()
    } else {
        all
    }
}

/// A leader is given as name and address with an equals sign or, where there is
/// none, a colon between them; space around either does not count. A text
/// without both is an address.
pub proof fn leaders_are_given_as_name_and_address(id: Seq<char>, address: Seq<char>, t: Seq<char>)
    ensures
        (forall|i: int| 0 <= i < id.len() ==> #[trigger] id[i] != '=') ==> leader_parts(
            id + seq!['='] + address,
        ) == (Leader { id: trimmed(id), address: trimmed(address) }),
        (forall|i: int| 0 <= i < id.len() ==> #[trigger] id[i] != '=' && id[i] != ':') && (forall|
            i: int,
        |
            0 <= i < address.len() ==> #[trigger] address[i] != '=') ==> leader_parts(
            id + seq![':'] + address,
        ) == (Leader { id: trimmed(id), address: trimmed(address) }),
        (forall|i: int| 0 <= i < t.len() ==> #[trigger] t[i] != '=' && t[i] != ':')
            ==> leader_parts(t) == (Leader { id: t, address: t }),
{
    if forall|i: int| 0 <= i < id.len() ==> #[trigger] id[i] != '=' {
        let s = id + seq!['='] + address;
        the_first_occurrence_splits_a_text(id, '=', address);
        assert(s.subrange(0, id.len() as int) =~= id);
        assert(s.subrange(id.len() as int + 1, s.len() as int) =~= address);
    }
    if (forall|i: int| 0 <= i < id.len() ==> #[trigger] id[i] != '=' && id[i] != ':') && (forall|
        i: int,
    |
        0 <= i < address.len() ==> #[trigger] address[i] != '=') {
        let s = id + seq![':'] + address;
        assert forall|i: int| 0 <= i < s.len() implies #[trigger] s[i] != '=' by {
            if i < id.len() {
                assert(s[i] == id[i]);
            } else if i > id.len() {
                assert(s[i] == address[i - id.len() - 1]);
            }
        }
        assert forall|i: int| 0 <= i < id.len() implies #[trigger] id[i] != ':' by {
            assert(id[i] != '=');
        }
        the_first_occurrence_splits_a_text(s, '=', Seq::empty());
        the_first_occurrence_splits_a_text(id, ':', address);
        assert(s.subrange(0, id.len() as int) =~= id);
        assert(s.subrange(id.len() as int + 1, s.len() as int) =~= address);
    }
    if forall|i: int| 0 <= i < t.len() ==> #[trigger] t[i] != '=' && t[i] != ':' {
        assert forall|i: int| 0 <= i < t.len() implies #[trigger] t[i] != ':' by {
            assert(t[i] != '=');
        }
        the_first_occurrence_splits_a_text(t, '=', Seq::empty());
        the_first_occurrence_splits_a_text(t, ':', Seq::empty());
    }
}

/// One more text names one more leader. A blank one names none, one that lacks a
/// name or an address is an error, which stays, and a leader whose name is its
/// address is named after its place.
pub proof fn every_text_names_its_leader(raw: Seq<Seq<char>>, n: int)
    requires
        0 <= n < raw.len(),
    ensures
        leaders_of(raw) == leaders_upto(raw, raw.len() as int),
        leaders_upto(raw, 0) == Ok::<Seq<Leader>, Seq<char>>(Seq::empty()),
        ({
            let before = leaders_upto(raw, n);
            let after = leaders_upto(raw, n + 1);
            let p = leader_parts(trimmed(raw[n]));
            if before is Err || trimmed(raw[n]).len() == 0 {
                after == before
            } else if p.id.len() == 0 || p.address.len() == 0 {
                after == Err::<Seq<Leader>, Seq<char>>(
                    "invalid --leader "@ + raw[n] + "; use leader_id=0xAddress"@,
                )
            } else if lower(p.id) == lower(p.address) {
                after == Ok::<Seq<Leader>, Seq<char>>(
                    before->Ok_0.push(
                        Leader { id: "leader_"@ + dec((n + 1) as nat), address: p.address },
                    ),
                )
            } else {
                after == Ok::<Seq<Leader>, Seq<char>>(before->Ok_0.push(p))
            }
        }),
{
}

/// Leaders are written out as arguments one behind the other, each by its name and
/// address; where there are none, a placeholder stands in.
pub proof fn leaders_are_written_out_in_order(v: Seq<Leader>, l: Leader)
    ensures
        leader_arguments(Seq::empty()) == "--leader leader_a=0xLEADER_ADDRESS"@,
        leader_arguments(seq![l]) == "--leader "@ + l.id + "="@ + l.address,
        v.len() > 0 ==> leader_arguments(v.push(l)) == leader_arguments(v) + " "@ + (
        "--leader "@ + l.id + "="@ + l.address),
{
    let none = Seq::<Leader>::empty().map_values(|x: Leader| leader_argument(x));
    let one = seq![l].map_values(|x: Leader| leader_argument(x));
    let a = v.map_values(|x: Leader| leader_argument(x));
    let b = v.push(l).map_values(|x: Leader| leader_argument(x));
    reveal_strlit("--leader ");
    assert(none =~= Seq::empty());
    assert(one =~= seq![leader_argument(l)]);
    assert(b =~= a.push(leader_argument(l)));
    joining_puts_separators_between(a, leader_argument(l), " "@);
    if v.len() > 0 {
        arguments_are_not_empty(v);
    }
}

proof fn arguments_are_not_empty(v: Seq<Leader>)
    requires
        v.len() > 0,
    ensures
        joined(v.map_values(|x: Leader| leader_argument(x)), " "@).len() > 0,
{
    let a = v.map_values(|x: Leader| leader_argument(x));
    reveal_strlit("--leader ");
    let last = a.last();
    assert(last == leader_argument(v.last()));
    assert(a =~= a.drop_last().push(last));
    if a.len() == 1 {
        assert(a =~= seq![last]);
    }
    joining_puts_separators_between(a.drop_last(), last, " "@);
}

} // verus!
