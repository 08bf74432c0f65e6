//! Markets of coins, the market scope of a run, and leverage.

use vstd::prelude::*;

use crate::decimal::{Fixed, UNIT};
use crate::plan::CopyLiveDaemonWouldSubmitRef;
use crate::text::{
    ascii_lower, chars_of, clone_texts, find_char, first_of, is_space, is_space_char, list_has,
    lists, lower, same_text, text_of, texts, the_first_occurrence_splits_a_text, trim, trimmed,
};

verus! {

/// The leverage that copied positions are opened with.
pub const COPY_MAX_LEVERAGE: Fixed = 10_000_000_000;

/// Whether a coin is written as a spot pair.
pub open spec fn spot_coin(coin: Seq<char>) -> bool {
    let t = trimmed(coin);
    first_of(t, '/') < t.len() || (t.len() > 0 && t[0] == '@')
}

/// The dex prefix of a coin such as `dex:SYMBOL`, in lower case.
pub open spec fn dex_prefix(coin: Seq<char>) -> Seq<char> {
    let t = trimmed(coin);
    let k = first_of(t, ':');
    if k < t.len() {
        lower(trimmed(t.subrange(0, k)))
    } else {
        Seq::empty()
    }
}

/// The market that a coin trades on.
pub open spec fn coin_market(coin: Seq<char>) -> Seq<char> {
    if spot_coin(coin) {
        "spot"@
    } else if dex_prefix(coin).len() > 0 {
        dex_prefix(coin) + "_perp"@
    } else {
        "hl_perp"@
    }
}

/// The dex that a coin trades on; the main dex has the empty name.
pub open spec fn coin_dex(coin: Seq<char>) -> Seq<char> {
    if spot_coin(coin) {
        "spot"@
    } else {
        dex_prefix(coin)
    }
}

/// The market and the dex that a coin trades on.
pub fn copy_daemon_market_dex_for_coin(coin: &str) -> (r: (Option<String>, Option<String>))
    ensures
        r.0 is Some,
        r.1 is Some,
        r.0->0@ == coin_market(coin@),
        r.1->0@ == coin_dex(coin@),
{
    let t: String = trim(coin);
    let v: Vec<char> = chars_of(t.as_str());
    let slash: usize = find_char(&v, '/');
    if slash < v.len() || (v.len() > 0 && v[0] == '@') {
        return (Some("spot".to_owned()), Some("spot".to_owned()));
    }
    let colon: usize = find_char(&v, ':');
    if colon < v.len() {
        let head: String = text_of(&v, 0, colon);
        let name: String = trim(head.as_str());
        let dex: String = ascii_lower(name.as_str());
        if !same_text(dex.as_str(), "") {
            proof {
                reveal_strlit("");
                if dex@.len() == 0 {
                    assert(dex@ =~= ""@);
                }
            }
            let mut market: String = dex.clone();
            market.append("_perp");
            return (Some(market), Some(dex));
        }
        proof {
            reveal_strlit("");
            assert(dex@.len() == 0);
        }
    }
    assert(dex_prefix(coin@) =~= Seq::empty());
    (Some("hl_perp".to_owned()), Some(String::new()))
}

/// Whether a character separates the market names of a scope.
pub open spec fn scope_separator(c: char) -> bool {
    is_space(c) || c == ',' || c == ';' || c == '\u{ff0c}' || c == '\u{ff1b}'
}

/// The position of the first separator at or behind `i`.
pub open spec fn next_separator(s: Seq<char>, i: int) -> int
    decreases s.len() - i,
{
    if i < 0 || i >= s.len() || scope_separator(s[i]) {
        i
    } else {
        next_separator(s, i + 1)
    }
}

/// The market names in a text, from position `i` on: the longest runs of
/// characters that are no separators.
pub open spec fn scope_names(s: Seq<char>, i: int) -> Seq<Seq<char>>
    decreases s.len() - i,
{
    if i < 0 || i >= s.len() {
        Seq::empty()
    } else {
        let k = next_separator(s, i);
        if i < k <= s.len() {
            seq![s.subrange(i, k)] + scope_names(s, k)
        } else {
            scope_names(s, i + 1)
        }
    }
}

/// The market names in a list of texts.
pub open spec fn all_scope_names(raw: Seq<Seq<char>>) -> Seq<Seq<char>>
    decreases raw.len(),
{
    if raw.len() == 0 {
        Seq::empty()
    } else {
        all_scope_names(raw.drop_last()) + scope_names(raw.last(), 0)
    }
}

fn separates(c: char) -> (r: bool)
    ensures
        r == scope_separator(c),
{
    is_space_char(c) || c == ',' || c == ';' || c == '\u{ff0c}' || c == '\u{ff1b}'
}

fn push_scope_names(out: &mut Vec<String>, item: &str)
    ensures
        texts(final(out)@) == texts(old(out)@) + scope_names(item@, 0),
{
    let v: Vec<char> = chars_of(item);
    let n: usize = v.len();
    let ghost start = texts(out@);
    let mut i: usize = 0;
    assert(texts(out@) + scope_names(v@, 0) =~= start + scope_names(item@, 0));
    while i < n
        invariant
            i <= n == v@.len(),
            v@ == item@,
            texts(out@) + scope_names(v@, i as int) == start + scope_names(item@, 0),
        decreases n - i,
    {
        let ghost from = i as int;
        let ghost before = texts(out@);
        if separates(v[i]) {
            i += 1;
        } else {
            let a: usize = i;
            while i < n && !separates(v[i])
                invariant
                    a <= i <= n == v@.len(),
                    from == a,
                    next_separator(v@, from) == next_separator(v@, i as int),
                    i == a ==> a < n && !scope_separator(v@[a as int]),
                decreases n - i,
            {
                i += 1;
            }
            out.push(text_of(&v, a, i));
            proof {
                let name = v@.subrange(from, i as int);
                assert(texts(out@) =~= before.push(name));
                assert(scope_names(v@, from) == seq![name] + scope_names(v@, i as int));
                assert(before.push(name) + scope_names(v@, i as int) =~= before + (seq![name]
                    + scope_names(v@, i as int)));
            }
        }
    }
    assert(texts(out@) + scope_names(v@, i as int) =~= texts(out@));
}

/// The market names that an operator listed, one by one.
pub fn copy_daemon_market_scope_names(raw: &Vec<String>) -> (r: Vec<String>)
    ensures
        texts(r@) == all_scope_names(texts(raw@)),
{
    let mut r: Vec<String> = Vec::new();
    let mut i: usize = 0;
    assert(texts(r@) =~= Seq::empty());
    while i < raw.len()
        invariant
            i <= raw@.len(),
            texts(r@) == all_scope_names(texts(raw@).subrange(0, i as int)),
        decreases raw@.len() - i,
    {
        push_scope_names(&mut r, raw[i].as_str());
        assert(texts(raw@).subrange(0, i as int + 1).drop_last() =~= texts(raw@).subrange(
            0,
            i as int,
        ));
        i += 1;
    }
    assert(texts(raw@).subrange(0, i as int) =~= texts(raw@));
    r
}

/// Whether a text holds nothing but separators.
pub open spec fn only_separators(s: Seq<char>) -> bool {
    forall|i: int| 0 <= i < s.len() ==> scope_separator(#[trigger] s[i])
}

proof fn separator_in_head(s: Seq<char>, a: Seq<char>, i: int)
    requires
        0 <= i <= a.len() < s.len(),
        s.subrange(0, a.len() as int) == a,
        scope_separator(s[a.len() as int]),
    ensures
        next_separator(s, i) == next_separator(a, i),
        i <= next_separator(a, i) <= a.len(),
    decreases a.len() - i,
{
    if i < a.len() {
        assert(s[i] == a[i]) by {
            assert(s.subrange(0, a.len() as int)[i] == s[i]);
        }
        separator_in_head(s, a, i + 1);
    }
}

proof fn separator_in_tail(s: Seq<char>, b: Seq<char>, from: int, i: int)
    requires
        0 <= from <= s.len(),
        s.subrange(from, s.len() as int) == b,
        0 <= i <= b.len(),
    ensures
        next_separator(s, from + i) == from + next_separator(b, i),
        i <= next_separator(b, i) <= b.len(),
    decreases b.len() - i,
{
    if i < b.len() {
        assert(s[from + i] == b[i]) by {
            assert(s.subrange(from, s.len() as int)[i] == s[from + i]);
        }
        separator_in_tail(s, b, from, i + 1);
    }
}

proof fn names_in_head(s: Seq<char>, a: Seq<char>, i: int)
    requires
        0 <= i <= a.len() < s.len(),
        s.subrange(0, a.len() as int) == a,
        scope_separator(s[a.len() as int]),
    ensures
        scope_names(s, i) == scope_names(a, i) + scope_names(s, a.len() as int),
    decreases a.len() - i,
{
    if i == a.len() {
        assert(scope_names(s, i) =~= scope_names(a, i) + scope_names(s, a.len() as int));
    } else {
        separator_in_head(s, a, i);
        let k = next_separator(a, i);
        if i < k {
            names_in_head(s, a, k);
            assert(s.subrange(i, k) =~= a.subrange(i, k)) by {
                assert forall|j: int| i <= j < k implies s[j] == a[j] by {
                    assert(s.subrange(0, a.len() as int)[j] == s[j]);
                }
            }
            assert(scope_names(s, i) =~= scope_names(a, i) + scope_names(s, a.len() as int));
        } else {
            names_in_head(s, a, i + 1);
        }
    }
}

proof fn names_in_tail(s: Seq<char>, b: Seq<char>, from: int, i: int)
    requires
        0 <= from <= s.len(),
        s.subrange(from, s.len() as int) == b,
        0 <= i <= b.len(),
    ensures
        scope_names(s, from + i) == scope_names(b, i),
    decreases b.len() - i,
{
    if i < b.len() {
        separator_in_tail(s, b, from, i);
        let k = next_separator(b, i);
        if i < k {
            names_in_tail(s, b, from, k);
            assert(s.subrange(from + i, from + k) =~= b.subrange(i, k)) by {
                assert forall|j: int| i <= j < k implies s[from + j] == b[j] by {
                    assert(s.subrange(from, s.len() as int)[j] == s[from + j]);
                }
            }
        } else {
            names_in_tail(s, b, from, i + 1);
        }
    }
}

proof fn names_skip_separators(s: Seq<char>, i: int, j: int)
    requires
        0 <= i <= j <= s.len(),
        forall|k: int| i <= k < j ==> scope_separator(#[trigger] s[k]),
    ensures
        scope_names(s, i) == scope_names(s, j),
    decreases j - i,
{
    if i < j {
        assert(scope_separator(s[i]));
        names_skip_separators(s, i + 1, j);
    }
}

proof fn names_around_a_gap(a: Seq<char>, gap: Seq<char>, b: Seq<char>)
    requires
        gap.len() > 0,
        only_separators(gap),
    ensures
        scope_names(a + gap + b, 0) == scope_names(a, 0) + scope_names(b, 0),
{
    let s = a + gap + b;
    let m = a.len() as int;
    let n = (a.len() + gap.len()) as int;
    assert(s.subrange(0, m) =~= a);
    assert(s.subrange(n, s.len() as int) =~= b);
    assert forall|k: int| m <= k < n implies scope_separator(#[trigger] s[k]) by {
        assert(s[k] == gap[k - m]);
    }
    names_in_head(s, a, 0);
    names_skip_separators(s, m, n);
    names_in_tail(s, b, n, 0);
}

proof fn names_of_joined_lists(x: Seq<Seq<char>>, y: Seq<Seq<char>>)
    ensures
        all_scope_names(x + y) == all_scope_names(x) + all_scope_names(y),
    decreases y.len(),
{
    if y.len() == 0 {
        assert(x + y =~= x);
        assert(all_scope_names(x + y) =~= all_scope_names(x) + all_scope_names(y));
    } else {
        names_of_joined_lists(x, y.drop_last());
        assert((x + y).drop_last() =~= x + y.drop_last());
        assert((x + y).last() == y.last());
        assert(all_scope_names(x + y) =~= all_scope_names(x) + all_scope_names(y));
    }
}

proof fn names_of_one(a: Seq<char>)
    ensures
        all_scope_names(seq![a]) == scope_names(a, 0),
{
    assert(seq![a].drop_last() =~= Seq::empty());
    assert(all_scope_names(seq![a].drop_last()) =~= Seq::empty());
    assert(all_scope_names(seq![a]) =~= scope_names(a, 0));
}

/// How a market scope is split over its entries does not matter: an entry that
/// holds two parts with separators between them lists the same markets, in the
/// same order, as the two parts listed one after the other.
pub proof fn splitting_an_entry_keeps_the_scope(
    before: Seq<Seq<char>>,
    a: Seq<char>,
    gap: Seq<char>,
    b: Seq<char>,
    after: Seq<Seq<char>>,
)
    requires
        gap.len() > 0,
        only_separators(gap),
    ensures
        all_scope_names(before + seq![a + gap + b] + after) == all_scope_names(
            before + seq![a, b] + after,
        ),
{
    names_around_a_gap(a, gap, b);
    names_of_one(a);
    names_of_one(b);
    names_of_one(a + gap + b);
    names_of_joined_lists(seq![a], seq![b]);
    assert(seq![a] + seq![b] =~= seq![a, b]);
    names_of_joined_lists(before, seq![a + gap + b]);
    names_of_joined_lists(before + seq![a + gap + b], after);
    names_of_joined_lists(before, seq![a, b]);
    names_of_joined_lists(before + seq![a, b], after);
}

/// An entry of a market scope that is empty or holds only separators lists
/// nothing.
pub proof fn an_empty_entry_lists_nothing(
    before: Seq<Seq<char>>,
    gap: Seq<char>,
    after: Seq<Seq<char>>,
)
    requires
        only_separators(gap),
    ensures
        all_scope_names(before + seq![gap] + after) == all_scope_names(before + after),
{
    names_skip_separators(gap, 0, gap.len() as int);
    names_of_one(gap);
    names_of_joined_lists(before, seq![gap]);
    names_of_joined_lists(before + seq![gap], after);
    names_of_joined_lists(before, after);
    assert(all_scope_names(before) + Seq::<Seq<char>>::empty() =~= all_scope_names(before));
}

/// A market scope whose entries are all empty or hold only separators lists
/// nothing, as one without entries does.
pub proof fn separators_alone_list_nothing(raw: Seq<Seq<char>>)
    requires
        forall|i: int| 0 <= i < raw.len() ==> only_separators(#[trigger] raw[i]),
    ensures
        all_scope_names(raw) == all_scope_names(Seq::empty()),
    decreases raw.len(),
{
    if raw.len() > 0 {
        let rest = raw.drop_last();
        assert forall|i: int| 0 <= i < rest.len() implies only_separators(#[trigger] rest[i]) by {
            assert(rest[i] == raw[i]);
        }
        separators_alone_list_nothing(rest);
        an_empty_entry_lists_nothing(rest, raw[raw.len() - 1], Seq::empty());
        assert(rest + seq![raw.last()] + Seq::<Seq<char>>::empty() =~= raw);
        assert(rest + Seq::<Seq<char>>::empty() =~= rest);
    }
}

/// The market scope of a run: the listed markets, or every supported market
/// where none was listed.
pub fn copy_daemon_normalize_market_scope(
    normalized: &Vec<String>,
    supported: &Vec<String>,
) -> (r: Vec<String>)
    ensures
        r@ == if normalized@.len() == 0 {
            supported@
        } else {
            normalized@
        },
{
    if normalized.len() == 0 {
        clone_texts(supported)
    } else {
        clone_texts(normalized)
    }
}

/// Whether new positions in a coin may be opened under a market scope.
pub fn copy_daemon_market_scope_allows_open(scope: &Vec<String>, coin: &str) -> (r: bool)
    ensures
        r == lists(scope@, coin_market(coin@)),
{
    let (market, _dex) = copy_daemon_market_dex_for_coin(coin);
    match market {
        Some(market) => list_has(scope, market.as_str()),
        None => false,
    }
}

/// What a leverage has to be: at least one, and a whole number.
pub fn whole_leverage(leverage: Fixed) -> (r: Result<u32, String>)
    ensures
        leverage < UNIT ==> r is Err && r->Err_0@
            == "copy max leverage must be a finite value >= 1"@,
        leverage >= UNIT && leverage % UNIT != 0 ==> r is Err && r->Err_0@
            == "copy max leverage must be a whole-number exchange leverage"@,
        leverage >= UNIT && leverage % UNIT == 0 ==> r is Ok && r->Ok_0 == if leverage as int / UNIT as int
            > u32::MAX {
            u32::MAX as int
        } else {
            leverage as int / UNIT as int
        },
{
    if leverage < UNIT {
        return Err("copy max leverage must be a finite value >= 1".to_owned());
    }
    if leverage % UNIT != 0 {
        return Err("copy max leverage must be a whole-number exchange leverage".to_owned());
    }
    let n: i64 = leverage / UNIT;
    if n > u32::MAX as i64 {
        Ok(u32::MAX)
    } else {
        Ok(n as u32)
    }
}

/// The leverage that copied positions are opened with.
pub fn copy_daemon_live_target_leverage() -> (r: Result<u32, String>)
    ensures
        r is Ok,
        r->Ok_0 == 10,
{
    whole_leverage(COPY_MAX_LEVERAGE)
}

/// A leverage change that precedes an order.
#[derive(Debug)]
pub struct ManualLeverageUpdateOptions {
    pub account_id: String,
    pub coin: String,
    pub leverage: u32,
    pub margin_mode: String,
    pub submit: bool,
    pub confirm_mainnet_live: bool,
}

/// Whether an order needs its leverage set first: it opens, and not on spot.
pub open spec fn needs_leverage(plan: CopyLiveDaemonWouldSubmitRef) -> bool {
    !plan.order.reduce_only && coin_dex(plan.order.coin@) != "spot"@
}

/// Whether an order needs its leverage set before it is sent.
pub fn plan_needs_leverage(plan: &CopyLiveDaemonWouldSubmitRef) -> (r: bool)
    ensures
        r == needs_leverage(*plan),
{
    if plan.order.reduce_only {
        return false;
    }
    let (_market, dex) = copy_daemon_market_dex_for_coin(plan.order.coin.as_str());
    match dex {
        Some(dex) => !same_text(dex.as_str(), "spot"),
        None => true,
    }
}

/// The leverage change that precedes an order, capped at what the asset allows.
pub fn copy_daemon_live_leverage_update_options_with_max(
    confirm_mainnet_live: bool,
    plan: &CopyLiveDaemonWouldSubmitRef,
    max_leverage: Option<u32>,
) -> (r: Result<Option<ManualLeverageUpdateOptions>, String>)
    ensures
        r is Ok,
        (r->Ok_0 is Some) == needs_leverage(*plan),
        match r->Ok_0 {
            Some(u) => {
                &&& u.account_id == plan.order.account_id
                &&& u.coin == plan.order.coin
                &&& u.leverage == match max_leverage {
                    Some(m) => if 1 <= m < 10 {
                        m as int
                    } else {
                        10
                    },
                    None => 10,
                }
                &&& u.margin_mode@ == "isolated"@
                &&& u.submit
                &&& u.confirm_mainnet_live == confirm_mainnet_live
            },
            None => true,
        },
{
    if !plan_needs_leverage(plan) {
        return Ok(None);
    }
    match copy_daemon_live_target_leverage() {
        Err(e) => Err(e),
        Ok(target) => {
            let leverage: u32 = match max_leverage {
                Some(max) => if max >= 1 && max < target {
                    max
                } else {
                    target
                },
                None => target,
            };
            Ok(
                Some(
                    ManualLeverageUpdateOptions {
                        account_id: plan.order.account_id.clone(),
                        coin: plan.order.coin.clone(),
                        leverage,
                        margin_mode: "isolated".to_owned(),
                        submit: true,
                        confirm_mainnet_live,
                    },
                ),
            )
        },
    }
}

/// The leverage change that precedes an order.
pub fn copy_daemon_live_leverage_update_options(
    confirm_mainnet_live: bool,
    plan: &CopyLiveDaemonWouldSubmitRef,
) -> (r: Result<Option<ManualLeverageUpdateOptions>, String>)
    ensures
        r is Ok,
        (r->Ok_0 is Some) == needs_leverage(*plan),
        match r->Ok_0 {
            Some(u) => {
                &&& u.account_id == plan.order.account_id
                &&& u.coin == plan.order.coin
                &&& u.leverage == 10
                &&& u.margin_mode@ == "isolated"@
                &&& u.submit
                &&& u.confirm_mainnet_live == confirm_mainnet_live
            },
            None => true,
        },
{
    copy_daemon_live_leverage_update_options_with_max(confirm_mainnet_live, plan, None)
}

/// A coin is a spot pair exactly where, but for space around it, it holds a slash
/// or starts with an at sign. Any other coin trades on the dex before its first
/// colon, in lower case, or on the main dex where it has none. The market is
/// named after the dex.
pub proof fn a_coin_trades_where_its_name_says(coin: Seq<char>, prefix: Seq<char>, symbol: Seq<char>)
    ensures
        spot_coin(coin) <==> (exists|i: int|
            0 <= i < trimmed(coin).len() && #[trigger] trimmed(coin)[i] == '/') || (trimmed(
            coin,
        ).len() > 0 && trimmed(coin)[0] == '@'),
        spot_coin(coin) ==> coin_market(coin) == "spot"@ && coin_dex(coin) == "spot"@,
        !spot_coin(coin) && coin_dex(coin).len() == 0 ==> coin_market(coin) == "hl_perp"@,
        !spot_coin(coin) && coin_dex(coin).len() > 0 ==> coin_market(coin) == coin_dex(coin)
            + "_perp"@,
        !spot_coin(coin) && trimmed(coin) == prefix + seq![':'] + symbol && (forall|i: int|
            0 <= i < prefix.len() ==> #[trigger] prefix[i] != ':') ==> coin_dex(coin) == lower(
            trimmed(prefix),
        ),
        !spot_coin(coin) && (forall|i: int|
            0 <= i < trimmed(coin).len() ==> #[trigger] trimmed(coin)[i] != ':') ==> coin_dex(
            coin,
        ).len() == 0,
{
    let t = trimmed(coin);
    first_of_is_first(t, '/');
    first_of_is_first(t, ':');
    if t == prefix + seq![':'] + symbol && (forall|i: int|
        0 <= i < prefix.len() ==> #[trigger] prefix[i] != ':') {
        the_first_occurrence_splits_a_text(prefix, ':', symbol);
        assert(t.subrange(0, prefix.len() as int) =~= prefix);
    }
}

proof fn first_of_is_first(s: Seq<char>, c: char)
    ensures
        0 <= first_of(s, c) <= s.len(),
        first_of(s, c) < s.len() ==> s[first_of(s, c)] == c,
        forall|i: int| 0 <= i < first_of(s, c) ==> #[trigger] s[i] != c,
    decreases s.len(),
{
    if s.len() > 0 && s[0] != c {
        let t = s.subrange(1, s.len() as int);
        first_of_is_first(t, c);
        assert forall|i: int| 0 <= i < first_of(s, c) implies #[trigger] s[i] != c by {
            if i > 0 {
                assert(s[i] == t[i - 1]);
            }
        }
    }
}

/// White space, commas and semicolons, also in their wide forms, separate the
/// names of a market scope, and no letter, digit, underscore or colon does; a
/// text without separators is one name.
pub proof fn names_without_separators_stay_whole(name: Seq<char>, c: char)
    ensures
        scope_separator(',') && scope_separator(';') && scope_separator('\u{ff0c}')
            && scope_separator('\u{ff1b}'),
        is_space(c) ==> scope_separator(c),
        'a' <= c <= 'z' || 'A' <= c <= 'Z' || '0' <= c <= '9' || c == '_' || c == ':' || c == '-'
            ==> !scope_separator(c),
        name.len() > 0 && (forall|i: int|
            0 <= i < name.len() ==> !scope_separator(#[trigger] name[i])) ==> scope_names(name, 0)
            == seq![name],
{
    if name.len() > 0 && (forall|i: int|
        0 <= i < name.len() ==> !scope_separator(#[trigger] name[i])) {
        no_separator_ahead(name, 0);
        assert(name.subrange(0, name.len() as int) =~= name);
        assert(scope_names(name, name.len() as int) =~= Seq::empty());
        assert(scope_names(name, 0) =~= seq![name]);
    }
}

proof fn no_separator_ahead(s: Seq<char>, i: int)
    requires
        0 <= i <= s.len(),
        forall|k: int| 0 <= k < s.len() ==> !scope_separator(#[trigger] s[k]),
    ensures
        next_separator(s, i) == s.len(),
    decreases s.len() - i,
{
    if i < s.len() {
        no_separator_ahead(s, i + 1);
    }
}

/// Leverage is set before an order exactly where it opens something that is not
/// traded on spot.
pub proof fn only_perpetual_openings_need_leverage(plan: CopyLiveDaemonWouldSubmitRef)
    ensures
        needs_leverage(plan) <==> !plan.order.reduce_only && coin_dex(plan.order.coin@)
            != "spot"@,
        COPY_MAX_LEVERAGE == 10 * UNIT,
        UNIT == 1_000_000_000,
{
}

} // verus!
