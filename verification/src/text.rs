//! Text helpers, stated over the characters of a text.

use vstd::prelude::*;

verus! {

/// `String::push` appends the given character to the end of the text.
pub assume_specification[ String::push ](s: &mut String, c: char)
    ensures
        final(s)@ == old(s)@.push(c),
;

/// Whether a character has the Unicode `White_Space` property.
pub open spec fn is_space(c: char) -> bool {
    let n = c as u32;
    ||| 0x09 <= n <= 0x0d
    ||| n == 0x20
    ||| n == 0x85
    ||| n == 0xa0
    ||| n == 0x1680
    ||| 0x2000 <= n <= 0x200a
    ||| n == 0x2028
    ||| n == 0x2029
    ||| n == 0x202f
    ||| n == 0x205f
    ||| n == 0x3000
}

/// Whether a text is empty or holds white space only.
pub open spec fn blank(s: Seq<char>) -> bool {
    forall|i: int| 0 <= i < s.len() ==> is_space(#[trigger] s[i])
}

/// A text without its leading white space.
pub open spec fn trim_start(s: Seq<char>) -> Seq<char>
    decreases s.len(),
{
    if s.len() > 0 && is_space(s[0]) {
        trim_start(s.subrange(1, s.len() as int))
    } else {
        s
    }
}

/// A text without its trailing white space.
pub open spec fn trim_end(s: Seq<char>) -> Seq<char>
    decreases s.len(),
{
    if s.len() > 0 && is_space(s.last()) {
        trim_end(s.drop_last())
    } else {
        s
    }
}

/// A text without leading and trailing white space.
pub open spec fn trimmed(s: Seq<char>) -> Seq<char> {
    trim_end(trim_start(s))
}

/// The lower-case form of an ASCII letter; any other character is itself.
pub open spec fn lower_char(c: char) -> char {
    if 'A' <= c <= 'Z' {
        ((c as u32 + 32) as u32) as char
    } else {
        c
    }
}

/// A text with its ASCII letters in lower case.
pub open spec fn lower(s: Seq<char>) -> Seq<char> {
    Seq::new(s.len(), |i: int| lower_char(s[i]))
}

/// Whether `needle` stands in `s` starting at position `k`.
pub open spec fn occurs_at(s: Seq<char>, needle: Seq<char>, k: int) -> bool {
    0 <= k && k + needle.len() <= s.len() && s.subrange(k, k + needle.len()) == needle
}

/// Whether `needle` stands anywhere in `s`.
pub open spec fn has_text(s: Seq<char>, needle: Seq<char>) -> bool {
    exists|k: int| occurs_at(s, needle, k)
}

/// The position of the first `c` in `s`, or the length of `s` where there is none.
pub open spec fn first_of(s: Seq<char>, c: char) -> int
    decreases s.len(),
{
    if s.len() == 0 || s[0] == c {
        0
    } else {
        1 + first_of(s.subrange(1, s.len() as int), c)
    }
}

/// The texts of `parts` in order, with `sep` between neighbours.
pub open spec fn joined(parts: Seq<Seq<char>>, sep: Seq<char>) -> Seq<char>
    decreases parts.len(),
{
    if parts.len() == 0 {
        Seq::empty()
    } else if parts.len() == 1 {
        parts[0]
    } else {
        joined(parts.drop_last(), sep) + sep + parts.last()
    }
}

/// The texts behind a sequence of strings.
pub open spec fn texts(v: Seq<String>) -> Seq<Seq<char>> {
    v.map_values(|s: String| s@)
}

/// `true` or `false`, as text.
pub open spec fn bool_text(b: bool) -> Seq<char> {
    if b {
        "true"@
    } else {
        "false"@
    }
}

/// Lexicographic order by character.
pub open spec fn text_less(a: Seq<char>, b: Seq<char>) -> bool
    decreases a.len(),
{
    if b.len() == 0 {
        false
    } else if a.len() == 0 {
        true
    } else if a[0] == b[0] {
        text_less(a.subrange(1, a.len() as int), b.subrange(1, b.len() as int))
    } else {
        a[0] < b[0]
    }
}

/// The characters of a text, in order.
pub fn chars_of(s: &str) -> (r: Vec<char>)
    ensures
        r@ == s@,
{
    let mut r: Vec<char> = Vec::new();
    for c in it: s.chars()
        invariant
            r@ == it.seq().subrange(0, it.index() as int),
            it.seq() == s@,
    {
        r.push(c);
        assert(it.seq().subrange(0, it.index() as int + 1) =~= it.seq().subrange(
            0,
            it.index() as int,
        ).push(c));
    }
    assert(s@.subrange(0, s@.len() as int) =~= s@);
    r
}

/// The text made of the characters from `from` up to, not including, `to`.
pub fn text_of(chars: &Vec<char>, from: usize, to: usize) -> (r: String)
    requires
        from <= to <= chars@.len(),
    ensures
        r@ == chars@.subrange(from as int, to as int),
{
    let mut r: String = String::new();
    let mut i: usize = from;
    while i < to
        invariant
            from <= i <= to <= chars@.len(),
            r@ == chars@.subrange(from as int, i as int),
        decreases to - i,
    {
        r.push(chars[i]);
        assert(chars@.subrange(from as int, i as int + 1) =~= chars@.subrange(
            from as int,
            i as int,
        ).push(chars@[i as int]));
        i += 1;
    }
    r
}

/// Whether two texts hold the same characters.
pub fn same_text(a: &str, b: &str) -> (r: bool)
    ensures
        r == (a@ == b@),
{
    let x: String = a.to_owned();
    let y: String = b.to_owned();
    x == y
}

fn space(c: char) -> (r: bool)
    ensures
        r == is_space(c),
{
    let n: u32 = c as u32;
    (0x09 <= n && n <= 0x0d) || n == 0x20 || n == 0x85 || n == 0xa0 || n == 0x1680 || (0x2000 <= n
        && n <= 0x200a) || n == 0x2028 || n == 0x2029 || n == 0x202f || n == 0x205f || n == 0x3000
}

/// Whether a character is white space.
pub fn is_space_char(c: char) -> (r: bool)
    ensures
        r == is_space(c),
{
    space(c)
}

/// Trimming leaves nothing exactly where a text is blank.
pub proof fn blank_is_empty_trim(s: Seq<char>)
    ensures
        blank(s) <==> trimmed(s).len() == 0,
        blank(s) <==> trim_start(s).len() == 0,
{
    trim_start_keeps(s);
    trim_end_keeps(trim_start(s));
}

proof fn trim_start_keeps(s: Seq<char>)
    ensures
        blank(s) <==> trim_start(s).len() == 0,
        trim_start(s).len() > 0 ==> !is_space(trim_start(s)[0]),
    decreases s.len(),
{
    if s.len() > 0 && is_space(s[0]) {
        let t = s.subrange(1, s.len() as int);
        trim_start_keeps(t);
        if blank(t) {
            assert forall|i: int| 0 <= i < s.len() implies is_space(#[trigger] s[i]) by {
                if i > 0 {
                    assert(s[i] == t[i - 1]);
                }
            }
        }
        if blank(s) {
            assert forall|i: int| 0 <= i < t.len() implies is_space(#[trigger] t[i]) by {
                assert(t[i] == s[i + 1]);
            }
        }
    }
}

proof fn trim_end_keeps(s: Seq<char>)
    ensures
        s.len() > 0 && !is_space(s[0]) ==> trim_end(s).len() > 0,
        s.len() == 0 ==> trim_end(s).len() == 0,
    decreases s.len(),
{
    if s.len() > 0 && is_space(s.last()) {
        trim_end_keeps(s.drop_last());
    }
}

proof fn trim_start_from(s: Seq<char>, i: int)
    requires
        0 <= i <= s.len(),
        forall|k: int| 0 <= k < i ==> is_space(#[trigger] s[k]),
    ensures
        trim_start(s) == trim_start(s.subrange(i, s.len() as int)),
    decreases i,
{
    if i == 0 {
        assert(s.subrange(0, s.len() as int) =~= s);
    } else {
        let t = s.subrange(1, s.len() as int);
        assert forall|k: int| 0 <= k < i - 1 implies is_space(#[trigger] t[k]) by {
            assert(t[k] == s[k + 1]);
        }
        trim_start_from(t, i - 1);
        assert(t.subrange(i - 1, t.len() as int) =~= s.subrange(i, s.len() as int));
        assert(is_space(s[0]));
    }
}

proof fn trim_end_to(s: Seq<char>, j: int)
    requires
        0 <= j <= s.len(),
        forall|k: int| j <= k < s.len() ==> is_space(#[trigger] s[k]),
    ensures
        trim_end(s) == trim_end(s.subrange(0, j)),
    decreases s.len() - j,
{
    if j == s.len() {
        assert(s.subrange(0, s.len() as int) =~= s);
    } else {
        let t = s.drop_last();
        assert(is_space(s[s.len() - 1]));
        trim_end_to(t, j);
        assert(t.subrange(0, j) =~= s.subrange(0, j));
    }
}

/// A text without leading and trailing white space.
pub fn trim(s: &str) -> (r: String)
    ensures
        r@ == trimmed(s@),
{
    let v: Vec<char> = chars_of(s);
    let n: usize = v.len();
    let mut i: usize = 0;
    while i < n && space(v[i])
        invariant
            i <= n == v@.len(),
            forall|k: int| 0 <= k < i ==> is_space(#[trigger] v@[k]),
        decreases n - i,
    {
        i += 1;
    }
    let mut j: usize = n;
    while j > i && space(v[j - 1])
        invariant
            i <= j <= n == v@.len(),
            forall|k: int| j <= k < n ==> is_space(#[trigger] v@[k]),
        decreases j - i,
    {
        j -= 1;
    }
    proof {
        let w = v@;
        trim_start_from(w, i as int);
        let t = w.subrange(i as int, n as int);
        assert(t.len() > 0 ==> t[0] == w[i as int]);
        assert(trim_start(w) == t);
        assert forall|k: int| j - i <= k < t.len() implies is_space(#[trigger] t[k]) by {
            assert(t[k] == w[k + i]);
        }
        trim_end_to(t, j - i);
        assert(t.subrange(0, j - i) =~= w.subrange(i as int, j as int));
        let u = w.subrange(i as int, j as int);
        assert(u.len() > 0 ==> u.last() == w[j - 1]);
    }
    text_of(&v, i, j)
}

/// Whether a text is empty or holds white space only.
pub fn is_blank(s: &str) -> (r: bool)
    ensures
        r == blank(s@),
{
    let v: Vec<char> = chars_of(s);
    let mut i: usize = 0;
    while i < v.len()
        invariant
            i <= v@.len(),
            v@ == s@,
            forall|k: int| 0 <= k < i ==> is_space(#[trigger] v@[k]),
        decreases v@.len() - i,
    {
        if !space(v[i]) {
            assert(!is_space(s@[i as int]));
            return false;
        }
        i += 1;
    }
    true
}

fn lower_of(c: char) -> (r: char)
    ensures
        r == lower_char(c),
{
    if 'A' <= c && c <= 'Z' {
        let b: u8 = c as u8;
        let r: char = (b + 32) as char;
        r
    } else {
        c
    }
}

/// A text with its ASCII letters in lower case.
pub fn ascii_lower(s: &str) -> (r: String)
    ensures
        r@ == lower(s@),
{
    let v: Vec<char> = chars_of(s);
    let mut r: String = String::new();
    let mut i: usize = 0;
    while i < v.len()
        invariant
            i <= v@.len(),
            v@ == s@,
            r@ == lower(s@).subrange(0, i as int),
        decreases v@.len() - i,
    {
        r.push(lower_of(v[i]));
        assert(lower(s@).subrange(0, i as int + 1) =~= lower(s@).subrange(0, i as int).push(
            lower_char(v@[i as int]),
        ));
        i += 1;
    }
    assert(lower(s@).subrange(0, s@.len() as int) =~= lower(s@));
    r
}

/// Whether two texts are equal up to the case of ASCII letters.
pub fn same_text_ignoring_case(a: &str, b: &str) -> (r: bool)
    ensures
        r == (lower(a@) == lower(b@)),
{
    ascii_lower(a) == ascii_lower(b)
}

fn occurs_here(s: &Vec<char>, needle: &Vec<char>, k: usize) -> (r: bool)
    requires
        k + needle@.len() <= s@.len(),
    ensures
        r == occurs_at(s@, needle@, k as int),
{
    let total: usize = s.len();
    let mut i: usize = 0;
    while i < needle.len()
        invariant
            i <= needle@.len(),
            k + needle@.len() <= s@.len() == total,
            forall|j: int| 0 <= j < i ==> s@[k + j] == #[trigger] needle@[j],
        decreases needle@.len() - i,
    {
        if s[k + i] != needle[i] {
            assert(s@.subrange(k as int, k + needle@.len())[i as int] != needle@[i as int]);
            return false;
        }
        i += 1;
    }
    assert(s@.subrange(k as int, k + needle@.len()) =~= needle@);
    true
}

/// Whether `needle` stands anywhere in `s`.
pub fn contains_text(s: &str, needle: &str) -> (r: bool)
    ensures
        r == has_text(s@, needle@),
{
    let v: Vec<char> = chars_of(s);
    let n: Vec<char> = chars_of(needle);
    if n.len() > v.len() {
        return false;
    }
    let last: usize = v.len() - n.len();
    let mut k: usize = 0;
    loop
        invariant
            k <= last,
            last + n@.len() == v@.len(),
            v@ == s@,
            n@ == needle@,
            forall|j: int| 0 <= j < k ==> !occurs_at(s@, needle@, j),
        decreases last - k,
    {
        if occurs_here(&v, &n, k) {
            return true;
        }
        if k == last {
            return false;
        }
        k += 1;
    }
}

proof fn first_of_step(s: Seq<char>, c: char, i: int)
    requires
        0 <= i <= s.len(),
        forall|k: int| 0 <= k < i ==> #[trigger] s[k] != c,
    ensures
        first_of(s, c) == i + first_of(s.subrange(i, s.len() as int), c),
    decreases i,
{
    if i == 0 {
        assert(s.subrange(0, s.len() as int) =~= s);
    } else {
        let t = s.subrange(1, s.len() as int);
        assert forall|k: int| 0 <= k < i - 1 implies #[trigger] t[k] != c by {
            assert(t[k] == s[k + 1]);
        }
        first_of_step(t, c, i - 1);
        assert(t.subrange(i - 1, t.len() as int) =~= s.subrange(i, s.len() as int));
        assert(s[0] != c);
    }
}

/// The position of the first `c`, or the length where there is none.
pub fn find_char(v: &Vec<char>, c: char) -> (r: usize)
    ensures
        r == first_of(v@, c),
        r <= v@.len(),
{
    let mut i: usize = 0;
    while i < v.len()
        invariant
            i <= v@.len(),
            forall|k: int| 0 <= k < i ==> #[trigger] v@[k] != c,
        decreases v@.len() - i,
    {
        if v[i] == c {
            proof {
                first_of_step(v@, c, i as int);
                assert(v@.subrange(i as int, v@.len() as int)[0] == v@[i as int]);
            }
            return i;
        }
        i += 1;
    }
    proof {
        first_of_step(v@, c, i as int);
    }
    i
}

proof fn joined_push(parts: Seq<Seq<char>>, sep: Seq<char>, last: Seq<char>)
    ensures
        joined(parts.push(last), sep) == if parts.len() == 0 {
            last
        } else {
            joined(parts, sep) + sep + last
        },
{
    assert(parts.push(last).drop_last() =~= parts);
}

/// The given texts in order, with `sep` between neighbours.
pub fn join(parts: &Vec<String>, sep: &str) -> (r: String)
    ensures
        r@ == joined(texts(parts@), sep@),
{
    let mut r: String = String::new();
    let mut i: usize = 0;
    while i < parts.len()
        invariant
            i <= parts@.len(),
            r@ == joined(texts(parts@).subrange(0, i as int), sep@),
        decreases parts@.len() - i,
    {
        let ghost before = texts(parts@).subrange(0, i as int);
        if i > 0 {
            r.append(sep);
        }
        r.append(parts[i].as_str());
        proof {
            joined_push(before, sep@, parts@[i as int]@);
            assert(texts(parts@).subrange(0, i as int + 1) =~= before.push(parts@[i as int]@));
            if i == 0 {
                assert(r@ =~= parts@[0]@);
            }
        }
        i += 1;
    }
    assert(texts(parts@).subrange(0, parts@.len() as int) =~= texts(parts@));
    r
}

/// Appends `true` or `false`.
pub fn push_bool(s: &mut String, b: bool)
    ensures
        final(s)@ == old(s)@ + bool_text(b),
{
    if b {
        s.append("true");
    } else {
        s.append("false");
    }
}

/// Whether `a` comes before `b` in the order by character.
pub fn text_before(a: &str, b: &str) -> (r: bool)
    ensures
        r == text_less(a@, b@),
{
    let x: Vec<char> = chars_of(a);
    let y: Vec<char> = chars_of(b);
    let mut i: usize = 0;
    assert(x@.subrange(0, x@.len() as int) =~= x@);
    assert(y@.subrange(0, y@.len() as int) =~= y@);
    loop
        invariant
            i <= x@.len(),
            i <= y@.len(),
            text_less(x@, y@) == text_less(
                x@.subrange(i as int, x@.len() as int),
                y@.subrange(i as int, y@.len() as int),
            ),
            x@ == a@,
            y@ == b@,
        decreases x@.len() - i,
    {
        let ghost xs = x@.subrange(i as int, x@.len() as int);
        let ghost ys = y@.subrange(i as int, y@.len() as int);
        if i == y.len() {
            return false;
        }
        if i == x.len() {
            return true;
        }
        assert(xs[0] == x@[i as int] && ys[0] == y@[i as int]);
        if x[i] != y[i] {
            return x[i] < y[i];
        }
        assert(xs.subrange(1, xs.len() as int) =~= x@.subrange(i as int + 1, x@.len() as int));
        assert(ys.subrange(1, ys.len() as int) =~= y@.subrange(i as int + 1, y@.len() as int));
        i += 1;
    }
}

/// The order by character is irreflexive.
pub proof fn text_less_irreflexive(a: Seq<char>)
    ensures
        !text_less(a, a),
    decreases a.len(),
{
    if a.len() > 0 {
        text_less_irreflexive(a.subrange(1, a.len() as int));
    }
}

/// The order by character is transitive.
pub proof fn text_less_transitive(a: Seq<char>, b: Seq<char>, c: Seq<char>)
    requires
        text_less(a, b),
        text_less(b, c),
    ensures
        text_less(a, c),
    decreases a.len(),
{
    if a.len() > 0 && b.len() > 0 && c.len() > 0 && a[0] == b[0] && b[0] == c[0] {
        text_less_transitive(
            a.subrange(1, a.len() as int),
            b.subrange(1, b.len() as int),
            c.subrange(1, c.len() as int),
        );
    }
}

/// Any two different texts are ordered by character one way or the other.
pub proof fn text_less_total(a: Seq<char>, b: Seq<char>)
    ensures
        a == b || text_less(a, b) || text_less(b, a),
    decreases a.len(),
{
    if a.len() == 0 || b.len() == 0 {
        if a.len() == 0 && b.len() == 0 {
            assert(a =~= b);
        }
    } else if a[0] == b[0] {
        let x = a.subrange(1, a.len() as int);
        let y = b.subrange(1, b.len() as int);
        text_less_total(x, y);
        if x == y {
            assert(a =~= b) by {
                assert forall|i: int| 0 <= i < a.len() implies a[i] == b[i] by {
                    if i > 0 {
                        assert(a[i] == x[i - 1] && b[i] == y[i - 1]);
                    }
                }
                assert(a.len() == x.len() + 1 && b.len() == y.len() + 1);
            }
        }
    }
}

/// A copy of an optional text.
pub fn clone_opt(s: &Option<String>) -> (r: Option<String>)
    ensures
        r == *s,
{
    match s {
        Some(t) => Some(t.clone()),
        None => None,
    }
}

/// A copy of a list of texts.
pub fn clone_texts(v: &Vec<String>) -> (r: Vec<String>)
    ensures
        r@ == v@,
{
    let mut r: Vec<String> = Vec::new();
    let mut i: usize = 0;
    while i < v.len()
        invariant
            i <= v@.len(),
            r@ == v@.subrange(0, i as int),
        decreases v@.len() - i,
    {
        r.push(v[i].clone());
        assert(v@.subrange(0, i as int + 1) =~= v@.subrange(0, i as int).push(v@[i as int]));
        i += 1;
    }
    assert(v@.subrange(0, v@.len() as int) =~= v@);
    r
}

/// Whether a text is among the given ones.
pub open spec fn lists(v: Seq<String>, s: Seq<char>) -> bool {
    exists|i: int| 0 <= i < v.len() && (#[trigger] v[i])@ == s
}

/// Whether a text is among the given ones.
pub fn list_has(v: &Vec<String>, s: &str) -> (r: bool)
    ensures
        r == lists(v@, s@),
{
    let mut i: usize = 0;
    while i < v.len()
        invariant
            i <= v@.len(),
            forall|k: int| 0 <= k < i ==> (#[trigger] v@[k])@ != s@,
        decreases v@.len() - i,
    {
        if same_text(v[i].as_str(), s) {
            return true;
        }
        i += 1;
    }
    false
}

/// A text has another in it exactly where it is that text with something before
/// and something behind it.
pub proof fn a_text_in_another_splits_it(s: Seq<char>, needle: Seq<char>)
    ensures
        has_text(s, needle) <==> exists|a: Seq<char>, b: Seq<char>|
            s == #[trigger] (a + needle + b),
{
    if has_text(s, needle) {
        let k = choose|k: int| occurs_at(s, needle, k);
        let a = s.subrange(0, k);
        let b = s.subrange(k + needle.len(), s.len() as int);
        assert(s =~= a + s.subrange(k, k + needle.len()) + b);
        assert(s == a + needle + b);
    }
    if exists|a: Seq<char>, b: Seq<char>| s == #[trigger] (a + needle + b) {
        let (a, b) = choose|a: Seq<char>, b: Seq<char>| s == #[trigger] (a + needle + b);
        assert(s.subrange(a.len() as int, (a.len() + needle.len()) as int) =~= needle);
        assert(occurs_at(s, needle, a.len() as int));
    }
}

/// Of the characters of ASCII, white space is the blank and the five from tab to
/// carriage return; no letter, digit or mark is.
pub proof fn blanks_and_tabs_are_space(c: char)
    ensures
        is_space(' ') && is_space('\t') && is_space('\n') && is_space('\r'),
        0x21 <= c as u32 <= 0x7e ==> !is_space(c),
        is_space('\u{3000}') && is_space('\u{a0}'),
{
}

/// Trimming takes off white space at both ends and nothing else.
pub proof fn trimming_takes_off_outer_space(s: Seq<char>)
    ensures
        exists|a: Seq<char>, b: Seq<char>|
            blank(a) && blank(b) && s == #[trigger] (a + trimmed(s) + b),
        trimmed(s).len() > 0 ==> !is_space(trimmed(s)[0]) && !is_space(trimmed(s).last()),
{
    let m = trim_start(s);
    trims_the_start(s);
    trims_the_end(m);
    let a = choose|a: Seq<char>| blank(a) && s == #[trigger] (a + m);
    let b = choose|b: Seq<char>| blank(b) && m == #[trigger] (trimmed(s) + b);
    assert(s =~= a + trimmed(s) + b);
    if trimmed(s).len() > 0 {
        assert(m[0] == trimmed(s)[0]);
    }
}

proof fn trims_the_start(s: Seq<char>)
    ensures
        exists|a: Seq<char>| blank(a) && s == #[trigger] (a + trim_start(s)),
        trim_start(s).len() > 0 ==> !is_space(trim_start(s)[0]),
    decreases s.len(),
{
    if s.len() > 0 && is_space(s[0]) {
        let t = s.subrange(1, s.len() as int);
        trims_the_start(t);
        let a = choose|a: Seq<char>| blank(a) && t == #[trigger] (a + trim_start(t));
        let b = seq![s[0]] + a;
        assert(blank(b));
        assert(s =~= seq![s[0]] + t);
        assert(b + trim_start(s) =~= seq![s[0]] + (a + trim_start(t)));
    } else {
        let a = Seq::<char>::empty();
        assert(blank(a));
        assert(s =~= a + trim_start(s));
    }
}

proof fn trims_the_end(s: Seq<char>)
    ensures
        exists|b: Seq<char>| blank(b) && s == #[trigger] (trim_end(s) + b),
        trim_end(s).len() > 0 ==> !is_space(trim_end(s).last()),
    decreases s.len(),
{
    if s.len() > 0 && is_space(s.last()) {
        let t = s.drop_last();
        trims_the_end(t);
        let b = choose|b: Seq<char>| blank(b) && t == #[trigger] (trim_end(t) + b);
        let c = b.push(s.last());
        assert(blank(c));
        assert(s =~= t.push(s.last()));
        assert(trim_end(s) + c =~= (trim_end(t) + b).push(s.last()));
    } else {
        let b = Seq::<char>::empty();
        assert(blank(b));
        assert(s =~= trim_end(s) + b);
    }
}

/// Lower case turns the capital letters of ASCII into small ones and leaves every
/// other character as it is.
pub proof fn lower_case_changes_capitals_alone(s: Seq<char>, i: int)
    requires
        0 <= i < s.len(),
    ensures
        lower(s).len() == s.len(),
        'A' <= s[i] <= 'Z' ==> lower(s)[i] as u32 == s[i] as u32 + 32,
        !('A' <= s[i] <= 'Z') ==> lower(s)[i] == s[i],
{
}

/// Joined texts stand in order with the separator between neighbours.
pub proof fn joining_puts_separators_between(
    parts: Seq<Seq<char>>,
    part: Seq<char>,
    sep: Seq<char>,
)
    ensures
        joined(Seq::empty(), sep).len() == 0,
        joined(seq![part], sep) == part,
        parts.len() > 0 ==> joined(parts.push(part), sep) == joined(parts, sep) + sep + part,
{
    assert(parts.push(part).drop_last() =~= parts);
    assert(seq![part].drop_last() =~= Seq::empty());
}

/// Texts are ordered by their first difference, and a text comes before what
/// goes on from it.
pub proof fn texts_are_ordered_by_their_first_difference(
    a: Seq<char>,
    c: char,
    x: Seq<char>,
    d: char,
    y: Seq<char>,
)
    ensures
        text_less(a + seq![c] + x, a + seq![d] + y) <==> c < d || (c == d && text_less(x, y)),
        text_less(a, a + seq![c] + x),
        !text_less(a + seq![c] + x, a),
    decreases a.len(),
{
    let l = a + seq![c] + x;
    let r = a + seq![d] + y;
    if a.len() == 0 {
        assert(l.subrange(1, l.len() as int) =~= x);
        assert(r.subrange(1, r.len() as int) =~= y);
    } else {
        let t = a.subrange(1, a.len() as int);
        texts_are_ordered_by_their_first_difference(t, c, x, d, y);
        assert(l.subrange(1, l.len() as int) =~= t + seq![c] + x);
        assert(r.subrange(1, r.len() as int) =~= t + seq![d] + y);
    }
}

/// The first occurrence of a character is where the text splits into a part
/// without it and the rest; where there is none it is the end.
pub proof fn the_first_occurrence_splits_a_text(a: Seq<char>, c: char, b: Seq<char>)
    requires
        forall|i: int| 0 <= i < a.len() ==> #[trigger] a[i] != c,
    ensures
        first_of(a + seq![c] + b, c) == a.len(),
        first_of(a, c) == a.len(),
    decreases a.len(),
{
    let s = a + seq![c] + b;
    if a.len() > 0 {
        let t = a.subrange(1, a.len() as int);
        assert forall|i: int| 0 <= i < t.len() implies #[trigger] t[i] != c by {
            assert(t[i] == a[i + 1]);
        }
        the_first_occurrence_splits_a_text(t, c, b);
        assert(s.subrange(1, s.len() as int) =~= t + seq![c] + b);
        assert(s[0] == a[0]);
    }
}

} // verus!
