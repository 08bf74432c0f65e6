//! Named checks with a verdict and a detail text.

use vstd::prelude::*;

use crate::text::same_text;

verus! {

/// One named check of a report.
#[derive(Debug)]
pub struct CopyShadowSmokeCheck {
    pub name: String,
    pub ok: bool,
    pub detail: String,
}

/// What a check says.
pub struct Check {
    pub name: Seq<char>,
    pub ok: bool,
    pub detail: Seq<char>,
}

impl View for CopyShadowSmokeCheck {
    type V = Check;

    open spec fn view(&self) -> Check {
        Check { name: self.name@, ok: self.ok, detail: self.detail@ }
    }
}

impl Clone for CopyShadowSmokeCheck {
    fn clone(&self) -> (r: Self)
        ensures
            r == *self,
    {
        CopyShadowSmokeCheck { name: self.name.clone(), ok: self.ok, detail: self.detail.clone() }
    }
}

/// A check with the given parts.
pub open spec fn check(name: Seq<char>, ok: bool, detail: Seq<char>) -> Check {
    Check { name, ok, detail }
}

/// What a list of checks says.
pub open spec fn views(checks: Seq<CopyShadowSmokeCheck>) -> Seq<Check> {
    checks.map_values(|c: CopyShadowSmokeCheck| c@)
}

/// Whether every check passed.
pub open spec fn all_ok(checks: Seq<Check>) -> bool {
    forall|i: int| 0 <= i < checks.len() ==> (#[trigger] checks[i]).ok
}

/// Makes a check.
pub fn copy_shadow_smoke_check(name: &str, ok: bool, detail: String) -> (r: CopyShadowSmokeCheck)
    ensures
        r@ == check(name@, ok, detail@),
{
    CopyShadowSmokeCheck { name: name.to_owned(), ok, detail }
}

/// Appends a check to a list.
pub fn push_check(checks: &mut Vec<CopyShadowSmokeCheck>, name: &str, ok: bool, detail: String)
    ensures
        views(final(checks)@) == views(old(checks)@).push(check(name@, ok, detail@)),
        final(checks)@.len() == old(checks)@.len() + 1,
{
    let ghost before = checks@;
    checks.push(copy_shadow_smoke_check(name, ok, detail));
    assert(views(checks@) =~= views(before).push(check(name@, ok, detail@)));
}

/// Appends a check whose detail is a fixed text.
pub fn push_note(checks: &mut Vec<CopyShadowSmokeCheck>, name: &str, ok: bool, detail: &str)
    ensures
        views(final(checks)@) == views(old(checks)@).push(check(name@, ok, detail@)),
        final(checks)@.len() == old(checks)@.len() + 1,
{
    push_check(checks, name, ok, detail.to_owned());
}

/// Whether every check passed.
pub fn checks_all_ok(checks: &Vec<CopyShadowSmokeCheck>) -> (r: bool)
    ensures
        r == all_ok(views(checks@)),
{
    let mut i: usize = 0;
    while i < checks.len()
        invariant
            i <= checks@.len(),
            forall|k: int| 0 <= k < i ==> (#[trigger] checks@[k]).ok,
        decreases checks@.len() - i,
    {
        if !checks[i].ok {
            assert(!views(checks@)[i as int].ok);
            return false;
        }
        i += 1;
    }
    assert forall|k: int| 0 <= k < views(checks@).len() implies (#[trigger] views(checks@)[k]).ok by {
        assert(views(checks@)[k] == checks@[k]@);
    }
    true
}

/// A copy of a list of checks.
pub fn clone_checks(checks: &Vec<CopyShadowSmokeCheck>) -> (r: Vec<CopyShadowSmokeCheck>)
    ensures
        r@ == checks@,
{
    let mut r: Vec<CopyShadowSmokeCheck> = Vec::new();
    let mut i: usize = 0;
    while i < checks.len()
        invariant
            i <= checks@.len(),
            r@ == checks@.subrange(0, i as int),
        decreases checks@.len() - i,
    {
        r.push(checks[i].clone());
        assert(checks@.subrange(0, i as int + 1) =~= checks@.subrange(0, i as int).push(
            checks@[i as int],
        ));
        i += 1;
    }
    assert(checks@.subrange(0, checks@.len() as int) =~= checks@);
    r
}

/// Moves the checks of `more` to the end of `checks`.
pub fn append_checks(checks: &mut Vec<CopyShadowSmokeCheck>, more: Vec<CopyShadowSmokeCheck>)
    ensures
        views(final(checks)@) == views(old(checks)@) + views(more@),
        final(checks)@ == old(checks)@ + more@,
{
    let ghost before = checks@;
    let mut rest: Vec<CopyShadowSmokeCheck> = more;
    checks.append(&mut rest);
    assert(views(checks@) =~= views(before) + views(more@));
}

/// Whether a check carries the given name.
pub fn check_named(c: &CopyShadowSmokeCheck, name: &str) -> (r: bool)
    ensures
        r == (c@.name == name@),
{
    same_text(c.name.as_str(), name)
}

/// A list of checks passes exactly where both of its parts do.
pub proof fn all_ok_concat(a: Seq<Check>, b: Seq<Check>)
    ensures
        all_ok(a + b) <==> all_ok(a) && all_ok(b),
{
    let c = a + b;
    if all_ok(c) {
        assert forall|i: int| 0 <= i < a.len() implies (#[trigger] a[i]).ok by {
            assert(c[i] == a[i]);
        }
        assert forall|i: int| 0 <= i < b.len() implies (#[trigger] b[i]).ok by {
            assert(c[a.len() + i] == b[i]);
        }
    }
    if all_ok(a) && all_ok(b) {
        assert forall|i: int| 0 <= i < c.len() implies (#[trigger] c[i]).ok by {
            if i < a.len() {
                assert(c[i] == a[i]);
            } else {
                assert(c[i] == b[i - a.len()]);
            }
        }
    }
}

/// A list of checks is in order exactly where each of them is.
pub proof fn checks_are_in_order_together(c: Seq<Check>)
    ensures
        all_ok(c) <==> (forall|i: int| 0 <= i < c.len() ==> (#[trigger] c[i]).ok),
{
}

} // verus!
