//! The resource-schema registrar's core: the idempotent merge of version
//! lists. A declared schema keeps every one of its own versions and, in
//! addition, every version present only in the existing registration —
//! a version clients may still depend on is never silently dropped.

use vstd::prelude::*;

verus! {

/// The version names of a sequence of version strings.
pub open spec fn version_views(v: Seq<String>) -> Seq<Seq<char>> {
    v.map_values(|s: String| s@)
}

/// The versions of `existing` that `declared` does not carry, in order.
pub open spec fn missing_versions(declared: Seq<Seq<char>>, existing: Seq<Seq<char>>) -> Seq<
    Seq<char>,
> {
    existing.filter(|v: Seq<char>| !declared.contains(v))
}

/// The merged version list: every declared version, in order, followed by
/// every version present only in the existing registration, in order.
pub open spec fn merged_versions_spec(declared: Seq<Seq<char>>, existing: Seq<Seq<char>>) -> Seq<
    Seq<char>,
> {
    declared + missing_versions(declared, existing)
}

/// Whether `versions` carries a version named `name`.
fn contains_version(versions: &Vec<String>, name: &String) -> (r: bool)
    ensures
        r == version_views(versions@).contains(name@),
{
    let mut i: usize = 0;
    while i < versions.len()
        invariant
            i <= versions.len(),
            forall|j: int| 0 <= j < i ==> versions@[j]@ != name@,
        decreases versions.len() - i,
    {
        if versions[i].eq(name) {
            proof {
                assert(version_views(versions@)[i as int] == versions@[i as int]@);
            }
            return true;
        }
        i += 1;
    }
    proof {
        assert forall|j: int| 0 <= j < versions@.len() implies version_views(versions@)[j]
            != name@ by {
            assert(version_views(versions@)[j] == versions@[j]@);
        }
    }
    false
}

/// A copy of a version list, name for name.
fn copy_versions(versions: &Vec<String>) -> (r: Vec<String>)
    ensures
        version_views(r@) == version_views(versions@),
{
    let mut r: Vec<String> = Vec::new();
    let mut i: usize = 0;
    while i < versions.len()
        invariant
            i <= versions.len(),
            r@.len() == i,
            forall|k: int| 0 <= k < i ==> r@[k]@ == versions@[k]@,
        decreases versions.len() - i,
    {
        r.push(versions[i].clone());
        i += 1;
    }
    proof {
        assert(version_views(r@) =~= version_views(versions@));
    }
    r
}

/// Merges a declared version list into an existing registration's: keeps
/// every declared version, in order, and appends every version present only
/// in the existing registration, in order.
pub fn merge_versions(declared: &Vec<String>, existing: &Vec<String>) -> (r: Vec<String>)
    ensures
        version_views(r@) == merged_versions_spec(
            version_views(declared@),
            version_views(existing@),
        ),
{
    let ghost dv = version_views(declared@);
    let mut r: Vec<String> = copy_versions(declared);
    proof {
        reveal(Seq::filter);
        assert(version_views(existing@.subrange(0, 0)) =~= Seq::<Seq<char>>::empty());
        assert(missing_versions(dv, version_views(existing@.subrange(0, 0))).len() == 0);
        assert(version_views(r@) =~= merged_versions_spec(
            dv,
            version_views(existing@.subrange(0, 0)),
        ));
    }
    let mut j: usize = 0;
    while j < existing.len()
        invariant
            j <= existing.len(),
            dv == version_views(declared@),
            version_views(r@) == merged_versions_spec(
                dv,
                version_views(existing@.subrange(0, j as int)),
            ),
        decreases existing.len() - j,
    {
        let keep = !contains_version(declared, &existing[j]);
        let ghost prefix = version_views(existing@.subrange(0, j as int));
        let ghost x = existing@[j as int]@;
        let ghost r0 = r@;
        if keep {
            r.push(existing[j].clone());
        }
        proof {
            reveal(Seq::filter);
            let extended = version_views(existing@.subrange(0, j as int + 1));
            assert(extended =~= prefix.push(x));
            assert(prefix.push(x).drop_last() =~= prefix);
            assert(prefix.push(x).last() == x);
            if keep {
                assert(missing_versions(dv, prefix.push(x)) == missing_versions(
                    dv,
                    prefix,
                ).push(x));
                assert(version_views(r@) =~= version_views(r0).push(x));
                assert(version_views(r@) =~= merged_versions_spec(dv, extended));
            } else {
                assert(missing_versions(dv, prefix.push(x)) == missing_versions(dv, prefix));
                assert(version_views(r@) =~= merged_versions_spec(dv, extended));
            }
        }
        j += 1;
    }
    proof {
        assert(existing@.subrange(0, existing@.len() as int) =~= existing@);
    }
    r
}

/// What the registrar is to do for a declared schema, given the existing
/// registration of the same name when there is one.
pub enum RegistrationPlan {
    /// No registration exists: register the declared version list as-is.
    Create(Vec<String>),
    /// A registration exists: replace it with the merged version list.
    Replace(Vec<String>),
}

/// Decides the registrar's action for a declared schema: create it as-is
/// when no registration exists, otherwise replace the registration with the
/// merged version list.
pub fn plan_registration(declared: &Vec<String>, existing: &Option<Vec<String>>) -> (r:
    RegistrationPlan)
    ensures
        r is Create <==> existing is None,
        r matches RegistrationPlan::Create(vs) ==> version_views(vs@) == version_views(declared@),
        r matches RegistrationPlan::Replace(vs) ==> existing matches Some(e) && version_views(vs@)
            == merged_versions_spec(version_views(declared@), version_views(e@)),
{
    match existing {
        None => RegistrationPlan::Create(copy_versions(declared)),
        Some(e) => RegistrationPlan::Replace(merge_versions(declared, e)),
    }
}

/// Filtering a second time by the same predicate changes nothing.
proof fn lemma_filter_idempotent(s: Seq<Seq<char>>, p: spec_fn(Seq<char>) -> bool)
    ensures
        s.filter(p).filter(p) == s.filter(p),
    decreases s.len(),
{
    reveal(Seq::filter);
    if s.len() == 0 {
    } else {
        let t = s.drop_last();
        lemma_filter_idempotent(t, p);
        if p(s.last()) {
            let q = t.filter(p);
            assert(q.push(s.last()).drop_last() =~= q);
            assert(q.push(s.last()).last() == s.last());
        }
    }
}

/// The merge is idempotent on repeated application: merging a declared
/// version list into the result of merging it once more yields the same
/// version list as the first merge.
pub proof fn lemma_merge_idempotent(declared: Seq<Seq<char>>, existing: Seq<Seq<char>>)
    ensures
        merged_versions_spec(declared, merged_versions_spec(declared, existing))
            == merged_versions_spec(declared, existing),
{
    let p = |v: Seq<char>| !declared.contains(v);
    let f = missing_versions(declared, existing);
    Seq::filter_distributes_over_add(declared, f, p);
    assert forall|i: int| 0 <= i < declared.len() implies !p(declared[i]) by {
        assert(declared.contains(declared[i]));
    }
    declared.lemma_all_neg_filter_empty(p);
    assert(declared.filter(p) =~= Seq::<Seq<char>>::empty());
    lemma_filter_idempotent(existing, p);
    assert((declared + f).filter(p) =~= f);
    assert(merged_versions_spec(declared, merged_versions_spec(declared, existing))
        =~= merged_versions_spec(declared, existing));
}

} // verus!
