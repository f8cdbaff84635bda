//! Planning the required base directories: which of them must still be
//! created.  The caller reports which paths exist and performs the
//! creations; the plan guarantees nothing already present is touched and
//! nothing missing is forgotten.

use vstd::prelude::*;

verus! {

/// The required paths that do not exist yet, in their given order.
pub open spec fn missing_of(paths: Seq<Seq<char>>, present: Seq<bool>) -> Seq<Seq<char>>
    decreases paths.len(),
{
    if paths.len() == 0 || present.len() == 0 {
        Seq::empty()
    } else if present[0] {
        missing_of(paths.drop_first(), present.drop_first())
    } else {
        seq![paths[0]] + missing_of(paths.drop_first(), present.drop_first())
    }
}

/// The directories present once the planned paths have been created.
pub open spec fn dirs_after(existing: Set<Seq<char>>, created: Seq<Seq<char>>) -> Set<Seq<char>> {
    existing.union(created.to_set())
}

/// The paths the caller must create: exactly those required paths whose
/// `present` flag is false, kept in order.
pub fn plan_missing(required: &Vec<String>, present: &Vec<bool>) -> (r: Vec<String>)
    requires
        required@.len() == present@.len(),
    ensures
        r.deep_view() == missing_of(required.deep_view(), present@),
{
    let ghost whole = missing_of(required.deep_view(), present@);
    let mut out: Vec<String> = Vec::new();
    let mut i: usize = 0;
    proof {
        assert(required.deep_view().skip(0) =~= required.deep_view());
        assert(present@.skip(0) =~= present@);
        assert(out.deep_view() =~= Seq::<Seq<char>>::empty());
        assert(out.deep_view() + whole =~= whole);
    }
    while i < required.len()
        invariant
            required@.len() == present@.len(),
            0 <= i <= required@.len(),
            out.deep_view() + missing_of(required.deep_view().skip(i as int), present@.skip(i as int))
                == whole,
            whole == missing_of(required.deep_view(), present@),
        decreases required@.len() - i,
    {
        let ghost rest_paths = required.deep_view().skip(i as int);
        let ghost rest_flags = present@.skip(i as int);
        let ghost mid = out.deep_view();
        if !present[i] {
            out.push(required[i].clone());
        }
        proof {
            assert(rest_paths[0] == required.deep_view()[i as int]);
            assert(rest_flags[0] == present@[i as int]);
            assert(rest_paths.drop_first() =~= required.deep_view().skip(i as int + 1));
            assert(rest_flags.drop_first() =~= present@.skip(i as int + 1));
            if !present@[i as int] {
                assert(out.deep_view() =~= mid.push(required.deep_view()[i as int]));
                assert(mid.push(rest_paths[0]) + missing_of(
                    rest_paths.drop_first(),
                    rest_flags.drop_first(),
                ) =~= mid + (seq![rest_paths[0]] + missing_of(
                    rest_paths.drop_first(),
                    rest_flags.drop_first(),
                )));
            }
        }
        i += 1;
    }
    proof {
        assert(required.deep_view().skip(required@.len() as int) =~= Seq::<Seq<char>>::empty());
        assert(present@.skip(present@.len() as int) =~= Seq::<bool>::empty());
        assert(out.deep_view() + Seq::<Seq<char>>::empty() =~= out.deep_view());
    }
    out
}

/// When every required path already exists, nothing is planned and the
/// filesystem model is left exactly as it was: ensuring is idempotent.
pub proof fn lemma_ensure_idempotent(
    paths: Seq<Seq<char>>,
    present: Seq<bool>,
    existing: Set<Seq<char>>,
)
    requires
        paths.len() == present.len(),
        forall|i: int| 0 <= i < present.len() ==> present[i],
    ensures
        missing_of(paths, present) == Seq::<Seq<char>>::empty(),
        dirs_after(existing, missing_of(paths, present)) == existing,
    decreases paths.len(),
{
    if paths.len() > 0 {
        lemma_ensure_idempotent(paths.drop_first(), present.drop_first(), existing);
    }
    assert(Seq::<Seq<char>>::empty().to_set() =~= Set::<Seq<char>>::empty());
    assert(existing.union(Set::<Seq<char>>::empty()) =~= existing);
}

/// Whatever is missing is in the plan: a required path is either already
/// present or among the planned creations.
pub proof fn lemma_plan_covers_missing(paths: Seq<Seq<char>>, present: Seq<bool>, i: int)
    requires
        paths.len() == present.len(),
        0 <= i < paths.len(),
        !present[i],
    ensures
        missing_of(paths, present).contains(paths[i]),
    decreases paths.len(),
{
    if i == 0 {
        assert(missing_of(paths, present)[0] == paths[0]);
    } else {
        lemma_plan_covers_missing(paths.drop_first(), present.drop_first(), i - 1);
        let rest = missing_of(paths.drop_first(), present.drop_first());
        let j = choose|j: int| 0 <= j < rest.len() && rest[j] == paths[i];
        if present[0] {
            assert(missing_of(paths, present)[j] == paths[i]);
        } else {
            assert(missing_of(paths, present)[j + 1] == paths[i]);
        }
    }
}

/// Creating the planned paths makes every required path exist, and no
/// directory that existed before is lost.
pub proof fn lemma_ensure_complete(
    paths: Seq<Seq<char>>,
    present: Seq<bool>,
    existing: Set<Seq<char>>,
)
    requires
        paths.len() == present.len(),
        forall|i: int| 0 <= i < present.len() ==> (present[i] ==> existing.contains(paths[i])),
    ensures
        forall|i: int|
            0 <= i < paths.len() ==> dirs_after(existing, missing_of(paths, present)).contains(
                paths[i],
            ),
        existing.subset_of(dirs_after(existing, missing_of(paths, present))),
{
    let plan = missing_of(paths, present);
    assert forall|i: int| 0 <= i < paths.len() implies dirs_after(existing, plan).contains(
        paths[i],
    ) by {
        if present[i] {
        } else {
            lemma_plan_covers_missing(paths, present, i);
            assert(plan.to_set().contains(paths[i]));
        }
    }
}

} // verus!
