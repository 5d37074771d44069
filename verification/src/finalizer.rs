//! Finalizer bookkeeping on the parent: the sentinel string, deletion
//! detection, and the pure transitions that add or strip the sentinel.

use vstd::prelude::*;
use vstd::string::*;
use crate::crd::{ModelDeployment, ModelDeploymentView};
use crate::event::Outcome;
use crate::util::str_eq;

verus! {

/// The sentinel finalizer string this controller owns.
pub open spec fn spec_finalizer() -> Seq<char> {
    "ml.jedimindtricks.example/finalizer"@
}

/// The sentinel finalizer string this controller owns.
pub fn finalizer_sentinel() -> (r: &'static str)
    ensures
        r@ == spec_finalizer(),
{
    "ml.jedimindtricks.example/finalizer"
}

/// Whether the parent is being deleted.
pub open spec fn spec_is_deleting(md: ModelDeploymentView) -> bool {
    md.deletion_timestamp is Some
}

/// True iff the parent carries a deletion timestamp.
pub fn is_deleting(md: &ModelDeployment) -> (r: bool)
    ensures
        r == spec_is_deleting(md@),
{
    md.deletion_timestamp.is_some()
}

/// The parent's finalizer list, empty when absent.
pub open spec fn spec_finalizer_list(md: ModelDeploymentView) -> Seq<Seq<char>> {
    match md.finalizers {
        Option::Some(fs) => fs,
        Option::None => Seq::empty(),
    }
}

/// Whether the given finalizer stands in the parent's finalizer list.
pub open spec fn spec_has_finalizer(md: ModelDeploymentView, f: Seq<char>) -> bool {
    exists|i: int| 0 <= i < spec_finalizer_list(md).len() && spec_finalizer_list(md)[i] == f
}

/// True iff the given finalizer stands in the parent's finalizer list.
pub fn has_finalizer(md: &ModelDeployment, finalizer: &str) -> (r: bool)
    ensures
        r == spec_has_finalizer(md@, finalizer@),
{
    match &md.finalizers {
        None => false,
        Some(fs) => {
            let mut i: usize = 0;
            while i < fs.len()
                invariant
                    i <= fs@.len(),
                    md@.finalizers == Option::Some(fs@.map_values(|s: String| s@)),
                    forall|j: int| 0 <= j < i ==> #[trigger] fs@[j]@ != finalizer@,
                decreases fs@.len() - i,
            {
                if str_eq(fs[i].as_str(), finalizer) {
                    proof {
                        assert(spec_finalizer_list(md@)[i as int] == finalizer@);
                    }
                    return true;
                }
                i += 1;
            }
            proof {
                assert forall|j: int|
                    0 <= j < spec_finalizer_list(md@).len() implies spec_finalizer_list(md@)[j]
                    != finalizer@ by {
                    assert(fs@[j]@ != finalizer@);
                }
            }
            false
        },
    }
}

/// The parent after the sentinel is appended to its finalizer list.
pub open spec fn spec_add_finalizer(md: ModelDeploymentView, f: Seq<char>) -> ModelDeploymentView {
    ModelDeploymentView { finalizers: Option::Some(spec_finalizer_list(md).push(f)), ..md }
}

/// The list with every occurrence of `f` removed, order otherwise kept.
pub open spec fn remove_all(fs: Seq<Seq<char>>, f: Seq<char>) -> Seq<Seq<char>>
    decreases fs.len(),
{
    if fs.len() == 0 {
        Seq::empty()
    } else if fs[0] == f {
        remove_all(fs.skip(1), f)
    } else {
        seq![fs[0]] + remove_all(fs.skip(1), f)
    }
}

/// Removal distributes over concatenation.
pub proof fn lemma_remove_all_concat(a: Seq<Seq<char>>, b: Seq<Seq<char>>, f: Seq<char>)
    ensures
        remove_all(a + b, f) == remove_all(a, f) + remove_all(b, f),
    decreases a.len(),
{
    if a.len() == 0 {
        assert(a + b =~= b);
        assert(remove_all(a, f) + remove_all(b, f) =~= remove_all(b, f));
    } else {
        assert((a + b).skip(1) =~= a.skip(1) + b);
        lemma_remove_all_concat(a.skip(1), b, f);
        assert((a + b)[0] == a[0]);
        if a[0] != f {
            assert(seq![a[0]] + (remove_all(a.skip(1), f) + remove_all(b, f)) =~= (seq![a[0]]
                + remove_all(a.skip(1), f)) + remove_all(b, f));
        }
    }
}

/// Nothing left after removal equals what was removed.
pub proof fn lemma_remove_all_absent(fs: Seq<Seq<char>>, f: Seq<char>)
    ensures
        forall|i: int| 0 <= i < remove_all(fs, f).len() ==> remove_all(fs, f)[i] != f,
    decreases fs.len(),
{
    if fs.len() == 0 {
    } else {
        lemma_remove_all_absent(fs.skip(1), f);
        let out = remove_all(fs, f);
        let rest = remove_all(fs.skip(1), f);
        if fs[0] == f {
        } else {
            assert forall|i: int| 0 <= i < out.len() implies out[i] != f by {
                if i == 0 {
                    assert(out[0] == fs[0]);
                } else {
                    assert(out[i] == rest[i - 1]);
                }
            }
        }
    }
}

/// The parent after every occurrence of the finalizer is stripped from its
/// list.
pub open spec fn spec_remove_finalizer(
    md: ModelDeploymentView,
    f: Seq<char>,
) -> ModelDeploymentView {
    ModelDeploymentView {
        finalizers: Option::Some(remove_all(spec_finalizer_list(md), f)),
        ..md
    }
}

/// Ensures the finalizer stands on the parent: appends it and reports
/// `Created` when absent, reports `NoOp` and leaves the parent unchanged
/// when already present.
pub fn ensure_finalizer_present(md: ModelDeployment, finalizer: &str) -> (r: (
    Outcome,
    ModelDeployment,
))
    ensures
        spec_has_finalizer(md@, finalizer@) ==> r.0 == Outcome::NoOp && r.1@ == md@,
        !spec_has_finalizer(md@, finalizer@) ==> r.0 == Outcome::Created && r.1@
            == spec_add_finalizer(md@, finalizer@),
{
    if has_finalizer(&md, finalizer) {
        (Outcome::NoOp, md)
    } else {
        let ghost oldview = md@;
        let mut fs: Vec<String> = match md.finalizers {
            Some(v) => v,
            None => Vec::new(),
        };
        proof {
            assert(fs@.map_values(|s: String| s@) =~= spec_finalizer_list(oldview));
        }
        fs.push(finalizer.to_owned());
        let out = ModelDeployment {
            name: md.name,
            namespace: md.namespace,
            uid: md.uid,
            deletion_timestamp: md.deletion_timestamp,
            finalizers: Some(fs),
            spec: md.spec,
            status: md.status,
        };
        proof {
            assert(out@.finalizers == Option::Some(
                spec_finalizer_list(oldview).push(finalizer@),
            )) by {
                assert(fs@.map_values(|s: String| s@) =~= spec_finalizer_list(oldview).push(
                    finalizer@,
                ));
            }
        }
        (Outcome::Created, out)
    }
}

/// Strips the finalizer from the parent's list and reports `Updated`.
pub fn remove_finalizer(md: ModelDeployment, finalizer: &str) -> (r: (Outcome, ModelDeployment))
    ensures
        r.0 == Outcome::Updated,
        r.1@ == spec_remove_finalizer(md@, finalizer@),
{
    let ghost oldview = md@;
    let fs: Vec<String> = match md.finalizers {
        Some(v) => v,
        None => Vec::new(),
    };
    proof {
        assert(fs@.map_values(|s: String| s@) =~= spec_finalizer_list(oldview));
    }
    let ghost fsv = fs@.map_values(|s: String| s@);
    let mut out: Vec<String> = Vec::new();
    let mut i: usize = 0;
    while i < fs.len()
        invariant
            i <= fs@.len(),
            fsv == fs@.map_values(|s: String| s@),
            out@.map_values(|s: String| s@) == remove_all(fsv.subrange(0, i as int), finalizer@),
        decreases fs@.len() - i,
    {
        let keep = !str_eq(fs[i].as_str(), finalizer);
        let ghost prefix = fsv.subrange(0, i as int);
        let ghost prefix1 = fsv.subrange(0, i + 1);
        let ghost unit = fsv.subrange(i as int, i + 1);
        if keep {
            out.push(fs[i].clone());
        }
        proof {
            assert(prefix1 =~= prefix + unit);
            lemma_remove_all_concat(prefix, unit, finalizer@);
            assert(unit.len() == 1);
            assert(unit[0] == fsv[i as int]);
            assert(unit.skip(1) =~= Seq::<Seq<char>>::empty());
            assert(remove_all(Seq::<Seq<char>>::empty(), finalizer@)
                == Seq::<Seq<char>>::empty());
            assert(remove_all(unit.skip(1), finalizer@) == Seq::<Seq<char>>::empty());
            if keep {
                assert(unit[0] != finalizer@);
                assert(remove_all(unit, finalizer@) == seq![unit[0]] + remove_all(
                    unit.skip(1),
                    finalizer@,
                ));
                assert(remove_all(unit, finalizer@) =~= seq![fsv[i as int]]);
                assert(out@.map_values(|s: String| s@) =~= remove_all(prefix, finalizer@)
                    + seq![fsv[i as int]]);
            } else {
                assert(remove_all(unit, finalizer@) =~= Seq::<Seq<char>>::empty());
                assert(out@.map_values(|s: String| s@) =~= remove_all(prefix, finalizer@)
                    + remove_all(unit, finalizer@));
            }
        }
        i += 1;
    }
    proof {
        assert(fsv.subrange(0, fsv.len() as int) =~= fsv);
    }
    let res = ModelDeployment {
        name: md.name,
        namespace: md.namespace,
        uid: md.uid,
        deletion_timestamp: md.deletion_timestamp,
        finalizers: Some(out),
        spec: md.spec,
        status: md.status,
    };
    (Outcome::Updated, res)
}

/// After the finalizer is stripped, it no longer stands in the list.
pub proof fn lemma_remove_finalizer_absent(md: ModelDeploymentView, f: Seq<char>)
    ensures
        !spec_has_finalizer(spec_remove_finalizer(md, f), f),
{
    lemma_remove_all_absent(spec_finalizer_list(md), f);
}

} // verus!
