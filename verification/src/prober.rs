//! Picking the target device out of the mounted-volume list.
//!
//! The volume list itself comes from an outside collaborator; the
//! prober only scans it. [`probe_for_device`] returns the mount path
//! of the first volume whose name equals the fixed target name, and
//! nothing when no volume matches — an empty list is no error.

use vstd::prelude::*;

verus! {

/// One mounted volume as the volume-list collaborator reports it:
/// a human-readable name and the path where its contents stand.
pub struct Volume {
    pub name: String,
    pub mount_point: String,
}

/// The name of the volume the prober looks for.
pub open spec fn target_volume_name() -> Seq<char> {
    "KOBOeReader"@
}

/// The mount path of the first volume in `vols` whose name equals
/// `target`, scanning in list order; `None` when no volume matches.
pub open spec fn first_match(vols: Seq<Volume>, target: Seq<char>) -> Option<Seq<char>>
    decreases vols.len(),
{
    if vols.len() == 0 {
        None
    } else if vols[0].name@ == target {
        Some(vols[0].mount_point@)
    } else {
        first_match(vols.drop_first(), target)
    }
}

/// Scans the supplied volume list for the target device: returns the
/// mount path of the first volume named `KOBOeReader`, exactly and
/// case-sensitively, and `None` when the list holds no such volume.
pub fn probe_for_device(volumes: &Vec<Volume>) -> (r: Option<String>)
    ensures
        match r {
            Some(p) => first_match(volumes@, target_volume_name()) == Some(p@),
            None => first_match(volumes@, target_volume_name()) is None,
        },
{
    let target: String = "KOBOeReader".to_owned();
    proof {
        assert(volumes@.skip(0) =~= volumes@);
    }
    let mut i: usize = 0;
    while i < volumes.len()
        invariant
            i <= volumes.len(),
            target@ == target_volume_name(),
            first_match(volumes@, target_volume_name()) == first_match(
                volumes@.skip(i as int),
                target_volume_name(),
            ),
        decreases volumes.len() - i,
    {
        proof {
            assert(volumes@.skip(i as int)[0] == volumes@[i as int]);
            assert(volumes@.skip(i as int).drop_first() =~= volumes@.skip(i + 1));
        }
        if volumes[i].name == target {
            return Some(volumes[i].mount_point.clone());
        }
        i += 1;
    }
    proof {
        assert(volumes@.skip(volumes@.len() as int) =~= Seq::<Volume>::empty());
    }
    None
}

/// The prober is exact: it finds nothing precisely when no volume in
/// the list bears the target name; otherwise what it finds is the
/// mount path of the first volume that does, whatever else the list
/// holds.
pub proof fn lemma_probe_exact(vols: Seq<Volume>, target: Seq<char>)
    ensures
        first_match(vols, target) is None <==> (forall|i: int|
            0 <= i < vols.len() ==> vols[i].name@ != target),
        first_match(vols, target) matches Some(p) ==> exists|k: int|
            0 <= k < vols.len() && vols[k].name@ == target && p == vols[k].mount_point@ && (
            forall|j: int| 0 <= j < k ==> vols[j].name@ != target),
    decreases vols.len(),
{
    if vols.len() == 0 {
    } else if vols[0].name@ == target {
        let p = vols[0].mount_point@;
        assert(0 <= 0 < vols.len() && vols[0].name@ == target && p == vols[0].mount_point@ && (
        forall|j: int| 0 <= j < 0 ==> vols[j].name@ != target));
    } else {
        let rest = vols.drop_first();
        lemma_probe_exact(rest, target);
        assert(forall|i: int| 0 <= i < rest.len() ==> rest[i] == vols[i + 1]);
        if first_match(vols, target) is None {
            assert forall|i: int| 0 <= i < vols.len() implies vols[i].name@ != target by {
                if i >= 1 {
                    assert(rest[i - 1] == vols[i]);
                }
            }
        } else {
            let p = first_match(vols, target).unwrap();
            let k0 = choose|k0: int|
                0 <= k0 < rest.len() && rest[k0].name@ == target && p == rest[k0].mount_point@
                    && (forall|j: int| 0 <= j < k0 ==> rest[j].name@ != target);
            let k = k0 + 1;
            assert(rest[k0] == vols[k]);
            assert(vols[k].name@ == target && p == vols[k].mount_point@);
            assert(forall|j: int| 0 <= j < k ==> vols[j].name@ != target) by {
                assert(forall|j: int| 1 <= j < k ==> rest[j - 1] == vols[j]);
            }
        }
        if forall|i: int| 0 <= i < vols.len() ==> vols[i].name@ != target {
            assert forall|i: int| 0 <= i < rest.len() implies rest[i].name@ != target by {
                assert(rest[i] == vols[i + 1]);
                assert(vols[i + 1].name@ != target);
            }
            assert(first_match(rest, target) is None);
        }
    }
}

} // verus!
