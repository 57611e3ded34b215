//! The download sources: their API records and the choices made on what the APIs return.
use vstd::prelude::*;
use vstd::string::*;
use crate::strs::str_eq;

pub mod curserinth;
pub mod fabric;
pub mod github;
pub mod jenkins;
pub mod modrinth;
pub mod papermc;
pub mod purpur;
pub mod spigot;
pub mod vanilla;

verus! {

/// The position that `wanted` picks among `ids`: the first for `latest`, else the first
/// equal to `wanted`.
pub open spec fn picks_id(ids: Seq<Seq<char>>, wanted: Seq<char>, i: int) -> bool {
    if wanted == "latest"@ {
        i == 0 && ids.len() > 0
    } else {
        0 <= i < ids.len() && ids[i] == wanted && forall|j: int| 0 <= j < i ==> ids[j] != wanted
    }
}

/// Whether `wanted` picks anything among `ids`.
pub open spec fn has_id_pick(ids: Seq<Seq<char>>, wanted: Seq<char>) -> bool {
    if wanted == "latest"@ {
        ids.len() > 0
    } else {
        ids.contains(wanted)
    }
}

/// At most one position is picked.
pub proof fn lemma_picks_id_unique(ids: Seq<Seq<char>>, wanted: Seq<char>, a: int, b: int)
    requires
        picks_id(ids, wanted, a),
        picks_id(ids, wanted, b),
    ensures
        a == b,
{
    if wanted != "latest"@ {
        if a < b {
            assert(ids[a] != wanted);
        } else if b < a {
            assert(ids[b] != wanted);
        }
    }
}

/// The position that `wanted` picks among `ids`, as the sources resolve `latest` or an id.
pub fn pick_id(ids: &Vec<String>, wanted: &str) -> (r: Option<usize>)
    ensures
        match r {
            Some(i) => picks_id(ids.deep_view(), wanted@, i as int),
            None => !has_id_pick(ids.deep_view(), wanted@),
        },
{
    let ghost v = ids.deep_view();
    if str_eq(wanted, "latest") {
        if ids.len() > 0 {
            Some(0)
        } else {
            None
        }
    } else {
        let mut i: usize = 0;
        while i < ids.len()
            invariant
                v == ids.deep_view(),
                wanted@ != "latest"@,
                i <= ids.len(),
                forall|j: int| 0 <= j < i ==> v[j] != wanted@,
            decreases ids.len() - i,
        {
            if str_eq(ids[i].as_str(), wanted) {
                return Some(i);
            }
            i = i + 1;
        }
        proof {
            assert(!v.contains(wanted@)) by {
                assert forall|j: int| 0 <= j < v.len() implies v[j] != wanted@ by {}
            }
        }
        None
    }
}

} // verus!
