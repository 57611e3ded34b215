//! Spigot resources, downloaded through the Spiget API.
use vstd::prelude::*;
use vstd::string::*;
use crate::strs::{cat3, dec_int, find_char, first_index_of, fmt_i64};

verus! {

/// The numeric id of a resource given as `name.id`: what follows the first `.`, unless the
/// dot ends the text; the whole text where there is no dot.
pub open spec fn resource_id(res: Seq<char>) -> Seq<char> {
    if exists|i: int| first_index_of(res, '.', i) {
        let i = choose|i: int| first_index_of(res, '.', i);
        if i < res.len() - 1 {
            res.subrange(i + 1, res.len() as int)
        } else {
            res
        }
    } else {
        res
    }
}

/// The numeric id of a resource given as `name.id`.
pub fn get_resource_id(res: &str) -> (r: &str)
    ensures
        r@ == resource_id(res@),
{
    let n = res.unicode_len();
    match find_char(res, '.') {
        Some(i) => {
            proof {
                let k = choose|k: int| first_index_of(res@, '.', k);
                assert(k == i) by {
                    if k < i {
                        assert(res@[k] != '.');
                    } else if i < k {
                        assert(res@[i as int] != '.');
                    }
                }
            }
            if i + 1 < n {
                res.substring_char(i + 1, n)
            } else {
                res
            }
        },
        None => {
            proof {
                assert(!exists|k: int| first_index_of(res@, '.', k));
            }
            res
        },
    }
}

/// The address of the newest version of a resource.
pub fn latest_version_url(id: &str) -> (r: String)
    ensures
        r@ == "https://api.spiget.org/v2/resources/"@ + resource_id(id@) + "/versions/latest"@,
{
    cat3("https://api.spiget.org/v2/resources/", get_resource_id(id), "/versions/latest")
}

/// The address from which a resource downloads.
pub fn resource_download_url(id: &str) -> (r: String)
    ensures
        r@ == "https://api.spiget.org/v2/resources/"@ + resource_id(id@) + "/download"@,
{
    cat3("https://api.spiget.org/v2/resources/", get_resource_id(id), "/download")
}

/// The file name of a resource at its newest version, whose id is `ver`.
pub fn spigot_filename(id: &str, ver: i32) -> (r: String)
    ensures
        r@ == id@ + "-"@ + dec_int(ver as int) + ".jar"@,
{
    let mut r = cat3(id, "-", fmt_i64(ver as i64).as_str());
    r.append(".jar");
    r
}

} // verus!
