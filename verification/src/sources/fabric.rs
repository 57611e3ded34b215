//! Fabric and Quilt: the names of their server jars.
use vstd::prelude::*;
use vstd::string::*;
use crate::strs::{cat3, str_eq};

verus! {

/// The version that a requested version stands for: the fetched newest one for `latest`.
pub open spec fn resolved(requested: Seq<char>, newest: Seq<char>) -> Seq<char> {
    if requested == "latest"@ {
        newest
    } else {
        requested
    }
}

/// The file name of the Fabric server launcher for game version `mcver`, given the requested
/// loader and installer versions and the newest ones.
pub fn fabric_filename(
    mcver: &str,
    loader: &str,
    newest_loader: &str,
    installer: &str,
    newest_installer: &str,
) -> (r: String)
    ensures
        r@ == "fabric-server-mc."@ + mcver@ + "-loader."@ + resolved(loader@, newest_loader@)
            + "-launcher."@ + resolved(installer@, newest_installer@) + ".jar"@,
{
    let l = if str_eq(loader, "latest") {
        newest_loader
    } else {
        loader
    };
    let i = if str_eq(installer, "latest") {
        newest_installer
    } else {
        installer
    };
    let mut r = cat3("fabric-server-mc.", mcver, "-loader.");
    r.append(l);
    r.append("-launcher.");
    r.append(i);
    r.append(".jar");
    r
}

/// The name under which the Quilt installer leaves the server launcher.
pub fn quilt_default_serverjar_filename() -> (r: String)
    ensures
        r@ == "quilt-server-launch.jar"@,
{
    "quilt-server-launch.jar".to_owned()
}

/// The file name of the Quilt server launcher for game version `mcver`, given the requested
/// loader version and the newest one.
pub fn quilt_filename(mcver: &str, loader: &str, newest_loader: &str) -> (r: String)
    ensures
        r@ == "quilt-server-"@ + mcver@ + "-"@ + resolved(loader@, newest_loader@)
            + "-launch.jar"@,
{
    let l = if str_eq(loader, "latest") {
        newest_loader
    } else {
        loader
    };
    let mut r = cat3("quilt-server-", mcver, "-");
    r.append(l);
    r.append("-launch.jar");
    r
}

} // verus!
