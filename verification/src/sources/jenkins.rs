//! Jenkins: job paths, build and artifact choice, download URLs.
use vstd::prelude::*;
use vstd::string::*;
use crate::strs::{cat2, cat3, dec_int, fmt_i64, pieces_by, split_char, str_eq};

verus! {

/// `/job/<p>` for each piece of a job name cut at `/`, concatenated.
pub open spec fn job_segments(pieces: Seq<Seq<char>>) -> Seq<char>
    decreases pieces.len(),
{
    if pieces.len() == 0 {
        Seq::<char>::empty()
    } else {
        job_segments(pieces.drop_last()) + "/job/"@ + pieces.last()
    }
}

/// The URL path of a (possibly nested) Jenkins job: `a/b` becomes `/job/a/job/b`.
pub open spec fn job_path(job: Seq<char>) -> Seq<char> {
    job_segments(pieces_by(job, '/'))
}

/// The URL path of a Jenkins job: every `/`-separated part of `job` prefixed with `/job/`.
pub fn str_process_job(job: &str) -> (r: String)
    ensures
        r@ == job_path(job@),
{
    let parts = split_char(job, '/');
    let ghost pv = parts.deep_view();
    let mut res = String::new();
    let mut i: usize = 0;
    while i < parts.len()
        invariant
            pv == parts.deep_view(),
            i <= parts.len(),
            res@ == job_segments(pv.take(i as int)),
        decreases parts.len() - i,
    {
        proof {
            assert(pv.take(i + 1).drop_last() =~= pv.take(i as int));
        }
        res.append("/job/");
        res.append(parts[i].as_str());
        i = i + 1;
    }
    assert(pv.take(parts.len() as int) =~= pv);
    res
}


/// The address of the builds of a job, with their number, address and result.
pub fn job_api_url(url: &str, job: &str) -> (r: String)
    ensures
        r@ == url@ + job_path(job@) + "/api/json?tree=builds[*[url,number,result]]"@,
{
    cat3(url, str_process_job(job).as_str(), "/api/json?tree=builds[*[url,number,result]]")
}

/// The address of the details of a build.
pub fn build_api_url(build_url: &str) -> (r: String)
    ensures
        r@ == build_url@ + "/api/json"@,
{
    cat2(build_url, "/api/json")
}

/// The address of the description of a job.
pub fn description_url(url: &str, job: &str) -> (r: String)
    ensures
        r@ == url@ + job_path(job@) + "/api/json?tree=description"@,
{
    cat3(url, str_process_job(job).as_str(), "/api/json?tree=description")
}

/// The address from which an artifact of a build downloads.
pub fn artifact_url(build_url: &str, relative_path: &str) -> (r: String)
    ensures
        r@ == build_url@ + "artifact/"@ + relative_path@,
{
    cat3(build_url, "artifact/", relative_path)
}

/// A build of a job.
pub struct JenkinsBuild {
    pub url: String,
    pub number: i64,
    pub result: String,
}

/// A file that a build produced.
pub struct JenkinsArtifact {
    pub file_name: String,
    pub relative_path: String,
}

/// Whether a build succeeded.
pub open spec fn succeeded(b: JenkinsBuild) -> bool {
    b.result@ == "SUCCESS"@
}

/// Whether build `b` is the one `build` asks for, among the successful ones: any for
/// `latest`, else the one whose number is written `build`.
pub open spec fn build_matches(b: JenkinsBuild, build: Seq<char>) -> bool {
    succeeded(b) && (build == "latest"@ || dec_int(b.number as int) == build)
}

/// The build that `build` asks for: the first successful one for `latest`, else the first
/// successful one with that number; none where there is no such build.
pub fn pick_jenkins_build(builds: &Vec<JenkinsBuild>, build: &str) -> (r: Option<usize>)
    ensures
        match r {
            Some(i) => i < builds@.len() && build_matches(builds@[i as int], build@) && forall|j: int|
                0 <= j < i ==> !build_matches(#[trigger] builds@[j], build@),
            None => forall|j: int| 0 <= j < builds@.len() ==> !build_matches(#[trigger] builds@[j], build@),
        },
{
    let latest = str_eq(build, "latest");
    let mut i: usize = 0;
    while i < builds.len()
        invariant
            i <= builds@.len(),
            latest == (build@ == "latest"@),
            forall|j: int| 0 <= j < i ==> !build_matches(#[trigger] builds@[j], build@),
        decreases builds@.len() - i,
    {
        let b = &builds[i];
        if str_eq(b.result.as_str(), "SUCCESS") {
            if latest {
                return Some(i);
            }
            let n = fmt_i64(b.number);
            if str_eq(n.as_str(), build) {
                return Some(i);
            }
        }
        i = i + 1;
    }
    None
}

/// Whether artifact `a` is the one named `artifact`: its file name is that name.
pub open spec fn artifact_named(a: JenkinsArtifact, artifact: Seq<char>) -> bool {
    a.file_name@ == artifact
}

/// The artifact that `artifact` asks for: the first one for `first`, else the first whose
/// file name is `artifact`; none where there is no such artifact.
pub fn pick_artifact(artifacts: &Vec<JenkinsArtifact>, artifact: &str) -> (r: Option<usize>)
    ensures
        artifact@ == "first"@ ==> match r {
            Some(i) => i == 0 && artifacts@.len() > 0,
            None => artifacts@.len() == 0,
        },
        artifact@ != "first"@ ==> match r {
            Some(i) => i < artifacts@.len() && artifact_named(artifacts@[i as int], artifact@)
                && forall|j: int| 0 <= j < i ==> !artifact_named(#[trigger] artifacts@[j], artifact@),
            None => forall|j: int|
                0 <= j < artifacts@.len() ==> !artifact_named(#[trigger] artifacts@[j], artifact@),
        },
{
    if str_eq(artifact, "first") {
        if artifacts.len() > 0 {
            return Some(0);
        } else {
            return None;
        }
    }
    let mut i: usize = 0;
    while i < artifacts.len()
        invariant
            i <= artifacts@.len(),
            artifact@ != "first"@,
            forall|j: int| 0 <= j < i ==> !artifact_named(#[trigger] artifacts@[j], artifact@),
        decreases artifacts@.len() - i,
    {
        if str_eq(artifacts[i].file_name.as_str(), artifact) {
            return Some(i);
        }
        i = i + 1;
    }
    None
}

} // verus!
