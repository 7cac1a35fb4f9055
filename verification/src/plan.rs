//! The concurrent downloader's decision core: from the listing response to
//! the set of independent download jobs, one per surviving file, each with
//! its resolve URL and its destination path. Issuing the requests, writing
//! the bytes and rendering progress are the caller's side effects; every
//! choice of what to fetch and where to put it is made here.

use vstd::prelude::*;
use vstd::string::StringExecFns;

use crate::filter::{any_modern_weights, has_modern_weights, kept_files, kept_with, should_ignore_file};
use crate::listing::{listing_files, parse_listing, ListingFailed};
use crate::json::parsed_json;
use crate::urls::{build_download_url, resolve_url};

verus! {

/// One independent download: a surviving file name, the URL its bytes are
/// fetched from, and the path they are written to. Owned exclusively by the
/// task that performs it.
#[derive(Debug)]
pub struct DownloadJob {
    pub filename: String,
    pub url: String,
    pub destination: String,
}

/// The path of `name` directly under `dir`.
pub open spec fn path_in_dir(dir: Seq<char>, name: Seq<char>) -> Seq<char> {
    dir + "/"@ + name
}

/// The download destination of one invocation: the repository's directory
/// under the base directory, suffixed with `:{revision}` when a revision was
/// asked for.
pub open spec fn destination_dir_for(
    base_dir: Seq<char>,
    repository: Seq<char>,
    revision: Option<Seq<char>>,
) -> Seq<char> {
    let d = base_dir + "/"@ + repository;
    match revision {
        Some(rev) => d + ":"@ + rev,
        None => d,
    }
}

/// `job` is the download of `name`: resolved against the repository at the
/// revision, destined directly under the destination directory.
pub open spec fn job_for(
    job: DownloadJob,
    name: Seq<char>,
    repository: Seq<char>,
    revision: Option<Seq<char>>,
    destination_dir: Seq<char>,
    api_base_url: Seq<char>,
) -> bool {
    &&& job.filename@ == name
    &&& job.url@ == resolve_url(repository, revision, name, api_base_url)
    &&& job.destination@ == path_in_dir(destination_dir, name)
}

/// `jobs` is the download of exactly `names`, in order.
pub open spec fn planned(
    jobs: Seq<DownloadJob>,
    names: Seq<Seq<char>>,
    repository: Seq<char>,
    revision: Option<Seq<char>>,
    destination_dir: Seq<char>,
    api_base_url: Seq<char>,
) -> bool {
    &&& jobs.len() == names.len()
    &&& forall|i: int|
        0 <= i < names.len() ==> job_for(
            #[trigger] jobs[i],
            names[i],
            repository,
            revision,
            destination_dir,
            api_base_url,
        )
}

/// Joins a file name onto a directory with a single separator.
pub fn join_path(dir: &str, name: &str) -> (p: String)
    ensures
        p@ == path_in_dir(dir@, name@),
{
    let mut p = String::new();
    p.append(dir);
    p.append("/");
    p.append(name);
    proof {
        assert(p@ =~= path_in_dir(dir@, name@));
    }
    p
}

/// Builds the destination directory of one invocation from the base
/// directory, the repository id, and the revision asked for.
pub fn build_destination_dir(base_dir: &str, repository: &str, revision: Option<&str>) -> (d:
    String)
    ensures
        d@ == destination_dir_for(base_dir@, repository@, revision.deep_view()),
{
    let mut d = String::new();
    d.append(base_dir);
    d.append("/");
    d.append(repository);
    if let Some(rev) = revision {
        d.append(":");
        d.append(rev);
    }
    proof {
        assert(d@ =~= destination_dir_for(base_dir@, repository@, revision.deep_view()));
    }
    d
}

/// Plans one download job per file surviving the ignore policy, in listed
/// order: the job's URL resolves the file against `repository` at
/// `revision`, and its destination lies directly under `destination_dir`.
/// Duplicate listed names are kept as duplicate jobs.
pub fn plan_jobs(
    files: &Vec<String>,
    repository: &str,
    revision: Option<&str>,
    destination_dir: &str,
    api_base_url: &str,
) -> (jobs: Vec<DownloadJob>)
    ensures
        planned(
            jobs@,
            kept_files(files.deep_view()),
            repository@,
            revision.deep_view(),
            destination_dir@,
            api_base_url@,
        ),
{
    let has_modern = has_modern_weights(files);
    let mut jobs: Vec<DownloadJob> = Vec::new();
    proof {
        assert(files.deep_view().take(0) =~= Seq::<Seq<char>>::empty());
    }
    let mut i: usize = 0;
    while i < files.len()
        invariant
            i <= files@.len(),
            has_modern == any_modern_weights(files.deep_view()),
            planned(
                jobs@,
                kept_with(files.deep_view().take(i as int), has_modern),
                repository@,
                revision.deep_view(),
                destination_dir@,
                api_base_url@,
            ),
        decreases files@.len() - i,
    {
        if !should_ignore_file(files[i].as_str(), has_modern) {
            let url = build_download_url(repository, revision, files[i].as_str(), api_base_url);
            let destination = join_path(destination_dir, files[i].as_str());
            let job = DownloadJob { filename: files[i].clone(), url, destination };
            jobs.push(job);
        }
        proof {
            let fv = files.deep_view();
            assert(fv.take(i + 1).drop_last() =~= fv.take(i as int));
            assert(fv.take(i + 1).last() == fv[i as int]);
        }
        i += 1;
    }
    proof {
        assert(files.deep_view().take(files@.len() as int) =~= files.deep_view());
    }
    jobs
}

/// Turns the listing response of `repository` into the invocation's download
/// plan.
///
/// Succeeds exactly when the listing did (a success status with a JSON
/// body); the plan then holds one job per announced file surviving the
/// ignore policy, in registry order. A failed listing is fatal and plans no
/// download at all.
pub fn plan_download(
    status_success: bool,
    body: &str,
    repository: &str,
    revision: Option<&str>,
    destination_dir: &str,
    api_base_url: &str,
) -> (r: Result<Vec<DownloadJob>, ListingFailed>)
    ensures
        match r {
            Ok(jobs) => status_success && parsed_json(body@) is Some && planned(
                jobs@,
                kept_files(listing_files(parsed_json(body@)->0)),
                repository@,
                revision.deep_view(),
                destination_dir@,
                api_base_url@,
            ),
            Err(e) => (!status_success || parsed_json(body@) is None) && e.repository@
                == repository@,
        },
{
    let files = match parse_listing(status_success, body, repository) {
        Ok(files) => files,
        Err(e) => {
            return Err(e);
        },
    };
    Ok(plan_jobs(&files, repository, revision, destination_dir, api_base_url))
}

} // verus!
