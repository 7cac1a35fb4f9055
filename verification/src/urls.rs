//! The URL shapes the registry expects, as pure functions of the repository
//! id, the optional revision, and the API base URL. Nothing here is encoded
//! or validated: callers are responsible for registry-safe identifiers.

use vstd::prelude::*;
use vstd::string::StringExecFns;

verus! {

/// The file-listing endpoint: `{base}/api/models/{repository}`, with
/// `/revision/{revision}` appended exactly when a revision is given.
pub open spec fn file_list_url(
    repository: Seq<char>,
    revision: Option<Seq<char>>,
    api_base_url: Seq<char>,
) -> Seq<char> {
    let base = api_base_url + "/api/models/"@ + repository;
    match revision {
        Some(rev) => base + "/revision/"@ + rev,
        None => base,
    }
}

/// The raw-file resolve endpoint:
/// `{base}/{repository}/resolve/{revision}/{filename}`, where an absent
/// revision stands for the registry's default branch, literally `main`.
pub open spec fn resolve_url(
    repository: Seq<char>,
    revision: Option<Seq<char>>,
    filename: Seq<char>,
    api_base_url: Seq<char>,
) -> Seq<char> {
    let rev = match revision {
        Some(rev) => rev,
        None => "main"@,
    };
    api_base_url + "/"@ + repository + "/resolve/"@ + rev + "/"@ + filename
}

/// The metadata endpoint: `{base}/api/models/{repository}`.
pub open spec fn metadata_url(repository: Seq<char>, api_base_url: Seq<char>) -> Seq<char> {
    api_base_url + "/api/models/"@ + repository
}

/// The revision-discovery endpoint: `{base}/api/models/{repository}/refs`.
pub open spec fn revisions_url(repository: Seq<char>, api_base_url: Seq<char>) -> Seq<char> {
    api_base_url + "/api/models/"@ + repository + "/refs"@
}

/// The keywords of a search joined by single spaces, in order.
pub open spec fn joined_keywords(keywords: Seq<Seq<char>>) -> Seq<char>
    decreases keywords.len(),
{
    if keywords.len() == 0 {
        Seq::empty()
    } else if keywords.len() == 1 {
        keywords[0]
    } else {
        joined_keywords(keywords.drop_last()) + " "@ + keywords.last()
    }
}

/// The search endpoint: `{base}/api/models?search={keywords}`, with
/// `&filter={filter}` appended exactly when a filter is given.
pub open spec fn search_url(
    keywords: Seq<Seq<char>>,
    filter: Option<Seq<char>>,
    api_base_url: Seq<char>,
) -> Seq<char> {
    let base = api_base_url + "/api/models?search="@ + joined_keywords(keywords);
    match filter {
        Some(f) => base + "&filter="@ + f,
        None => base,
    }
}

/// Resolving a file without a revision is character-identical to resolving
/// it at the literal default branch `main`, for every repository, file name
/// and base URL.
pub proof fn lemma_resolve_url_default_revision(
    repository: Seq<char>,
    filename: Seq<char>,
    api_base_url: Seq<char>,
)
    ensures
        resolve_url(repository, None, filename, api_base_url) == resolve_url(
            repository,
            Some("main"@),
            filename,
            api_base_url,
        ),
{
}

/// Builds the URL that lists the files of `repository`, at `revision` when
/// one is given and at the registry's default branch otherwise.
pub fn build_file_list_url(repository: &str, revision: Option<&str>, api_base_url: &str) -> (url:
    String)
    ensures
        url@ == file_list_url(repository@, revision.deep_view(), api_base_url@),
{
    let mut url = String::new();
    url.append(api_base_url);
    url.append("/api/models/");
    url.append(repository);
    if let Some(rev) = revision {
        url.append("/revision/");
        url.append(rev);
    }
    proof {
        assert(url@ =~= file_list_url(repository@, revision.deep_view(), api_base_url@));
    }
    url
}

/// Builds the URL that resolves one raw file of `repository`; an absent
/// revision becomes the literal default branch `main`.
pub fn build_download_url(
    repository: &str,
    revision: Option<&str>,
    filename: &str,
    api_base_url: &str,
) -> (url: String)
    ensures
        url@ == resolve_url(repository@, revision.deep_view(), filename@, api_base_url@),
{
    let mut url = String::new();
    url.append(api_base_url);
    url.append("/");
    url.append(repository);
    url.append("/resolve/");
    match revision {
        Some(rev) => url.append(rev),
        None => url.append("main"),
    }
    url.append("/");
    url.append(filename);
    proof {
        assert(url@ =~= resolve_url(repository@, revision.deep_view(), filename@, api_base_url@));
    }
    url
}

/// Builds the URL that serves the metadata of `repository`.
pub fn build_metadata_url(repository: &str, api_base_url: &str) -> (url: String)
    ensures
        url@ == metadata_url(repository@, api_base_url@),
{
    let mut url = String::new();
    url.append(api_base_url);
    url.append("/api/models/");
    url.append(repository);
    proof {
        assert(url@ =~= metadata_url(repository@, api_base_url@));
    }
    url
}

/// Builds the URL that lists the revisions (branches or tags) of `repository`.
pub fn build_revisions_url(repository: &str, api_base_url: &str) -> (url: String)
    ensures
        url@ == revisions_url(repository@, api_base_url@),
{
    let mut url = String::new();
    url.append(api_base_url);
    url.append("/api/models/");
    url.append(repository);
    url.append("/refs");
    proof {
        assert(url@ =~= revisions_url(repository@, api_base_url@));
    }
    url
}

/// Builds the URL that searches repositories by `keywords`, narrowed by
/// `filter` when one is given.
pub fn build_search_url(keywords: &[String], filter: Option<&str>, api_base_url: &str) -> (url:
    String)
    ensures
        url@ == search_url(keywords.deep_view(), filter.deep_view(), api_base_url@),
{
    let mut url = String::new();
    url.append(api_base_url);
    url.append("/api/models?search=");
    let mut i: usize = 0;
    let ghost prefix = url@;
    while i < keywords.len()
        invariant
            i <= keywords.len(),
            url@ == prefix + joined_keywords(keywords.deep_view().take(i as int)),
        decreases keywords.len() - i,
    {
        if i > 0 {
            url.append(" ");
        }
        url.append(keywords[i].as_str());
        proof {
            let kw = keywords.deep_view();
            assert(kw.take(i + 1).drop_last() =~= kw.take(i as int));
            assert(kw.take(i + 1).last() == kw[i as int]);
            assert(url@ =~= prefix + joined_keywords(kw.take(i + 1)));
        }
        i += 1;
    }
    proof {
        assert(keywords.deep_view().take(keywords@.len() as int) =~= keywords.deep_view());
    }
    if let Some(f) = filter {
        url.append("&filter=");
        url.append(f);
    }
    proof {
        assert(url@ =~= search_url(keywords.deep_view(), filter.deep_view(), api_base_url@));
    }
    url
}

} // verus!
