use vstd::prelude::*;

use vstd::string::StringExecFns;

use crate::error::{DownloadFailure, Error};

verus! {

/// The build run that produced an artifact.
#[derive(Debug, Clone, PartialEq, Eq)]
pub struct WorkflowRun {
    /// The revision the run built.
    pub head_sha: String,
}

/// One named build output, downloadable as an archive.
#[derive(Debug, Clone, PartialEq, Eq)]
pub struct Artifact {
    pub name: String,
    pub archive_download_url: String,
    pub workflow_run: WorkflowRun,
}

/// The artifacts of a repository, in the order the provider listed them.
#[derive(Debug, Clone, PartialEq, Eq)]
pub struct Artifacts {
    pub artifacts: Vec<Artifact>,
}

/// Whether `a` was built from revision `rev`.
pub open spec fn built_from(a: Artifact, rev: Seq<char>) -> bool {
    a.workflow_run.head_sha@ == rev
}

/// The artifacts of `s` built from revision `rev`, in their order.
pub open spec fn artifacts_for(s: Seq<Artifact>, rev: Seq<char>) -> Seq<Artifact> {
    s.filter(|a: Artifact| built_from(a, rev))
}

/// The listing endpoint of repository `repo`.
pub open spec fn listing_url(repo: Seq<char>) -> Seq<char> {
    "https://api.github.com/repos/"@ + repo + "/actions/artifacts"@
}

/// The outcome that a download's response status decides: 200 goes on to
/// extraction, 410 means the artifact expired, any other status is a failed
/// request that shows the status.
pub open spec fn status_outcome(status: u16) -> Result<(), DownloadFailure> {
    if status == 200 {
        Ok(())
    } else if status == 410 {
        Err(DownloadFailure::Expired)
    } else {
        Err(DownloadFailure::Request(Some(status)))
    }
}

impl Artifacts {
    /// The artifacts built from revision `rev`, in their order; `GetArtifacts`
    /// when there is none.
    pub fn into_filtered_by_rev(self, rev: &str) -> (r: Result<Vec<Artifact>, Error>)
        ensures
            artifacts_for(self.artifacts@, rev@).len() == 0 ==> r == Err::<Vec<Artifact>, Error>(
                Error::GetArtifacts,
            ),
            artifacts_for(self.artifacts@, rev@).len() > 0 ==> (r matches Ok(v) && v@
                == artifacts_for(self.artifacts@, rev@)),
    {
        let ghost all = self.artifacts@;
        let wanted = rev.to_owned();
        let mut rest = self.artifacts;
        let mut kept: Vec<Artifact> = Vec::new();
        let ghost mut done: int = 0;
        while rest.len() > 0
            invariant
                0 <= done <= all.len(),
                rest@ == all.skip(done),
                kept@ == artifacts_for(all.take(done), rev@),
                wanted@ == rev@,
            decreases rest@.len(),
        {
            let a = rest.remove(0);
            let ghost prev = kept@;
            let ghost ga = a;
            proof {
                assert(all.take(done + 1).drop_last() =~= all.take(done));
                assert(all.take(done + 1).last() == a);
                done = done + 1;
                assert(rest@ =~= all.skip(done));
            }
            if a.workflow_run.head_sha == wanted {
                kept.push(a);
            }
            proof {
                reveal(Seq::filter);
                let s = all.take(done);
                assert(s.drop_last() =~= all.take(done - 1));
                assert(s.last() == ga);
                assert(artifacts_for(s, rev@) == if built_from(ga, rev@) {
                    prev.push(ga)
                } else {
                    prev
                });
            }
        }
        proof {
            assert(all.take(done) =~= all);
        }
        if kept.len() == 0 {
            return Err(Error::GetArtifacts);
        }
        Ok(kept)
    }
}

impl Artifact {
    /// Wraps the cause of a failed download with this artifact's name and URL.
    pub fn download_failure(&self, cause: DownloadFailure) -> (r: Error)
        ensures
            r matches Error::DownloadArtifact { name, url, cause: c } && name@ == self.name@
                && url@ == self.archive_download_url@ && c == cause,
    {
        Error::DownloadArtifact {
            name: self.name.clone(),
            url: self.archive_download_url.clone(),
            cause,
        }
    }
}

/// Interprets the status of a download's response.
pub fn check_download_status(status: u16) -> (r: Result<(), DownloadFailure>)
    ensures
        r == status_outcome(status),
{
    if status == 410 {
        Err(DownloadFailure::Expired)
    } else if status != 200 {
        Err(DownloadFailure::Request(Some(status)))
    } else {
        Ok(())
    }
}

/// The address of the artifact listing of repository `repo`.
pub fn artifacts_url(repo: &str) -> (r: String)
    ensures
        r@ == listing_url(repo@),
{
    let mut url = "https://api.github.com/repos/".to_owned();
    url.append(repo);
    url.append("/actions/artifacts");
    url
}

} // verus!
