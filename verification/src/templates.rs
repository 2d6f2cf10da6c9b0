//! The values each rendered page or generated file carries. Rendering to
//! HTML or to an uploader definition file is the host program's concern;
//! the verified core only assembles the values.

use vstd::prelude::*;
use vstd::string::*;

use crate::config::Config;
use crate::database::LinkListing;
use crate::database::UploadMetadata;

verus! {

/// Values for the default config file written on first start.
#[derive(Debug, Clone)]
pub struct ConfigTemplate {
    /// A fresh upload token for this installation.
    pub upload_token: String,
    /// A fresh password for the default account.
    pub admin_password: String,
}

/// Values for the login page.
#[derive(Debug, Clone)]
pub struct LoginTemplate {
    /// The site configuration.
    pub config: Config,
    /// The url to redirect to after a successful login.
    pub redirect: String,
}

/// Values for the homepage and its counters.
#[derive(Debug, Clone)]
pub struct IndexTemplate {
    /// The site configuration.
    pub config: Config,
    /// The amount of uploads on the site.
    pub upload_count: u64,
    /// The total size in bytes of all the uploads.
    pub space_count: u64,
    /// The amount of links on the site.
    pub link_count: u64,
    /// The total hits on all the links combined.
    pub total_hits: u32,
}

/// Values for the uploads listing page.
#[derive(Debug, Clone)]
pub struct UploadsTemplate {
    /// The site configuration.
    pub config: Config,
    /// The upload metadata to list, each with its index.
    pub uploads: Vec<(usize, UploadMetadata)>,
}

/// Values for the links listing page.
#[derive(Debug, Clone)]
pub struct LinksTemplate {
    /// The site configuration.
    pub config: Config,
    /// The links to list, each with its hit count.
    pub links: Vec<LinkListing>,
}

/// Values for the page shown after a deletion.
#[derive(Debug, Clone)]
pub struct DeletedTemplate {
    /// The site configuration.
    pub config: Config,
    /// The kind of resource that was deleted.
    pub resource_type: String,
}

/// Values for the unauthorized-error page.
#[derive(Debug, Clone)]
pub struct UnauthorizedTemplate {
    /// The uri that was requested.
    pub uri: String,
    /// The method of the request.
    pub method: String,
    /// The site configuration.
    pub config: Config,
}

/// Values for the not-found page.
#[derive(Debug, Clone)]
pub struct PageNotFoundTemplate {
    /// The uri that was requested.
    pub uri: String,
    /// The site configuration.
    pub config: Config,
    /// The method of the request.
    pub method: String,
}

/// Values for the internal-error page.
#[derive(Debug, Clone)]
pub struct InternalErrorTemplate {
    /// The site configuration.
    pub config: Config,
}

/// Total bytes across the listed uploads.
pub open spec fn sum_sizes(s: Seq<UploadMetadata>) -> int
    decreases s.len(),
{
    if s.len() == 0 {
        0
    } else {
        sum_sizes(s.drop_last()) + s.last().size
    }
}

/// Total hits across the listed links.
pub open spec fn sum_hits(s: Seq<LinkListing>) -> int
    decreases s.len(),
{
    if s.len() == 0 {
        0
    } else {
        sum_hits(s.drop_last()) + s.last().1
    }
}

/// A prefix of a listing never weighs more than the whole.
proof fn lemma_sum_sizes_prefix(s: Seq<UploadMetadata>, i: int)
    requires
        0 <= i <= s.len(),
    ensures
        sum_sizes(s.subrange(0, i)) <= sum_sizes(s),
    decreases s.len() - i,
{
    if i == s.len() {
        assert(s.subrange(0, i) =~= s);
    } else {
        assert(s.subrange(0, i + 1).drop_last() =~= s.subrange(0, i));
        assert(s.subrange(0, i + 1).last() == s[i]);
        lemma_sum_sizes_prefix(s, i + 1);
    }
}

/// A prefix of a listing never counts more hits than the whole.
proof fn lemma_sum_hits_prefix(s: Seq<LinkListing>, i: int)
    requires
        0 <= i <= s.len(),
    ensures
        sum_hits(s.subrange(0, i)) <= sum_hits(s),
    decreases s.len() - i,
{
    if i == s.len() {
        assert(s.subrange(0, i) =~= s);
    } else {
        assert(s.subrange(0, i + 1).drop_last() =~= s.subrange(0, i));
        assert(s.subrange(0, i + 1).last() == s[i]);
        lemma_sum_hits_prefix(s, i + 1);
    }
}

impl IndexTemplate {
    /// Count the listings for the homepage: how many uploads and links
    /// there are, the bytes the uploads occupy and the hits the links drew.
    /// `None` exactly when a total overflows its counter.
    pub fn new(config: Config, uploads: &Vec<UploadMetadata>, links: &Vec<LinkListing>) -> (r:
        Option<IndexTemplate>)
        ensures
            match r {
                Some(t) => t.config == config && t.upload_count == uploads@.len() && t.link_count
                    == links@.len() && t.space_count == sum_sizes(uploads@) && t.total_hits
                    == sum_hits(links@),
                None => sum_sizes(uploads@) > u64::MAX || sum_hits(links@) > u32::MAX,
            },
    {
        let nu = uploads.len();
        let mut space: u64 = 0;
        let mut i: usize = 0;
        while i < nu
            invariant
                i <= nu,
                nu == uploads@.len(),
                space == sum_sizes(uploads@.subrange(0, i as int)),
            decreases nu - i,
        {
            let sz = uploads[i].size;
            proof {
                assert(uploads@.subrange(0, i + 1).drop_last() =~= uploads@.subrange(0, i as int));
                assert(uploads@.subrange(0, i + 1).last() == uploads@[i as int]);
            }
            if space > u64::MAX - sz {
                proof {
                    lemma_sum_sizes_prefix(uploads@, i + 1);
                }
                return None;
            }
            space = space + sz;
            i += 1;
        }
        proof {
            assert(uploads@.subrange(0, nu as int) =~= uploads@);
        }
        let nl = links.len();
        let mut hits: u32 = 0;
        let mut j: usize = 0;
        while j < nl
            invariant
                j <= nl,
                nl == links@.len(),
                hits == sum_hits(links@.subrange(0, j as int)),
            decreases nl - j,
        {
            let h = links[j].1;
            proof {
                assert(links@.subrange(0, j + 1).drop_last() =~= links@.subrange(0, j as int));
                assert(links@.subrange(0, j + 1).last() == links@[j as int]);
            }
            if hits > u32::MAX - h {
                proof {
                    lemma_sum_hits_prefix(links@, j + 1);
                }
                return None;
            }
            hits = hits + h;
            j += 1;
        }
        proof {
            assert(links@.subrange(0, nl as int) =~= links@);
        }
        Some(
            IndexTemplate {
                config,
                upload_count: nu as u64,
                space_count: space,
                link_count: nl as u64,
                total_hits: hits,
            },
        )
    }
}

/// Values for the uploader definition file offered to the client.
#[derive(Debug, Clone)]
pub struct UploaderTemplate {
    /// The name of the site and uploader.
    pub name: String,
    /// The domain to use for uploading.
    pub upload_domain: String,
    /// The token used to upload.
    pub upload_token: String,
    /// The domain for accessing the uploaded assets.
    pub domain: String,
    /// The protocol to use.
    pub proto: String,
}

impl UploaderTemplate {
    /// Create a new uploader definition using the values from the config:
    /// the upload domain falls back to the main domain, and the protocol
    /// follows the https flag.
    pub fn new(config: &Config) -> (r: UploaderTemplate)
        ensures
            r.name@ == config.name@,
            r.domain@ == config.domain@,
            r.upload_token@ == config.upload_token@,
            config.https ==> r.proto@ == "https"@,
            !config.https ==> r.proto@ == "http"@,
            match config.upload_domain {
                Some(d) => r.upload_domain@ == d@,
                None => r.upload_domain@ == config.domain@,
            },
    {
        UploaderTemplate {
            domain: config.domain.clone(),
            name: config.name.clone(),
            proto: if config.https {
                String::from_str("https")
            } else {
                String::from_str("http")
            },
            upload_domain: match &config.upload_domain {
                Some(d) => d.clone(),
                None => config.domain.clone(),
            },
            upload_token: config.upload_token.clone(),
        }
    }
}

/// Values for the url-shortener definition file offered to the client.
#[derive(Debug, Clone)]
pub struct ShortenerTemplate {
    /// The name of the site and shortener.
    pub name: String,
    /// The upload token used for authorization.
    pub upload_token: String,
    /// The domain to use for shortening.
    pub domain: String,
    /// The protocol to use.
    pub proto: String,
}

impl ShortenerTemplate {
    /// Create a new shortener definition from the values in the config.
    pub fn new(config: &Config) -> (r: ShortenerTemplate)
        ensures
            r.name@ == config.name@,
            r.domain@ == config.domain@,
            r.upload_token@ == config.upload_token@,
            config.https ==> r.proto@ == "https"@,
            !config.https ==> r.proto@ == "http"@,
    {
        ShortenerTemplate {
            domain: config.domain.clone(),
            name: config.name.clone(),
            proto: if config.https {
                String::from_str("https")
            } else {
                String::from_str("http")
            },
            upload_token: config.upload_token.clone(),
        }
    }
}

} // verus!
