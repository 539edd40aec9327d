use vstd::prelude::*;
use crate::model::FaceIdentity;
use crate::text::same_text;

verus! {

/// What the dashboard lists of a profile.
pub struct FaceIdentitySummary {
    pub id: String,
    pub name: String,
    pub sample_count: usize,
    pub is_active: bool,
    pub created_at: u64,
}

/// The endpoint a dashboard request is for.
#[derive(Clone, Copy, Debug, PartialEq, Eq, Structural)]
pub enum Route {
    /// `GET /`: the dashboard page.
    Index,
    /// `GET /api/status`: version, configuration and profile summaries.
    Status,
    /// `POST /api/enroll`: enroll a profile from captured samples.
    Enroll,
    /// `POST /api/verify`: match an embedding against the profiles.
    Verify,
    /// `POST /api/config`: replace the configuration.
    UpdateConfig,
    /// `POST /api/delete`: remove a profile by name.
    Delete,
    /// Anything else: answered with 404.
    NotFound,
}

/// The endpoint for a request with `method` and `path`.
pub open spec fn route_of(method: Seq<char>, path: Seq<char>) -> Route {
    if method == "GET"@ && path == "/"@ {
        Route::Index
    } else if method == "GET"@ && path == "/api/status"@ {
        Route::Status
    } else if method == "POST"@ && path == "/api/enroll"@ {
        Route::Enroll
    } else if method == "POST"@ && path == "/api/verify"@ {
        Route::Verify
    } else if method == "POST"@ && path == "/api/config"@ {
        Route::UpdateConfig
    } else if method == "POST"@ && path == "/api/delete"@ {
        Route::Delete
    } else {
        Route::NotFound
    }
}

/// `summary` describes `identity`.
pub open spec fn summarizes<E>(summary: FaceIdentitySummary, identity: FaceIdentity<E>) -> bool {
    &&& summary.id == identity.id
    &&& summary.name == identity.name
    &&& summary.sample_count == identity.samples@.len()
    &&& summary.is_active == identity.is_active
    &&& summary.created_at == identity.created_at
}

/// The local dashboard: a small HTTP API behind a native window.
pub struct GuiServer;

impl GuiServer {
    /// Dispatches a request line to its endpoint.
    pub fn route(method: &str, path: &str) -> (r: Route)
        ensures
            r == route_of(method@, path@),
    {
        let get = same_text(method, "GET");
        let post = same_text(method, "POST");
        if get && same_text(path, "/") {
            Route::Index
        } else if get && same_text(path, "/api/status") {
            Route::Status
        } else if post && same_text(path, "/api/enroll") {
            Route::Enroll
        } else if post && same_text(path, "/api/verify") {
            Route::Verify
        } else if post && same_text(path, "/api/config") {
            Route::UpdateConfig
        } else if post && same_text(path, "/api/delete") {
            Route::Delete
        } else {
            Route::NotFound
        }
    }

    /// The dashboard's list of profiles, one summary per loaded profile, in order.
    pub fn load_summary_list<E>(full: Vec<FaceIdentity<E>>) -> (list: Vec<FaceIdentitySummary>)
        ensures
            list@.len() == full@.len(),
            forall|i: int| 0 <= i < full@.len() ==> summarizes(#[trigger] list@[i], full@[i]),
    {
        let mut list: Vec<FaceIdentitySummary> = Vec::new();
        let ghost all = full@;
        for identity in it: full
            invariant
                it.seq() == all,
                list@.len() == it.index(),
                forall|i: int| 0 <= i < it.index() ==> summarizes(#[trigger] list@[i], all[i]),
        {
            let sample_count: usize = identity.samples.len();
            list.push(
                FaceIdentitySummary {
                    id: identity.id,
                    name: identity.name,
                    sample_count,
                    is_active: identity.is_active,
                    created_at: identity.created_at,
                },
            );
        }
        list
    }
}

} // verus!
