//! The client of the remote collection: what it asks of a repository's
//! labels, and how it reads what comes back.
//!
//! There are three operations: list the labels, create one, delete one. Each
//! is a single request, judged by the status of its answer and never sent
//! twice.

use vstd::prelude::*;
use crate::error::LabelsError;
use crate::label::{
    decode_all, label_views, labels_from_wire, wire_views, Label, LabelView, WireLabel,
    WireLabelView,
};

verus! {

/// The base address of the GitHub API.
pub const API_URL: &'static str = "https://api.github.com";

/// The password that goes with a token sent as the user name.
pub const AUTH_HEADER: &'static str = "x-oauth-basic";

/// The media type of the version of the API that the client speaks.
pub const ACCEPT_HEADER: &'static str = "application/vnd.github.v3+json";

/// The name by which the client tells the API who is calling.
pub const USER_AGENT_HEADER: &'static str = "labels";

/// How many seconds a request may take.
pub const TIMEOUT_SECS: u64 = 3;

/// The status that answers a listing.
pub const STATUS_OK: u16 = 200;

/// The status that answers the creation of a label.
pub const STATUS_CREATED: u16 = 201;

/// The status that answers the deletion of a label.
pub const STATUS_NO_CONTENT: u16 = 204;

/// What every request of a client is sent with.
#[derive(Debug)]
pub struct ClientSettings {
    /// The time after which a request is given up, in seconds.
    pub timeout_secs: u64,
    /// The value of the `Accept` header.
    pub accept: &'static str,
    /// The value of the `User-Agent` header.
    pub user_agent: &'static str,
}

/// The method of a request.
#[derive(Clone, Copy, Debug, PartialEq, Eq, Structural)]
pub enum Method {
    Get,
    Post,
    Delete,
}

pub struct RequestView {
    pub method: Method,
    pub url: Seq<char>,
    pub username: Seq<char>,
    pub password: Seq<char>,
    pub body: Option<WireLabelView>,
}

/// One request, ready to be sent. It holds the access token, and so has no
/// printed form.
pub struct Request {
    pub method: Method,
    pub url: String,
    /// The user name of the basic authentication: the access token.
    pub username: String,
    /// The password of the basic authentication.
    pub password: String,
    /// The label to send as a JSON object, where the request has a body.
    pub body: Option<WireLabel>,
}

impl View for Request {
    type V = RequestView;

    open spec fn view(&self) -> RequestView {
        RequestView {
            method: self.method,
            url: self.url@,
            username: self.username@,
            password: self.password@,
            body: match self.body {
                Some(object) => Some(object@),
                None => None,
            },
        }
    }
}

pub enum ReplyView {
    Unreachable,
    Response { status: u16, labels: Option<Seq<WireLabelView>> },
}

/// What came of one request.
#[derive(Debug)]
pub enum Reply {
    /// No response arrived: the name was not found, the connection failed or
    /// the time ran out.
    Unreachable,
    /// A response arrived. `labels` holds its body where that is a JSON array
    /// of label objects, and `None` where it is anything else.
    Response { status: u16, labels: Option<Vec<WireLabel>> },
}

impl View for Reply {
    type V = ReplyView;

    open spec fn view(&self) -> ReplyView {
        match *self {
            Reply::Unreachable => ReplyView::Unreachable,
            Reply::Response { status, labels } => ReplyView::Response {
                status,
                labels: match labels {
                    Some(objects) => Some(wire_views(objects@)),
                    None => None,
                },
            },
        }
    }
}

impl ReplyView {
    /// What a listing came to. Without a response it failed in transport;
    /// with any status but 200 the response is invalid; with a body that is
    /// not a list of labels it cannot be decoded.
    pub open spec fn listed(self) -> Result<Seq<LabelView>, LabelsError> {
        match self {
            ReplyView::Unreachable => Err(LabelsError::TransportError),
            ReplyView::Response { status, labels } => if status != STATUS_OK {
                Err(LabelsError::InvalidResponse)
            } else {
                match labels {
                    None => Err(LabelsError::DecodeError),
                    Some(objects) => Ok(decode_all(objects)),
                }
            },
        }
    }

    /// What the creation of a label came to: done with status 201 and with no
    /// other.
    pub open spec fn created(self) -> Result<(), LabelsError> {
        match self {
            ReplyView::Unreachable => Err(LabelsError::TransportError),
            ReplyView::Response { status, labels } => if status != STATUS_CREATED {
                Err(LabelsError::CreateFailed)
            } else {
                Ok(())
            },
        }
    }

    /// What the deletion of a label came to: done with status 204 and with no
    /// other.
    pub open spec fn deleted(self) -> Result<(), LabelsError> {
        match self {
            ReplyView::Unreachable => Err(LabelsError::TransportError),
            ReplyView::Response { status, labels } => if status != STATUS_NO_CONTENT {
                Err(LabelsError::DeleteFailed)
            } else {
                Ok(())
            },
        }
    }
}

pub struct GitHubView {
    pub base_url: Seq<char>,
    pub token: Seq<char>,
}

/// A client of one API, holding the access token for it. It has no printed
/// form: the token is shown nowhere.
pub struct GitHub {
    base_url: String,
    token: String,
}

impl View for GitHub {
    type V = GitHubView;

    closed spec fn view(&self) -> GitHubView {
        GitHubView { base_url: self.base_url@, token: self.token@ }
    }
}

impl Clone for GitHub {
    fn clone(&self) -> (copy: GitHub)
        ensures
            copy@ == self@,
    {
        GitHub { base_url: self.base_url.clone(), token: self.token.clone() }
    }
}

/// The address of the labels of a repository.
pub open spec fn labels_url(base_url: Seq<char>, owner: Seq<char>, repo: Seq<char>) -> Seq<char> {
    base_url + "/repos/"@ + owner + "/"@ + repo + "/labels"@
}

/// The address of one label of a repository.
pub open spec fn label_url(
    base_url: Seq<char>,
    owner: Seq<char>,
    repo: Seq<char>,
    name: Seq<char>,
) -> Seq<char> {
    labels_url(base_url, owner, repo) + "/"@ + name
}

impl GitHubView {
    /// The request that lists the labels of a repository.
    pub open spec fn labels_request(self, owner: Seq<char>, repo: Seq<char>) -> RequestView {
        RequestView {
            method: Method::Get,
            url: labels_url(self.base_url, owner, repo),
            username: self.token,
            password: AUTH_HEADER@,
            body: None,
        }
    }

    /// The request that creates a label in a repository.
    pub open spec fn create_label_request(
        self,
        label: LabelView,
        owner: Seq<char>,
        repo: Seq<char>,
    ) -> RequestView {
        RequestView {
            method: Method::Post,
            url: labels_url(self.base_url, owner, repo),
            username: self.token,
            password: AUTH_HEADER@,
            body: Some(label.encode()),
        }
    }

    /// The request that deletes the label of a given name from a repository.
    pub open spec fn delete_label_request(
        self,
        name: Seq<char>,
        owner: Seq<char>,
        repo: Seq<char>,
    ) -> RequestView {
        RequestView {
            method: Method::Delete,
            url: label_url(self.base_url, owner, repo, name),
            username: self.token,
            password: AUTH_HEADER@,
            body: None,
        }
    }
}

/// A listing as a value of the model.
pub open spec fn listing_view(listing: Result<Vec<Label>, LabelsError>) -> Result<
    Seq<LabelView>,
    LabelsError,
> {
    match listing {
        Ok(labels) => Ok(label_views(labels@)),
        Err(error) => Err(error),
    }
}

impl GitHub {
    /// A client of the API at `base_url` that authenticates with `token`.
    /// Without a token there is no client, and so no request.
    pub fn new(base_url: String, token: Option<String>) -> (client: Result<GitHub, LabelsError>)
        ensures
            match token {
                Some(given) => client is Ok && client->Ok_0@ == (GitHubView {
                    base_url: base_url@,
                    token: given@,
                }),
                None => client == Err::<GitHub, LabelsError>(LabelsError::CredentialMissing),
            },
    {
        match token {
            Some(given) => Ok(GitHub { base_url, token: given }),
            None => Err(LabelsError::CredentialMissing),
        }
    }

    /// What every request is sent with: a timeout of three seconds, the media
    /// type of the API's version, and the client's name.
    pub fn client() -> (settings: ClientSettings)
        ensures
            settings.timeout_secs == TIMEOUT_SECS,
            settings.accept@ == ACCEPT_HEADER@,
            settings.user_agent@ == USER_AGENT_HEADER@,
    {
        ClientSettings {
            timeout_secs: TIMEOUT_SECS,
            accept: ACCEPT_HEADER,
            user_agent: USER_AGENT_HEADER,
        }
    }

    /// The address of the labels of a repository.
    fn labels_url(&self, owner: &str, repo: &str) -> (url: String)
        ensures
            url@ == labels_url(self@.base_url, owner@, repo@),
    {
        let mut url = self.base_url.clone();
        url.append("/repos/");
        url.append(owner);
        url.append("/");
        url.append(repo);
        url.append("/labels");
        url
    }

    /// The request that lists the labels of a repository.
    pub fn labels_request(&self, owner: &str, repo: &str) -> (request: Request)
        ensures
            request@ == self@.labels_request(owner@, repo@),
    {
        Request {
            method: Method::Get,
            url: self.labels_url(owner, repo),
            username: self.token.clone(),
            password: String::from_str(AUTH_HEADER),
            body: None,
        }
    }

    /// Reads the answer to a listing. The labels are those of the body, in
    /// its order; the listing fails as `ReplyView::listed` says.
    pub fn labels(reply: &Reply) -> (listing: Result<Vec<Label>, LabelsError>)
        ensures
            listing_view(listing) == reply@.listed(),
    {
        match reply {
            Reply::Unreachable => Err(LabelsError::TransportError),
            Reply::Response { status, labels } => {
                if *status != STATUS_OK {
                    Err(LabelsError::InvalidResponse)
                } else {
                    match labels {
                        None => Err(LabelsError::DecodeError),
                        Some(objects) => Ok(labels_from_wire(objects)),
                    }
                }
            },
        }
    }

    /// The request that creates `label` in a repository.
    pub fn create_label_request(&self, label: &Label, owner: &str, repo: &str) -> (request: Request)
        ensures
            request@ == self@.create_label_request(label@, owner@, repo@),
    {
        Request {
            method: Method::Post,
            url: self.labels_url(owner, repo),
            username: self.token.clone(),
            password: String::from_str(AUTH_HEADER),
            body: Some(label.to_wire()),
        }
    }

    /// Reads the answer to the creation of a label.
    pub fn create_label(reply: &Reply) -> (done: Result<(), LabelsError>)
        ensures
            done == reply@.created(),
    {
        match reply {
            Reply::Unreachable => Err(LabelsError::TransportError),
            Reply::Response { status, labels } => {
                if *status != STATUS_CREATED {
                    Err(LabelsError::CreateFailed)
                } else {
                    Ok(())
                }
            },
        }
    }

    /// The request that deletes the label called `name` from a repository.
    pub fn delete_label_request(&self, name: &str, owner: &str, repo: &str) -> (request: Request)
        ensures
            request@ == self@.delete_label_request(name@, owner@, repo@),
    {
        let mut url = self.labels_url(owner, repo);
        url.append("/");
        url.append(name);
        Request {
            method: Method::Delete,
            url,
            username: self.token.clone(),
            password: String::from_str(AUTH_HEADER),
            body: None,
        }
    }

    /// Reads the answer to the deletion of a label.
    pub fn delete_label(reply: &Reply) -> (done: Result<(), LabelsError>)
        ensures
            done == reply@.deleted(),
    {
        match reply {
            Reply::Unreachable => Err(LabelsError::TransportError),
            Reply::Response { status, labels } => {
                if *status != STATUS_NO_CONTENT {
                    Err(LabelsError::DeleteFailed)
                } else {
                    Ok(())
                }
            },
        }
    }
}

} // verus!
