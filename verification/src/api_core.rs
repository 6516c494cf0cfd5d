//! The session with the remote store: where it is, and the credential that
//! was established, if any.

use crate::errors::{APIError, AuthenticationError};
use vstd::prelude::*;
use vstd::string::StringExecFns;

verus! {

/// The kind of a request.
#[derive(Debug, Clone, Copy, PartialEq, Eq, Structural)]
pub enum Verb {
    Get,
    Post,
    Patch,
    Put,
    Delete,
}

impl Verb {
    /// Whether a request of this kind changes the remote store and therefore
    /// needs a credential. Reading is open to everyone.
    pub open spec fn needs_credential(self) -> bool {
        !(self is Get)
    }
}

/// What a request starts from: the address it goes to and the bearer token it
/// carries, if it carries one.
#[derive(Debug, Clone)]
pub struct RequestBase {
    pub url: String,
    pub bearer: Option<String>,
}

/// What a session is.
pub struct IssueAPIView {
    pub url: Seq<char>,
    pub token: Option<Seq<char>>,
    pub allow_self_signed: bool,
}

impl IssueAPIView {
    /// The address of the endpoint `suffix`.
    pub open spec fn endpoint(self, suffix: Seq<char>) -> Seq<char> {
        self.url + "/"@ + suffix
    }
}

/// A session with the remote store.
#[derive(Debug, Clone)]
pub struct IssueAPI {
    url: String,
    token: Option<String>,
    allow_self_signed: bool,
}

impl View for IssueAPI {
    type V = IssueAPIView;

    closed spec fn view(&self) -> IssueAPIView {
        IssueAPIView {
            url: self.url@,
            token: self.token.deep_view(),
            allow_self_signed: self.allow_self_signed,
        }
    }
}

impl IssueAPI {
    /// A session without a credential. It can read and cannot write.
    pub fn new_read_only(url: String, allow_self_signed: bool) -> (api: Self)
        ensures
            api@ == (IssueAPIView { url: url@, token: None, allow_self_signed }),
    {
        IssueAPI { url, token: None, allow_self_signed }
    }

    /// A session with a credential. `authenticate` stands for the exchange
    /// with the remote store: it is handed the address of the token endpoint,
    /// the user name and the password, and gives the token or fails. A
    /// failure leaves no session behind.
    pub fn new<E, F: FnOnce(String, String, String) -> Result<String, E>>(
        url: String,
        username: String,
        password: String,
        allow_self_signed: bool,
        authenticate: F,
    ) -> (api: Result<Self, E>)
        requires
            forall|endpoint: String| #[trigger]
                call_requires(authenticate, (endpoint, username, password)),
        ensures
            exists|endpoint: String, answer: Result<String, E>|
                {
                    &&& endpoint@ == url@ + "/"@ + "token"@
                    &&& #[trigger] call_ensures(
                        authenticate,
                        (endpoint, username, password),
                        answer,
                    )
                    &&& match answer {
                        Ok(token) => api matches Ok(session) && session@ == (IssueAPIView {
                            url: url@,
                            token: Some(token@),
                            allow_self_signed,
                        }),
                        Err(failure) => api == Err::<Self, E>(failure),
                    }
                },
    {
        let mut session = IssueAPI::new_read_only(url, allow_self_signed);
        match session.login(username, password, authenticate) {
            Ok(()) => Ok(session),
            Err(failure) => Err(failure),
        }
    }

    /// Establishes a credential for the session. A failure is handed on and
    /// leaves the session as it was.
    pub fn login<E, F: FnOnce(String, String, String) -> Result<String, E>>(
        &mut self,
        username: String,
        password: String,
        authenticate: F,
    ) -> (outcome: Result<(), E>)
        requires
            forall|endpoint: String| #[trigger]
                call_requires(authenticate, (endpoint, username, password)),
        ensures
            exists|endpoint: String, answer: Result<String, E>|
                {
                    &&& endpoint@ == old(self)@.endpoint("token"@)
                    &&& #[trigger] call_ensures(
                        authenticate,
                        (endpoint, username, password),
                        answer,
                    )
                    &&& match answer {
                        Ok(token) => outcome is Ok && final(self)@ == (IssueAPIView {
                            token: Some(token@),
                            ..old(self)@
                        }),
                        Err(failure) => outcome == Err::<(), E>(failure) && final(self)@ == old(
                            self,
                        )@,
                    }
                },
    {
        let endpoint = self.get_endpoint("token");
        match authenticate(endpoint, username, password) {
            Ok(token) => {
                self.token = Some(token);
                Ok(())
            },
            Err(failure) => Err(failure),
        }
    }

    /// Whether the TLS certificate of the remote store is accepted without a
    /// trusted signature.
    pub fn allows_self_signed(&self) -> (allowed: bool)
        ensures
            allowed == self@.allow_self_signed,
    {
        self.allow_self_signed
    }

    /// The address of the endpoint `suffix`.
    pub fn get_endpoint(&self, suffix: &str) -> (address: String)
        ensures
            address@ == self@.endpoint(suffix@),
    {
        self.url.clone().concat("/").concat(suffix)
    }

    /// The credential of the session, or the failure that every call that
    /// needs one ends in while there is none.
    pub fn get_auth(&self) -> (auth: Result<String, AuthenticationError>)
        ensures
            match self@.token {
                Some(token) => auth matches Ok(text) && text@ == token,
                None => auth is Err,
            },
    {
        match &self.token {
            Some(token) => Ok(token.clone()),
            None => Err(AuthenticationError {  }),
        }
    }

    /// What a request of kind `verb` to the endpoint `suffix` starts from.
    /// A request that reads carries no token. One that writes carries the
    /// token of the session, and cannot be made without one.
    pub fn build_request_base(&self, suffix: &str, verb: Verb) -> (base: Result<
        RequestBase,
        AuthenticationError,
    >)
        ensures
            base is Err <==> verb.needs_credential() && self@.token is None,
            base matches Ok(request) ==> {
                &&& request.url@ == self@.endpoint(suffix@)
                &&& request.bearer.deep_view() == if verb.needs_credential() {
                    self@.token
                } else {
                    None
                }
            },
    {
        let url = self.get_endpoint(suffix);
        match verb {
            Verb::Get => Ok(RequestBase { url, bearer: None }),
            _ => match self.get_auth() {
                Ok(token) => Ok(RequestBase { url, bearer: Some(token) }),
                Err(failure) => Err(failure),
            },
        }
    }
}

/// The key of an issue: the project and the number within it, with a hyphen
/// between them.
pub open spec fn issue_key(project: Seq<char>, number: Seq<char>) -> Seq<char> {
    project + "-"@ + number
}

/// The keys of the issues named by project and number, in order.
pub open spec fn issue_keys_of(issues: Seq<(String, String)>) -> Seq<Seq<char>> {
    Seq::new(issues.len(), |i: int| issue_key(issues[i].0@, issues[i].1@))
}

/// The identifier that a listing gives for an issue key: that of the first
/// entry filed under the key.
pub open spec fn id_for(listing: Seq<(String, String)>, key: Seq<char>) -> Option<Seq<char>>
    decreases listing.len(),
{
    if listing.len() == 0 {
        None
    } else if listing[0].0@ == key {
        Some(listing[0].1@)
    } else {
        id_for(listing.drop_first(), key)
    }
}

/// The message for an issue key that the remote store does not know.
pub open spec fn unknown_key_message(key: Seq<char>) -> Seq<char> {
    "No ID found for key \""@ + key + "\""@
}

/// The keys under which the remote store is asked for the issues named by
/// project and number.
pub fn issue_keys(issues: Vec<(String, String)>) -> (keys: Vec<String>)
    ensures
        keys.deep_view() == issue_keys_of(issues@),
{
    let mut keys: Vec<String> = Vec::with_capacity(issues.len());
    for issue in it: issues.into_iter()
        invariant
            it.seq() == issues@,
            keys@.len() == it.index(),
            forall|i: int|
                0 <= i < keys@.len() ==> (#[trigger] keys@[i])@ == issue_key(
                    issues@[i].0@,
                    issues@[i].1@,
                ),
    {
        let (project, number) = issue;
        keys.push(project.concat("-").concat(number.as_str()));
    }
    keys
}

/// Looks an issue key up in a listing.
fn find_id<'a>(listing: &'a Vec<(String, String)>, key: &String) -> (id: Option<&'a String>)
    ensures
        id.deep_view() == id_for(listing@, key@),
{
    let mut i: usize = 0;
    assert(listing@.skip(0) =~= listing@);
    while i < listing.len()
        invariant
            i <= listing@.len(),
            id_for(listing@, key@) == id_for(listing@.skip(i as int), key@),
        decreases listing@.len() - i,
    {
        if listing[i].0 == *key {
            return Some(&listing[i].1);
        }
        assert(listing@.skip(i as int).drop_first() =~= listing@.skip(i as int + 1));
        i += 1;
    }
    None
}

/// The identifiers of the issues with the given keys, in the order of the
/// keys, as the listing of the remote store gives them. The first key that
/// the listing does not know ends the lookup in an error that names it.
pub fn collect_issue_ids(keys: Vec<String>, listing: Vec<(String, String)>) -> (ids: Result<
    Vec<String>,
    APIError,
>)
    ensures
        match ids {
            Ok(found) => {
                &&& found@.len() == keys@.len()
                &&& forall|i: int|
                    0 <= i < keys@.len() ==> id_for(listing@, keys@[i]@) == Some(
                        (#[trigger] found@[i])@,
                    )
            },
            Err(error) => exists|i: int|
                {
                    &&& 0 <= i < keys@.len()
                    &&& forall|j: int|
                        0 <= j < i ==> (#[trigger] id_for(listing@, keys@[j]@)) is Some
                    &&& (#[trigger] id_for(listing@, keys@[i]@)) is None
                    &&& error@ == unknown_key_message(keys@[i]@)
                },
        },
{
    let mut found: Vec<String> = Vec::with_capacity(keys.len());
    let mut i: usize = 0;
    while i < keys.len()
        invariant
            i <= keys@.len(),
            found@.len() == i,
            forall|j: int|
                0 <= j < i ==> id_for(listing@, keys@[j]@) == Some((#[trigger] found@[j])@),
        decreases keys@.len() - i,
    {
        match find_id(&listing, &keys[i]) {
            None => {
                let msg = String::from_str("No ID found for key \"").concat(
                    keys[i].as_str(),
                ).concat("\"");
                proof {
                    assert forall|j: int| 0 <= j < i implies (#[trigger] id_for(
                        listing@,
                        keys@[j]@,
                    )) is Some by {
                        assert(id_for(listing@, keys@[j]@) == Some(found@[j]@));
                    }
                }
                return Err(APIError::new(msg));
            },
            Some(id) => {
                found.push(id.clone());
            },
        }
        i += 1;
    }
    Ok(found)
}

} // verus!
