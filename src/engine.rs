//! The engine: the allow-list gate and the preparation of outbound requests.
use crate::error::LlmError;
use crate::wire::{
    authorization_header, embed_request_body, header_text_ok, bearer_text,
    infer_body, embed_body, infer_request_body, texts, InferencingParams,
};
use reqwest::Url;
use vstd::prelude::*;
use vstd::string::*;

verus! {

/// The text of the URL that `path` resolves to against the URL whose text is
/// `base`, or `None` where either does not parse.
pub uninterp spec fn url_join_of(base: Seq<char>, path: Seq<char>) -> Option<Seq<char>>;

/// Relies on `url::Url::parse` of the base followed by `Url::join` of the
/// path, and on `String::from(Url)`, which gives the URL's text.
#[verifier::external_body]
fn join_url(base: &String, path: &str) -> (r: Option<String>)
    ensures
        r is Some <==> url_join_of(base@, path@) is Some,
        r matches Some(t) ==> url_join_of(base@, path@) == Some(t@),
{
    Url::parse(base).and_then(|b| b.join(path)).ok().map(String::from)
}

pub open spec fn header_failure() -> Seq<char> {
    "failed to create authorization header"@
}

pub open spec fn serialize_failure() -> Seq<char> {
    "failed to serialize JSON"@
}

pub open spec fn url_failure() -> Seq<char> {
    "failed to create URL"@
}

/// The set of model names that a list of names holds.
pub open spec fn model_set(models: Seq<String>) -> Set<Seq<char>> {
    Set::new(|m: Seq<char>| exists|i: int| 0 <= i < models.len() && #[trigger] models[i]@ == m)
}

/// A client of the remote inference service, with the models it may use.
#[derive(Clone)]
pub struct RemoteHttpLlmEngine {
    auth_token: String,
    url: String,
    allowed_models: Vec<String>,
}

/// A request ready to be posted: target URL, `authorization` header value
/// and body, each as text.
pub struct OutboundRequest {
    pub url: String,
    pub authorization: String,
    pub body: String,
}

impl RemoteHttpLlmEngine {
    /// The models that calls are currently permitted to use.
    pub closed spec fn allowed(&self) -> Set<Seq<char>> {
        model_set(self.allowed_models@)
    }

    /// The token sent as bearer credentials.
    pub closed spec fn token(&self) -> Seq<char> {
        self.auth_token@
    }

    /// The text of the base URL that the endpoints are resolved against.
    pub closed spec fn base(&self) -> Seq<char> {
        self.url@
    }

    /// An engine for the service at `url`, authenticating with `auth_token`;
    /// no model is permitted yet.
    pub fn new(url: String, auth_token: String) -> (r: Self)
        ensures
            r.allowed() == Set::<Seq<char>>::empty(),
            r.token() == auth_token@,
            r.base() == url@,
    {
        let r = RemoteHttpLlmEngine { url, auth_token, allowed_models: Vec::new() };
        assert(r.allowed() =~= Set::<Seq<char>>::empty());
        r
    }

    /// Replaces the allow-list with the given models.
    pub fn set_allowed_models(&mut self, models: Vec<String>)
        ensures
            final(self).allowed() == model_set(models@),
            final(self).token() == old(self).token(),
            final(self).base() == old(self).base(),
    {
        self.allowed_models = models;
    }

    /// Whether `model` is on the allow-list.
    pub fn is_model_allowed(&self, model: &String) -> (r: bool)
        ensures
            r == self.allowed().contains(model@),
    {
        let mut i: usize = 0;
        while i < self.allowed_models.len()
            invariant
                i <= self.allowed_models@.len(),
                forall|j: int| 0 <= j < i ==> self.allowed_models@[j]@ != model@,
            decreases self.allowed_models@.len() - i,
        {
            if self.allowed_models[i] == *model {
                assert(model_set(self.allowed_models@).contains(model@));
                return true;
            }
            i = i + 1;
        }
        false
    }

    /// The access check that precedes every call: `AccessDenied` with the
    /// model's name where it is not permitted.
    pub fn check_access(&self, model: &String) -> (r: Result<(), LlmError>)
        ensures
            r is Ok <==> self.allowed().contains(model@),
            r matches Err(e) ==> e.view_parts() == (true, model@),
    {
        if self.is_model_allowed(model) {
            Ok(())
        } else {
            Err(LlmError::AccessDenied(model.clone()))
        }
    }

    /// The header and target shared by both endpoints, around a body.
    fn assemble(&self, path: &str, body: Option<String>) -> (r: Result<OutboundRequest, LlmError>)
        ensures
            !header_text_ok(bearer_text(self.token())) ==> (r matches Err(e) && e.view_parts() == (false,
                header_failure())),
            header_text_ok(bearer_text(self.token())) && body is None ==> (r matches Err(e)
                && e.view_parts() == (false, serialize_failure())),
            header_text_ok(bearer_text(self.token())) && body is Some && url_join_of(self.base(), path@) is None
                ==> (r matches Err(e) && e.view_parts() == (false, url_failure())),
            header_text_ok(bearer_text(self.token())) && body is Some && url_join_of(self.base(), path@) is Some
                ==> (r matches Ok(req) && body == Some(req.body) && url_join_of(self.base(), path@) == Some(
                req.url@) && req.authorization@ == bearer_text(self.token())),
    {
        let authorization = match authorization_header(&self.auth_token) {
            Some(h) => h,
            None => {
                return Err(LlmError::RuntimeError(String::from_str("failed to create authorization header")));
            },
        };
        let body = match body {
            Some(b) => b,
            None => {
                return Err(LlmError::RuntimeError(String::from_str("failed to serialize JSON")));
            },
        };
        let url = match join_url(&self.url, path) {
            Some(u) => u,
            None => {
                return Err(LlmError::RuntimeError(String::from_str("failed to create URL")));
            },
        };
        Ok(OutboundRequest { url, authorization, body })
    }

    /// Prepares an inference call: refused with `AccessDenied` for a model
    /// that is not permitted, before anything else is done; otherwise a POST
    /// to `/infer` with the bearer header and the model, options and prompt.
    pub fn prepare_infer(&self, model: &String, prompt: &String, options: &InferencingParams) -> (r:
        Result<OutboundRequest, LlmError>)
        ensures
            !self.allowed().contains(model@) ==> (r matches Err(e) && e.view_parts() == (true, model@)),
            self.allowed().contains(model@) && !header_text_ok(bearer_text(self.token())) ==> (r matches Err(e)
                && e.view_parts() == (false, header_failure())),
            self.allowed().contains(model@) && header_text_ok(bearer_text(self.token()))
                && url_join_of(self.base(), "/infer"@) is None ==> (r matches Err(e) && e.view_parts() == (
                false,
                url_failure(),
            )),
            self.allowed().contains(model@) && header_text_ok(bearer_text(self.token()))
                && url_join_of(self.base(), "/infer"@) is Some ==> (r matches Ok(req) && url_join_of(
                self.base(),
                "/infer"@,
            ) == Some(req.url@) && req.authorization@ == bearer_text(self.token()) && req.body@ == infer_body(model@, prompt@, *options)),
    {
        if let Err(e) = self.check_access(model) {
            return Err(e);
        }
        let body = infer_request_body(model, prompt, options);
        self.assemble("/infer", body)
    }

    /// Prepares an embedding call: refused with `AccessDenied` for a model
    /// that is not permitted, before anything else is done; otherwise a POST
    /// to `/embed` with the bearer header and the inputs and model.
    pub fn prepare_embeddings(&self, model: &String, inputs: &Vec<String>) -> (r: Result<OutboundRequest, LlmError>)
        ensures
            !self.allowed().contains(model@) ==> (r matches Err(e) && e.view_parts() == (true, model@)),
            self.allowed().contains(model@) && !header_text_ok(bearer_text(self.token())) ==> (r matches Err(e)
                && e.view_parts() == (false, header_failure())),
            self.allowed().contains(model@) && header_text_ok(bearer_text(self.token()))
                && url_join_of(self.base(), "/embed"@) is None ==> (r matches Err(e) && e.view_parts() == (
                false,
                url_failure(),
            )),
            self.allowed().contains(model@) && header_text_ok(bearer_text(self.token()))
                && url_join_of(self.base(), "/embed"@) is Some ==> (r matches Ok(req) && url_join_of(
                self.base(),
                "/embed"@,
            ) == Some(req.url@) && req.authorization@ == bearer_text(self.token()) && req.body@ == embed_body(model@, texts(inputs@))),
    {
        if let Err(e) = self.check_access(model) {
            return Err(e);
        }
        let body = embed_request_body(model, inputs);
        self.assemble("/embed", body)
    }
}

/// Once the allow-list has been replaced by `first` and then by `second`, a
/// model that only `first` held is denied and a model of `second` is
/// permitted: the latest list alone governs.
pub proof fn lemma_latest_allow_list_governs(
    e: RemoteHttpLlmEngine,
    first: Seq<String>,
    second: Seq<String>,
    a: Seq<char>,
    b: Seq<char>,
)
    requires
        e.allowed() == model_set(second),
        model_set(first).contains(a),
        !model_set(second).contains(a),
        model_set(second).contains(b),
    ensures
        !e.allowed().contains(a),
        e.allowed().contains(b),
{
}

} // verus!
