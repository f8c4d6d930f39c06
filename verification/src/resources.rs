//! The resource modules: each operation of the service as the request that
//! asks for it. None of them sends anything; they shape requests.

use crate::error::{DoorPassesError, ErrorKind};
use crate::http_client::{is_success, response_error, ApiRequest, HttpClient, Method};
use crate::types::{
    access_pass_of, AccessPass, AccessPassState, AccessPassView, CardTemplateParams, ConfigView,
    IssueAccessPassParams, ListAccessPassesParams,
};
use crate::wire::{
    fields_view, json_array, json_array_texts, json_custom_error, json_error, json_object, json_object_text, parse_array,
    push_field, push_optional, read_optional_text, read_text_field, texts_view,
};
use std::sync::Arc;
use vstd::prelude::*;
use vstd::string::StringExecFns;

verus! {

/// Where access passes live.
pub const ACCESS_PASSES_PATH: &'static str = "/v1/access-passes";

/// Where card templates live.
pub const CARD_TEMPLATES_PATH: &'static str = "/v1/console/card-templates";

/// The message of the error for a required field that is empty.
pub open spec fn required_message(field: Seq<char>) -> Seq<char> {
    field + " is required"@
}

/// The path of one entity under a collection: the collection's path, a
/// slash, and the entity's id.
pub open spec fn entity_path(collection: Seq<char>, id: Seq<char>) -> Seq<char> {
    collection + "/"@ + id
}

/// The passes that a vector holds, in its order.
pub open spec fn passes_view(passes: Seq<AccessPass>) -> Seq<AccessPassView> {
    passes.map_values(|p: AccessPass| p@)
}

/// Whether each of the texts describes an access pass.
pub open spec fn all_describe_passes(texts: Seq<Seq<char>>) -> bool {
    forall|i: int| 0 <= i < texts.len() ==> (#[trigger] access_pass_of(texts[i])) is Some
}

/// The access passes that a JSON array describes, element by element and in
/// the array's order: `None` where the text is no JSON array or one of its
/// elements describes no pass.
pub open spec fn access_passes_of(body: Seq<char>) -> Option<Seq<AccessPassView>> {
    match json_array_texts(body) {
        Some(texts) => if all_describe_passes(texts) {
            Some(texts.map_values(|t: Seq<char>| access_pass_of(t)->Some_0))
        } else {
            None
        },
        None => None,
    }
}

/// The error for a text that describes no access pass.
pub open spec fn not_a_pass() -> DoorPassesError {
    DoorPassesError::SerializationError(json_custom_error(NOT_A_PASS@))
}

/// The error for a text that is no listing of access passes: the reason
/// why it is no JSON array, or else that an element describes no pass.
pub open spec fn listing_error(body: Seq<char>) -> DoorPassesError {
    match json_array(body) {
        Err(cause) => DoorPassesError::SerializationError(cause),
        Ok(_) => not_a_pass(),
    }
}

/// A listing has one pass for each element of the array that the service
/// sent, in the order in which it sent them.
pub proof fn lemma_listing_keeps_order(body: Seq<char>)
    ensures
        access_passes_of(body) matches Some(passes) ==> {
            &&& json_array_texts(body) is Some
            &&& passes.len() == json_array_texts(body)->Some_0.len()
            &&& forall|i: int|
                0 <= i < passes.len() ==> Some(#[trigger] passes[i]) == access_pass_of(
                    json_array_texts(body)->Some_0[i],
                )
        },
{
}

/// An empty array is a listing of no passes, and no error.
pub proof fn lemma_empty_array_is_empty_listing(body: Seq<char>)
    ensures
        json_array_texts(body) == Some(Seq::<Seq<char>>::empty()) ==> access_passes_of(body)
            == Some(Seq::<AccessPassView>::empty()),
{
    if json_array_texts(body) == Some(Seq::<Seq<char>>::empty()) {
        assert(all_describe_passes(Seq::<Seq<char>>::empty()));
        assert(access_passes_of(body)->Some_0 =~= Seq::<AccessPassView>::empty());
    }
}

/// The message of the error for a text that describes no access pass.
pub const NOT_A_PASS: &'static str = "not an access pass";

/// Accepts a required field that is not empty, and rejects an empty one
/// with `InvalidParameter` and a message that names it.
pub fn require_field(name: &str, value: &str) -> (r: Result<(), DoorPassesError>)
    ensures
        r is Err <==> value@.len() == 0,
        r matches Err(e) ==> e@ == ErrorKind::InvalidParameter(required_message(name@)),
{
    if value.is_empty() {
        Err(DoorPassesError::InvalidParameter(name.to_owned().concat(" is required")))
    } else {
        Ok(())
    }
}

/// The path of the entity `id` under `collection`.
pub fn path_of(collection: &str, id: &str) -> (path: String)
    ensures
        path@ == entity_path(collection@, id@),
{
    collection.to_owned().concat("/").concat(id)
}

/// Operations on access passes.
pub struct AccessPasses {
    http: Arc<HttpClient>,
}

impl AccessPasses {
    /// The configuration of the transport that the requests are made for.
    pub closed spec fn config(&self) -> ConfigView {
        self.http@
    }

    /// The connection pool of the transport that the requests are made for.
    pub closed spec fn pool(&self) -> reqwest::Client {
        self.http.pool()
    }

    /// The operations over a shared transport.
    pub fn new(http: Arc<HttpClient>) -> (passes: Self)
        ensures
            passes.config() == http@,
            passes.pool() == http.pool(),
    {
        AccessPasses { http }
    }

    /// The access pass that a JSON text describes, or `SerializationError`
    /// where it describes none.
    pub fn decode_pass(text: &str) -> (r: Result<AccessPass, DoorPassesError>)
        ensures
            r is Ok <==> access_pass_of(text@) is Some,
            r matches Ok(pass) ==> Some(pass@) == access_pass_of(text@),
            r matches Err(e) ==> e == not_a_pass(),
    {
        let id = read_text_field(text, "id");
        let full_name = read_text_field(text, "full_name");
        let start_date = read_text_field(text, "start_date");
        let expiration_date = read_text_field(text, "expiration_date");
        let state = match read_text_field(text, "state") {
            Some(name) => AccessPassState::parse(name.as_str()),
            None => None,
        };
        let email = read_optional_text(text, "email");
        let phone_number = read_optional_text(text, "phone_number");
        let employee_id = read_optional_text(text, "employee_id");
        let url = read_optional_text(text, "url");
        match (id, full_name, start_date, expiration_date, state) {
            (Some(id), Some(full_name), Some(start_date), Some(expiration_date), Some(state)) => {
                match (email, phone_number, employee_id, url) {
                    (Some(email), Some(phone_number), Some(employee_id), Some(url)) => Ok(
                        AccessPass {
                            id,
                            full_name,
                            start_date,
                            expiration_date,
                            email,
                            phone_number,
                            employee_id,
                            state,
                            url,
                        },
                    ),
                    _ => Err(DoorPassesError::SerializationError(json_error(NOT_A_PASS))),
                }
            },
            _ => Err(DoorPassesError::SerializationError(json_error(NOT_A_PASS))),
        }
    }

    /// The access passes that a JSON array describes, in the array's order,
    /// or `SerializationError` where the text is no array of passes. An
    /// empty array gives an empty vector.
    pub fn decode_list(body: &str) -> (r: Result<Vec<AccessPass>, DoorPassesError>)
        ensures
            r is Ok <==> access_passes_of(body@) is Some,
            r matches Ok(passes) ==> Some(passes_view(passes@)) == access_passes_of(body@),
            r matches Err(e) ==> e == listing_error(body@),
    {
        let texts = match parse_array(body) {
            Ok(texts) => texts,
            Err(cause) => { return Err(DoorPassesError::SerializationError(cause)); },
        };
        let ghost wire = texts_view(texts@);
        let mut passes: Vec<AccessPass> = Vec::new();
        let mut i: usize = 0;
        while i < texts.len()
            invariant
                i <= texts.len(),
                passes.len() == i,
                wire == texts_view(texts@),
                json_array(body@) == Ok::<Seq<Seq<char>>, serde_json::Error>(wire),
                forall|j: int| 0 <= j < i ==> Some(#[trigger] passes[j]@) == access_pass_of(wire[j]),
            decreases texts.len() - i,
        {
            assert(wire[i as int] == texts[i as int]@);
            match Self::decode_pass(texts[i].as_str()) {
                Ok(pass) => {
                    passes.push(pass);
                },
                Err(e) => {
                    assert(access_pass_of(wire[i as int]) is None);
                    assert(!all_describe_passes(wire));
                    return Err(e);
                },
            }
            i += 1;
        }
        proof {
            assert forall|j: int| 0 <= j < wire.len() implies (#[trigger] access_pass_of(
                wire[j],
            )) is Some by {
                assert(Some(passes[j]@) == access_pass_of(wire[j]));
            }
            assert(passes_view(passes@) =~= access_passes_of(body@)->Some_0) by {
                assert forall|j: int| 0 <= j < passes.len() implies passes_view(passes@)[j]
                    == access_passes_of(body@)->Some_0[j] by {
                    assert(Some(passes[j]@) == access_pass_of(wire[j]));
                }
            }
        }
        Ok(passes)
    }

    /// What the answer to `issue` or `get` means: the pass that a 2xx answer
    /// describes; `SerializationError` where a 2xx answer describes none; and
    /// for every other status the error that stands for it.
    pub fn read_pass(status: u16, body: &str) -> (r: Result<AccessPass, DoorPassesError>)
        ensures
            r is Ok <==> is_success(status) && access_pass_of(body@) is Some,
            r matches Ok(pass) ==> Some(pass@) == access_pass_of(body@),
            r matches Err(e) ==> e@ == response_error(status, body@),
            r matches Err(e) ==> is_success(status) ==> e == not_a_pass(),
    {
        match HttpClient::refusal(status, body) {
            Some(e) => Err(e),
            None => Self::decode_pass(body),
        }
    }

    /// What the answer to `list` means: the passes that a 2xx answer lists,
    /// in the order in which it lists them; `SerializationError` where a 2xx
    /// answer is no array of passes; and for every other status the error
    /// that stands for it.
    pub fn read_list(status: u16, body: &str) -> (r: Result<Vec<AccessPass>, DoorPassesError>)
        ensures
            r is Ok <==> is_success(status) && access_passes_of(body@) is Some,
            r matches Ok(passes) ==> Some(passes_view(passes@)) == access_passes_of(body@),
            r matches Err(e) ==> e@ == response_error(status, body@),
            r matches Err(e) ==> is_success(status) ==> e == listing_error(body@),
    {
        match HttpClient::refusal(status, body) {
            Some(e) => Err(e),
            None => Self::decode_list(body),
        }
    }

    /// The request that issues a pass: a POST of the parameters, as a JSON
    /// object without the absent optional fields. Where a required field is
    /// empty there is no request, but `InvalidParameter` naming the first
    /// such field.
    pub fn issue(&self, params: &IssueAccessPassParams) -> (r: Result<ApiRequest, DoorPassesError>)
        ensures
            r is Err <==> params.missing_field() is Some,
            r matches Err(e) ==> e@ == ErrorKind::InvalidParameter(
                required_message(params.missing_field()->Some_0),
            ),
            r matches Ok(req) ==> req.is_made_by(
                self.config(),
                Method::Post,
                ACCESS_PASSES_PATH@,
                None,
                Some(json_object_text(params.wire_fields())),
            ),
    {
        match require_field("card_template_id", params.card_template_id.as_str()) {
            Err(e) => { return Err(e); },
            Ok(_) => {},
        }
        match require_field("full_name", params.full_name.as_str()) {
            Err(e) => { return Err(e); },
            Ok(_) => {},
        }
        match require_field("start_date", params.start_date.as_str()) {
            Err(e) => { return Err(e); },
            Ok(_) => {},
        }
        match require_field("expiration_date", params.expiration_date.as_str()) {
            Err(e) => { return Err(e); },
            Ok(_) => {},
        }
        let mut fields: Vec<(String, String)> = Vec::new();
        assert(fields_view(fields@) =~= seq![]);
        push_field(&mut fields, "card_template_id", params.card_template_id.as_str());
        push_field(&mut fields, "full_name", params.full_name.as_str());
        push_field(&mut fields, "start_date", params.start_date.as_str());
        push_field(&mut fields, "expiration_date", params.expiration_date.as_str());
        assert(fields_view(fields@) =~= seq![
            ("card_template_id"@, params.card_template_id@),
            ("full_name"@, params.full_name@),
            ("start_date"@, params.start_date@),
            ("expiration_date"@, params.expiration_date@),
        ]);
        push_optional(&mut fields, "email", &params.email);
        push_optional(&mut fields, "phone_number", &params.phone_number);
        push_optional(&mut fields, "employee_id", &params.employee_id);
        Ok(self.http.post(ACCESS_PASSES_PATH, json_object(&fields)))
    }

    /// The request that lists passes: a GET whose query holds the filters
    /// that are present, and no query at all where no filter is given.
    pub fn list(&self, filter: Option<ListAccessPassesParams>) -> (req: ApiRequest)
        ensures
            req.is_made_by(
                self.config(),
                Method::Get,
                ACCESS_PASSES_PATH@,
                match filter {
                    Some(f) => Some(f.query_fields()),
                    None => None,
                },
                None,
            ),
    {
        match filter {
            Some(f) => {
                let mut query: Vec<(String, String)> = Vec::new();
                assert(fields_view(query@) =~= seq![]);
                push_optional(&mut query, "template_id", &f.template_id);
                match f.state {
                    Some(state) => {
                        push_field(&mut query, "state", state.as_str());
                    },
                    None => {},
                }
                assert(fields_view(query@) =~= f.query_fields());
                self.http.get(ACCESS_PASSES_PATH, Some(query))
            },
            None => self.http.get(ACCESS_PASSES_PATH, None),
        }
    }

    /// The request that reads the pass `id`: a GET of its path.
    pub fn get(&self, id: &str) -> (req: ApiRequest)
        ensures
            req.is_made_by(
                self.config(),
                Method::Get,
                entity_path(ACCESS_PASSES_PATH@, id@),
                None,
                None,
            ),
    {
        let path = path_of(ACCESS_PASSES_PATH, id);
        self.http.get(path.as_str(), None)
    }

    /// The request that revokes the pass `id`: a DELETE of its path.
    pub fn revoke(&self, id: &str) -> (req: ApiRequest)
        ensures
            req.is_made_by(
                self.config(),
                Method::Delete,
                entity_path(ACCESS_PASSES_PATH@, id@),
                None,
                None,
            ),
    {
        let path = path_of(ACCESS_PASSES_PATH, id);
        self.http.delete(path.as_str())
    }
}

/// Operations on card templates.
pub struct Console {
    http: Arc<HttpClient>,
}

impl Console {
    /// The configuration of the transport that the requests are made for.
    pub closed spec fn config(&self) -> ConfigView {
        self.http@
    }

    /// The connection pool of the transport that the requests are made for.
    pub closed spec fn pool(&self) -> reqwest::Client {
        self.http.pool()
    }

    /// The operations over a shared transport.
    pub fn new(http: Arc<HttpClient>) -> (console: Self)
        ensures
            console.config() == http@,
            console.pool() == http.pool(),
    {
        Console { http }
    }

    /// The request that creates a template: a POST of the parameters as a
    /// JSON object. An empty name is rejected with `InvalidParameter`.
    pub fn create_template(&self, params: &CardTemplateParams) -> (r: Result<
        ApiRequest,
        DoorPassesError,
    >)
        ensures
            r is Err <==> params.name@.len() == 0,
            r matches Err(e) ==> e@ == ErrorKind::InvalidParameter(required_message("name"@)),
            r matches Ok(req) ==> req.is_made_by(
                self.config(),
                Method::Post,
                CARD_TEMPLATES_PATH@,
                None,
                Some(json_object_text(params.wire_fields())),
            ),
    {
        match require_field("name", params.name.as_str()) {
            Err(e) => { return Err(e); },
            Ok(_) => {},
        }
        let mut fields: Vec<(String, String)> = Vec::new();
        assert(fields_view(fields@) =~= seq![]);
        push_field(&mut fields, "name", params.name.as_str());
        assert(fields_view(fields@) =~= seq![("name"@, params.name@)]);
        push_optional(&mut fields, "description", &params.description);
        Ok(self.http.post(CARD_TEMPLATES_PATH, json_object(&fields)))
    }

    /// The request that reads the template `id`: a GET of its path.
    pub fn read_template(&self, id: &str) -> (req: ApiRequest)
        ensures
            req.is_made_by(
                self.config(),
                Method::Get,
                entity_path(CARD_TEMPLATES_PATH@, id@),
                None,
                None,
            ),
    {
        let path = path_of(CARD_TEMPLATES_PATH, id);
        self.http.get(path.as_str(), None)
    }

    /// The request that deletes the template `id`: a DELETE of its path.
    pub fn delete_template(&self, id: &str) -> (req: ApiRequest)
        ensures
            req.is_made_by(
                self.config(),
                Method::Delete,
                entity_path(CARD_TEMPLATES_PATH@, id@),
                None,
                None,
            ),
    {
        let path = path_of(CARD_TEMPLATES_PATH, id);
        self.http.delete(path.as_str())
    }

    /// The request that changes the template `id`: a PATCH of its path with
    /// the parameters as a JSON object. An empty name is rejected with
    /// `InvalidParameter`.
    pub fn update_template(&self, id: &str, params: &CardTemplateParams) -> (r: Result<
        ApiRequest,
        DoorPassesError,
    >)
        ensures
            r is Err <==> params.name@.len() == 0,
            r matches Err(e) ==> e@ == ErrorKind::InvalidParameter(required_message("name"@)),
            r matches Ok(req) ==> req.is_made_by(
                self.config(),
                Method::Patch,
                entity_path(CARD_TEMPLATES_PATH@, id@),
                None,
                Some(json_object_text(params.wire_fields())),
            ),
    {
        match require_field("name", params.name.as_str()) {
            Err(e) => { return Err(e); },
            Ok(_) => {},
        }
        let mut fields: Vec<(String, String)> = Vec::new();
        assert(fields_view(fields@) =~= seq![]);
        push_field(&mut fields, "name", params.name.as_str());
        assert(fields_view(fields@) =~= seq![("name"@, params.name@)]);
        push_optional(&mut fields, "description", &params.description);
        let path = path_of(CARD_TEMPLATES_PATH, id);
        Ok(self.http.patch(path.as_str(), json_object(&fields)))
    }
}

} // verus!
