//! Configuration and the values that requests are made from.

use crate::wire::{
    json_field, json_optional_text, json_text_field, optional_field, text_of, Fields,
};
use vstd::string::StringExecFns;
use std::time::Duration;
use vstd::prelude::*;

verus! {

/// The production endpoint, used unless a configuration names another.
pub const DEFAULT_BASE_URL: &'static str = "https://api.doorpasses.io";

/// The request timeout in seconds, used unless a configuration names another.
pub const DEFAULT_TIMEOUT_SECS: u64 = 30;

/// The duration that `Duration::from_secs` makes of a number of seconds.
pub uninterp spec fn duration_of_secs(secs: u64) -> Duration;

/// `Duration::from_secs`: the duration of that many whole seconds, which
/// depends on the number alone.
#[verifier::external_body]
fn duration_from_secs(secs: u64) -> (d: Duration)
    ensures
        d == duration_of_secs(secs),
{
    Duration::from_secs(secs)
}

/// `Duration::clone`: a duration is a plain value, and its clone is equal to
/// it.
pub assume_specification[ <std::time::Duration as std::clone::Clone>::clone ](
    d: &std::time::Duration,
) -> (r: std::time::Duration)
    ensures
        r == *d,
;

/// Client configuration.
#[derive(Clone)]
pub struct DoorPassesConfig {
    /// Account identifier.
    pub account_id: String,
    /// Shared secret of the account.
    pub shared_secret: String,
    /// Base URL of the service.
    pub base_url: String,
    /// Timeout applied to each request.
    pub timeout: Duration,
}

/// A configuration as plain values.
pub struct ConfigView {
    pub account_id: Seq<char>,
    pub shared_secret: Seq<char>,
    pub base_url: Seq<char>,
    pub timeout: Duration,
}

impl ConfigView {
    /// The configuration that names only the credentials.
    pub open spec fn initial(account_id: Seq<char>, shared_secret: Seq<char>) -> ConfigView {
        ConfigView {
            account_id,
            shared_secret,
            base_url: DEFAULT_BASE_URL@,
            timeout: duration_of_secs(DEFAULT_TIMEOUT_SECS),
        }
    }

    /// This configuration with another base URL.
    pub open spec fn with_base_url(self, base_url: Seq<char>) -> ConfigView {
        ConfigView { base_url, ..self }
    }

    /// This configuration with another timeout.
    pub open spec fn with_timeout(self, timeout: Duration) -> ConfigView {
        ConfigView { timeout, ..self }
    }

    /// Whether a client can be made from this configuration: both
    /// credentials are non-empty.
    pub open spec fn is_valid(self) -> bool {
        self.account_id.len() > 0 && self.shared_secret.len() > 0
    }
}

impl View for DoorPassesConfig {
    type V = ConfigView;

    open spec fn view(&self) -> ConfigView {
        ConfigView {
            account_id: self.account_id@,
            shared_secret: self.shared_secret@,
            base_url: self.base_url@,
            timeout: self.timeout,
        }
    }
}

impl DoorPassesConfig {
    /// A configuration with the given credentials, the production base URL
    /// and a timeout of 30 seconds.
    pub fn new(account_id: String, shared_secret: String) -> (config: Self)
        ensures
            config@ == ConfigView::initial(account_id@, shared_secret@),
    {
        DoorPassesConfig {
            account_id,
            shared_secret,
            base_url: DEFAULT_BASE_URL.to_owned(),
            timeout: duration_from_secs(DEFAULT_TIMEOUT_SECS),
        }
    }

    /// The same configuration with `base_url` in place of its base URL.
    pub fn with_base_url(self, base_url: String) -> (config: Self)
        ensures
            config@ == self@.with_base_url(base_url@),
    {
        DoorPassesConfig {
            account_id: self.account_id,
            shared_secret: self.shared_secret,
            base_url,
            timeout: self.timeout,
        }
    }

    /// The same configuration with `timeout` in place of its timeout.
    pub fn with_timeout(self, timeout: Duration) -> (config: Self)
        ensures
            config@ == self@.with_timeout(timeout),
    {
        DoorPassesConfig {
            account_id: self.account_id,
            shared_secret: self.shared_secret,
            base_url: self.base_url,
            timeout,
        }
    }
}

/// A configuration that names only the credentials has them as given, the
/// production base URL and a timeout of 30 seconds.
pub proof fn lemma_initial_has_defaults(account_id: Seq<char>, shared_secret: Seq<char>)
    ensures
        ConfigView::initial(account_id, shared_secret).account_id == account_id,
        ConfigView::initial(account_id, shared_secret).shared_secret == shared_secret,
        ConfigView::initial(account_id, shared_secret).base_url == "https://api.doorpasses.io"@,
        ConfigView::initial(account_id, shared_secret).timeout == duration_of_secs(30),
        ConfigView::initial(account_id, shared_secret).is_valid() <==> account_id.len() > 0
            && shared_secret.len() > 0,
{
}

/// A setter changes the field it names and no other.
pub proof fn lemma_setters_change_one_field(c: ConfigView, base_url: Seq<char>, timeout: Duration)
    ensures
        c.with_base_url(base_url).base_url == base_url,
        c.with_base_url(base_url).account_id == c.account_id,
        c.with_base_url(base_url).shared_secret == c.shared_secret,
        c.with_base_url(base_url).timeout == c.timeout,
        c.with_timeout(timeout).timeout == timeout,
        c.with_timeout(timeout).account_id == c.account_id,
        c.with_timeout(timeout).shared_secret == c.shared_secret,
        c.with_timeout(timeout).base_url == c.base_url,
{
}

/// Setting a field twice to the same value is the same as setting it once,
/// and of two values set in turn the later one stands.
pub proof fn lemma_setters_idempotent(
    c: ConfigView,
    first_url: Seq<char>,
    base_url: Seq<char>,
    first_timeout: Duration,
    timeout: Duration,
)
    ensures
        c.with_base_url(base_url).with_base_url(base_url) == c.with_base_url(base_url),
        c.with_timeout(timeout).with_timeout(timeout) == c.with_timeout(timeout),
        c.with_base_url(first_url).with_base_url(base_url) == c.with_base_url(base_url),
        c.with_timeout(first_timeout).with_timeout(timeout) == c.with_timeout(timeout),
{
}

/// The two setters do not interfere: either order gives the same
/// configuration.
pub proof fn lemma_setters_commute(c: ConfigView, base_url: Seq<char>, timeout: Duration)
    ensures
        c.with_base_url(base_url).with_timeout(timeout) == c.with_timeout(timeout).with_base_url(
            base_url,
        ),
{
}

/// Neither setter makes a valid configuration invalid or an invalid one
/// valid: validity rests on the credentials alone.
pub proof fn lemma_setters_keep_validity(c: ConfigView, base_url: Seq<char>, timeout: Duration)
    ensures
        c.with_base_url(base_url).is_valid() == c.is_valid(),
        c.with_timeout(timeout).is_valid() == c.is_valid(),
{
}

/// The lifecycle state of an access pass.
#[derive(Debug, Clone, Copy, PartialEq, Eq, Structural)]
pub enum AccessPassState {
    Active,
    Suspended,
    Revoked,
    Expired,
}

impl AccessPassState {
    /// The name of the state on the wire.
    pub open spec fn wire_name(self) -> Seq<char> {
        match self {
            AccessPassState::Active => "active"@,
            AccessPassState::Suspended => "suspended"@,
            AccessPassState::Revoked => "revoked"@,
            AccessPassState::Expired => "expired"@,
        }
    }

    /// The name of the state on the wire.
    pub fn as_str(&self) -> (name: &'static str)
        ensures
            name@ == self.wire_name(),
    {
        match self {
            AccessPassState::Active => "active",
            AccessPassState::Suspended => "suspended",
            AccessPassState::Revoked => "revoked",
            AccessPassState::Expired => "expired",
        }
    }
}

impl AccessPassState {
    /// The state that a name on the wire stands for, if it is one.
    pub open spec fn from_wire_name(name: Seq<char>) -> Option<AccessPassState> {
        if name == "active"@ {
            Some(AccessPassState::Active)
        } else if name == "suspended"@ {
            Some(AccessPassState::Suspended)
        } else if name == "revoked"@ {
            Some(AccessPassState::Revoked)
        } else if name == "expired"@ {
            Some(AccessPassState::Expired)
        } else {
            None
        }
    }

    /// The state that a name on the wire stands for, if it is one.
    pub fn parse(name: &str) -> (state: Option<Self>)
        ensures
            state == Self::from_wire_name(name@),
    {
        let name = String::from_str(name);
        if name == String::from_str("active") {
            Some(AccessPassState::Active)
        } else if name == String::from_str("suspended") {
            Some(AccessPassState::Suspended)
        } else if name == String::from_str("revoked") {
            Some(AccessPassState::Revoked)
        } else if name == String::from_str("expired") {
            Some(AccessPassState::Expired)
        } else {
            None
        }
    }
}

/// Every state is read back from the name it is written as.
pub proof fn lemma_state_name_round_trip(state: AccessPassState)
    ensures
        AccessPassState::from_wire_name(state.wire_name()) == Some(state),
{
    reveal_strlit("active");
    reveal_strlit("suspended");
    reveal_strlit("revoked");
    reveal_strlit("expired");
    assert("active"@.len() == 6);
    assert("suspended"@.len() == 9);
    assert("revoked"@.len() == 7);
    assert("expired"@[0] == 'e');
    assert("revoked"@[0] == 'r');
}

/// An access pass as the service reports it.
#[derive(Debug, Clone)]
pub struct AccessPass {
    /// The service's id of the pass.
    pub id: String,
    /// The holder's full name.
    pub full_name: String,
    /// First day of validity, as a calendar date.
    pub start_date: String,
    /// Last day of validity, as a calendar date.
    pub expiration_date: String,
    /// The holder's e-mail address.
    pub email: Option<String>,
    /// The holder's phone number.
    pub phone_number: Option<String>,
    /// The holder's employee id.
    pub employee_id: Option<String>,
    /// Where the pass stands in its lifecycle.
    pub state: AccessPassState,
    /// Where the holder can install the pass.
    pub url: Option<String>,
}

/// An access pass as plain values.
pub struct AccessPassView {
    pub id: Seq<char>,
    pub full_name: Seq<char>,
    pub start_date: Seq<char>,
    pub expiration_date: Seq<char>,
    pub email: Option<Seq<char>>,
    pub phone_number: Option<Seq<char>>,
    pub employee_id: Option<Seq<char>>,
    pub state: AccessPassState,
    pub url: Option<Seq<char>>,
}

impl View for AccessPass {
    type V = AccessPassView;

    open spec fn view(&self) -> AccessPassView {
        AccessPassView {
            id: self.id@,
            full_name: self.full_name@,
            start_date: self.start_date@,
            expiration_date: self.expiration_date@,
            email: text_of(self.email),
            phone_number: text_of(self.phone_number),
            employee_id: text_of(self.employee_id),
            state: self.state,
            url: text_of(self.url),
        }
    }
}

/// The state that a JSON object names under `state`, if it names one.
pub open spec fn state_in(text: Seq<char>) -> Option<AccessPassState> {
    match json_text_field(text, "state"@) {
        Some(name) => AccessPassState::from_wire_name(name),
        None => None,
    }
}

/// The access pass that a JSON text describes. Its id, name, dates and
/// state must be there as strings, the state a known one. Each of the other
/// fields may be absent or `null`, and is a string where it is there. `None`
/// where a required field is missing or any field holds a value of another
/// type.
pub open spec fn access_pass_of(text: Seq<char>) -> Option<AccessPassView> {
    let described = {
        &&& json_text_field(text, "id"@) is Some
        &&& json_text_field(text, "full_name"@) is Some
        &&& json_text_field(text, "start_date"@) is Some
        &&& json_text_field(text, "expiration_date"@) is Some
        &&& state_in(text) is Some
        &&& json_optional_text(text, "email"@) is Some
        &&& json_optional_text(text, "phone_number"@) is Some
        &&& json_optional_text(text, "employee_id"@) is Some
        &&& json_optional_text(text, "url"@) is Some
    };
    if described {
        Some(
            AccessPassView {
                id: json_text_field(text, "id"@)->Some_0,
                full_name: json_text_field(text, "full_name"@)->Some_0,
                start_date: json_text_field(text, "start_date"@)->Some_0,
                expiration_date: json_text_field(text, "expiration_date"@)->Some_0,
                email: json_optional_text(text, "email"@)->Some_0,
                phone_number: json_optional_text(text, "phone_number"@)->Some_0,
                employee_id: json_optional_text(text, "employee_id"@)->Some_0,
                state: state_in(text)->Some_0,
                url: json_optional_text(text, "url"@)->Some_0,
            },
        )
    } else {
        None
    }
}

/// A field that holds a value of another type than a string makes the text
/// describe no pass, whether the field is required or may be left out.
pub proof fn lemma_wrong_type_describes_no_pass(text: Seq<char>, key: Seq<char>)
    requires
        key == "id"@ || key == "full_name"@ || key == "start_date"@ || key == "expiration_date"@
            || key == "state"@ || key == "email"@ || key == "phone_number"@ || key
            == "employee_id"@ || key == "url"@,
    ensures
        json_field(text, key) is Other ==> access_pass_of(text) is None,
{
}

/// What is needed to issue an access pass. The first four fields are
/// required; the others may be absent.
#[derive(Debug, Clone)]
pub struct IssueAccessPassParams {
    /// The template that the pass is made from.
    pub card_template_id: String,
    /// The holder's full name.
    pub full_name: String,
    /// First day of validity, as a calendar date.
    pub start_date: String,
    /// Last day of validity, as a calendar date.
    pub expiration_date: String,
    /// The holder's e-mail address.
    pub email: Option<String>,
    /// The holder's phone number.
    pub phone_number: Option<String>,
    /// The holder's employee id.
    pub employee_id: Option<String>,
}

impl IssueAccessPassParams {
    /// The name of the first required field that is empty, if there is one.
    pub open spec fn missing_field(&self) -> Option<Seq<char>> {
        if self.card_template_id@.len() == 0 {
            Some("card_template_id"@)
        } else if self.full_name@.len() == 0 {
            Some("full_name"@)
        } else if self.start_date@.len() == 0 {
            Some("start_date"@)
        } else if self.expiration_date@.len() == 0 {
            Some("expiration_date"@)
        } else {
            None
        }
    }

    /// The fields that go on the wire: the required ones, then each optional
    /// one that is present. An absent one is left out.
    pub open spec fn wire_fields(&self) -> Fields {
        seq![
            ("card_template_id"@, self.card_template_id@),
            ("full_name"@, self.full_name@),
            ("start_date"@, self.start_date@),
            ("expiration_date"@, self.expiration_date@),
        ] + optional_field("email"@, text_of(self.email)) + optional_field(
            "phone_number"@,
            text_of(self.phone_number),
        ) + optional_field("employee_id"@, text_of(self.employee_id))
    }
}

/// Parameters lack a required field exactly when one of the four is empty.
pub proof fn lemma_missing_iff_required_empty(params: IssueAccessPassParams)
    ensures
        params.missing_field() is Some <==> params.card_template_id@.len() == 0
            || params.full_name@.len() == 0 || params.start_date@.len() == 0
            || params.expiration_date@.len() == 0,
{
}

/// An absent optional field adds nothing to what goes on the wire, and a
/// present one adds exactly itself.
pub proof fn lemma_optional_field_is_left_out(name: Seq<char>, value: Seq<char>)
    ensures
        optional_field(name, None).len() == 0,
        optional_field(name, Some(value)) == seq![(name, value)],
{
}

impl Default for IssueAccessPassParams {
    /// Parameters with every required field empty and every optional one
    /// absent.
    fn default() -> (params: Self)
        ensures
            params.card_template_id@.len() == 0,
            params.full_name@.len() == 0,
            params.start_date@.len() == 0,
            params.expiration_date@.len() == 0,
            params.email is None,
            params.phone_number is None,
            params.employee_id is None,
    {
        IssueAccessPassParams {
            card_template_id: String::new(),
            full_name: String::new(),
            start_date: String::new(),
            expiration_date: String::new(),
            email: None,
            phone_number: None,
            employee_id: None,
        }
    }
}

/// What a listing of access passes may be narrowed by.
#[derive(Debug, Clone)]
pub struct ListAccessPassesParams {
    /// Only passes made from this template.
    pub template_id: Option<String>,
    /// Only passes in this state.
    pub state: Option<AccessPassState>,
}

impl ListAccessPassesParams {
    /// The query parameters: each filter that is present, and no other.
    pub open spec fn query_fields(&self) -> Fields {
        optional_field("template_id"@, text_of(self.template_id)) + optional_field(
            "state"@,
            match self.state {
                Some(state) => Some(state.wire_name()),
                None => None,
            },
        )
    }
}

/// What is needed to create or change a card template.
#[derive(Debug, Clone)]
pub struct CardTemplateParams {
    /// The template's name. Required.
    pub name: String,
    /// A description of the template.
    pub description: Option<String>,
}

impl CardTemplateParams {
    /// The fields that go on the wire: the name, then the description where
    /// there is one.
    pub open spec fn wire_fields(&self) -> Fields {
        seq![("name"@, self.name@)] + optional_field("description"@, text_of(self.description))
    }
}

} // verus!
