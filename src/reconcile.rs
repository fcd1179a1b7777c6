//! The per-row decision of a CSV import: update an existing sensor, create a new
//! one, or reject the row; and the request that carries it out.
use vstd::prelude::*;

use crate::endpoints::{sensor_path, sensor_url, sensors_path, sensors_url};
use crate::records::{DefinitionDataType, DefinitionType};
use crate::sensors::{
    cleared, opt_view, text_or_empty, BacnetIpNonNumericSensor, BacnetIpNumericSensor,
    GenericSensor, ModbusTcpNonNumericSensor, ModbusTcpNumericSensor, NumericSensor,
};

verus! {

/// The canonical (hyphenated, lower-case) text of the UUID that `s` spells, or
/// `None` where `s` is no UUID literal.
pub uninterp spec fn uuid_text(s: Seq<char>) -> Option<Seq<char>>;

/// The lengths of the UUID literal forms: simple, hyphenated, braced, URN.
pub open spec fn uuid_sized(n: int) -> bool {
    n == 32 || n == 36 || n == 38 || n == 45
}

/// Relies on `uuid::Uuid::try_parse`, which accepts the simple, hyphenated, braced
/// and URN forms, all ASCII, and nothing of another length (so never the empty
/// string), and on the `Display` of `uuid::Uuid`, which writes the hyphenated
/// lower-case form.
#[verifier::external_body]
fn parse_uuid(s: &str) -> (r: Option<String>)
    ensures
        match r {
            Some(u) => uuid_text(s@) == Some(u@),
            None => uuid_text(s@) is None,
        },
        !uuid_sized(s@.len() as int) ==> r is None,
{
    uuid::Uuid::try_parse(s).ok().map(|u| u.to_string())
}

/// What an import does with one row.
#[derive(Debug, Clone, PartialEq, Eq)]
pub enum RowAction {
    /// The row names an existing sensor by this canonical UUID: send it by PUT.
    Update(String),
    /// The row has no identifier but a name: create it by POST.
    Create,
    /// Neither a valid identifier nor a usable name: skip the row.
    Reject,
}

/// How a row's identifier text and name decide its action, given what the UUID
/// parser made of the identifier.
pub open spec fn action_for(
    r: RowAction,
    id: Seq<char>,
    parsed: Option<Seq<char>>,
    name: Seq<char>,
) -> bool {
    match parsed {
        Some(u) => r matches RowAction::Update(t) && t@ == u,
        None => if name.len() > 0 && id.len() == 0 {
            r is Create
        } else {
            r is Reject
        },
    }
}

/// Decides a row from its identifier text, the parser's result on it, and its
/// name. A parsed UUID always means an update; otherwise only a row with an empty
/// identifier and a non-empty name is created; every other row is rejected.
pub fn decide_row(id: &str, parsed: Option<String>, name: &str) -> (r: RowAction)
    ensures
        action_for(r, id@, opt_view(parsed), name@),
{
    match parsed {
        Some(u) => RowAction::Update(u),
        None => {
            if !name.is_empty() && id.is_empty() {
                RowAction::Create
            } else {
                RowAction::Reject
            }
        },
    }
}

/// Classifies a row by its identifier text and name.
pub fn classify_row(id: &str, name: &str) -> (r: RowAction)
    ensures
        action_for(r, id@, uuid_text(id@), name@),
        !uuid_sized(id@.len() as int) ==> uuid_text(id@) is None,
        id@.len() == 0 && name@.len() > 0 ==> r is Create,
        id@.len() == 0 && name@.len() == 0 ==> r is Reject,
{
    let parsed = parse_uuid(id);
    decide_row(id, parsed, name)
}

#[derive(Debug, Clone, Copy, PartialEq, Eq, Structural)]
pub enum HttpMethod {
    Post,
    Put,
}

/// A request to send: the method and the URL; the body is the row's record.
#[derive(Debug, Clone, PartialEq, Eq)]
pub struct ApiRequest {
    pub method: HttpMethod,
    pub url: String,
}

/// The outcome of preparing one row: its action, and the request to send, if any.
#[derive(Debug, Clone, PartialEq, Eq)]
pub struct RowPlan {
    pub action: RowAction,
    pub request: Option<ApiRequest>,
}

/// The request that carries out `action` on the sensors of one definition: PUT to
/// the sensor for an update, POST to the collection for a create, none for a
/// rejected row.
pub open spec fn request_for(
    req: Option<ApiRequest>,
    action: RowAction,
    base: Seq<char>,
    t: DefinitionType,
    d: DefinitionDataType,
    definition_id: Seq<char>,
) -> bool {
    match action {
        RowAction::Update(u) => req matches Some(q) && q.method == HttpMethod::Put && q.url@
            == sensor_path(base, t, d, definition_id, u@),
        RowAction::Create => req matches Some(q) && q.method == HttpMethod::Post && q.url@
            == sensors_path(base, t, d, definition_id),
        RowAction::Reject => req is None,
    }
}

/// The plan of a row with identifier text `id` and name `name`.
pub open spec fn plan_for(
    p: RowPlan,
    id: Seq<char>,
    name: Seq<char>,
    base: Seq<char>,
    t: DefinitionType,
    d: DefinitionDataType,
    definition_id: Seq<char>,
) -> bool {
    &&& action_for(p.action, id, uuid_text(id), name)
    &&& request_for(p.request, p.action, base, t, d, definition_id)
}

/// The request for an action already decided.
pub fn request_for_action(
    action: &RowAction,
    instance_url: &str,
    t: DefinitionType,
    d: DefinitionDataType,
    definition_id: &str,
) -> (r: Option<ApiRequest>)
    ensures
        request_for(r, *action, instance_url@, t, d, definition_id@),
{
    match action {
        RowAction::Update(u) => Some(
            ApiRequest {
                method: HttpMethod::Put,
                url: sensor_url(instance_url, t, d, definition_id, u.as_str()),
            },
        ),
        RowAction::Create => Some(
            ApiRequest { method: HttpMethod::Post, url: sensors_url(instance_url, t, d, definition_id) },
        ),
        RowAction::Reject => None,
    }
}

/// Classifies a row and builds its request.
pub fn plan_row(
    id: &str,
    name: &str,
    instance_url: &str,
    t: DefinitionType,
    d: DefinitionDataType,
    definition_id: &str,
) -> (r: RowPlan)
    ensures
        plan_for(r, id@, name@, instance_url@, t, d, definition_id@),
        !uuid_sized(id@.len() as int) ==> uuid_text(id@) is None,
{
    let action = classify_row(id, name);
    let request = request_for_action(&action, instance_url, t, d, definition_id);
    RowPlan { action, request }
}

/// A row with an empty name and an identifier that is no UUID is rejected, and no
/// request is made for it.
pub proof fn lemma_rejected_row_sends_nothing(
    p: RowPlan,
    id: Seq<char>,
    name: Seq<char>,
    base: Seq<char>,
    t: DefinitionType,
    d: DefinitionDataType,
    definition_id: Seq<char>,
)
    requires
        plan_for(p, id, name, base, t, d, definition_id),
        name.len() == 0,
        uuid_text(id) is None,
    ensures
        p.action is Reject,
        p.request is None,
{
}

impl BacnetIpNumericSensor {
    /// Readies an imported row to be sent: an empty identifier, unit and unit id
    /// become absent, and the row is classified on its identifier and name.
    pub fn prepare_import(&mut self, instance_url: &str, definition_id: &str) -> (r: RowPlan)
        ensures
            plan_for(
                r,
                text_or_empty(opt_view(old(self).id)),
                old(self).name@,
                instance_url@,
                DefinitionType::Bacnet,
                DefinitionDataType::Numeric,
                definition_id@,
            ),
            !uuid_sized(text_or_empty(opt_view(old(self).id)).len() as int) ==> uuid_text(
                text_or_empty(opt_view(old(self).id)),
            ) is None,
            cleared(old(self).id, final(self).id),
            cleared(old(self).unit, final(self).unit),
            cleared(old(self).unit_id, final(self).unit_id),
            final(self).name == old(self).name,
            final(self).multiplier_bits == old(self).multiplier_bits,
            final(self).object_instance == old(self).object_instance,
            final(self).object_type == old(self).object_type,
            final(self).sensor_type == old(self).sensor_type,
            final(self).sensor_type_id == old(self).sensor_type_id,
    {
        let id = self.get_id_as_string();
        self.clean_empty_id();
        self.clean_sensor_empty_unit();
        plan_row(
            id.as_str(),
            self.name.as_str(),
            instance_url,
            DefinitionType::Bacnet,
            DefinitionDataType::Numeric,
            definition_id,
        )
    }
}

impl ModbusTcpNumericSensor {
    /// Readies an imported row to be sent: an empty identifier, unit and unit id
    /// become absent, and the row is classified on its identifier and name.
    pub fn prepare_import(&mut self, instance_url: &str, definition_id: &str) -> (r: RowPlan)
        ensures
            plan_for(
                r,
                text_or_empty(opt_view(old(self).id)),
                old(self).name@,
                instance_url@,
                DefinitionType::Modbus,
                DefinitionDataType::Numeric,
                definition_id@,
            ),
            !uuid_sized(text_or_empty(opt_view(old(self).id)).len() as int) ==> uuid_text(
                text_or_empty(opt_view(old(self).id)),
            ) is None,
            cleared(old(self).id, final(self).id),
            cleared(old(self).unit, final(self).unit),
            cleared(old(self).unit_id, final(self).unit_id),
            final(self).name == old(self).name,
            final(self).multiplier_bits == old(self).multiplier_bits,
            final(self).address == old(self).address,
            final(self).register_type == old(self).register_type,
            final(self).data_setting == old(self).data_setting,
            final(self).sensor_type == old(self).sensor_type,
            final(self).sensor_type_id == old(self).sensor_type_id,
    {
        let id = self.get_id_as_string();
        self.clean_empty_id();
        self.clean_sensor_empty_unit();
        plan_row(
            id.as_str(),
            self.name.as_str(),
            instance_url,
            DefinitionType::Modbus,
            DefinitionDataType::Numeric,
            definition_id,
        )
    }
}

impl BacnetIpNonNumericSensor {
    /// Readies an imported row to be sent: an empty identifier becomes absent, and
    /// the row is classified on its identifier and name.
    pub fn prepare_import(&mut self, instance_url: &str, definition_id: &str) -> (r: RowPlan)
        ensures
            plan_for(
                r,
                text_or_empty(opt_view(old(self).id)),
                old(self).name@,
                instance_url@,
                DefinitionType::Bacnet,
                DefinitionDataType::NonNumeric,
                definition_id@,
            ),
            !uuid_sized(text_or_empty(opt_view(old(self).id)).len() as int) ==> uuid_text(
                text_or_empty(opt_view(old(self).id)),
            ) is None,
            cleared(old(self).id, final(self).id),
            final(self).same_but_id(old(self)),
    {
        let id = self.get_id_as_string();
        self.clean_empty_id();
        plan_row(
            id.as_str(),
            self.name.as_str(),
            instance_url,
            DefinitionType::Bacnet,
            DefinitionDataType::NonNumeric,
            definition_id,
        )
    }
}

impl ModbusTcpNonNumericSensor {
    /// Readies an imported row to be sent: an empty identifier becomes absent, and
    /// the row is classified on its identifier and name.
    pub fn prepare_import(&mut self, instance_url: &str, definition_id: &str) -> (r: RowPlan)
        ensures
            plan_for(
                r,
                text_or_empty(opt_view(old(self).id)),
                old(self).name@,
                instance_url@,
                DefinitionType::Modbus,
                DefinitionDataType::NonNumeric,
                definition_id@,
            ),
            !uuid_sized(text_or_empty(opt_view(old(self).id)).len() as int) ==> uuid_text(
                text_or_empty(opt_view(old(self).id)),
            ) is None,
            cleared(old(self).id, final(self).id),
            final(self).same_but_id(old(self)),
    {
        let id = self.get_id_as_string();
        self.clean_empty_id();
        plan_row(
            id.as_str(),
            self.name.as_str(),
            instance_url,
            DefinitionType::Modbus,
            DefinitionDataType::NonNumeric,
            definition_id,
        )
    }
}

} // verus!
