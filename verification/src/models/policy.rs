//! The policy: its document, the validation of the document, and the
//! context that a caller gives to an evaluation.

use vstd::prelude::*;
use std::collections::HashMap;
use crate::json::{
    find_member, json_shape, keys_of, member_in, member_of, members_view, read_member, shape_view,
    JsonShape, JsonShapeView, Member, MemberView,
};
use crate::yaml::{to_json, yaml_as_json};
use crate::text::{distinct, owned, same_text, texts};

verus! {

/// How serious a policy is. Informational: no decision of the engine reads it.
#[derive(Clone, Copy, Debug, PartialEq, Eq, Structural)]
pub enum Severity {
    Low,
    Medium,
    High,
    Critical,
}

impl Severity {
    /// Position in the order low < medium < high < critical.
    pub open spec fn rank(self) -> nat {
        match self {
            Severity::Low => 0,
            Severity::Medium => 1,
            Severity::High => 2,
            Severity::Critical => 3,
        }
    }

    /// The severity that a piece of text names, if it names one.
    pub open spec fn named(text: Seq<char>) -> Option<Severity> {
        if text == "low"@ {
            Some(Severity::Low)
        } else if text == "medium"@ {
            Some(Severity::Medium)
        } else if text == "high"@ {
            Some(Severity::High)
        } else if text == "critical"@ {
            Some(Severity::Critical)
        } else {
            None
        }
    }

    /// The text that names this severity.
    pub open spec fn label(self) -> Seq<char> {
        match self {
            Severity::Low => "low"@,
            Severity::Medium => "medium"@,
            Severity::High => "high"@,
            Severity::Critical => "critical"@,
        }
    }

    /// Reads a severity from its lower-case name.
    pub fn parse(text: &str) -> (r: Option<Severity>)
        ensures
            r == Severity::named(text@),
    {
        if same_text(text, "low") {
            Some(Severity::Low)
        } else if same_text(text, "medium") {
            Some(Severity::Medium)
        } else if same_text(text, "high") {
            Some(Severity::High)
        } else if same_text(text, "critical") {
            Some(Severity::Critical)
        } else {
            None
        }
    }

    /// The lower-case name of this severity.
    pub fn name(&self) -> (r: String)
        ensures
            r@ == self.label(),
    {
        match self {
            Severity::Low => owned("low"),
            Severity::Medium => owned("medium"),
            Severity::High => owned("high"),
            Severity::Critical => owned("critical"),
        }
    }

    /// Numeric position, for comparing severities.
    pub fn level(&self) -> (r: u8)
        ensures
            r == self.rank(),
    {
        match self {
            Severity::Low => 0,
            Severity::Medium => 1,
            Severity::High => 2,
            Severity::Critical => 3,
        }
    }

    /// Whether this severity is at least as serious as `other`.
    pub fn at_least(&self, other: &Severity) -> (r: bool)
        ensures
            r == (self.rank() >= other.rank()),
    {
        self.level() >= other.level()
    }
}

/// Every severity is read back from its own name.
pub proof fn lemma_severity_name_round_trip(s: Severity)
    ensures
        Severity::named(s.label()) == Some(s),
{
    reveal_strlit("low");
    reveal_strlit("medium");
    reveal_strlit("high");
    reveal_strlit("critical");
    assert("low"@.len() == 3);
    assert("medium"@.len() == 6);
    assert("high"@.len() == 4);
    assert("critical"@.len() == 8);
}

/// A named check with its parameters, as one entry of a policy declares it.
///
/// The parameters are JSON text. They are opaque here: the client that
/// checks the condition reads them when the condition is evaluated.
pub struct PolicyCondition {
    pub name: String,
    pub parameters: String,
}

/// A condition as plain values.
pub struct PolicyConditionView {
    pub name: Seq<char>,
    pub parameters: Seq<char>,
}

impl View for PolicyCondition {
    type V = PolicyConditionView;

    open spec fn view(&self) -> PolicyConditionView {
        PolicyConditionView { name: self.name@, parameters: self.parameters@ }
    }
}

/// A named side effect with its parameters, as one entry of a policy
/// declares it. The parameters are JSON text, read when the action is
/// dispatched.
pub struct PolicyAction {
    pub name: String,
    pub parameters: String,
}

/// An action as plain values.
pub struct PolicyActionView {
    pub name: Seq<char>,
    pub parameters: Seq<char>,
}

impl View for PolicyAction {
    type V = PolicyActionView;

    open spec fn view(&self) -> PolicyActionView {
        PolicyActionView { name: self.name@, parameters: self.parameters@ }
    }
}

/// The views of a list of conditions, in order.
pub open spec fn conditions_view(items: Seq<PolicyCondition>) -> Seq<PolicyConditionView> {
    Seq::new(items.len(), |i: int| items[i]@)
}

/// The views of a list of actions, in order.
pub open spec fn actions_view(items: Seq<PolicyAction>) -> Seq<PolicyActionView> {
    Seq::new(items.len(), |i: int| items[i]@)
}

/// The names of a policy's conditions, in declared order.
pub open spec fn condition_names(items: Seq<PolicyConditionView>) -> Seq<Seq<char>> {
    Seq::new(items.len(), |i: int| items[i].name)
}

/// The names of a policy's actions, in declared order.
pub open spec fn action_names(items: Seq<PolicyActionView>) -> Seq<Seq<char>> {
    Seq::new(items.len(), |i: int| items[i].name)
}

/// A validated policy: the unit of governance.
pub struct Policy {
    pub id: String,
    pub name: String,
    pub description: String,
    pub severity: Severity,
    pub enabled: bool,
    pub conditions: Vec<PolicyCondition>,
    pub actions: Vec<PolicyAction>,
}

/// A policy as plain values.
pub struct PolicyView {
    pub id: Seq<char>,
    pub name: Seq<char>,
    pub description: Seq<char>,
    pub severity: Severity,
    pub enabled: bool,
    pub conditions: Seq<PolicyConditionView>,
    pub actions: Seq<PolicyActionView>,
}

impl View for Policy {
    type V = PolicyView;

    open spec fn view(&self) -> PolicyView {
        PolicyView {
            id: self.id@,
            name: self.name@,
            description: self.description@,
            severity: self.severity,
            enabled: self.enabled,
            conditions: conditions_view(self.conditions@),
            actions: actions_view(self.actions@),
        }
    }
}

impl PolicyView {
    /// Condition names are unique, and so are action names.
    pub open spec fn well_formed(self) -> bool {
        &&& distinct(condition_names(self.conditions))
        &&& distinct(action_names(self.actions))
    }
}

/// A policy document as read from its source, before validation. The two
/// mappings are JSON text; a mapping that the document leaves out is the
/// text `null`.
pub struct PolicyFile {
    pub id: String,
    pub name: String,
    pub description: String,
    pub severity: String,
    pub enabled: bool,
    pub conditions: String,
    pub actions: String,
}

/// The fields of a document as plain values.
pub struct PolicyFileView {
    pub id: Seq<char>,
    pub name: Seq<char>,
    pub description: Seq<char>,
    pub severity: Seq<char>,
    pub enabled: bool,
    pub conditions: Seq<char>,
    pub actions: Seq<char>,
}

impl View for PolicyFile {
    type V = PolicyFileView;

    open spec fn view(&self) -> PolicyFileView {
        PolicyFileView {
            id: self.id@,
            name: self.name@,
            description: self.description@,
            severity: self.severity@,
            enabled: self.enabled,
            conditions: self.conditions@,
            actions: self.actions@,
        }
    }
}

/// The field of a policy document that an error is about.
#[derive(Clone, Copy, Debug, PartialEq, Eq, Structural)]
pub enum PolicyField {
    Id,
    Name,
    Description,
    Severity,
    Enabled,
    Conditions,
    Actions,
}

impl PolicyField {
    /// The field's name in a document.
    pub open spec fn label(self) -> Seq<char> {
        match self {
            PolicyField::Id => "id"@,
            PolicyField::Name => "name"@,
            PolicyField::Description => "description"@,
            PolicyField::Severity => "severity"@,
            PolicyField::Enabled => "enabled"@,
            PolicyField::Conditions => "conditions"@,
            PolicyField::Actions => "actions"@,
        }
    }

    /// The field's name in a document.
    pub fn name(&self) -> (r: String)
        ensures
            r@ == self.label(),
    {
        match self {
            PolicyField::Id => owned("id"),
            PolicyField::Name => owned("name"),
            PolicyField::Description => owned("description"),
            PolicyField::Severity => owned("severity"),
            PolicyField::Enabled => owned("enabled"),
            PolicyField::Conditions => owned("conditions"),
            PolicyField::Actions => owned("actions"),
        }
    }
}

/// Why a policy document was rejected.
#[derive(Clone, Copy, Debug, PartialEq, Eq, Structural)]
pub enum PolicyError {
    /// The text is no YAML document.
    Syntax,
    /// The document is not a mapping of fields.
    NotAMapping,
    /// A field that every policy needs is not there.
    MissingField(PolicyField),
    /// The field holds a value of the wrong kind: an unknown severity, or
    /// something that is neither a mapping nor null where a mapping belongs.
    InvalidField(PolicyField),
}

impl PolicyError {
    /// The field that the error is about, where it is about one.
    pub fn field(&self) -> (r: Option<PolicyField>)
        ensures
            r == match *self {
                PolicyError::MissingField(f) => Some(f),
                PolicyError::InvalidField(f) => Some(f),
                _ => None,
            },
    {
        match self {
            PolicyError::MissingField(f) => Some(*f),
            PolicyError::InvalidField(f) => Some(*f),
            _ => None,
        }
    }

    /// What went wrong, without the field.
    pub open spec fn complaint(self) -> Seq<char> {
        match self {
            PolicyError::Syntax => "the document is not valid YAML"@,
            PolicyError::NotAMapping => "the document is not a mapping"@,
            PolicyError::MissingField(_) => ": missing field"@,
            PolicyError::InvalidField(_) => ": invalid value"@,
        }
    }

    /// The message for people: the field, where the error is about one,
    /// and what went wrong.
    pub open spec fn text(self) -> Seq<char> {
        match self {
            PolicyError::MissingField(f) => f.label() + self.complaint(),
            PolicyError::InvalidField(f) => f.label() + self.complaint(),
            _ => self.complaint(),
        }
    }

    /// A message for people, naming the field.
    pub fn message(&self) -> (r: String)
        ensures
            r@ == self.text(),
    {
        match self {
            PolicyError::Syntax => owned("the document is not valid YAML"),
            PolicyError::NotAMapping => owned("the document is not a mapping"),
            PolicyError::MissingField(f) => {
                let mut out = f.name();
                out.append(": missing field");
                out
            },
            PolicyError::InvalidField(f) => {
                let mut out = f.name();
                out.append(": invalid value");
                out
            },
        }
    }
}

/// The text that a field holds, where the field must be there. A number
/// stands for the text that writes it.
pub open spec fn required_text_in(member: MemberView, field: PolicyField) -> Result<Seq<char>, PolicyError> {
    match member {
        MemberView::Absent => Err(PolicyError::MissingField(field)),
        MemberView::Present(JsonShapeView::Text(t)) => Ok(t),
        MemberView::Present(JsonShapeView::Number(t)) => Ok(t),
        _ => Err(PolicyError::InvalidField(field)),
    }
}

/// The text that a field holds, where the field may be left out: then it
/// is empty.
pub open spec fn optional_text_in(member: MemberView, field: PolicyField) -> Result<Seq<char>, PolicyError> {
    match member {
        MemberView::Absent => Ok(Seq::empty()),
        MemberView::Present(JsonShapeView::Null) => Ok(Seq::empty()),
        MemberView::Present(JsonShapeView::Text(t)) => Ok(t),
        MemberView::Present(JsonShapeView::Number(t)) => Ok(t),
        _ => Err(PolicyError::InvalidField(field)),
    }
}

/// The flag that a field holds, where the field must be there.
pub open spec fn required_flag_in(member: MemberView, field: PolicyField) -> Result<bool, PolicyError> {
    match member {
        MemberView::Absent => Err(PolicyError::MissingField(field)),
        MemberView::Present(JsonShapeView::Flag(b)) => Ok(b),
        _ => Err(PolicyError::InvalidField(field)),
    }
}

/// The JSON text of a section: that of the member, or `null` where the
/// document leaves the section out.
pub open spec fn section_text(members: Seq<(Seq<char>, Seq<char>)>, key: Seq<char>) -> Seq<char> {
    match member_of(members, key) {
        Some(text) => text,
        None => "null"@,
    }
}

/// The fields that the members of a document hold, or the first fault,
/// fields taken in the order id, name, description, severity, enabled.
pub open spec fn file_from(members: Seq<(Seq<char>, Seq<char>)>) -> Result<PolicyFileView, PolicyError> {
    let id = optional_text_in(member_in(members, "id"@), PolicyField::Id);
    let name = required_text_in(member_in(members, "name"@), PolicyField::Name);
    let description = required_text_in(member_in(members, "description"@), PolicyField::Description);
    let severity = required_text_in(member_in(members, "severity"@), PolicyField::Severity);
    let enabled = required_flag_in(member_in(members, "enabled"@), PolicyField::Enabled);
    if id is Err {
        Err(id->Err_0)
    } else if name is Err {
        Err(name->Err_0)
    } else if description is Err {
        Err(description->Err_0)
    } else if severity is Err {
        Err(severity->Err_0)
    } else if enabled is Err {
        Err(enabled->Err_0)
    } else {
        Ok(
            PolicyFileView {
                id: id->Ok_0,
                name: name->Ok_0,
                description: description->Ok_0,
                severity: severity->Ok_0,
                enabled: enabled->Ok_0,
                conditions: section_text(members, "conditions"@),
                actions: section_text(members, "actions"@),
            },
        )
    }
}

/// The fields that a YAML document holds, or why it holds no policy.
pub open spec fn document_file(document: Seq<char>) -> Result<PolicyFileView, PolicyError> {
    match yaml_as_json(document) {
        None => Err(PolicyError::Syntax),
        Some(json) => match json_shape(json) {
            Some(JsonShapeView::Object(members)) => file_from(members),
            _ => Err(PolicyError::NotAMapping),
        },
    }
}

/// Reads a text field that must be there.
pub fn required_text(member: Member, field: PolicyField) -> (r: Result<String, PolicyError>)
    ensures
        match r {
            Ok(text) => required_text_in(member@, field) == Ok::<Seq<char>, PolicyError>(text@),
            Err(e) => required_text_in(member@, field) == Err::<Seq<char>, PolicyError>(e),
        },
{
    match member {
        Member::Absent => Err(PolicyError::MissingField(field)),
        Member::Present(JsonShape::Text(t)) => Ok(t),
        Member::Present(JsonShape::Number(t)) => Ok(t),
        _ => Err(PolicyError::InvalidField(field)),
    }
}

/// Reads a text field that may be left out.
pub fn optional_text(member: Member, field: PolicyField) -> (r: Result<String, PolicyError>)
    ensures
        match r {
            Ok(text) => optional_text_in(member@, field) == Ok::<Seq<char>, PolicyError>(text@),
            Err(e) => optional_text_in(member@, field) == Err::<Seq<char>, PolicyError>(e),
        },
{
    match member {
        Member::Absent => Ok(String::new()),
        Member::Present(JsonShape::Null) => Ok(String::new()),
        Member::Present(JsonShape::Text(t)) => Ok(t),
        Member::Present(JsonShape::Number(t)) => Ok(t),
        _ => Err(PolicyError::InvalidField(field)),
    }
}

/// Reads a flag that must be there.
pub fn required_flag(member: Member, field: PolicyField) -> (r: Result<bool, PolicyError>)
    ensures
        r == required_flag_in(member@, field),
{
    match member {
        Member::Absent => Err(PolicyError::MissingField(field)),
        Member::Present(JsonShape::Flag(b)) => Ok(b),
        _ => Err(PolicyError::InvalidField(field)),
    }
}

/// The JSON text of a section of a document.
pub fn read_section(members: &Vec<(String, String)>, key: &str) -> (r: String)
    ensures
        r@ == section_text(members_view(members@), key@),
{
    match find_member(members, key) {
        Some(text) => text.clone(),
        None => owned("null"),
    }
}

impl PolicyFile {
    /// Reads the fields of a policy from the members of its document.
    pub fn from_members(members: &Vec<(String, String)>) -> (r: Result<PolicyFile, PolicyError>)
        ensures
            match r {
                Ok(file) => file_from(members_view(members@)) == Ok::<PolicyFileView, PolicyError>(
                    file@,
                ),
                Err(e) => file_from(members_view(members@)) == Err::<PolicyFileView, PolicyError>(e),
            },
    {
        let id = match optional_text(read_member(members, "id"), PolicyField::Id) {
            Ok(v) => v,
            Err(e) => { return Err(e); },
        };
        let name = match required_text(read_member(members, "name"), PolicyField::Name) {
            Ok(v) => v,
            Err(e) => { return Err(e); },
        };
        let description = match required_text(
            read_member(members, "description"),
            PolicyField::Description,
        ) {
            Ok(v) => v,
            Err(e) => { return Err(e); },
        };
        let severity = match required_text(read_member(members, "severity"), PolicyField::Severity) {
            Ok(v) => v,
            Err(e) => { return Err(e); },
        };
        let enabled = match required_flag(read_member(members, "enabled"), PolicyField::Enabled) {
            Ok(v) => v,
            Err(e) => { return Err(e); },
        };
        Ok(
            PolicyFile {
                id,
                name,
                description,
                severity,
                enabled,
                conditions: read_section(members, "conditions"),
                actions: read_section(members, "actions"),
            },
        )
    }

    /// Reads a policy document from YAML text. The document must be a
    /// mapping with the text fields `name`, `description` and `severity`
    /// and the flag `enabled`. `id` may be left out and is then empty.
    /// `conditions` and `actions` may be left out and are then null. What
    /// the fields hold is validated by `Policy::from_file`.
    pub fn parse(document: &str) -> (r: Result<PolicyFile, PolicyError>)
        ensures
            match r {
                Ok(file) => document_file(document@) == Ok::<PolicyFileView, PolicyError>(file@),
                Err(e) => document_file(document@) == Err::<PolicyFileView, PolicyError>(e),
            },
    {
        let json = match to_json(document) {
            Some(json) => json,
            None => { return Err(PolicyError::Syntax); },
        };
        match JsonShape::parse(json.as_str()) {
            Some(JsonShape::Object(members)) => PolicyFile::from_members(&members),
            _ => Err(PolicyError::NotAMapping),
        }
    }
}

/// The entries that a section of a document declares: those of a mapping,
/// none for null, and no answer for anything else.
pub open spec fn entries_of(shape: Option<JsonShapeView>) -> Option<Seq<(Seq<char>, Seq<char>)>> {
    match shape {
        Some(JsonShapeView::Null) => Some(Seq::empty()),
        Some(JsonShapeView::Object(members)) => Some(members),
        _ => None,
    }
}

/// The names that a section of a document declares.
pub open spec fn section_keys(shape: Option<JsonShapeView>) -> Seq<Seq<char>> {
    match entries_of(shape) {
        Some(entries) => keys_of(entries),
        None => Seq::empty(),
    }
}

/// The conditions that a mapping's entries declare, in the mapping's order.
pub open spec fn conditions_from(entries: Seq<(Seq<char>, Seq<char>)>) -> Seq<PolicyConditionView> {
    Seq::new(entries.len(), |i: int| PolicyConditionView { name: entries[i].0, parameters: entries[i].1 })
}

/// The actions that a mapping's entries declare, in the mapping's order.
pub open spec fn actions_from(entries: Seq<(Seq<char>, Seq<char>)>) -> Seq<PolicyActionView> {
    Seq::new(entries.len(), |i: int| PolicyActionView { name: entries[i].0, parameters: entries[i].1 })
}

/// The first fault in the fields of a policy document, taken in the
/// order severity, conditions, actions; `None` for valid fields.
pub open spec fn document_fault(file: PolicyFileView) -> Option<PolicyError> {
    if Severity::named(file.severity) is None {
        Some(PolicyError::InvalidField(PolicyField::Severity))
    } else if entries_of(json_shape(file.conditions)) is None {
        Some(PolicyError::InvalidField(PolicyField::Conditions))
    } else if entries_of(json_shape(file.actions)) is None {
        Some(PolicyError::InvalidField(PolicyField::Actions))
    } else {
        None
    }
}

/// The policy that valid fields declare.
pub open spec fn document_policy(file: PolicyFileView) -> PolicyView {
    PolicyView {
        id: file.id,
        name: file.name,
        description: file.description,
        severity: Severity::named(file.severity).unwrap(),
        enabled: file.enabled,
        conditions: conditions_from(entries_of(json_shape(file.conditions)).unwrap()),
        actions: actions_from(entries_of(json_shape(file.actions)).unwrap()),
    }
}

/// What a YAML document amounts to: the policy it declares, or the first
/// fault in it.
pub open spec fn policy_in(document: Seq<char>) -> Result<PolicyView, PolicyError> {
    match document_file(document) {
        Err(e) => Err(e),
        Ok(file) => match document_fault(file) {
            Some(e) => Err(e),
            None => Ok(document_policy(file)),
        },
    }
}

/// The entries that a section declares, given the shape that was read
/// from its text.
pub fn section_entries(shape: Option<JsonShape>) -> (r: Option<Vec<(String, String)>>)
    ensures
        match r {
            Some(entries) => entries_of(shape_view(shape)) == Some(members_view(entries@)),
            None => entries_of(shape_view(shape)) is None,
        },
{
    match shape {
        Some(JsonShape::Null) => {
            let entries: Vec<(String, String)> = Vec::new();
            assert(members_view(entries@) =~= Seq::<(Seq<char>, Seq<char>)>::empty());
            Some(entries)
        },
        Some(JsonShape::Object(members)) => Some(members),
        _ => None,
    }
}

/// The conditions that a mapping's entries declare.
pub fn conditions_of(entries: &Vec<(String, String)>) -> (r: Vec<PolicyCondition>)
    ensures
        conditions_view(r@) == conditions_from(members_view(entries@)),
{
    let mut out: Vec<PolicyCondition> = Vec::new();
    let mut i: usize = 0;
    while i < entries.len()
        invariant
            i <= entries.len(),
            out.len() == i,
            forall|j: int|
                0 <= j < i ==> (#[trigger] out[j]).name@ == entries[j].0@ && out[j].parameters@
                    == entries[j].1@,
        decreases entries.len() - i,
    {
        out.push(PolicyCondition { name: entries[i].0.clone(), parameters: entries[i].1.clone() });
        i += 1;
    }
    assert(conditions_view(out@) =~= conditions_from(members_view(entries@)));
    out
}

/// The actions that a mapping's entries declare.
pub fn actions_of(entries: &Vec<(String, String)>) -> (r: Vec<PolicyAction>)
    ensures
        actions_view(r@) == actions_from(members_view(entries@)),
{
    let mut out: Vec<PolicyAction> = Vec::new();
    let mut i: usize = 0;
    while i < entries.len()
        invariant
            i <= entries.len(),
            out.len() == i,
            forall|j: int|
                0 <= j < i ==> (#[trigger] out[j]).name@ == entries[j].0@ && out[j].parameters@
                    == entries[j].1@,
        decreases entries.len() - i,
    {
        out.push(PolicyAction { name: entries[i].0.clone(), parameters: entries[i].1.clone() });
        i += 1;
    }
    assert(actions_view(out@) =~= actions_from(members_view(entries@)));
    out
}

/// The names of a list of conditions, in order.
pub fn names_of_conditions(items: &Vec<PolicyCondition>) -> (r: Vec<String>)
    ensures
        texts(r@) == condition_names(conditions_view(items@)),
{
    let mut out: Vec<String> = Vec::new();
    let mut i: usize = 0;
    while i < items.len()
        invariant
            i <= items.len(),
            out.len() == i,
            forall|j: int| 0 <= j < i ==> out[j]@ == #[trigger] items[j].name@,
        decreases items.len() - i,
    {
        out.push(items[i].name.clone());
        i += 1;
    }
    assert(texts(out@) =~= condition_names(conditions_view(items@)));
    out
}

/// The names of a list of actions, in order.
pub fn names_of_actions(items: &Vec<PolicyAction>) -> (r: Vec<String>)
    ensures
        texts(r@) == action_names(actions_view(items@)),
{
    let mut out: Vec<String> = Vec::new();
    let mut i: usize = 0;
    while i < items.len()
        invariant
            i <= items.len(),
            out.len() == i,
            forall|j: int| 0 <= j < i ==> out[j]@ == #[trigger] items[j].name@,
        decreases items.len() - i,
    {
        out.push(items[i].name.clone());
        i += 1;
    }
    assert(texts(out@) =~= action_names(actions_view(items@)));
    out
}

impl Policy {
    /// Validates a policy document. The severity must be one of the four
    /// names, and each of the two sections a mapping or null. What the
    /// parameters of a condition or an action hold is not looked at here:
    /// each is validated when its condition or action is evaluated.
    pub fn from_file(file: PolicyFile) -> (r: Result<Policy, PolicyError>)
        ensures
            match r {
                Ok(policy) => document_fault(file@) is None && policy@ == document_policy(file@)
                    && policy@.well_formed(),
                Err(e) => document_fault(file@) == Some(e),
            },
    {
        let severity = match Severity::parse(file.severity.as_str()) {
            Some(s) => s,
            None => { return Err(PolicyError::InvalidField(PolicyField::Severity)); },
        };
        let declared = JsonShape::parse(file.conditions.as_str());
        let ghost declared_keys = section_keys(shape_view(declared));
        assert(distinct(declared_keys));
        let condition_entries = match section_entries(declared) {
            Some(entries) => entries,
            None => { return Err(PolicyError::InvalidField(PolicyField::Conditions)); },
        };
        assert(keys_of(members_view(condition_entries@)) =~= declared_keys);
        let conditions = conditions_of(&condition_entries);
        assert(condition_names(conditions_view(conditions@)) =~= keys_of(
            members_view(condition_entries@),
        ));
        let fired = JsonShape::parse(file.actions.as_str());
        let ghost fired_keys = section_keys(shape_view(fired));
        assert(distinct(fired_keys));
        let action_entries = match section_entries(fired) {
            Some(entries) => entries,
            None => { return Err(PolicyError::InvalidField(PolicyField::Actions)); },
        };
        assert(keys_of(members_view(action_entries@)) =~= fired_keys);
        let actions = actions_of(&action_entries);
        assert(action_names(actions_view(actions@)) =~= keys_of(members_view(action_entries@)));
        Ok(
            Policy {
                id: file.id,
                name: file.name,
                description: file.description,
                severity,
                enabled: file.enabled,
                conditions,
                actions,
            },
        )
    }

    /// Reads and validates a policy from the YAML text of its document.
    pub fn parse(document: &str) -> (r: Result<Policy, PolicyError>)
        ensures
            match r {
                Ok(policy) => policy_in(document@) == Ok::<PolicyView, PolicyError>(policy@)
                    && policy@.well_formed(),
                Err(e) => policy_in(document@) == Err::<PolicyView, PolicyError>(e),
            },
    {
        match PolicyFile::parse(document) {
            Err(e) => Err(e),
            Ok(file) => Policy::from_file(file),
        }
    }

    /// What a listing shows of this policy.
    pub fn summary(&self) -> (r: PolicyResult)
        ensures
            r.policy_id@ == self.id@,
            r.policy_name@ == self.name@,
            r.policy_description@ == self.description@,
            texts(r.policy_conditions@) == condition_names(self@.conditions),
            texts(r.policy_actions@) == action_names(self@.actions),
    {
        PolicyResult {
            policy_id: self.id.clone(),
            policy_name: self.name.clone(),
            policy_description: self.description.clone(),
            policy_conditions: names_of_conditions(&self.conditions),
            policy_actions: names_of_actions(&self.actions),
        }
    }
}

/// What a listing shows of a policy: its identity and the names it declares.
pub struct PolicyResult {
    pub policy_id: String,
    pub policy_name: String,
    pub policy_description: String,
    pub policy_conditions: Vec<String>,
    pub policy_actions: Vec<String>,
}

/// Who asks for an evaluation. Supplied by the caller; the engine reads it
/// and never changes it.
pub struct PolicyContext {
    pub user_id: String,
    pub organization: String,
    pub policy_version: String,
    pub metadata: HashMap<String, String>,
}

} // verus!
