//! Documents, as they are sent to the service and come back from it, and
//! their JSON form.
//!
//! Only a document's path and template are always there. Every other field
//! may be missing: such a field is written only where it is present, and is
//! read as present only where the JSON has it with a value other than
//! `null`.

use crate::json::{array_value, json_of, jsons_of, member, members_of, object_value, Json};
use crate::shape::{
    as_string_map, flag_member, get_flag, get_optional_flag, get_optional_string_map,
    get_optional_text, get_optional_texts, get_string_map, get_text, optional_flag_json,
    optional_flag_member, optional_string_map_json, optional_string_map_member,
    new_object, optional_text_json, optional_text_member, optional_texts_json,
    optional_texts_member, present, present_member, put, put_optional_flag, put_optional_string_map, put_optional_text,
    put_optional_texts, put_text, required, string_map_json, string_map_member, text_member,
    with_member, write_string_map,
};
use crate::string_map::StringMap;
use vstd::prelude::*;

verus! {

/// A template registered with the service, and what fills its placeholders.
#[derive(Clone, Debug)]
pub struct DocumentTemplate {
    /// The key by which the service knows the template.
    pub key: String,
    /// For each placeholder's name, the text that takes its place.
    pub data: StringMap,
}

/// The mathematical model of a [`DocumentTemplate`].
pub struct DocumentTemplateView {
    pub key: Seq<char>,
    pub data: Map<Seq<char>, Seq<char>>,
}

impl View for DocumentTemplate {
    type V = DocumentTemplateView;

    open spec fn view(&self) -> DocumentTemplateView {
        DocumentTemplateView { key: self.key@, data: self.data@ }
    }
}

impl DeepView for DocumentTemplate {
    type V = DocumentTemplateView;

    open spec fn deep_view(&self) -> DocumentTemplateView {
        self@
    }
}

/// What an event says of the document it happened to. Values of this type
/// come from the service only: they are read, not made.
#[derive(Clone, Debug)]
pub struct EventData {
    user: StringMap,
    account: StringMap,
    deadline_at: String,
    auto_close: bool,
    locale: String,
}

/// The mathematical model of an [`EventData`].
pub struct EventDataView {
    pub user: Map<Seq<char>, Seq<char>>,
    pub account: Map<Seq<char>, Seq<char>>,
    pub deadline_at: Seq<char>,
    pub auto_close: bool,
    pub locale: Seq<char>,
}

impl View for EventData {
    type V = EventDataView;

    closed spec fn view(&self) -> EventDataView {
        EventDataView {
            user: self.user@,
            account: self.account@,
            deadline_at: self.deadline_at@,
            auto_close: self.auto_close,
            locale: self.locale@,
        }
    }
}

impl DeepView for EventData {
    type V = EventDataView;

    open spec fn deep_view(&self) -> EventDataView {
        self@
    }
}

/// Something that happened to a document.
#[derive(Clone, Debug)]
pub struct DocumentEvent {
    /// The kind of event.
    pub name: String,
    /// What the event says of the document.
    pub data: EventData,
    /// When it happened.
    pub occurred_at: String,
}

/// The mathematical model of a [`DocumentEvent`].
pub struct DocumentEventView {
    pub name: Seq<char>,
    pub data: EventDataView,
    pub occurred_at: Seq<char>,
}

impl View for DocumentEvent {
    type V = DocumentEventView;

    open spec fn view(&self) -> DocumentEventView {
        DocumentEventView { name: self.name@, data: self.data@, occurred_at: self.occurred_at@ }
    }
}

impl DeepView for DocumentEvent {
    type V = DocumentEventView;

    open spec fn deep_view(&self) -> DocumentEventView {
        self@
    }
}

/// A document and what the service says of it.
#[derive(Clone, Debug)]
pub struct Document {
    /// The key by which the service knows the document.
    pub key: Option<String>,
    /// The document's full path within the service.
    pub path: String,
    /// The name of the file that was made.
    pub filename: Option<String>,
    /// When the document was last changed.
    pub updated_at: Option<String>,
    /// When the document was finished.
    pub finished_at: Option<String>,
    /// Until when the document can be signed.
    pub deadline_at: Option<String>,
    /// The document's status.
    pub status: Option<String>,
    /// Whether the document is finished by itself once all have signed.
    pub auto_close: Option<bool>,
    /// The document's locale.
    pub locale: Option<String>,
    /// What the caller has noted of the document.
    pub metadata: Option<StringMap>,
    pub sequence_enabled: Option<bool>,
    pub signable_group: Option<String>,
    pub remind_interval: Option<String>,
    /// Where the document can be had from.
    pub downloads: Option<StringMap>,
    /// The template the document is made from.
    pub template: DocumentTemplate,
    /// Those who are to sign the document.
    pub signers: Option<Vec<String>>,
    /// What happened to the document, oldest first.
    pub events: Option<Vec<DocumentEvent>>,
}

/// The mathematical model of a [`Document`].
pub struct DocumentView {
    pub key: Option<Seq<char>>,
    pub path: Seq<char>,
    pub filename: Option<Seq<char>>,
    pub updated_at: Option<Seq<char>>,
    pub finished_at: Option<Seq<char>>,
    pub deadline_at: Option<Seq<char>>,
    pub status: Option<Seq<char>>,
    pub auto_close: Option<bool>,
    pub locale: Option<Seq<char>>,
    pub metadata: Option<Map<Seq<char>, Seq<char>>>,
    pub sequence_enabled: Option<bool>,
    pub signable_group: Option<Seq<char>>,
    pub remind_interval: Option<Seq<char>>,
    pub downloads: Option<Map<Seq<char>, Seq<char>>>,
    pub template: DocumentTemplateView,
    pub signers: Option<Seq<Seq<char>>>,
    pub events: Option<Seq<DocumentEventView>>,
}

impl View for Document {
    type V = DocumentView;

    open spec fn view(&self) -> DocumentView {
        DocumentView {
            key: self.key.deep_view(),
            path: self.path@,
            filename: self.filename.deep_view(),
            updated_at: self.updated_at.deep_view(),
            finished_at: self.finished_at.deep_view(),
            deadline_at: self.deadline_at.deep_view(),
            status: self.status.deep_view(),
            auto_close: self.auto_close,
            locale: self.locale.deep_view(),
            metadata: self.metadata.deep_view(),
            sequence_enabled: self.sequence_enabled,
            signable_group: self.signable_group.deep_view(),
            remind_interval: self.remind_interval.deep_view(),
            downloads: self.downloads.deep_view(),
            template: self.template@,
            signers: self.signers.deep_view(),
            events: self.events.deep_view(),
        }
    }
}

impl DeepView for Document {
    type V = DocumentView;

    open spec fn deep_view(&self) -> DocumentView {
        self@
    }
}

/// The members that a template is written as.
pub open spec fn template_members(template: DocumentTemplateView) -> Map<Seq<char>, Json> {
    Map::empty().insert("key"@, Json::Text(template.key)).insert(
        "data"@,
        string_map_json(template.data),
    )
}

/// The JSON object that a template is written as.
pub open spec fn template_json(template: DocumentTemplateView) -> Json {
    Json::Object(template_members(template))
}

/// The template that a JSON value stands for: an object with a text under
/// `key` and an object of strings under `data`. Nothing for any other value.
pub open spec fn json_template(json: Json) -> Option<DocumentTemplateView> {
    match json {
        Json::Object(members) => match (
            text_member(members, "key"@),
            string_map_member(members, "data"@),
        ) {
            (Some(key), Some(data)) => Some(DocumentTemplateView { key, data }),
            _ => None,
        },
        _ => None,
    }
}

/// The members that an event's data is written as.
pub open spec fn event_data_members(data: EventDataView) -> Map<Seq<char>, Json> {
    Map::empty().insert("user"@, string_map_json(data.user)).insert(
        "account"@,
        string_map_json(data.account),
    ).insert("deadline_at"@, Json::Text(data.deadline_at)).insert(
        "auto_close"@,
        Json::Bool(data.auto_close),
    ).insert("locale"@, Json::Text(data.locale))
}

/// The JSON object that an event's data is written as.
pub open spec fn event_data_json(data: EventDataView) -> Json {
    Json::Object(event_data_members(data))
}

/// The event data that a JSON value stands for: an object that has all
/// five members, each of its kind. Nothing for any other value.
pub open spec fn json_event_data(json: Json) -> Option<EventDataView> {
    match json {
        Json::Object(members) => match (
            string_map_member(members, "user"@),
            string_map_member(members, "account"@),
            text_member(members, "deadline_at"@),
            flag_member(members, "auto_close"@),
            text_member(members, "locale"@),
        ) {
            (Some(user), Some(account), Some(deadline_at), Some(auto_close), Some(locale)) => Some(
                EventDataView { user, account, deadline_at, auto_close, locale },
            ),
            _ => None,
        },
        _ => None,
    }
}

/// The event data under a name, which must be there.
pub open spec fn event_data_member(members: Map<Seq<char>, Json>, name: Seq<char>) -> Option<
    EventDataView,
> {
    match required(members, name) {
        Some(json) => json_event_data(json),
        None => None,
    }
}

/// The members that an event is written as.
pub open spec fn event_members(event: DocumentEventView) -> Map<Seq<char>, Json> {
    Map::empty().insert("name"@, Json::Text(event.name)).insert(
        "data"@,
        event_data_json(event.data),
    ).insert("occurred_at"@, Json::Text(event.occurred_at))
}

/// The JSON object that an event is written as.
pub open spec fn event_json(event: DocumentEventView) -> Json {
    Json::Object(event_members(event))
}

/// The event that a JSON value stands for. Nothing for a value that is not
/// an object with all three members, each of its kind.
pub open spec fn json_event(json: Json) -> Option<DocumentEventView> {
    match json {
        Json::Object(members) => match (
            text_member(members, "name"@),
            event_data_member(members, "data"@),
            text_member(members, "occurred_at"@),
        ) {
            (Some(name), Some(data), Some(occurred_at)) => Some(
                DocumentEventView { name, data, occurred_at },
            ),
            _ => None,
        },
        _ => None,
    }
}

/// The JSON array that a run of events is written as, in the same order.
pub open spec fn events_json(events: Seq<DocumentEventView>) -> Json {
    Json::Array(events.map_values(|event: DocumentEventView| event_json(event)))
}

/// The events that a JSON array stands for, in the same order. Nothing for
/// any other value, nor for an array with an item that is no event.
pub open spec fn as_events(json: Json) -> Option<Seq<DocumentEventView>> {
    match json {
        Json::Array(items) => if forall|i: int|
            0 <= i < items.len() ==> json_event(#[trigger] items[i]) is Some {
            Some(items.map_values(|item: Json| json_event(item).unwrap()))
        } else {
            None
        },
        _ => None,
    }
}

/// What a run of events that may be missing is written as.
pub open spec fn optional_events_json(events: Option<Seq<DocumentEventView>>) -> Option<Json> {
    match events {
        Some(e) => Some(events_json(e)),
        None => None,
    }
}

/// A run of events that may be missing. Nothing stands for a mismatch,
/// `Some(None)` for a member that is not present.
pub open spec fn optional_events_member(members: Map<Seq<char>, Json>, name: Seq<char>) -> Option<
    Option<Seq<DocumentEventView>>,
> {
    match present(members, name) {
        Some(json) => match as_events(json) {
            Some(events) => Some(Some(events)),
            None => None,
        },
        None => Some(None),
    }
}

/// The template under a name, which must be there.
pub open spec fn template_member(members: Map<Seq<char>, Json>, name: Seq<char>) -> Option<
    DocumentTemplateView,
> {
    match required(members, name) {
        Some(json) => json_template(json),
        None => None,
    }
}

/// The members that a document is written as: its path, its template, and
/// each other field that is present. A field that is not present has no
/// member.
pub open spec fn document_members(document: DocumentView) -> Map<Seq<char>, Json> {
    let required = Map::empty().insert("path"@, Json::Text(document.path)).insert(
        "template"@,
        template_json(document.template),
    );
    let m1 = with_member(required, "key"@, optional_text_json(document.key));
    let m2 = with_member(m1, "filename"@, optional_text_json(document.filename));
    let m3 = with_member(m2, "updated_at"@, optional_text_json(document.updated_at));
    let m4 = with_member(m3, "finished_at"@, optional_text_json(document.finished_at));
    let m5 = with_member(m4, "deadline_at"@, optional_text_json(document.deadline_at));
    let m6 = with_member(m5, "status"@, optional_text_json(document.status));
    let m7 = with_member(m6, "auto_close"@, optional_flag_json(document.auto_close));
    let m8 = with_member(m7, "locale"@, optional_text_json(document.locale));
    let m9 = with_member(m8, "metadata"@, optional_string_map_json(document.metadata));
    let m10 = with_member(m9, "sequence_enabled"@, optional_flag_json(document.sequence_enabled));
    let m11 = with_member(m10, "signable_group"@, optional_text_json(document.signable_group));
    let m12 = with_member(m11, "remind_interval"@, optional_text_json(document.remind_interval));
    let m13 = with_member(m12, "downloads"@, optional_string_map_json(document.downloads));
    let m14 = with_member(m13, "signers"@, optional_texts_json(document.signers));
    with_member(m14, "events"@, optional_events_json(document.events))
}

/// The JSON object that a document is written as.
pub open spec fn document_json(document: DocumentView) -> Json {
    Json::Object(document_members(document))
}

/// Do the members hold a document: a text under `path`, a template under
/// `template`, and under every other name of a document's fields either
/// nothing, `null`, or a value of the field's kind? Members of other names
/// do not count.
pub open spec fn members_hold_document(members: Map<Seq<char>, Json>) -> bool {
    &&& text_member(members, "path"@) is Some
    &&& template_member(members, "template"@) is Some
    &&& optional_text_member(members, "key"@) is Some
    &&& optional_text_member(members, "filename"@) is Some
    &&& optional_text_member(members, "updated_at"@) is Some
    &&& optional_text_member(members, "finished_at"@) is Some
    &&& optional_text_member(members, "deadline_at"@) is Some
    &&& optional_text_member(members, "status"@) is Some
    &&& optional_flag_member(members, "auto_close"@) is Some
    &&& optional_text_member(members, "locale"@) is Some
    &&& optional_string_map_member(members, "metadata"@) is Some
    &&& optional_flag_member(members, "sequence_enabled"@) is Some
    &&& optional_text_member(members, "signable_group"@) is Some
    &&& optional_text_member(members, "remind_interval"@) is Some
    &&& optional_string_map_member(members, "downloads"@) is Some
    &&& optional_texts_member(members, "signers"@) is Some
    &&& optional_events_member(members, "events"@) is Some
}

/// The document that the members hold, where they hold one.
pub open spec fn document_of_members(members: Map<Seq<char>, Json>) -> DocumentView {
    DocumentView {
        key: optional_text_member(members, "key"@).unwrap(),
        path: text_member(members, "path"@).unwrap(),
        filename: optional_text_member(members, "filename"@).unwrap(),
        updated_at: optional_text_member(members, "updated_at"@).unwrap(),
        finished_at: optional_text_member(members, "finished_at"@).unwrap(),
        deadline_at: optional_text_member(members, "deadline_at"@).unwrap(),
        status: optional_text_member(members, "status"@).unwrap(),
        auto_close: optional_flag_member(members, "auto_close"@).unwrap(),
        locale: optional_text_member(members, "locale"@).unwrap(),
        metadata: optional_string_map_member(members, "metadata"@).unwrap(),
        sequence_enabled: optional_flag_member(members, "sequence_enabled"@).unwrap(),
        signable_group: optional_text_member(members, "signable_group"@).unwrap(),
        remind_interval: optional_text_member(members, "remind_interval"@).unwrap(),
        downloads: optional_string_map_member(members, "downloads"@).unwrap(),
        template: template_member(members, "template"@).unwrap(),
        signers: optional_texts_member(members, "signers"@).unwrap(),
        events: optional_events_member(members, "events"@).unwrap(),
    }
}

/// The document that a JSON value stands for: an object whose members hold
/// one. Nothing for any other value.
pub open spec fn json_document(json: Json) -> Option<DocumentView> {
    match json {
        Json::Object(members) => if members_hold_document(members) {
            Some(document_of_members(members))
        } else {
            None
        },
        _ => None,
    }
}

impl DocumentTemplate {
    /// Reads a template from the JSON value that stands for it.
    pub fn from_json(value: &serde_json::Value) -> (found: Option<DocumentTemplate>)
        ensures
            found.deep_view() == json_template(json_of(*value)),
    {
        let object = value.as_object()?;
        let key = get_text(object, "key")?;
        let data = get_string_map(object, "data")?;
        Some(DocumentTemplate { key, data })
    }

    /// Writes the template as a JSON value.
    pub fn to_json(&self) -> (value: serde_json::Value)
        ensures
            json_of(value) == template_json(self@),
    {
        let mut object = new_object();
        put_text(&mut object, "key", &self.key);
        put(&mut object, "data", write_string_map(&self.data));
        object_value(object)
    }
}

impl EventData {
    /// The user who made the document.
    pub fn user(&self) -> (map: &StringMap)
        ensures
            map@ == self@.user,
    {
        &self.user
    }

    /// The account in which the document was made.
    pub fn account(&self) -> (map: &StringMap)
        ensures
            map@ == self@.account,
    {
        &self.account
    }

    /// Until when the document can be signed.
    pub fn deadline_at(&self) -> (text: &String)
        ensures
            text@ == self@.deadline_at,
    {
        &self.deadline_at
    }

    /// Whether the document is finished by itself once all have signed.
    pub fn auto_close(&self) -> (flag: bool)
        ensures
            flag == self@.auto_close,
    {
        self.auto_close
    }

    /// The document's locale.
    pub fn locale(&self) -> (text: &String)
        ensures
            text@ == self@.locale,
    {
        &self.locale
    }

    /// Reads an event's data from the JSON value that stands for it.
    pub fn from_json(value: &serde_json::Value) -> (found: Option<EventData>)
        ensures
            found.deep_view() == json_event_data(json_of(*value)),
    {
        let object = value.as_object()?;
        let user = get_string_map(object, "user")?;
        let account = get_string_map(object, "account")?;
        let deadline_at = get_text(object, "deadline_at")?;
        let auto_close = get_flag(object, "auto_close")?;
        let locale = get_text(object, "locale")?;
        Some(EventData { user, account, deadline_at, auto_close, locale })
    }

    /// Writes the event's data as a JSON value.
    pub fn to_json(&self) -> (value: serde_json::Value)
        ensures
            json_of(value) == event_data_json(self@),
    {
        let mut object = new_object();
        put(&mut object, "user", write_string_map(&self.user));
        put(&mut object, "account", write_string_map(&self.account));
        put_text(&mut object, "deadline_at", &self.deadline_at);
        put(&mut object, "auto_close", crate::json::flag_value(self.auto_close));
        put_text(&mut object, "locale", &self.locale);
        object_value(object)
    }
}

impl DocumentEvent {
    /// Reads an event from the JSON value that stands for it.
    pub fn from_json(value: &serde_json::Value) -> (found: Option<DocumentEvent>)
        ensures
            found.deep_view() == json_event(json_of(*value)),
    {
        let object = value.as_object()?;
        let name = get_text(object, "name")?;
        let data = EventData::from_json(member(object, "data")?)?;
        let occurred_at = get_text(object, "occurred_at")?;
        Some(DocumentEvent { name, data, occurred_at })
    }

    /// Writes the event as a JSON value.
    pub fn to_json(&self) -> (value: serde_json::Value)
        ensures
            json_of(value) == event_json(self@),
    {
        let mut object = new_object();
        put_text(&mut object, "name", &self.name);
        put(&mut object, "data", self.data.to_json());
        put_text(&mut object, "occurred_at", &self.occurred_at);
        object_value(object)
    }
}

/// Reads a run of events from the JSON array that stands for it.
pub fn events_from_json(value: &serde_json::Value) -> (found: Option<Vec<DocumentEvent>>)
    ensures
        found.deep_view() == as_events(json_of(*value)),
{
    let items = value.as_array()?;
    let ghost jsons = jsons_of(items@);
    let mut events: Vec<DocumentEvent> = Vec::new();
    let mut index: usize = 0;
    while index < items.len()
        invariant
            index <= items.len(),
            jsons == jsons_of(items@),
            json_of(*value) == Json::Array(jsons),
            events.len() == index,
            forall|i: int| 0 <= i < index ==> json_event(#[trigger] jsons[i]) == Some(events[i]@),
        decreases items.len() - index,
    {
        match DocumentEvent::from_json(&items[index]) {
            Some(event) => {
                events.push(event);
            },
            None => {
                assert(json_event(jsons[index as int]) is None);
                return None;
            },
        }
        index = index + 1;
    }
    assert(events.deep_view() =~= jsons.map_values(|item: Json| json_event(item).unwrap()));
    Some(events)
}

/// Writes a run of events as a JSON array.
pub fn events_to_json(events: &Vec<DocumentEvent>) -> (value: serde_json::Value)
    ensures
        json_of(value) == events_json(events.deep_view()),
{
    let mut items: Vec<serde_json::Value> = Vec::new();
    let mut index: usize = 0;
    while index < events.len()
        invariant
            index <= events.len(),
            items.len() == index,
            forall|i: int| 0 <= i < index ==> json_of(#[trigger] items[i]) == event_json(events[i]@),
        decreases events.len() - index,
    {
        items.push(events[index].to_json());
        index = index + 1;
    }
    assert(jsons_of(items@) =~= events.deep_view().map_values(
        |event: DocumentEventView| event_json(event),
    ));
    array_value(items)
}

/// Reads a template that must be there.
fn get_template(object: &serde_json::Map<String, serde_json::Value>, name: &str) -> (found: Option<
    DocumentTemplate,
>)
    ensures
        found.deep_view() == template_member(members_of(*object), name@),
{
    match member(object, name) {
        Some(value) => DocumentTemplate::from_json(value),
        None => None,
    }
}

/// Reads a run of events that may be missing.
fn get_optional_events(object: &serde_json::Map<String, serde_json::Value>, name: &str) -> (found:
    Option<Option<Vec<DocumentEvent>>>)
    ensures
        found.deep_view() == optional_events_member(members_of(*object), name@),
{
    match present_member(object, name) {
        Some(value) => match events_from_json(value) {
            Some(events) => Some(Some(events)),
            None => None,
        },
        None => Some(None),
    }
}

/// Puts a run of events under a name, where there is one.
fn put_optional_events(
    object: &mut serde_json::Map<String, serde_json::Value>,
    name: &str,
    events: &Option<Vec<DocumentEvent>>,
)
    ensures
        members_of(*final(object)) == with_member(
            members_of(*old(object)),
            name@,
            optional_events_json(events.deep_view()),
        ),
{
    reveal(with_member);
    match events {
        Some(e) => {
            put(object, name, events_to_json(e));
        },
        None => {},
    }
}

impl Document {
    /// A document with a path and a template, and no other field present.
    pub fn new(path: String, template: DocumentTemplate) -> (document: Document)
        ensures
            document.path == path,
            document.template == template,
            document.key is None,
            document.filename is None,
            document.updated_at is None,
            document.finished_at is None,
            document.deadline_at is None,
            document.status is None,
            document.auto_close is None,
            document.locale is None,
            document.metadata is None,
            document.sequence_enabled is None,
            document.signable_group is None,
            document.remind_interval is None,
            document.downloads is None,
            document.signers is None,
            document.events is None,
    {
        Document {
            key: None,
            path,
            filename: None,
            updated_at: None,
            finished_at: None,
            deadline_at: None,
            status: None,
            auto_close: None,
            locale: None,
            metadata: None,
            sequence_enabled: None,
            signable_group: None,
            remind_interval: None,
            downloads: None,
            template,
            signers: None,
            events: None,
        }
    }

    /// Reads a document from the JSON value that stands for it. There is a
    /// document exactly where the value is an object with a text under
    /// `path`, a template under `template`, and under each other field's
    /// name nothing, `null`, or a value of the field's kind.
    pub fn from_json(value: &serde_json::Value) -> (found: Option<Document>)
        ensures
            found.deep_view() == json_document(json_of(*value)),
    {
        let object = value.as_object()?;
        let path = get_text(object, "path");
        let template = get_template(object, "template");
        let key = get_optional_text(object, "key");
        let filename = get_optional_text(object, "filename");
        let updated_at = get_optional_text(object, "updated_at");
        let finished_at = get_optional_text(object, "finished_at");
        let deadline_at = get_optional_text(object, "deadline_at");
        let status = get_optional_text(object, "status");
        let auto_close = get_optional_flag(object, "auto_close");
        let locale = get_optional_text(object, "locale");
        let metadata = get_optional_string_map(object, "metadata");
        let sequence_enabled = get_optional_flag(object, "sequence_enabled");
        let signable_group = get_optional_text(object, "signable_group");
        let remind_interval = get_optional_text(object, "remind_interval");
        let downloads = get_optional_string_map(object, "downloads");
        let signers = get_optional_texts(object, "signers");
        let events = get_optional_events(object, "events");
        let texts_fit = path.is_some() && key.is_some() && filename.is_some()
            && updated_at.is_some() && finished_at.is_some() && deadline_at.is_some()
            && status.is_some() && locale.is_some() && signable_group.is_some()
            && remind_interval.is_some();
        let others_fit = template.is_some() && auto_close.is_some() && metadata.is_some()
            && sequence_enabled.is_some() && downloads.is_some() && signers.is_some()
            && events.is_some();
        assert((texts_fit && others_fit) == members_hold_document(members_of(*object)));
        if texts_fit && others_fit {
            Some(
                Document {
                    key: key.unwrap(),
                    path: path.unwrap(),
                    filename: filename.unwrap(),
                    updated_at: updated_at.unwrap(),
                    finished_at: finished_at.unwrap(),
                    deadline_at: deadline_at.unwrap(),
                    status: status.unwrap(),
                    auto_close: auto_close.unwrap(),
                    locale: locale.unwrap(),
                    metadata: metadata.unwrap(),
                    sequence_enabled: sequence_enabled.unwrap(),
                    signable_group: signable_group.unwrap(),
                    remind_interval: remind_interval.unwrap(),
                    downloads: downloads.unwrap(),
                    template: template.unwrap(),
                    signers: signers.unwrap(),
                    events: events.unwrap(),
                },
            )
        } else {
            None
        }
    }

    /// Writes the document as a JSON value: its path, its template, and
    /// each other field that is present.
    pub fn to_json(&self) -> (value: serde_json::Value)
        ensures
            json_of(value) == document_json(self@),
    {
        let mut object = new_object();
        put_text(&mut object, "path", &self.path);
        put(&mut object, "template", self.template.to_json());
        put_optional_text(&mut object, "key", &self.key);
        put_optional_text(&mut object, "filename", &self.filename);
        put_optional_text(&mut object, "updated_at", &self.updated_at);
        put_optional_text(&mut object, "finished_at", &self.finished_at);
        put_optional_text(&mut object, "deadline_at", &self.deadline_at);
        put_optional_text(&mut object, "status", &self.status);
        put_optional_flag(&mut object, "auto_close", &self.auto_close);
        put_optional_text(&mut object, "locale", &self.locale);
        put_optional_string_map(&mut object, "metadata", &self.metadata);
        put_optional_flag(&mut object, "sequence_enabled", &self.sequence_enabled);
        put_optional_text(&mut object, "signable_group", &self.signable_group);
        put_optional_text(&mut object, "remind_interval", &self.remind_interval);
        put_optional_string_map(&mut object, "downloads", &self.downloads);
        put_optional_texts(&mut object, "signers", &self.signers);
        put_optional_events(&mut object, "events", &self.events);
        object_value(object)
    }
}

/// The POST that makes a document: to the address given, with the
/// document in an envelope under `document`.
pub fn create_document_by_model_helper(uri: &String, request_body: &Document) -> (planned: Result<
    crate::http::PostRequest,
    crate::error::ClientError,
>)
    ensures
        crate::error::result_view(planned) == crate::http::json_post(
            uri@,
            crate::json::json_text(
                crate::envelope::envelope_json("document"@, document_json(request_body@)),
            ),
        ),
{
    crate::http::post_json(uri.clone(), &crate::envelope::enclose("document", request_body.to_json()))
}

/// Writing a map of texts and reading it back gives the map.
pub proof fn lemma_string_map_round_trip(map: Map<Seq<char>, Seq<char>>)
    ensures
        as_string_map(string_map_json(map)) == Some(map),
{
    let members = map.map_values(|text: Seq<char>| Json::Text(text));
    assert(members.map_values(|value: Json| value->Text_0) =~= map);
}

/// Writing a list of texts and reading it back gives the list.
pub proof fn lemma_texts_round_trip(texts: Seq<Seq<char>>)
    ensures
        crate::shape::as_texts(crate::shape::texts_json(texts)) == Some(texts),
{
    let items = texts.map_values(|text: Seq<char>| Json::Text(text));
    assert(items.map_values(|item: Json| item->Text_0) =~= texts);
}

/// Writing a template and reading it back gives the template.
pub proof fn lemma_template_round_trip(template: DocumentTemplateView)
    ensures
        json_template(template_json(template)) == Some(template),
{
    reveal_strlit("key");
    reveal_strlit("data");
    assert("key"@.len() == 3 && "data"@.len() == 4);
    lemma_string_map_round_trip(template.data);
}

/// Writing an event's data and reading it back gives the data.
pub proof fn lemma_event_data_round_trip(data: EventDataView)
    ensures
        json_event_data(event_data_json(data)) == Some(data),
{
    reveal_strlit("user");
    reveal_strlit("account");
    reveal_strlit("deadline_at");
    reveal_strlit("auto_close");
    reveal_strlit("locale");
    assert("user"@.len() == 4 && "account"@.len() == 7 && "deadline_at"@.len() == 11);
    assert("auto_close"@.len() == 10 && "locale"@.len() == 6);
    lemma_string_map_round_trip(data.user);
    lemma_string_map_round_trip(data.account);
}

/// Writing an event and reading it back gives the event.
pub proof fn lemma_event_round_trip(event: DocumentEventView)
    ensures
        json_event(event_json(event)) == Some(event),
{
    reveal_strlit("name");
    reveal_strlit("data");
    reveal_strlit("occurred_at");
    assert("name"@[0] == 'n' && "data"@[0] == 'd' && "occurred_at"@.len() == 11);
    lemma_event_data_round_trip(event.data);
}

/// Writing a run of events and reading it back gives the run.
pub proof fn lemma_events_round_trip(events: Seq<DocumentEventView>)
    ensures
        as_events(events_json(events)) == Some(events),
{
    let items = events.map_values(|event: DocumentEventView| event_json(event));
    assert forall|i: int| 0 <= i < items.len() implies json_event(#[trigger] items[i]) == Some(
        events[i],
    ) by {
        lemma_event_round_trip(events[i]);
    }
    assert(items.map_values(|item: Json| json_event(item).unwrap()) =~= events);
}

/// The names of a document's members, by their lengths and, where two are
/// of one length, their first characters: no two names are the same.
proof fn lemma_member_names()
    ensures
        "key"@.len() == 3,
        "path"@.len() == 4,
        "filename"@.len() == 8 && "filename"@[0] == 'f',
        "updated_at"@.len() == 10 && "updated_at"@[0] == 'u',
        "finished_at"@.len() == 11 && "finished_at"@[0] == 'f',
        "deadline_at"@.len() == 11 && "deadline_at"@[0] == 'd',
        "status"@.len() == 6 && "status"@[0] == 's',
        "auto_close"@.len() == 10 && "auto_close"@[0] == 'a',
        "locale"@.len() == 6 && "locale"@[0] == 'l',
        "metadata"@.len() == 8 && "metadata"@[0] == 'm',
        "sequence_enabled"@.len() == 16,
        "signable_group"@.len() == 14,
        "remind_interval"@.len() == 15,
        "downloads"@.len() == 9,
        "template"@.len() == 8 && "template"@[0] == 't',
        "signers"@.len() == 7,
        "events"@.len() == 6 && "events"@[0] == 'e',
{
    reveal_strlit("key");
    reveal_strlit("path");
    reveal_strlit("filename");
    reveal_strlit("updated_at");
    reveal_strlit("finished_at");
    reveal_strlit("deadline_at");
    reveal_strlit("status");
    reveal_strlit("auto_close");
    reveal_strlit("locale");
    reveal_strlit("metadata");
    reveal_strlit("sequence_enabled");
    reveal_strlit("signable_group");
    reveal_strlit("remind_interval");
    reveal_strlit("downloads");
    reveal_strlit("template");
    reveal_strlit("signers");
    reveal_strlit("events");
}

/// Do the members carry the document: under `path` and `template` what
/// the two are written as, under the name of each other field what the
/// field is written as where it is present, and nothing where it is not?
pub open spec fn members_carry(members: Map<Seq<char>, Json>, document: DocumentView) -> bool {
    &&& required(members, "path"@) == Some(Json::Text(document.path))
    &&& required(members, "template"@) == Some(template_json(document.template))
    &&& required(members, "key"@) == optional_text_json(document.key)
    &&& required(members, "filename"@) == optional_text_json(document.filename)
    &&& required(members, "updated_at"@) == optional_text_json(document.updated_at)
    &&& required(members, "finished_at"@) == optional_text_json(document.finished_at)
    &&& required(members, "deadline_at"@) == optional_text_json(document.deadline_at)
    &&& required(members, "status"@) == optional_text_json(document.status)
    &&& required(members, "auto_close"@) == optional_flag_json(document.auto_close)
    &&& required(members, "locale"@) == optional_text_json(document.locale)
    &&& required(members, "metadata"@) == optional_string_map_json(document.metadata)
    &&& required(members, "sequence_enabled"@) == optional_flag_json(document.sequence_enabled)
    &&& required(members, "signable_group"@) == optional_text_json(document.signable_group)
    &&& required(members, "remind_interval"@) == optional_text_json(document.remind_interval)
    &&& required(members, "downloads"@) == optional_string_map_json(document.downloads)
    &&& required(members, "signers"@) == optional_texts_json(document.signers)
    &&& required(members, "events"@) == optional_events_json(document.events)
}

/// What a document is written as holds under `path` what stands for
/// that field, and nothing where the field is not present.
proof fn lemma_written_path(document: DocumentView)
    ensures
        required(document_members(document), "path"@) == Some(Json::Text(document.path)),
{
    lemma_member_names();
    crate::shape::lemma_with_member();
}

/// What a document is written as holds under `template` what stands for
/// that field, and nothing where the field is not present.
proof fn lemma_written_template(document: DocumentView)
    ensures
        required(document_members(document), "template"@) == Some(template_json(document.template)),
{
    lemma_member_names();
    crate::shape::lemma_with_member();
}

/// What a document is written as holds under `key` what stands for
/// that field, and nothing where the field is not present.
proof fn lemma_written_key(document: DocumentView)
    ensures
        required(document_members(document), "key"@) == optional_text_json(document.key),
{
    lemma_member_names();
    crate::shape::lemma_with_member();
}

/// What a document is written as holds under `filename` what stands for
/// that field, and nothing where the field is not present.
proof fn lemma_written_filename(document: DocumentView)
    ensures
        required(document_members(document), "filename"@) == optional_text_json(document.filename),
{
    lemma_member_names();
    crate::shape::lemma_with_member();
}

/// What a document is written as holds under `updated_at` what stands for
/// that field, and nothing where the field is not present.
proof fn lemma_written_updated_at(document: DocumentView)
    ensures
        required(document_members(document), "updated_at"@) == optional_text_json(document.updated_at),
{
    lemma_member_names();
    crate::shape::lemma_with_member();
}

/// What a document is written as holds under `finished_at` what stands for
/// that field, and nothing where the field is not present.
proof fn lemma_written_finished_at(document: DocumentView)
    ensures
        required(document_members(document), "finished_at"@) == optional_text_json(document.finished_at),
{
    lemma_member_names();
    crate::shape::lemma_with_member();
}

/// What a document is written as holds under `deadline_at` what stands for
/// that field, and nothing where the field is not present.
proof fn lemma_written_deadline_at(document: DocumentView)
    ensures
        required(document_members(document), "deadline_at"@) == optional_text_json(document.deadline_at),
{
    lemma_member_names();
    crate::shape::lemma_with_member();
}

/// What a document is written as holds under `status` what stands for
/// that field, and nothing where the field is not present.
proof fn lemma_written_status(document: DocumentView)
    ensures
        required(document_members(document), "status"@) == optional_text_json(document.status),
{
    lemma_member_names();
    crate::shape::lemma_with_member();
}

/// What a document is written as holds under `auto_close` what stands for
/// that field, and nothing where the field is not present.
proof fn lemma_written_auto_close(document: DocumentView)
    ensures
        required(document_members(document), "auto_close"@) == optional_flag_json(document.auto_close),
{
    lemma_member_names();
    crate::shape::lemma_with_member();
}

/// What a document is written as holds under `locale` what stands for
/// that field, and nothing where the field is not present.
proof fn lemma_written_locale(document: DocumentView)
    ensures
        required(document_members(document), "locale"@) == optional_text_json(document.locale),
{
    lemma_member_names();
    crate::shape::lemma_with_member();
}

/// What a document is written as holds under `metadata` what stands for
/// that field, and nothing where the field is not present.
proof fn lemma_written_metadata(document: DocumentView)
    ensures
        required(document_members(document), "metadata"@) == optional_string_map_json(document.metadata),
{
    lemma_member_names();
    crate::shape::lemma_with_member();
}

/// What a document is written as holds under `sequence_enabled` what stands for
/// that field, and nothing where the field is not present.
proof fn lemma_written_sequence_enabled(document: DocumentView)
    ensures
        required(document_members(document), "sequence_enabled"@) == optional_flag_json(document.sequence_enabled),
{
    lemma_member_names();
    crate::shape::lemma_with_member();
}

/// What a document is written as holds under `signable_group` what stands for
/// that field, and nothing where the field is not present.
proof fn lemma_written_signable_group(document: DocumentView)
    ensures
        required(document_members(document), "signable_group"@) == optional_text_json(document.signable_group),
{
    lemma_member_names();
    crate::shape::lemma_with_member();
}

/// What a document is written as holds under `remind_interval` what stands for
/// that field, and nothing where the field is not present.
proof fn lemma_written_remind_interval(document: DocumentView)
    ensures
        required(document_members(document), "remind_interval"@) == optional_text_json(document.remind_interval),
{
    lemma_member_names();
    crate::shape::lemma_with_member();
}

/// What a document is written as holds under `downloads` what stands for
/// that field, and nothing where the field is not present.
proof fn lemma_written_downloads(document: DocumentView)
    ensures
        required(document_members(document), "downloads"@) == optional_string_map_json(document.downloads),
{
    lemma_member_names();
    crate::shape::lemma_with_member();
}

/// What a document is written as holds under `signers` what stands for
/// that field, and nothing where the field is not present.
proof fn lemma_written_signers(document: DocumentView)
    ensures
        required(document_members(document), "signers"@) == optional_texts_json(document.signers),
{
    lemma_member_names();
    crate::shape::lemma_with_member();
}

/// What a document is written as holds under `events` what stands for
/// that field, and nothing where the field is not present.
proof fn lemma_written_events(document: DocumentView)
    ensures
        required(document_members(document), "events"@) == optional_events_json(document.events),
{
    lemma_member_names();
    crate::shape::lemma_with_member();
}

/// The members that a document is written as carry the document: each
/// field that is present is written under its name with its value, and a
/// field that is not present has no member.
pub proof fn lemma_written_members_carry(document: DocumentView)
    ensures
        members_carry(document_members(document), document),
{
    lemma_written_path(document);
    lemma_written_template(document);
    lemma_written_key(document);
    lemma_written_filename(document);
    lemma_written_updated_at(document);
    lemma_written_finished_at(document);
    lemma_written_deadline_at(document);
    lemma_written_status(document);
    lemma_written_auto_close(document);
    lemma_written_locale(document);
    lemma_written_metadata(document);
    lemma_written_sequence_enabled(document);
    lemma_written_signable_group(document);
    lemma_written_remind_interval(document);
    lemma_written_downloads(document);
    lemma_written_signers(document);
    lemma_written_events(document);
}

/// A text that may be missing is read back as it was written.
proof fn lemma_optional_text_read(
    members: Map<Seq<char>, Json>,
    name: Seq<char>,
    text: Option<Seq<char>>,
)
    requires
        required(members, name) == optional_text_json(text),
    ensures
        optional_text_member(members, name) == Some(text),
{
}

/// A flag that may be missing is read back as it was written.
proof fn lemma_optional_flag_read(
    members: Map<Seq<char>, Json>,
    name: Seq<char>,
    flag: Option<bool>,
)
    requires
        required(members, name) == optional_flag_json(flag),
    ensures
        optional_flag_member(members, name) == Some(flag),
{
}

/// A map of texts that may be missing is read back as it was written.
proof fn lemma_optional_string_map_read(
    members: Map<Seq<char>, Json>,
    name: Seq<char>,
    map: Option<Map<Seq<char>, Seq<char>>>,
)
    requires
        required(members, name) == optional_string_map_json(map),
    ensures
        optional_string_map_member(members, name) == Some(map),
{
    if let Some(m) = map {
        lemma_string_map_round_trip(m);
    }
}

/// A list of texts that may be missing is read back as it was written.
proof fn lemma_optional_texts_read(
    members: Map<Seq<char>, Json>,
    name: Seq<char>,
    texts: Option<Seq<Seq<char>>>,
)
    requires
        required(members, name) == optional_texts_json(texts),
    ensures
        optional_texts_member(members, name) == Some(texts),
{
    if let Some(t) = texts {
        lemma_texts_round_trip(t);
    }
}

/// A run of events that may be missing is read back as it was written.
proof fn lemma_optional_events_read(
    members: Map<Seq<char>, Json>,
    name: Seq<char>,
    events: Option<Seq<DocumentEventView>>,
)
    requires
        required(members, name) == optional_events_json(events),
    ensures
        optional_events_member(members, name) == Some(events),
{
    if let Some(e) = events {
        lemma_events_round_trip(e);
    }
}

/// Members that carry a document hold that document.
proof fn lemma_carried_is_held(members: Map<Seq<char>, Json>, document: DocumentView)
    requires
        members_carry(members, document),
    ensures
        json_document(Json::Object(members)) == Some(document),
{
    assert(text_member(members, "path"@) == Some(document.path));
    assert(template_member(members, "template"@) == Some(document.template)) by {
        lemma_template_round_trip(document.template);
    }
    lemma_optional_text_read(members, "key"@, document.key);
    lemma_optional_text_read(members, "filename"@, document.filename);
    lemma_optional_text_read(members, "updated_at"@, document.updated_at);
    lemma_optional_text_read(members, "finished_at"@, document.finished_at);
    lemma_optional_text_read(members, "deadline_at"@, document.deadline_at);
    lemma_optional_text_read(members, "status"@, document.status);
    lemma_optional_flag_read(members, "auto_close"@, document.auto_close);
    lemma_optional_text_read(members, "locale"@, document.locale);
    lemma_optional_string_map_read(members, "metadata"@, document.metadata);
    lemma_optional_flag_read(members, "sequence_enabled"@, document.sequence_enabled);
    lemma_optional_text_read(members, "signable_group"@, document.signable_group);
    lemma_optional_text_read(members, "remind_interval"@, document.remind_interval);
    lemma_optional_string_map_read(members, "downloads"@, document.downloads);
    lemma_optional_texts_read(members, "signers"@, document.signers);
    lemma_optional_events_read(members, "events"@, document.events);
    assert(members_hold_document(members));
    assert(document_of_members(members) == document);
}

/// Writing a document and reading it back gives the document: every field
/// that was present comes back as it was, and every field that was not
/// present comes back as not present.
pub proof fn lemma_document_round_trip(document: DocumentView)
    ensures
        json_document(document_json(document)) == Some(document),
{
    lemma_written_members_carry(document);
    lemma_carried_is_held(document_members(document), document);
}

/// Reading a document, writing it and reading it again gives the document
/// that was read first.
pub proof fn lemma_read_again(json: Json)
    requires
        json_document(json) is Some,
    ensures
        json_document(document_json(json_document(json).unwrap())) == json_document(json),
{
    lemma_document_round_trip(json_document(json).unwrap());
}

/// Reading a document and writing it again brings no member that the JSON
/// read from lacked or held as `null`, and writes no member as `null`.
pub proof fn lemma_rewritten_member(members: Map<Seq<char>, Json>, name: Seq<char>)
    requires
        members_hold_document(members),
        document_members(document_of_members(members)).contains_key(name),
    ensures
        members.contains_key(name),
        !(members[name] is Null),
        !(document_members(document_of_members(members))[name] is Null),
{
    let document = document_of_members(members);
    let written = document_members(document);
    lemma_member_names();
    crate::shape::lemma_with_member();
    assert(required(written, name) is Some);
}

/// A document read from JSON that has a path and a template and nothing
/// else is written again with a path and a template and nothing else.
pub proof fn lemma_bare_document_rewritten(members: Map<Seq<char>, Json>)
    requires
        members_hold_document(members),
        forall|name: Seq<char>|
            members.contains_key(name) <==> (name == "path"@ || name == "template"@),
    ensures
        forall|name: Seq<char>|
            document_members(document_of_members(members)).contains_key(name) <==> (name
                == "path"@ || name == "template"@),
{
    let document = document_of_members(members);
    let written = document_members(document);
    lemma_written_members_carry(document);
    assert forall|name: Seq<char>| written.contains_key(name) implies (name == "path"@ || name
        == "template"@) by {
        lemma_rewritten_member(members, name);
    }
    assert(required(written, "path"@) is Some);
    assert(required(written, "template"@) is Some);
}

} // verus!
