use vstd::prelude::*;

verus! {

/// The collections of a connector that can be browsed.
#[derive(Debug, Clone, Copy, PartialEq, Eq, Structural)]
pub enum ResourceKind {
    Assets,
    Policies,
    ContractDefinitions,
    ContractNegotiations,
    TransferProcesses,
}

/// The value of a field of a resource: plain text, or a rendered document.
pub enum FieldValue {
    Str(String),
    Json(String),
}

/// One named field of a resource, as the detail screen shows it.
pub struct Field {
    pub name: String,
    pub value: FieldValue,
}

/// One resource as the screens read it: its identifier, the cells of its table row
/// and the fields of its detail screen.
pub struct Resource {
    pub kind: ResourceKind,
    pub id: String,
    pub row: Vec<String>,
    pub fields: Vec<Field>,
}

/// What a resource stands for.
pub struct ResourceModel {
    pub kind: ResourceKind,
    pub id: Seq<char>,
    pub row: Seq<Seq<char>>,
    pub fields: Seq<Field>,
}

/// Something that a detail screen can show.
pub trait DrawableResource {
    fn id(&self) -> &str;

    fn title(&self) -> String;

    fn fields(&self) -> Vec<Field>;
}

/// Something that a table can show as a row.
pub trait TableEntry {
    fn row(&self) -> Vec<String>;

    fn headers(&self) -> Vec<String>;
}

/// Rows that a text field takes on the detail screen.
pub const TEXT_FIELD_HEIGHT: u16 = 3;

/// Rows that a document field takes on the detail screen.
pub const JSON_FIELD_HEIGHT: u16 = 10;

impl Clone for FieldValue {
    fn clone(&self) -> (out: FieldValue)
        ensures
            out == *self,
    {
        match self {
            FieldValue::Str(s) => FieldValue::Str(s.clone()),
            FieldValue::Json(s) => FieldValue::Json(s.clone()),
        }
    }
}

impl FieldValue {
    pub open spec fn text(self) -> Seq<char> {
        match self {
            FieldValue::Str(s) => s@,
            FieldValue::Json(s) => s@,
        }
    }

    /// The text of the value, whichever kind it is.
    pub fn as_str(&self) -> (out: &str)
        ensures
            out@ == self.text(),
    {
        match self {
            FieldValue::Str(s) => s.as_str(),
            FieldValue::Json(s) => s.as_str(),
        }
    }

    pub open spec fn height_spec(self) -> int {
        match self {
            FieldValue::Str(_) => 3,
            FieldValue::Json(_) => 10,
        }
    }

    /// Rows that the value takes on the detail screen.
    pub fn height(&self) -> (out: u16)
        ensures
            out == self.height_spec(),
    {
        match self {
            FieldValue::Str(_) => TEXT_FIELD_HEIGHT,
            FieldValue::Json(_) => JSON_FIELD_HEIGHT,
        }
    }
}

impl Clone for Field {
    fn clone(&self) -> (out: Field)
        ensures
            out == *self,
    {
        Field { name: self.name.clone(), value: self.value.clone() }
    }
}

impl Field {
    pub fn new(name: String, value: FieldValue) -> (out: Field)
        ensures
            out == (Field { name, value }),
    {
        Field { name, value }
    }

    /// A plain-text field.
    pub fn string(name: &str, value: &str) -> (out: Field)
        ensures
            out.name@ == name@,
            out.value is Str,
            out.value->Str_0@ == value@,
    {
        Field { name: name.to_owned(), value: FieldValue::Str(value.to_owned()) }
    }

    /// A field that holds an already rendered document.
    pub fn json(name: &str, rendered: String) -> (out: Field)
        ensures
            out.name@ == name@,
            out.value == FieldValue::Json(rendered),
    {
        Field { name: name.to_owned(), value: FieldValue::Json(rendered) }
    }

    pub fn name(&self) -> (out: &str)
        ensures
            out@ == self.name@,
    {
        self.name.as_str()
    }

    pub fn value(&self) -> (out: &FieldValue)
        ensures
            *out == self.value,
    {
        &self.value
    }
}

/// What a field stands for: its name, whether its value is a document, and the text
/// of its value.
pub open spec fn field_model(field: Field) -> (Seq<char>, bool, Seq<char>) {
    (field.name@, field.value is Json, field.value.text())
}

/// What a list of fields stands for.
pub open spec fn field_models(fields: Seq<Field>) -> Seq<(Seq<char>, bool, Seq<char>)> {
    Seq::new(fields.len(), |i: int| field_model(fields[i]))
}

/// A widget for one field: the field, and whether it is the selected one.
pub struct FieldWidget<'a> {
    pub field: &'a Field,
    pub selected: bool,
}

impl<'a> FieldWidget<'a> {
    pub fn new(f: &'a Field, selected: bool) -> (out: Self)
        ensures
            out.field == f,
            out.selected == selected,
    {
        FieldWidget { field: f, selected }
    }
}

/// The texts of a list of strings, in order.
pub open spec fn texts(items: Seq<String>) -> Seq<Seq<char>> {
    Seq::new(items.len(), |i: int| items[i]@)
}

/// Copies a list of strings.
pub fn copy_strings(items: &Vec<String>) -> (out: Vec<String>)
    ensures
        out@ == items@,
{
    let mut out: Vec<String> = Vec::new();
    let mut i: usize = 0;
    while i < items.len()
        invariant
            i <= items@.len(),
            out@ == items@.subrange(0, i as int),
        decreases items@.len() - i,
    {
        out.push(items[i].clone());
        assert(out@ =~= items@.subrange(0, i + 1));
        i += 1;
    }
    assert(items@.subrange(0, i as int) =~= items@);
    out
}

/// Copies a list of fields.
pub fn copy_fields(items: &Vec<Field>) -> (out: Vec<Field>)
    ensures
        out@ == items@,
{
    let mut out: Vec<Field> = Vec::new();
    let mut i: usize = 0;
    while i < items.len()
        invariant
            i <= items@.len(),
            out@ == items@.subrange(0, i as int),
        decreases items@.len() - i,
    {
        out.push(items[i].clone());
        assert(out@ =~= items@.subrange(0, i + 1));
        i += 1;
    }
    assert(items@.subrange(0, i as int) =~= items@);
    out
}

impl ResourceKind {
    pub open spec fn title_spec(self) -> Seq<char> {
        match self {
            ResourceKind::Assets => "Assets"@,
            ResourceKind::Policies => "Policies"@,
            ResourceKind::ContractDefinitions => "Contract Definitions"@,
            ResourceKind::ContractNegotiations => "Contract Negotiations"@,
            ResourceKind::TransferProcesses => "Transfer Processes"@,
        }
    }

    /// The heading of the screen that lists this collection.
    pub fn title(self) -> (out: &'static str)
        ensures
            out@ == self.title_spec(),
    {
        match self {
            ResourceKind::Assets => "Assets",
            ResourceKind::Policies => "Policies",
            ResourceKind::ContractDefinitions => "Contract Definitions",
            ResourceKind::ContractNegotiations => "Contract Negotiations",
            ResourceKind::TransferProcesses => "Transfer Processes",
        }
    }

    pub open spec fn headers_spec(self) -> Seq<Seq<char>> {
        match self {
            ResourceKind::Assets => seq![
                "ID"@,
                "PROPERTIES"@,
                "PRIVATE PROPERTIES"@,
                "DATA ADDRESS"@,
            ],
            ResourceKind::Policies => seq!["ID"@, "POLICY"@],
            ResourceKind::ContractDefinitions => seq![
                "ID"@,
                "ACCESS_POLICY_ID"@,
                "CONTRACT_POLICY_ID"@,
                "ASSETS_SELECTOR"@,
            ],
            ResourceKind::ContractNegotiations => seq![
                "ID"@,
                "TYPE"@,
                "STATE"@,
                "COUNTER_PARTY_ID"@,
                "CONTRACT_AGREEMENT_ID"@,
                "PRIVATE_PROPERTIES"@,
                "CREATED_AT"@,
            ],
            ResourceKind::TransferProcesses => seq![
                "ID"@,
                "TYPE"@,
                "STATE"@,
                "TRANSFER_TYPE"@,
                "ASSET_ID"@,
                "CONTRACT_AGREEMENT_ID"@,
                "PRIVATE_PROPERTIES"@,
            ],
        }
    }

    /// The column headings of the table that lists this collection.
    pub fn headers(self) -> (out: Vec<String>)
        ensures
            texts(out@) == self.headers_spec(),
    {
        let mut out: Vec<String> = Vec::new();
        match self {
            ResourceKind::Assets => {
                out.push("ID".to_owned());
                out.push("PROPERTIES".to_owned());
                out.push("PRIVATE PROPERTIES".to_owned());
                out.push("DATA ADDRESS".to_owned());
            },
            ResourceKind::Policies => {
                out.push("ID".to_owned());
                out.push("POLICY".to_owned());
            },
            ResourceKind::ContractDefinitions => {
                out.push("ID".to_owned());
                out.push("ACCESS_POLICY_ID".to_owned());
                out.push("CONTRACT_POLICY_ID".to_owned());
                out.push("ASSETS_SELECTOR".to_owned());
            },
            ResourceKind::ContractNegotiations => {
                out.push("ID".to_owned());
                out.push("TYPE".to_owned());
                out.push("STATE".to_owned());
                out.push("COUNTER_PARTY_ID".to_owned());
                out.push("CONTRACT_AGREEMENT_ID".to_owned());
                out.push("PRIVATE_PROPERTIES".to_owned());
                out.push("CREATED_AT".to_owned());
            },
            ResourceKind::TransferProcesses => {
                out.push("ID".to_owned());
                out.push("TYPE".to_owned());
                out.push("STATE".to_owned());
                out.push("TRANSFER_TYPE".to_owned());
                out.push("ASSET_ID".to_owned());
                out.push("CONTRACT_AGREEMENT_ID".to_owned());
                out.push("PRIVATE_PROPERTIES".to_owned());
            },
        }
        assert(texts(out@) =~= self.headers_spec());
        out
    }
}

impl View for Resource {
    type V = ResourceModel;

    open spec fn view(&self) -> ResourceModel {
        ResourceModel { kind: self.kind, id: self.id@, row: texts(self.row@), fields: self.fields@ }
    }
}

impl Clone for Resource {
    fn clone(&self) -> (out: Resource)
        ensures
            out@ == self@,
    {
        Resource {
            kind: self.kind,
            id: self.id.clone(),
            row: copy_strings(&self.row),
            fields: copy_fields(&self.fields),
        }
    }
}

impl Resource {
    pub fn new(kind: ResourceKind, id: String, row: Vec<String>, fields: Vec<Field>) -> (out:
        Resource)
        ensures
            out == (Resource { kind, id, row, fields }),
    {
        Resource { kind, id, row, fields }
    }
}

impl DrawableResource for Resource {
    fn id(&self) -> (out: &str)
        ensures
            out@ == self.id@,
    {
        self.id.as_str()
    }

    fn title(&self) -> (out: String)
        ensures
            out@ == self.kind.title_spec(),
    {
        self.kind.title().to_owned()
    }

    fn fields(&self) -> (out: Vec<Field>)
        ensures
            out@ == self.fields@,
    {
        copy_fields(&self.fields)
    }
}

impl TableEntry for Resource {
    fn row(&self) -> (out: Vec<String>)
        ensures
            out@ == self.row@,
    {
        copy_strings(&self.row)
    }

    fn headers(&self) -> (out: Vec<String>)
        ensures
            texts(out@) == self.kind.headers_spec(),
    {
        self.kind.headers()
    }
}

} // verus!
