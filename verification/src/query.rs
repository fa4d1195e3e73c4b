use vstd::prelude::*;
use crate::properties::ToValue;
use crate::text::debug_of;
use crate::text::decimal;
use crate::text::join;
use crate::text::joined;
use crate::text::quoted;
use crate::text::u32_text;

verus! {

/// The direction of a sort.
#[derive(Debug, Clone, Copy, PartialEq, Eq, Structural)]
pub enum SortOrder {
    Asc,
    Desc,
}

/// The field to sort by, and the direction.
pub struct Sort {
    pub field: String,
    pub order: SortOrder,
}

/// The value of a property, or the right-hand side of a filter criterion: a text, a
/// list of texts, or any other value, held as the document that writes it down.
pub enum PropertyValue {
    Text(String),
    Many(Vec<String>),
    Other(String),
}

/// What a property value stands for.
pub enum ValueModel {
    Text(Seq<char>),
    Many(Seq<Seq<char>>),
    Other(Seq<char>),
}

/// One condition of a filter: left operand, operator, right operand.
pub struct Criterion {
    pub operand_left: String,
    pub operator: String,
    pub operand_right: PropertyValue,
}

pub struct CriterionModel {
    pub operand_left: Seq<char>,
    pub operator: Seq<char>,
    pub operand_right: ValueModel,
}

/// One page of a filtered, sorted listing.
pub struct Query {
    pub offset: u32,
    pub limit: u32,
    pub sort: Option<Sort>,
    pub filter_expression: Vec<Criterion>,
}

pub struct QueryModel {
    pub offset: u32,
    pub limit: u32,
    pub sort: Option<(Seq<char>, SortOrder)>,
    pub filter_expression: Seq<CriterionModel>,
}

pub struct QueryBuilder(pub Query);

/// The page size of a query that sets none.
pub const DEFAULT_LIMIT: u32 = 50;

impl PropertyValue {
    pub open spec fn model(self) -> ValueModel {
        match self {
            PropertyValue::Text(text) => ValueModel::Text(text@),
            PropertyValue::Many(items) => ValueModel::Many(
                Seq::new(items@.len(), |i: int| items@[i]@),
            ),
            PropertyValue::Other(document) => ValueModel::Other(document@),
        }
    }

    /// A text value.
    pub fn text(value: &str) -> (out: PropertyValue)
        ensures
            out.model() == ValueModel::Text(value@),
    {
        PropertyValue::Text(value.to_owned())
    }

    /// A list value.
    pub fn many(items: Vec<String>) -> (out: PropertyValue)
        ensures
            out == PropertyValue::Many(items),
    {
        PropertyValue::Many(items)
    }

    /// A copy that stands for the same value.
    pub fn duplicate(&self) -> (out: PropertyValue)
        ensures
            out.model() == self.model(),
    {
        match self {
            PropertyValue::Text(text) => PropertyValue::Text(text.clone()),
            PropertyValue::Other(document) => PropertyValue::Other(document.clone()),
            PropertyValue::Many(items) => {
                let mut copies: Vec<String> = Vec::new();
                let mut i: usize = 0;
                while i < items.len()
                    invariant
                        i <= items@.len(),
                        copies@.len() == i,
                        forall|k: int| 0 <= k < i ==> copies@[k] == items@[k],
                    decreases items@.len() - i,
                {
                    copies.push(items[i].clone());
                    i += 1;
                }
                let out = PropertyValue::Many(copies);
                assert(out.model()->Many_0 =~= self.model()->Many_0);
                out
            },
        }
    }
}

impl Sort {
    pub open spec fn model(self) -> (Seq<char>, SortOrder) {
        (self.field@, self.order)
    }

    pub fn new(field: String, order: SortOrder) -> (out: Sort)
        ensures
            out == (Sort { field, order }),
    {
        Sort { field, order }
    }

    pub fn field(&self) -> (out: &str)
        ensures
            out@ == self.field@,
    {
        self.field.as_str()
    }

    pub fn order(&self) -> (out: &SortOrder)
        ensures
            *out == self.order,
    {
        &self.order
    }

    pub fn duplicate(&self) -> (out: Sort)
        ensures
            out == *self,
    {
        Sort { field: self.field.clone(), order: self.order }
    }
}

impl Criterion {
    pub open spec fn model(self) -> CriterionModel {
        CriterionModel {
            operand_left: self.operand_left@,
            operator: self.operator@,
            operand_right: self.operand_right.model(),
        }
    }

    pub fn new<T: ToValue>(operand_left: &str, operator: &str, operand_right: T) -> (out: Criterion)
        ensures
            out.model() == (CriterionModel {
                operand_left: operand_left@,
                operator: operator@,
                operand_right: operand_right.value_model(),
            }),
    {
        Criterion {
            operand_left: operand_left.to_owned(),
            operator: operator.to_owned(),
            operand_right: operand_right.into_value(),
        }
    }

    pub fn operand_left(&self) -> (out: &str)
        ensures
            out@ == self.operand_left@,
    {
        self.operand_left.as_str()
    }

    pub fn operator(&self) -> (out: &str)
        ensures
            out@ == self.operator@,
    {
        self.operator.as_str()
    }

    pub fn operand_right(&self) -> (out: &PropertyValue)
        ensures
            *out == self.operand_right,
    {
        &self.operand_right
    }

    pub fn duplicate(&self) -> (out: Criterion)
        ensures
            out.model() == self.model(),
    {
        Criterion {
            operand_left: self.operand_left.clone(),
            operator: self.operator.clone(),
            operand_right: self.operand_right.duplicate(),
        }
    }
}

/// The models of a list of criteria, in order.
pub open spec fn criteria_models(criteria: Seq<Criterion>) -> Seq<CriterionModel> {
    Seq::new(criteria.len(), |i: int| criteria[i].model())
}

impl View for Query {
    type V = QueryModel;

    open spec fn view(&self) -> QueryModel {
        QueryModel {
            offset: self.offset,
            limit: self.limit,
            sort: match self.sort {
                Some(sort) => Some(sort.model()),
                None => None,
            },
            filter_expression: criteria_models(self.filter_expression@),
        }
    }
}

impl Default for Query {
    /// The first page, fifty entries long, unsorted and unfiltered.
    fn default() -> (out: Query)
        ensures
            out@ == (QueryModel {
                offset: 0,
                limit: DEFAULT_LIMIT,
                sort: None,
                filter_expression: Seq::empty(),
            }),
    {
        let out = Query { offset: 0, limit: DEFAULT_LIMIT, sort: None, filter_expression: Vec::new() };
        assert(out@.filter_expression =~= Seq::empty());
        out
    }
}

impl Clone for Query {
    fn clone(&self) -> (out: Query)
        ensures
            out@ == self@,
    {
        let mut filter: Vec<Criterion> = Vec::new();
        let mut i: usize = 0;
        while i < self.filter_expression.len()
            invariant
                i <= self.filter_expression@.len(),
                filter@.len() == i,
                forall|k: int|
                    0 <= k < i ==> filter@[k].model() == self.filter_expression@[k].model(),
            decreases self.filter_expression@.len() - i,
        {
            filter.push(self.filter_expression[i].duplicate());
            i += 1;
        }
        let sort = match &self.sort {
            Some(sort) => Some(sort.duplicate()),
            None => None,
        };
        let out = Query { offset: self.offset, limit: self.limit, sort, filter_expression: filter };
        assert(out@.filter_expression =~= self@.filter_expression);
        out
    }
}

impl Query {
    /// What the query that sets nothing stands for: the first page, fifty entries
    /// long, unsorted and unfiltered.
    pub open spec fn default_model() -> QueryModel {
        QueryModel { offset: 0, limit: DEFAULT_LIMIT, sort: None, filter_expression: Seq::empty() }
    }

    pub fn builder() -> (out: QueryBuilder)
        ensures
            out.0@ == (QueryModel {
                offset: 0,
                limit: DEFAULT_LIMIT,
                sort: None,
                filter_expression: Seq::empty(),
            }),
    {
        QueryBuilder(Query::default())
    }

    /// A builder that starts from this query.
    pub fn to_builder(&self) -> (out: QueryBuilder)
        ensures
            out.0@ == self@,
    {
        QueryBuilder(self.clone())
    }

    pub fn offset(&self) -> (out: u32)
        ensures
            out == self.offset,
    {
        self.offset
    }

    pub fn limit(&self) -> (out: u32)
        ensures
            out == self.limit,
    {
        self.limit
    }

    pub fn sort(&self) -> (out: Option<&Sort>)
        ensures
            out == match self.sort {
                Some(sort) => Some(&sort),
                None => None,
            },
    {
        self.sort.as_ref()
    }

    pub fn filter_expression(&self) -> (out: &[Criterion])
        ensures
            out@ == self.filter_expression@,
    {
        self.filter_expression.as_slice()
    }
}

impl QueryBuilder {
    /// Adds one more criterion behind those already there.
    pub fn filter<T: ToValue>(self, left: &str, operator: &str, right: T) -> (out: QueryBuilder)
        ensures
            out.0@ == (QueryModel {
                filter_expression: self.0@.filter_expression.push(
                    CriterionModel {
                        operand_left: left@,
                        operator: operator@,
                        operand_right: right.value_model(),
                    },
                ),
                ..self.0@
            }),
    {
        let mut query = self.0;
        let ghost before = query@;
        let criterion = Criterion::new(left, operator, right);
        query.filter_expression.push(criterion);
        assert(query@.filter_expression =~= before.filter_expression.push(criterion.model()));
        QueryBuilder(query)
    }

    pub fn sort(self, field: &str, order: SortOrder) -> (out: QueryBuilder)
        ensures
            out.0@ == (QueryModel { sort: Some((field@, order)), ..self.0@ }),
    {
        let mut query = self.0;
        query.sort = Some(Sort::new(field.to_owned(), order));
        QueryBuilder(query)
    }

    pub fn limit(self, limit: u32) -> (out: QueryBuilder)
        ensures
            out.0@ == (QueryModel { limit, ..self.0@ }),
    {
        let mut query = self.0;
        query.limit = limit;
        QueryBuilder(query)
    }

    pub fn offset(self, offset: u32) -> (out: QueryBuilder)
        ensures
            out.0@ == (QueryModel { offset, ..self.0@ }),
    {
        let mut query = self.0;
        query.offset = offset;
        QueryBuilder(query)
    }

    pub fn build(self) -> (out: Query)
        ensures
            out == self.0,
    {
        self.0
    }
}

impl SortOrder {
    pub open spec fn label_spec(self) -> Seq<char> {
        match self {
            SortOrder::Asc => "Asc"@,
            SortOrder::Desc => "Desc"@,
        }
    }

    /// The name of the direction.
    pub fn label(&self) -> (out: &'static str)
        ensures
            out@ == self.label_spec(),
    {
        match self {
            SortOrder::Asc => "Asc",
            SortOrder::Desc => "Desc",
        }
    }
}

/// A text as a value of a document, in the debug format.
pub open spec fn string_value_text(text: Seq<char>) -> Seq<char> {
    "String("@ + debug_of(text) + ")"@
}

/// The texts of a list as values of a document, in the debug format.
pub open spec fn string_value_texts(items: Seq<Seq<char>>) -> Seq<Seq<char>> {
    Seq::new(items.len(), |i: int| string_value_text(items[i]))
}

/// A property value in the debug format. A value that is neither a text nor a list
/// of texts is shown as the document that writes it down.
pub open spec fn value_text(value: ValueModel) -> Seq<char> {
    match value {
        ValueModel::Text(text) => "PropertyValue("@ + string_value_text(text) + ")"@,
        ValueModel::Many(items) => "PropertyValue(Array ["@ + joined(
            string_value_texts(items),
            ", "@,
        ) + "])"@,
        ValueModel::Other(document) => "PropertyValue("@ + document + ")"@,
    }
}

/// A criterion as the status line shows it: left operand, operator, right operand.
pub open spec fn criterion_text(criterion: CriterionModel) -> Seq<char> {
    criterion.operand_left + " "@ + criterion.operator + " "@ + value_text(
        criterion.operand_right,
    )
}

/// The criteria of a filter as the status line shows them.
pub open spec fn criteria_texts(criteria: Seq<CriterionModel>) -> Seq<Seq<char>> {
    Seq::new(criteria.len(), |i: int| criterion_text(criteria[i]))
}

/// A sort as the status line shows it.
pub open spec fn sort_text(sort: Option<(Seq<char>, SortOrder)>) -> Seq<char> {
    match sort {
        Some((field, order)) => field + "["@ + order.label_spec() + "]"@,
        None => "None"@,
    }
}

/// A query as the status line shows it.
pub open spec fn summary_text(query: QueryModel) -> Seq<char> {
    "Offset: "@ + decimal(query.offset as int) + " | Limit: "@ + decimal(query.limit as int)
        + " | Sort: "@ + sort_text(query.sort) + " | Filter: ["@ + joined(
        criteria_texts(query.filter_expression),
        " , "@,
    ) + "]"@
}

fn string_value(text: &str) -> (out: String)
    ensures
        out@ == string_value_text(text@),
{
    let mut out = "String(".to_owned();
    let inner = quoted(text);
    out.append(inner.as_str());
    out.append(")");
    out
}

impl PropertyValue {
    /// The value in the debug format.
    pub fn describe(&self) -> (out: String)
        ensures
            out@ == value_text(self.model()),
    {
        match self {
            PropertyValue::Text(text) => {
                let mut out = "PropertyValue(".to_owned();
                let inner = string_value(text.as_str());
                out.append(inner.as_str());
                out.append(")");
                out
            },
            PropertyValue::Many(items) => {
                let mut parts: Vec<String> = Vec::new();
                let mut i: usize = 0;
                while i < items.len()
                    invariant
                        i <= items@.len(),
                        parts@.len() == i,
                        forall|k: int| 0 <= k < i ==> (#[trigger] parts@[k])@ == string_value_text(
                            items@[k]@,
                        ),
                    decreases items@.len() - i,
                {
                    parts.push(string_value(items[i].as_str()));
                    i += 1;
                }
                assert(crate::record::texts(parts@) =~= string_value_texts(self.model()->Many_0));
                let mut out = "PropertyValue(Array [".to_owned();
                let inner = join(&parts, ", ");
                out.append(inner.as_str());
                out.append("])");
                out
            },
            PropertyValue::Other(document) => {
                let mut out = "PropertyValue(".to_owned();
                out.append(document.as_str());
                out.append(")");
                out
            },
        }
    }
}

impl Criterion {
    /// The criterion as the status line shows it.
    pub fn describe(&self) -> (out: String)
        ensures
            out@ == criterion_text(self.model()),
    {
        let mut out = self.operand_left.clone();
        out.append(" ");
        out.append(self.operator.as_str());
        out.append(" ");
        let right = self.operand_right.describe();
        out.append(right.as_str());
        assert(out@ =~= criterion_text(self.model()));
        out
    }
}

impl Query {
    /// The query as the status line shows it: offset, limit, sort and filter.
    pub fn summary(&self) -> (out: String)
        ensures
            out@ == summary_text(self@),
    {
        let sort = match &self.sort {
            Some(sort) => {
                let mut text = sort.field.clone();
                text.append("[");
                text.append(sort.order.label());
                text.append("]");
                text
            },
            None => "None".to_owned(),
        };
        let mut parts: Vec<String> = Vec::new();
        let mut i: usize = 0;
        while i < self.filter_expression.len()
            invariant
                i <= self.filter_expression@.len(),
                parts@.len() == i,
                forall|k: int| 0 <= k < i ==> (#[trigger] parts@[k])@ == criterion_text(
                    self.filter_expression@[k].model(),
                ),
            decreases self.filter_expression@.len() - i,
        {
            parts.push(self.filter_expression[i].describe());
            i += 1;
        }
        assert(crate::record::texts(parts@) =~= criteria_texts(self@.filter_expression));
        let mut out = "Offset: ".to_owned();
        let offset = u32_text(self.offset);
        out.append(offset.as_str());
        out.append(" | Limit: ");
        let limit = u32_text(self.limit);
        out.append(limit.as_str());
        out.append(" | Sort: ");
        out.append(sort.as_str());
        out.append(" | Filter: [");
        let filter = join(&parts, " , ");
        out.append(filter.as_str());
        out.append("]");
        assert(out@ =~= summary_text(self@));
        out
    }
}

} // verus!
