use vstd::prelude::*;
use crate::client::ConversionError;
use crate::nav::str_equal;
use crate::query::PropertyValue;
use crate::query::ValueModel;

verus! {

/// What can be written down as the value of a property.
pub trait ToValue: Sized {
    /// What the value stands for once it is written down.
    spec fn value_model(self) -> ValueModel;

    fn into_value(self) -> (out: PropertyValue)
        ensures
            out.model() == self.value_model(),
    ;
}

impl ToValue for PropertyValue {
    open spec fn value_model(self) -> ValueModel {
        self.model()
    }

    fn into_value(self) -> (out: PropertyValue) {
        self
    }
}

impl ToValue for &str {
    open spec fn value_model(self) -> ValueModel {
        ValueModel::Text(self@)
    }

    fn into_value(self) -> (out: PropertyValue) {
        PropertyValue::Text(self.to_owned())
    }
}

impl ToValue for &String {
    open spec fn value_model(self) -> ValueModel {
        ValueModel::Text(self@)
    }

    fn into_value(self) -> (out: PropertyValue) {
        PropertyValue::Text(self.clone())
    }
}

impl ToValue for String {
    open spec fn value_model(self) -> ValueModel {
        ValueModel::Text(self@)
    }

    fn into_value(self) -> (out: PropertyValue) {
        PropertyValue::Text(self)
    }
}

impl ToValue for Vec<String> {
    open spec fn value_model(self) -> ValueModel {
        ValueModel::Many(crate::record::texts(self@))
    }

    fn into_value(self) -> (out: PropertyValue) {
        let out = PropertyValue::Many(self);
        assert(out.model()->Many_0 =~= crate::record::texts(self@));
        out
    }
}

/// What can be read from the value of a property.
pub trait FromValue: Sized {
    /// Whether a value can be read as this type.
    spec fn readable(value: ValueModel) -> bool;

    /// Whether `out` is what a value reads as.
    spec fn read_as(value: ValueModel, out: Self) -> bool;

    fn try_from(value: &PropertyValue) -> (out: Result<Self, ConversionError>)
        ensures
            out is Ok <==> Self::readable(value.model()),
            out is Ok ==> Self::read_as(value.model(), out->Ok_0),
    ;
}

impl FromValue for String {
    open spec fn readable(value: ValueModel) -> bool {
        text_of(value) is Some
    }

    open spec fn read_as(value: ValueModel, out: String) -> bool {
        text_of(value) == Some(out@)
    }

    fn try_from(value: &PropertyValue) -> (out: Result<String, ConversionError>) {
        value.try_text()
    }
}

impl FromValue for Vec<String> {
    open spec fn readable(value: ValueModel) -> bool {
        texts_of(value) is Some
    }

    open spec fn read_as(value: ValueModel, out: Vec<String>) -> bool {
        texts_of(value) == Some(crate::record::texts(out@))
    }

    fn try_from(value: &PropertyValue) -> (out: Result<Vec<String>, ConversionError>) {
        value.try_texts()
    }
}

/// Named values. Of two values with one name the later one counts.
pub struct Properties(pub Vec<(String, PropertyValue)>);

/// The position of the entry of `entries` that is named `name`, or -1.
pub open spec fn position_of(entries: Seq<(String, PropertyValue)>, name: Seq<char>) -> int
    decreases entries.len(),
{
    if entries.len() == 0 {
        -1
    } else if entries.last().0@ == name {
        entries.len() - 1
    } else {
        position_of(entries.drop_last(), name)
    }
}

/// Where `position_of` points, the name is found; where it points nowhere, it is not
/// there.
pub proof fn lemma_position_of(entries: Seq<(String, PropertyValue)>, name: Seq<char>)
    ensures
        -1 <= position_of(entries, name) < entries.len(),
        position_of(entries, name) >= 0 ==> entries[position_of(entries, name)].0@ == name,
        position_of(entries, name) == -1 ==> forall|i: int|
            0 <= i < entries.len() ==> (#[trigger] entries[i]).0@ != name,
    decreases entries.len(),
{
    if entries.len() > 0 && entries.last().0@ != name {
        lemma_position_of(entries.drop_last(), name);
        assert forall|i: int| 0 <= i < entries.len() && position_of(entries, name)
            == -1 implies (#[trigger] entries[i]).0@ != name by {
            if i < entries.len() - 1 {
                assert(entries.drop_last()[i] == entries[i]);
            }
        }
    }
}

impl View for Properties {
    type V = Map<Seq<char>, ValueModel>;

    /// The value of each name.
    open spec fn view(&self) -> Map<Seq<char>, ValueModel> {
        Map::new(
            |name: Seq<char>| position_of(self.0@, name) >= 0,
            |name: Seq<char>| self.0@[position_of(self.0@, name)].1.model(),
        )
    }
}

impl Default for Properties {
    fn default() -> (out: Properties)
        ensures
            out@ == Map::<Seq<char>, ValueModel>::empty(),
    {
        let out = Properties(Vec::new());
        assert(out@ =~= Map::<Seq<char>, ValueModel>::empty());
        out
    }
}

/// The text that a value is, if it is one.
pub open spec fn text_of(value: ValueModel) -> Option<Seq<char>> {
    match value {
        ValueModel::Text(text) => Some(text),
        _ => None,
    }
}

/// The list of texts that a value is: a list of texts as it stands, a text as the
/// list of that one text, nothing else.
pub open spec fn texts_of(value: ValueModel) -> Option<Seq<Seq<char>>> {
    match value {
        ValueModel::Text(text) => Some(seq![text]),
        ValueModel::Many(items) => Some(items),
        ValueModel::Other(_) => None,
    }
}

impl PropertyValue {
    /// Reads the value as a `T`.
    pub fn try_from<T: FromValue>(&self) -> (out: Result<T, ConversionError>)
        ensures
            out is Ok <==> T::readable(self.model()),
            out is Ok ==> T::read_as(self.model(), out->Ok_0),
    {
        T::try_from(self)
    }

    /// Reads the value as a text.
    pub fn try_text(&self) -> (out: Result<String, ConversionError>)
        ensures
            match text_of(self.model()) {
                Some(text) => out is Ok && out->Ok_0@ == text,
                None => out is Err,
            },
    {
        match self {
            PropertyValue::Text(text) => Ok(text.clone()),
            _ => Err(ConversionError {  }),
        }
    }

    /// Reads the value as a list of texts.
    pub fn try_texts(&self) -> (out: Result<Vec<String>, ConversionError>)
        ensures
            match texts_of(self.model()) {
                Some(items) => out is Ok && crate::record::texts(out->Ok_0@) == items,
                None => out is Err,
            },
    {
        match self {
            PropertyValue::Text(text) => {
                let mut out: Vec<String> = Vec::new();
                out.push(text.clone());
                assert(crate::record::texts(out@) =~= seq![text@]);
                Ok(out)
            },
            PropertyValue::Many(items) => {
                let out = crate::record::copy_strings(items);
                assert(crate::record::texts(out@) =~= self.model()->Many_0);
                Ok(out)
            },
            PropertyValue::Other(_) => Err(ConversionError {  }),
        }
    }
}

impl Properties {
    /// Where the value named `property` stands, if there is one.
    pub fn find(&self, property: &str) -> (out: Option<usize>)
        ensures
            match out {
                Some(at) => at == position_of(self.0@, property@) && at < self.0@.len(),
                None => position_of(self.0@, property@) == -1,
            },
    {
        let mut i: usize = self.0.len();
        assert(self.0@.take(i as int) =~= self.0@);
        while i > 0
            invariant
                i <= self.0@.len(),
                position_of(self.0@, property@) == position_of(self.0@.take(i as int), property@),
            decreases i,
        {
            let ghost prefix = self.0@.take(i as int);
            assert(prefix.last() == self.0@[i - 1]);
            assert(prefix.drop_last() =~= self.0@.take(i - 1));
            if str_equal(self.0[i - 1].0.as_str(), property) {
                return Some(i - 1);
            }
            i -= 1;
        }
        None
    }

    /// The value named `property`, as it stands.
    pub fn get_raw(&self, property: &str) -> (out: Option<&PropertyValue>)
        ensures
            out is Some <==> self@.dom().contains(property@),
            out is Some ==> out->Some_0.model() == self@[property@],
    {
        match self.find(property) {
            Some(at) => Some(&self.0[at].1),
            None => None,
        }
    }

    /// Whether there is a value named `property`.
    pub fn contains(&self, property: &str) -> (out: bool)
        ensures
            out == self@.dom().contains(property@),
    {
        self.find(property).is_some()
    }

    /// The text named `property`: none if there is no such name, an error if its
    /// value is no text.
    pub fn get_text(&self, property: &str) -> (out: Result<Option<String>, ConversionError>)
        ensures
            !self@.dom().contains(property@) ==> out == Ok::<Option<String>, ConversionError>(None),
            self@.dom().contains(property@) ==> match text_of(self@[property@]) {
                Some(text) => out is Ok && out->Ok_0 is Some && out->Ok_0->Some_0@ == text,
                None => out is Err,
            },
    {
        match self.get_raw(property) {
            Some(value) => match value.try_text() {
                Ok(text) => Ok(Some(text)),
                Err(err) => Err(err),
            },
            None => Ok(None),
        }
    }

    /// The list of texts named `property`: none if there is no such name, an error
    /// if its value is neither a text nor a list of texts.
    pub fn get_texts(&self, property: &str) -> (out: Result<Option<Vec<String>>, ConversionError>)
        ensures
            !self@.dom().contains(property@) ==> out == Ok::<Option<Vec<String>>, ConversionError>(
                None,
            ),
            self@.dom().contains(property@) ==> match texts_of(self@[property@]) {
                Some(items) => out is Ok && out->Ok_0 is Some && crate::record::texts(
                    out->Ok_0->Some_0@,
                ) == items,
                None => out is Err,
            },
    {
        match self.get_raw(property) {
            Some(value) => match value.try_texts() {
                Ok(items) => Ok(Some(items)),
                Err(err) => Err(err),
            },
            None => Ok(None),
        }
    }

    /// The value named `property`, read as a `T`: none if there is no such name, an
    /// error if its value cannot be read so.
    pub fn get<T: FromValue>(&self, property: &str) -> (out: Result<Option<T>, ConversionError>)
        ensures
            !self@.dom().contains(property@) ==> out == Ok::<Option<T>, ConversionError>(None),
            self@.dom().contains(property@) ==> {
                &&& out is Ok <==> T::readable(self@[property@])
                &&& out is Ok ==> out->Ok_0 is Some && T::read_as(self@[property@], out->Ok_0->Some_0)
            },
    {
        match self.get_raw(property) {
            Some(value) => match T::try_from(value) {
                Ok(read) => Ok(Some(read)),
                Err(err) => Err(err),
            },
            None => Ok(None),
        }
    }

    /// Names `value` `property`, in place of any value of that name.
    pub fn set<T: ToValue>(&mut self, property: &str, value: T)
        ensures
            final(self)@ == old(self)@.insert(property@, value.value_model()),
    {
        let ghost written = value.value_model();
        let value = value.into_value();
        let ghost before = self.0@;
        let found = self.find(property);
        proof {
            lemma_position_of(before, property@);
        }
        match found {
            Some(at) => {
                self.0.set(at, (property.to_owned(), value));
                proof {
                    let after = self.0@;
                    assert forall|name: Seq<char>| #[trigger]
                        position_of(after, name) == position_of(before, name) by {
                        lemma_same_names(before, after, name);
                    }
                    assert forall|name: Seq<char>|
                        name != property@ && position_of(before, name) >= 0 implies after[position_of(
                            before,
                            name,
                        )] == before[position_of(before, name)] by {
                        lemma_position_of(before, name);
                    }
                    assert forall|name: Seq<char>|
                        self@.dom().contains(name) <==> old(self)@.insert(
                            property@,
                            value.model(),
                        ).dom().contains(name) by {}
                    assert(self@ =~= old(self)@.insert(property@, value.model()));
                }
            },
            None => {
                self.0.push((property.to_owned(), value));
                proof {
                    let after = self.0@;
                    assert(after.drop_last() =~= before);
                    assert forall|name: Seq<char>| #[trigger]
                        position_of(after, name) == if name == property@ {
                            before.len() as int
                        } else {
                            position_of(before, name)
                        } by {}
                    assert forall|name: Seq<char>|
                        name != property@ && position_of(before, name) >= 0 implies after[position_of(
                            before,
                            name,
                        )] == before[position_of(before, name)] by {
                        lemma_position_of(before, name);
                    }
                    assert(self@ =~= old(self)@.insert(property@, value.model()));
                }
            },
        }
    }
}

/// Two lists with the same names at the same places find every name at the same
/// place.
pub proof fn lemma_same_names(
    a: Seq<(String, PropertyValue)>,
    b: Seq<(String, PropertyValue)>,
    name: Seq<char>,
)
    requires
        a.len() == b.len(),
        forall|i: int| 0 <= i < a.len() ==> (#[trigger] a[i]).0@ == b[i].0@,
    ensures
        position_of(a, name) == position_of(b, name),
    decreases a.len(),
{
    if a.len() > 0 {
        assert(a.last().0@ == b.last().0@);
        assert forall|i: int| 0 <= i < a.drop_last().len() implies (#[trigger] a.drop_last()[i]).0@
            == b.drop_last()[i].0@ by {
            assert(a.drop_last()[i] == a[i]);
            assert(b.drop_last()[i] == b[i]);
        }
        lemma_same_names(a.drop_last(), b.drop_last(), name);
    }
}

} // verus!
