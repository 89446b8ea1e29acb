//! Descriptions of pipeline elements: the factory that makes one, its name and
//! the properties it is given, in order.
use vstd::prelude::*;

verus! {

/// A property value as a description carries it.
pub enum PropertyValue {
    /// Text that the element parses itself (an enumeration nick, caps, a flag set).
    Text(String),
    UInt(u32),
    ULong(u64),
    Int(i32),
    Long(i64),
    Bool(bool),
}

/// What a [`PropertyValue`] stands for.
pub enum PropertyValueView {
    Text(Seq<char>),
    UInt(u32),
    ULong(u64),
    Int(i32),
    Long(i64),
    Bool(bool),
}

impl View for PropertyValue {
    type V = PropertyValueView;

    open spec fn view(&self) -> PropertyValueView {
        match self {
            PropertyValue::Text(s) => PropertyValueView::Text(s@),
            PropertyValue::UInt(n) => PropertyValueView::UInt(*n),
            PropertyValue::ULong(n) => PropertyValueView::ULong(*n),
            PropertyValue::Int(n) => PropertyValueView::Int(*n),
            PropertyValue::Long(n) => PropertyValueView::Long(*n),
            PropertyValue::Bool(b) => PropertyValueView::Bool(*b),
        }
    }
}

/// A property and the value it is set to.
pub struct Property {
    pub name: String,
    pub value: PropertyValue,
}

/// One element to be made.
pub struct ElementSpec {
    pub factory: String,
    pub name: Option<String>,
    pub properties: Vec<Property>,
    /// Properties that are set only where the element turns out to have them.
    pub optional: Vec<Property>,
}

/// What an [`ElementSpec`] stands for.
#[verifier::ext_equal]
pub struct ElementView {
    pub factory: Seq<char>,
    pub name: Option<Seq<char>>,
    pub properties: Seq<(Seq<char>, PropertyValueView)>,
    pub optional: Seq<(Seq<char>, PropertyValueView)>,
}

impl ElementView {
    /// An element of `factory`, unnamed, with every property at its default.
    pub open spec fn of(factory: Seq<char>) -> ElementView {
        ElementView { factory, name: None, properties: Seq::empty(), optional: Seq::empty() }
    }

    pub open spec fn named(self, name: Seq<char>) -> ElementView {
        ElementView { name: Some(name), ..self }
    }

    pub open spec fn with(self, name: Seq<char>, value: PropertyValueView) -> ElementView {
        ElementView { properties: self.properties.push((name, value)), ..self }
    }

    pub open spec fn if_known(self, name: Seq<char>, value: PropertyValueView) -> ElementView {
        ElementView { optional: self.optional.push((name, value)), ..self }
    }

    pub open spec fn text(self, name: Seq<char>, value: Seq<char>) -> ElementView {
        self.with(name, PropertyValueView::Text(value))
    }

    pub open spec fn uint32(self, name: Seq<char>, value: u32) -> ElementView {
        self.with(name, PropertyValueView::UInt(value))
    }

    pub open spec fn uint64(self, name: Seq<char>, value: u64) -> ElementView {
        self.with(name, PropertyValueView::ULong(value))
    }

    pub open spec fn int32(self, name: Seq<char>, value: i32) -> ElementView {
        self.with(name, PropertyValueView::Int(value))
    }

    pub open spec fn int64(self, name: Seq<char>, value: i64) -> ElementView {
        self.with(name, PropertyValueView::Long(value))
    }

    pub open spec fn boolean(self, name: Seq<char>, value: bool) -> ElementView {
        self.with(name, PropertyValueView::Bool(value))
    }
}

/// The properties of a description, as plain values.
pub open spec fn property_views(s: Seq<Property>) -> Seq<(Seq<char>, PropertyValueView)> {
    s.map_values(|p: Property| (p.name@, p.value@))
}

impl View for ElementSpec {
    type V = ElementView;

    open spec fn view(&self) -> ElementView {
        ElementView {
            factory: self.factory@,
            name: match self.name {
                Some(n) => Some(n@),
                None => None,
            },
            properties: property_views(self.properties@),
            optional: property_views(self.optional@),
        }
    }
}

/// The descriptions of a list of elements.
pub open spec fn element_views(s: Seq<ElementSpec>) -> Seq<ElementView> {
    s.map_values(|e: ElementSpec| e@)
}

impl ElementSpec {
    pub fn of(factory: &str) -> (r: ElementSpec)
        ensures
            r@ == ElementView::of(factory@),
    {
        let r = ElementSpec {
            factory: factory.to_owned(),
            name: None,
            properties: Vec::new(),
            optional: Vec::new(),
        };
        assert(r@ =~= ElementView::of(factory@));
        r
    }

    pub fn named(self, name: &str) -> (r: ElementSpec)
        ensures
            r@ == self@.named(name@),
    {
        ElementSpec {
            factory: self.factory,
            name: Some(name.to_owned()),
            properties: self.properties,
            optional: self.optional,
        }
    }

    pub fn with(self, name: &str, value: PropertyValue) -> (r: ElementSpec)
        ensures
            r@ == self@.with(name@, value@),
    {
        let ghost before = self@;
        let mut properties = self.properties;
        properties.push(Property { name: name.to_owned(), value });
        let r = ElementSpec {
            factory: self.factory,
            name: self.name,
            properties,
            optional: self.optional,
        };
        assert(r@.properties =~= before.properties.push((name@, value@)));
        r
    }

    pub fn if_known(self, name: &str, value: PropertyValue) -> (r: ElementSpec)
        ensures
            r@ == self@.if_known(name@, value@),
    {
        let ghost before = self@;
        let mut optional = self.optional;
        optional.push(Property { name: name.to_owned(), value });
        let r = ElementSpec {
            factory: self.factory,
            name: self.name,
            properties: self.properties,
            optional,
        };
        assert(r@.optional =~= before.optional.push((name@, value@)));
        r
    }

    pub fn text(self, name: &str, value: &str) -> (r: ElementSpec)
        ensures
            r@ == self@.text(name@, value@),
    {
        self.with(name, PropertyValue::Text(value.to_owned()))
    }

    pub fn uint32(self, name: &str, value: u32) -> (r: ElementSpec)
        ensures
            r@ == self@.uint32(name@, value),
    {
        self.with(name, PropertyValue::UInt(value))
    }

    pub fn uint64(self, name: &str, value: u64) -> (r: ElementSpec)
        ensures
            r@ == self@.uint64(name@, value),
    {
        self.with(name, PropertyValue::ULong(value))
    }

    pub fn int32(self, name: &str, value: i32) -> (r: ElementSpec)
        ensures
            r@ == self@.int32(name@, value),
    {
        self.with(name, PropertyValue::Int(value))
    }

    pub fn int64(self, name: &str, value: i64) -> (r: ElementSpec)
        ensures
            r@ == self@.int64(name@, value),
    {
        self.with(name, PropertyValue::Long(value))
    }

    pub fn boolean(self, name: &str, value: bool) -> (r: ElementSpec)
        ensures
            r@ == self@.boolean(name@, value),
    {
        self.with(name, PropertyValue::Bool(value))
    }
}

/// Properties are added one behind the other, each with its own name and value, and
/// nothing that was said of an element before is lost by saying more.
pub proof fn properties_are_added_in_order(
    element: ElementView,
    factory: Seq<char>,
    name: Seq<char>,
    value: PropertyValueView,
)
    ensures
        ({
            let more = element.with(name, value);
            &&& more.properties.len() == element.properties.len() + 1
            &&& more.properties.last() == (name, value)
            &&& more.properties.drop_last() == element.properties
            &&& more.factory == element.factory && more.name == element.name && more.optional
                == element.optional
        }),
        ({
            let more = element.if_known(name, value);
            &&& more.optional.len() == element.optional.len() + 1
            &&& more.optional.last() == (name, value)
            &&& more.optional.drop_last() == element.optional
            &&& more.factory == element.factory && more.name == element.name && more.properties
                == element.properties
        }),
        ({
            let named = element.named(name);
            &&& named.name == Some(name)
            &&& named.factory == element.factory && named.properties == element.properties
                && named.optional == element.optional
        }),
        ElementView::of(factory).factory == factory,
        ElementView::of(factory).name is None,
        ElementView::of(factory).properties.len() == 0,
        ElementView::of(factory).optional.len() == 0,
{
    assert(element.with(name, value).properties.drop_last() =~= element.properties);
    assert(element.if_known(name, value).optional.drop_last() =~= element.optional);
}

/// Every kind of value is added as the kind it is.
pub proof fn values_keep_their_kind(
    element: ElementView,
    name: Seq<char>,
    text: Seq<char>,
    u: u32,
    ul: u64,
    i: i32,
    l: i64,
    b: bool,
)
    ensures
        element.text(name, text).properties.last() == (name, PropertyValueView::Text(text)),
        element.uint32(name, u).properties.last() == (name, PropertyValueView::UInt(u)),
        element.uint64(name, ul).properties.last() == (name, PropertyValueView::ULong(ul)),
        element.int32(name, i).properties.last() == (name, PropertyValueView::Int(i)),
        element.int64(name, l).properties.last() == (name, PropertyValueView::Long(l)),
        element.boolean(name, b).properties.last() == (name, PropertyValueView::Bool(b)),
{
}

/// A description that is carried about is of the factory, the name and the properties
/// that it holds, in their order and under their names.
pub proof fn descriptions_are_what_they_hold(element: ElementSpec, i: int)
    ensures
        element@.factory == element.factory@,
        element@.name is Some <==> element.name is Some,
        element.name is Some ==> element@.name->0 == element.name->0@,
        element@.properties.len() == element.properties@.len(),
        element@.optional.len() == element.optional@.len(),
        0 <= i < element.properties@.len() ==> element@.properties[i].0
            == element.properties@[i].name@ && (element.properties@[i].value matches
            PropertyValue::Text(s) ==> element@.properties[i].1 == PropertyValueView::Text(s@)) && (
        element.properties@[i].value matches PropertyValue::UInt(n) ==> element@.properties[i].1
            == PropertyValueView::UInt(n)) && (element.properties@[i].value matches
            PropertyValue::ULong(n) ==> element@.properties[i].1 == PropertyValueView::ULong(n))
            && (element.properties@[i].value matches PropertyValue::Int(n)
            ==> element@.properties[i].1 == PropertyValueView::Int(n)) && (
        element.properties@[i].value matches PropertyValue::Long(n) ==> element@.properties[i].1
            == PropertyValueView::Long(n)) && (element.properties@[i].value matches
            PropertyValue::Bool(b) ==> element@.properties[i].1 == PropertyValueView::Bool(b)),
        0 <= i < element.optional@.len() ==> element@.optional[i] == (
            element.optional@[i].name@,
            element.optional@[i].value@,
        ),
{
}

} // verus!
