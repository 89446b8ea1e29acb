//! The controls that a pipeline offers: the properties of its encoder, and a few
//! of the stream itself.
use vstd::prelude::*;

use crate::stream::transcoding_types::{
    EncoderProperty, EncoderValue, EncoderValueView, ManualTranscodingConfig, SourceConfiguration,
    TranscodedStream, TranscodingCapture, TranscodingCaptureConfiguration,
};
use crate::text::{
    append_u64, comes_before, decimal, precedence_is_total, precedence_is_transitive, precedes,
    same_text,
};

verus! {

/// The identities of the controls of the stream itself. Pipeline controls have
/// the identities from `offset` on.
#[derive(Clone, Copy, Debug, PartialEq, Eq, Structural)]
pub struct ControlIds {
    pub offset: u64,
    pub auto_restart: u64,
    pub restart_stream: u64,
}

impl ControlIds {
    /// The invariant: both are pipeline controls, and different ones.
    pub open spec fn wf(self) -> bool {
        &&& self.auto_restart >= self.offset
        &&& self.restart_stream >= self.offset
        &&& self.auto_restart != self.restart_stream
    }

    /// Takes the identities, where they can be told from others and from each
    /// other.
    pub fn new(offset: u64, auto_restart: u64, restart_stream: u64) -> (r: Option<ControlIds>)
        ensures
            ({
                let ids = ControlIds { offset, auto_restart, restart_stream };
                r == (if ids.wf() {
                    Some(ids)
                } else {
                    None
                })
            }),
    {
        if auto_restart >= offset && restart_stream >= offset && auto_restart != restart_stream {
            Some(ControlIds { offset, auto_restart, restart_stream })
        } else {
            None
        }
    }
}

pub fn auto_restart_control_id(ids: &ControlIds) -> (r: u64)
    ensures
        r == ids.auto_restart,
{
    ids.auto_restart
}

pub fn restart_stream_control_id(ids: &ControlIds) -> (r: u64)
    ensures
        r == ids.restart_stream,
{
    ids.restart_stream
}

/// Whether a control belongs to a pipeline.
pub fn is_pipeline_control_id(ids: &ControlIds, control_id: u64) -> (r: bool)
    ensures
        r == (control_id >= ids.offset),
{
    control_id >= ids.offset
}

#[derive(Clone, Copy, Debug, PartialEq, Eq, Structural)]
pub struct ControlBool {
    pub default: i64,
    pub value: i64,
}

#[derive(Clone, Copy, Debug, PartialEq, Eq, Structural)]
pub struct ControlSlider {
    pub default: i64,
    pub value: i64,
    pub step: i64,
    pub max: i64,
    pub min: i64,
}

/// One choice of a menu.
pub struct ControlOption {
    pub name: String,
    pub value: i64,
}

pub struct ControlMenu {
    pub default: i64,
    pub value: i64,
    pub options: Vec<ControlOption>,
}

#[derive(Clone, Copy, Debug, PartialEq, Eq, Structural)]
pub struct ControlFlags {
    pub default: i64,
    pub value: i64,
}

pub enum ControlType {
    Bool(ControlBool),
    Slider(ControlSlider),
    Menu(ControlMenu),
    Flags(ControlFlags),
}

/// Whether a control can be used at present.
#[derive(Clone, Copy, Debug, PartialEq, Eq, Structural)]
pub struct ControlState {
    pub is_disabled: bool,
    pub is_inactive: bool,
}

impl Default for ControlState {
    fn default() -> (r: ControlState)
        ensures
            r == (ControlState { is_disabled: false, is_inactive: false }),
    {
        ControlState { is_disabled: false, is_inactive: false }
    }
}

/// One control.
pub struct Control {
    pub name: String,
    pub element: String,
    pub cpp_type: String,
    pub id: u64,
    pub state: ControlState,
    pub configuration: ControlType,
    pub mutable_in_playing: bool,
    pub requires_restart: bool,
}

impl ControlType {
    /// What the control is set to.
    pub open spec fn value(self) -> i64 {
        match self {
            ControlType::Bool(c) => c.value,
            ControlType::Slider(c) => c.value,
            ControlType::Menu(c) => c.value,
            ControlType::Flags(c) => c.value,
        }
    }

    /// The control set to something else.
    pub open spec fn with_value(self, value: i64) -> ControlType {
        match self {
            ControlType::Bool(c) => ControlType::Bool(ControlBool { value, ..c }),
            ControlType::Slider(c) => ControlType::Slider(ControlSlider { value, ..c }),
            ControlType::Menu(c) => ControlType::Menu(ControlMenu { value, ..c }),
            ControlType::Flags(c) => ControlType::Flags(ControlFlags { value, ..c }),
        }
    }
}

impl Control {
    pub open spec fn with_value(self, value: i64) -> Control {
        Control { configuration: self.configuration.with_value(value), ..self }
    }
}

fn set_control_value(control: &mut Control, value: i64)
    ensures
        *final(control) == old(control).with_value(value),
{
    match &mut control.configuration {
        ControlType::Bool(c) => {
            c.value = value;
        },
        ControlType::Slider(c) => {
            c.value = value;
        },
        ControlType::Menu(c) => {
            c.value = value;
        },
        ControlType::Flags(c) => {
            c.value = value;
        },
    }
}

fn control_current_value(configuration: &ControlType) -> (r: i64)
    ensures
        r == configuration.value(),
{
    match configuration {
        ControlType::Bool(c) => c.value,
        ControlType::Slider(c) => c.value,
        ControlType::Menu(c) => c.value,
        ControlType::Flags(c) => c.value,
    }
}

/// A choice that an encoder knows for one of its properties.
pub struct Nick {
    pub property: String,
    pub nick: String,
    pub value: i32,
}

/// The choices of the enumerated properties of an encoder, in its order. Where
/// the encoder could not be made there are none.
pub struct Probe {
    pub nicks: Vec<Nick>,
}

impl Probe {
    pub open spec fn is_nick(self, i: int, property: Seq<char>, nick: Seq<char>) -> bool {
        self.nicks@[i].property@ == property && self.nicks@[i].nick@ == nick
    }

    pub open spec fn is_value(self, i: int, property: Seq<char>, value: i64) -> bool {
        self.nicks@[i].property@ == property && self.nicks@[i].value == value
    }

    /// The value of the first choice of a property that goes by the nick, from
    /// position `i` on.
    pub open spec fn value_from(self, i: int, property: Seq<char>, nick: Seq<char>) -> Option<i64>
        decreases self.nicks@.len() - i,
    {
        if i < 0 || i >= self.nicks@.len() {
            None
        } else if self.is_nick(i, property, nick) {
            Some(self.nicks@[i].value as i64)
        } else {
            self.value_from(i + 1, property, nick)
        }
    }

    /// The nick of the first choice of a property that has the value, from
    /// position `i` on.
    pub open spec fn nick_from(self, i: int, property: Seq<char>, value: i64) -> Option<Seq<char>>
        decreases self.nicks@.len() - i,
    {
        if i < 0 || i >= self.nicks@.len() {
            None
        } else if self.is_value(i, property, value) {
            Some(self.nicks@[i].nick@)
        } else {
            self.nick_from(i + 1, property, value)
        }
    }

    fn value_by_nick(&self, property: &str, nick: &str) -> (r: Option<i64>)
        ensures
            r == self.value_from(0, property@, nick@),
    {
        let mut i: usize = 0;
        while i < self.nicks.len()
            invariant
                i <= self.nicks.len(),
                self.value_from(0, property@, nick@) == self.value_from(
                    i as int,
                    property@,
                    nick@,
                ),
            decreases self.nicks.len() - i,
        {
            let entry = &self.nicks[i];
            if same_text(entry.property.as_str(), property) && same_text(
                entry.nick.as_str(),
                nick,
            ) {
                return Some(entry.value as i64);
            }
            i += 1;
        }
        None
    }

    fn nick_by_value(&self, property: &str, value: i64) -> (r: Option<String>)
        ensures
            match r {
                Some(nick) => self.nick_from(0, property@, value) == Some(nick@),
                None => self.nick_from(0, property@, value) is None,
            },
    {
        let mut i: usize = 0;
        while i < self.nicks.len()
            invariant
                i <= self.nicks.len(),
                self.nick_from(0, property@, value) == self.nick_from(i as int, property@, value),
            decreases self.nicks.len() - i,
        {
            let entry = &self.nicks[i];
            if same_text(entry.property.as_str(), property) && entry.value as i64 == value {
                return Some(entry.nick.clone());
            }
            i += 1;
        }
        None
    }
}

/// The number that stands for a property value among controls. A choice that
/// the encoder does not know counts as zero.
pub open spec fn api_of(value: EncoderValueView, property: Seq<char>, probe: Probe) -> i64 {
    match value {
        EncoderValueView::Bool(b) => if b {
            1
        } else {
            0
        },
        EncoderValueView::Integer(i) => i,
        EncoderValueView::Number { api, .. } => api,
        EncoderValueView::Text(nick) => match probe.value_from(0, property, nick) {
            Some(v) => v,
            None => 0,
        },
    }
}

fn property_value_to_api(value: &EncoderValue, property: &str, probe: &Probe) -> (r: i64)
    ensures
        r == api_of(value@, property@, *probe),
{
    match value {
        EncoderValue::Bool(b) => if *b {
            1
        } else {
            0
        },
        EncoderValue::Integer(i) => *i,
        EncoderValue::Number { api, .. } => *api,
        EncoderValue::Text(nick) => match probe.value_by_nick(property, nick.as_str()) {
            Some(v) => v,
            None => 0,
        },
    }
}

/// The name of the first option with the value, from position `i` on.
pub open spec fn option_from(options: Seq<ControlOption>, i: int, value: i64) -> Option<Seq<char>>
    decreases options.len() - i,
{
    if i < 0 || i >= options.len() {
        None
    } else if options[i].value == value {
        Some(options[i].name@)
    } else {
        option_from(options, i + 1, value)
    }
}

fn option_by_value(options: &Vec<ControlOption>, value: i64) -> (r: Option<String>)
    ensures
        match r {
            Some(name) => option_from(options@, 0, value) == Some(name@),
            None => option_from(options@, 0, value) is None,
        },
{
    let mut i: usize = 0;
    while i < options.len()
        invariant
            i <= options.len(),
            option_from(options@, 0, value) == option_from(options@, i as int, value),
        decreases options.len() - i,
    {
        if options[i].value == value {
            return Some(options[i].name.clone());
        }
        i += 1;
    }
    None
}

/// The property value that a number stands for, by the kind of the control: a
/// choice goes by its name, or by what the encoder calls it.
pub open spec fn property_of(control: Control, value: i64, probe: Probe) -> EncoderValueView {
    match control.configuration {
        ControlType::Bool(_) => EncoderValueView::Bool(value != 0),
        ControlType::Menu(menu) => match option_from(menu.options@, 0, value) {
            Some(name) => EncoderValueView::Text(name),
            None => match probe.nick_from(0, control.name@, value) {
                Some(nick) => EncoderValueView::Text(nick),
                None => EncoderValueView::Integer(value),
            },
        },
        ControlType::Slider(_) => EncoderValueView::Integer(value),
        ControlType::Flags(_) => EncoderValueView::Integer(value),
    }
}

fn api_value_to_property_value(control: &Control, value: i64, probe: &Probe) -> (r: EncoderValue)
    ensures
        r@ == property_of(*control, value, *probe),
{
    match &control.configuration {
        ControlType::Bool(_) => EncoderValue::Bool(value != 0),
        ControlType::Menu(menu) => match option_by_value(&menu.options, value) {
            Some(name) => EncoderValue::Text(name),
            None => match probe.nick_by_value(control.name.as_str(), value) {
                Some(nick) => EncoderValue::Text(nick),
                None => EncoderValue::Integer(value),
            },
        },
        ControlType::Slider(_) => EncoderValue::Integer(value),
        ControlType::Flags(_) => EncoderValue::Integer(value),
    }
}

/// A number that a control was set to is read back from what was stored for it:
/// of a switch zero and one, of a slider or flags any, of a menu one that its
/// encoder knows by the name that is stored, or that has no name at all.
pub proof fn stored_values_are_read_back(control: Control, value: i64, probe: Probe)
    requires
        match control.configuration {
            ControlType::Bool(_) => value == 0 || value == 1,
            ControlType::Menu(_) => property_of(control, value, probe) matches
                EncoderValueView::Text(
                nick,
            ) ==> probe.value_from(0, control.name@, nick) == Some(value),
            _ => true,
        },
    ensures
        api_of(property_of(control, value, probe), control.name@, probe) == value,
{
}

/// What was read of a property of the running encoder.
#[derive(Clone, Copy, Debug, PartialEq, Eq, Structural)]
pub enum LiveProperty {
    Enum(i32),
    Bool(bool),
    I32(i32),
    U32(u32),
    I64(i64),
    U64(u64),
    /// A number with a fraction, as the integer that stands for it.
    Float(i64),
    /// Anything else, and what could not be read.
    Unsupported,
}

/// The number that stands for a property that was read; none for one that is
/// too large for it.
pub open spec fn live_api(property: LiveProperty) -> Option<i64> {
    match property {
        LiveProperty::Enum(i) => Some(i as i64),
        LiveProperty::Bool(b) => Some(
            if b {
                1
            } else {
                0
            },
        ),
        LiveProperty::I32(i) => Some(i as i64),
        LiveProperty::U32(u) => Some(u as i64),
        LiveProperty::I64(i) => Some(i),
        LiveProperty::U64(u) => if u <= i64::MAX {
            Some(u as i64)
        } else {
            None
        },
        LiveProperty::Float(api) => Some(api),
        LiveProperty::Unsupported => None,
    }
}

/// Converts a property that was read.
pub fn read_property_as_api(property: LiveProperty) -> (r: Option<i64>)
    ensures
        r == live_api(property),
{
    match property {
        LiveProperty::Enum(i) => Some(i as i64),
        LiveProperty::Bool(b) => Some(
            if b {
                1
            } else {
                0
            },
        ),
        LiveProperty::I32(i) => Some(i as i64),
        LiveProperty::U32(u) => Some(u as i64),
        LiveProperty::I64(i) => Some(i),
        LiveProperty::U64(u) => if u <= i64::MAX as u64 {
            Some(u as i64)
        } else {
            None
        },
        LiveProperty::Float(api) => Some(api),
        LiveProperty::Unsupported => None,
    }
}

/// The value stored for a name, if one is.
pub open spec fn stored(properties: Seq<EncoderProperty>, name: Seq<char>) -> Option<
    EncoderValueView,
>
    decreases properties.len(),
{
    if properties.len() == 0 {
        None
    } else if properties.last().name@ == name {
        Some(properties.last().value@)
    } else {
        stored(properties.drop_last(), name)
    }
}

/// Names in ascending order, each once.
pub open spec fn in_order(properties: Seq<EncoderProperty>) -> bool {
    forall|i: int, j: int|
        0 <= i < j < properties.len() ==> precedes(
            (#[trigger] properties[i]).name@,
            (#[trigger] properties[j]).name@,
        )
}

proof fn stored_at(properties: Seq<EncoderProperty>, i: int)
    requires
        in_order(properties),
        0 <= i < properties.len(),
    ensures
        stored(properties, properties[i].name@) == Some(properties[i].value@),
    decreases properties.len(),
{
    let last = properties.len() - 1;
    if i < last {
        precedence_is_total(properties[i].name@, properties[last].name@);
        assert(in_order(properties.drop_last()));
        stored_at(properties.drop_last(), i);
    }
}

proof fn not_stored(properties: Seq<EncoderProperty>, name: Seq<char>)
    requires
        forall|i: int| 0 <= i < properties.len() ==> (#[trigger] properties[i]).name@ != name,
    ensures
        stored(properties, name) is None,
    decreases properties.len(),
{
    if properties.len() > 0 {
        assert(properties[properties.len() - 1].name@ != name);
        let front = properties.drop_last();
        assert forall|i: int| 0 <= i < front.len() implies (#[trigger] front[i]).name@ != name by {
            assert(front[i] == properties[i]);
        }
        not_stored(front, name);
    }
}

/// Lists with the same entries under every name agree in what they store.
proof fn stored_agrees(
    a: Seq<EncoderProperty>,
    b: Seq<EncoderProperty>,
    name: Seq<char>,
)
    requires
        in_order(a),
        in_order(b),
        forall|i: int|
            0 <= i < a.len() && (#[trigger] a[i]).name@ == name ==> exists|j: int|
                0 <= j < b.len() && (#[trigger] b[j]).name@ == name && b[j].value@ == a[i].value@,
        forall|j: int|
            0 <= j < b.len() && (#[trigger] b[j]).name@ == name ==> exists|i: int|
                0 <= i < a.len() && (#[trigger] a[i]).name@ == name,
    ensures
        stored(a, name) == stored(b, name),
{
    if exists|i: int| 0 <= i < a.len() && (#[trigger] a[i]).name@ == name {
        let i = choose|i: int| 0 <= i < a.len() && (#[trigger] a[i]).name@ == name;
        let j = choose|j: int|
            0 <= j < b.len() && (#[trigger] b[j]).name@ == name && b[j].value@ == a[i].value@;
        stored_at(a, i);
        stored_at(b, j);
    } else {
        not_stored(a, name);
        assert forall|j: int| 0 <= j < b.len() implies (#[trigger] b[j]).name@ != name by {}
        not_stored(b, name);
    }
}

fn find_property(properties: &Vec<EncoderProperty>, name: &str) -> (r: Option<usize>)
    requires
        in_order(properties@),
    ensures
        match r {
            Some(i) => i < properties@.len() && properties@[i as int].name@ == name@ && stored(
                properties@,
                name@,
            ) == Some(properties@[i as int].value@),
            None => stored(properties@, name@) is None,
        },
{
    let mut i: usize = 0;
    while i < properties.len()
        invariant
            i <= properties.len(),
            in_order(properties@),
            forall|j: int| 0 <= j < i ==> (#[trigger] properties@[j]).name@ != name@,
        decreases properties.len() - i,
    {
        if same_text(properties[i].name.as_str(), name) {
            proof {
                stored_at(properties@, i as int);
            }
            return Some(i);
        }
        i += 1;
    }
    proof {
        not_stored(properties@, name@);
    }
    None
}

/// Stores a value under a name, in place of one that is there.
fn store(properties: &mut Vec<EncoderProperty>, name: &str, value: EncoderValue)
    requires
        in_order(old(properties)@),
    ensures
        in_order(final(properties)@),
        stored(final(properties)@, name@) == Some(value@),
        forall|other: Seq<char>|
            other != name@ ==> #[trigger] stored(final(properties)@, other) == stored(
                old(properties)@,
                other,
            ),
{
    let ghost before = properties@;
    let mut p: usize = 0;
    while p < properties.len() && comes_before(properties[p].name.as_str(), name)
        invariant
            p <= properties.len(),
            properties@ == before,
            in_order(before),
            forall|j: int| 0 <= j < p ==> precedes((#[trigger] before[j]).name@, name@),
        decreases properties.len() - p,
    {
        p += 1;
    }
    let property = EncoderProperty { name: name.to_owned(), value };
    let replaced = p < properties.len() && same_text(properties[p].name.as_str(), name);
    if replaced {
        properties.set(p, property);
    } else {
        properties.insert(p, property);
    }
    proof {
        let after = properties@;
        assert(after == if replaced {
            before.update(p as int, property)
        } else {
            before.insert(p as int, property)
        });
        if p < before.len() {
            precedence_is_total(before[p as int].name@, name@);
        }
        assert forall|j: int| p < j < before.len() implies precedes(
            name@,
            (#[trigger] before[j]).name@,
        ) by {
            if !replaced {
                precedence_is_transitive(name@, before[p as int].name@, before[j].name@);
            } else {
                assert(precedes(before[p as int].name@, before[j].name@));
            }
        }
        if replaced {
            assert forall|i: int, j: int| 0 <= i < j < after.len() implies precedes(
                (#[trigger] after[i]).name@,
                (#[trigger] after[j]).name@,
            ) by {
                assert(after[i].name@ == before[i].name@);
                assert(after[j].name@ == before[j].name@);
            }
        } else {
            assert forall|i: int, j: int| 0 <= i < j < after.len() implies precedes(
                (#[trigger] after[i]).name@,
                (#[trigger] after[j]).name@,
            ) by {
                if i < p && j > p {
                    assert(after[i] == before[i] && after[j] == before[j - 1]);
                } else if i < p && j < p {
                    assert(after[i] == before[i] && after[j] == before[j]);
                } else if i > p {
                    assert(after[i] == before[i - 1] && after[j] == before[j - 1]);
                } else if i == p {
                    assert(after[j] == before[j - 1]);
                } else {
                    assert(after[i] == before[i]);
                }
            }
        }
        stored_at(after, p as int);
        assert forall|other: Seq<char>| other != name@ implies #[trigger] stored(after, other)
            == stored(before, other) by {
            assert forall|i: int|
                0 <= i < after.len() && (#[trigger] after[i]).name@ == other implies exists|j: int|
                0 <= j < before.len() && (#[trigger] before[j]).name@ == other && before[j].value@
                    == after[i].value@ by {
                if replaced || i < p {
                    assert(before[i] == after[i]);
                } else {
                    assert(before[i - 1] == after[i]);
                }
            }
            assert forall|j: int|
                0 <= j < before.len() && (#[trigger] before[j]).name@ == other implies exists|
                i: int,
            |
                0 <= i < after.len() && (#[trigger] after[i]).name@ == other by {
                if replaced || j < p {
                    assert(before[j] == after[j]);
                } else {
                    assert(before[j] == after[j + 1]);
                }
            }
            stored_agrees(after, before, other);
        }
    }
}

impl TranscodedStream {
    /// The settings of manual transcoding, where the stream uses it.
    pub open spec fn manual(self) -> Option<ManualTranscodingConfig> {
        match self.configuration {
            TranscodingCapture::Video(c) => match c.source_configuration {
                SourceConfiguration::ManualTranscoding(m) => Some(m),
                _ => None,
            },
            TranscodingCapture::Redirect => None,
        }
    }

    /// The properties that are stored for the encoder.
    pub open spec fn properties(self) -> Vec<EncoderProperty> {
        self.manual()->0.encoder_properties
    }

    /// The stream with other properties for the encoder.
    pub open spec fn with_properties(self, properties: Vec<EncoderProperty>) -> TranscodedStream {
        match self.configuration {
            TranscodingCapture::Video(c) => match c.source_configuration {
                SourceConfiguration::ManualTranscoding(m) => TranscodedStream {
                    configuration: TranscodingCapture::Video(
                        TranscodingCaptureConfiguration {
                            source_configuration: SourceConfiguration::ManualTranscoding(
                                ManualTranscodingConfig { encoder_properties: properties, ..m },
                            ),
                            ..c
                        },
                    ),
                    ..self
                },
                _ => self,
            },
            TranscodingCapture::Redirect => self,
        }
    }

    pub open spec fn auto_restart(self) -> bool {
        match self.configuration {
            TranscodingCapture::Video(c) => c.auto_restart_on_config_change,
            TranscodingCapture::Redirect => false,
        }
    }

    pub open spec fn with_auto_restart(self, value: bool) -> TranscodedStream {
        match self.configuration {
            TranscodingCapture::Video(c) => TranscodedStream {
                configuration: TranscodingCapture::Video(
                    TranscodingCaptureConfiguration { auto_restart_on_config_change: value, ..c },
                ),
                ..self
            },
            TranscodingCapture::Redirect => self,
        }
    }

    /// The invariant: stored properties are in order, each name once.
    pub open spec fn wf(self) -> bool {
        self.manual() is Some ==> in_order(self.properties()@)
    }
}

/// The encoder of a stream: the one that the user picked, or the usual one.
pub open spec fn encoder_factory(stream: TranscodedStream) -> Seq<char> {
    match stream.manual() {
        Some(m) => if m.encoder@.len() == 0 {
            "x264enc"@
        } else {
            m.encoder@
        },
        None => "x264enc"@,
    }
}

/// The name of the encoder of a stream.
pub fn encoder_factory_name(stream: &TranscodedStream) -> (r: String)
    ensures
        r@ == encoder_factory(*stream),
{
    match &stream.configuration {
        TranscodingCapture::Video(c) => match &c.source_configuration {
            SourceConfiguration::ManualTranscoding(m) => {
                if m.encoder.as_str().is_empty() {
                    "x264enc".to_owned()
                } else {
                    m.encoder.clone()
                }
            },
            _ => "x264enc".to_owned(),
        },
        TranscodingCapture::Redirect => "x264enc".to_owned(),
    }
}

fn auto_restart_on_config_change(stream: &TranscodedStream) -> (r: bool)
    ensures
        r == stream.auto_restart(),
{
    match &stream.configuration {
        TranscodingCapture::Video(c) => c.auto_restart_on_config_change,
        TranscodingCapture::Redirect => false,
    }
}

fn set_auto_restart_on_config_change(stream: &mut TranscodedStream, value: bool)
    ensures
        *final(stream) == old(stream).with_auto_restart(value),
{
    match &mut stream.configuration {
        TranscodingCapture::Video(c) => {
            c.auto_restart_on_config_change = value;
        },
        TranscodingCapture::Redirect => {},
    }
}

/// A property of the running encoder and what was read of it.
pub struct LiveValue {
    pub name: String,
    pub property: LiveProperty,
}

/// What was read of the property, from position `i` on.
pub open spec fn live_from(live: Seq<LiveValue>, i: int, name: Seq<char>) -> Option<i64>
    decreases live.len() - i,
{
    if i < 0 || i >= live.len() {
        None
    } else if live[i].name@ == name {
        live_api(live[i].property)
    } else {
        live_from(live, i + 1, name)
    }
}

fn live_value(live: &Vec<LiveValue>, name: &str) -> (r: Option<i64>)
    ensures
        r == live_from(live@, 0, name@),
{
    let mut i: usize = 0;
    while i < live.len()
        invariant
            i <= live.len(),
            live_from(live@, 0, name@) == live_from(live@, i as int, name@),
        decreases live.len() - i,
    {
        if same_text(live[i].name.as_str(), name) {
            return read_property_as_api(live[i].property);
        }
        i += 1;
    }
    None
}

/// A control as the stream has it set: by what is stored, and over that by what
/// the running encoder says.
pub open spec fn current(
    control: Control,
    properties: Seq<EncoderProperty>,
    probe: Probe,
    live: Seq<LiveValue>,
) -> Control {
    let configured = match stored(properties, control.name@) {
        Some(value) => control.with_value(api_of(value, control.name@, probe)),
        None => control,
    };
    match live_from(live, 0, control.name@) {
        Some(value) => configured.with_value(value),
        None => configured,
    }
}

/// The controls of the encoder as the stream has them set; none where the
/// stream is not transcoded by hand.
pub open spec fn encoder_controls_of(
    stream: TranscodedStream,
    controls: Seq<Control>,
    probe: Probe,
    live: Seq<LiveValue>,
) -> Seq<Control> {
    match stream.manual() {
        Some(m) => controls.map_values(
            |c: Control| current(c, m.encoder_properties@, probe, live),
        ),
        None => Seq::empty(),
    }
}

fn overlay_encoder_properties(
    control: &mut Control,
    properties: &Vec<EncoderProperty>,
    probe: &Probe,
)
    requires
        in_order(properties@),
    ensures
        *final(control) == (match stored(properties@, old(control).name@) {
            Some(value) => old(control).with_value(api_of(value, old(control).name@, *probe)),
            None => *old(control),
        }),
{
    if let Some(i) = find_property(properties, control.name.as_str()) {
        let value: i64 = property_value_to_api(
            &properties[i].value,
            control.name.as_str(),
            probe,
        );
        set_control_value(control, value);
    }
}

fn overlay_live_values(control: &mut Control, live: &Vec<LiveValue>)
    ensures
        *final(control) == (match live_from(live@, 0, old(control).name@) {
            Some(value) => old(control).with_value(value),
            None => *old(control),
        }),
{
    if let Some(value) = live_value(live, control.name.as_str()) {
        set_control_value(control, value);
    }
}

fn list_encoder_controls_for_stream(
    stream: &TranscodedStream,
    encoder_controls: Vec<Control>,
    probe: &Probe,
    live: &Vec<LiveValue>,
) -> (r: Vec<Control>)
    requires
        stream.wf(),
    ensures
        r@ == encoder_controls_of(*stream, encoder_controls@, *probe, live@),
{
    let manual = match &stream.configuration {
        TranscodingCapture::Video(c) => match &c.source_configuration {
            SourceConfiguration::ManualTranscoding(m) => m,
            _ => {
                return Vec::new();
            },
        },
        TranscodingCapture::Redirect => {
            return Vec::new();
        },
    };
    let ghost before = encoder_controls@;
    let properties = &manual.encoder_properties;
    let mut controls = encoder_controls;
    let mut i: usize = 0;
    while i < controls.len()
        invariant
            i <= controls.len(),
            controls.len() == before.len(),
            in_order(properties@),
            forall|j: int|
                0 <= j < i ==> #[trigger] controls@[j] == current(
                    before[j],
                    properties@,
                    *probe,
                    live@,
                ),
            forall|j: int| i <= j < before.len() ==> #[trigger] controls@[j] == before[j],
        decreases controls.len() - i,
    {
        overlay_encoder_properties(&mut controls[i], properties, probe);
        overlay_live_values(&mut controls[i], live);
        i += 1;
    }
    assert(controls@ =~= encoder_controls_of(*stream, before, *probe, live@));
    controls
}

/// A switch of the stream itself.
pub open spec fn is_synthetic(control: Control, name: Seq<char>, id: u64, value: i64) -> bool {
    &&& control.name@ == name
    &&& control.element@ == "stream"@
    &&& control.cpp_type@ == "bool"@
    &&& control.id == id
    &&& control.state == (ControlState { is_disabled: false, is_inactive: false })
    &&& control.configuration == ControlType::Bool(ControlBool { default: 0, value })
    &&& control.mutable_in_playing
    &&& !control.requires_restart
}

fn synthetic_bool_control(name: &str, id: u64, value: bool, write_only: bool) -> (r: Control)
    ensures
        is_synthetic(
            r,
            name@,
            id,
            if value && !write_only {
                1
            } else {
                0
            },
        ),
{
    let value: i64 = if value && !write_only {
        1
    } else {
        0
    };
    Control {
        name: name.to_owned(),
        element: "stream".to_owned(),
        cpp_type: "bool".to_owned(),
        id,
        state: ControlState::default(),
        configuration: ControlType::Bool(ControlBool { default: 0, value }),
        mutable_in_playing: true,
        requires_restart: false,
    }
}

/// The whole list: the controls of the encoder, then whether changes restart
/// the stream, then the button that does.
pub open spec fn is_listing(
    list: Seq<Control>,
    ids: ControlIds,
    stream: TranscodedStream,
    encoder_controls: Seq<Control>,
    probe: Probe,
    live: Seq<LiveValue>,
) -> bool {
    let encoder = encoder_controls_of(stream, encoder_controls, probe, live);
    let n = encoder.len() as int;
    &&& list.len() == n + 2
    &&& list.take(n) == encoder
    &&& is_synthetic(
        list[n],
        "auto-restart-on-config-change"@,
        ids.auto_restart,
        if stream.auto_restart() {
            1
        } else {
            0
        },
    )
    &&& is_synthetic(list[n + 1], "restart-stream"@, ids.restart_stream, 0)
}

/// What the media framework says of the encoder of a stream.
pub struct Encoder {
    /// The controls that the encoder has.
    pub controls: Vec<Control>,
    pub probe: Probe,
    /// What was read of the encoder that runs; nothing where none does.
    pub live: Vec<LiveValue>,
}

/// The list of the controls of a stream with that encoder.
pub open spec fn is_list_of(
    list: Seq<Control>,
    ids: ControlIds,
    stream: TranscodedStream,
    encoder: Encoder,
) -> bool {
    is_listing(list, ids, stream, encoder.controls@, encoder.probe, encoder.live@)
}

/// Lists the controls of a stream.
pub fn list_pipeline_controls(ids: &ControlIds, stream: &TranscodedStream, encoder: Encoder) -> (r:
    Vec<Control>)
    requires
        stream.wf(),
    ensures
        is_list_of(r@, *ids, *stream, encoder),
{
    listing(ids, stream, encoder.controls, &encoder.probe, &encoder.live)
}

fn listing(
    ids: &ControlIds,
    stream: &TranscodedStream,
    encoder_controls: Vec<Control>,
    probe: &Probe,
    live: &Vec<LiveValue>,
) -> (r: Vec<Control>)
    requires
        stream.wf(),
    ensures
        is_listing(r@, *ids, *stream, encoder_controls@, *probe, live@),
{
    let mut list = list_encoder_controls_for_stream(stream, encoder_controls, probe, live);
    let ghost encoder = list@;
    list.push(
        synthetic_bool_control(
            "auto-restart-on-config-change",
            ids.auto_restart,
            auto_restart_on_config_change(stream),
            false,
        ),
    );
    list.push(synthetic_bool_control("restart-stream", ids.restart_stream, false, true));
    assert(list@.take(encoder.len() as int) =~= encoder);
    list
}

/// MAVLink can carry every control but those that hold text.
pub open spec fn carried(control: Control) -> bool {
    control.cpp_type@ != "string"@
}

/// The controls of a stream that MAVLink can carry.
pub fn pipeline_controls_for_mavlink(
    ids: &ControlIds,
    stream: &TranscodedStream,
    encoder: Encoder,
) -> (r: Vec<Control>)
    requires
        stream.wf(),
    ensures
        exists|list: Seq<Control>| #[trigger]
            is_list_of(list, *ids, *stream, encoder) && r@ == list.filter(
                |c: Control| carried(c),
            ),
{
    let list = list_pipeline_controls(ids, stream, encoder);
    carried_controls(list)
}

fn carried_controls(list: Vec<Control>) -> (r: Vec<Control>)
    ensures
        r@ == list@.filter(|c: Control| carried(c)),
{
    let ghost all = list@;
    let ghost test = |c: Control| carried(c);
    let mut rest = list;
    let mut r: Vec<Control> = Vec::new();
    proof {
        reveal(Seq::filter);
        assert(all.take(0) =~= Seq::<Control>::empty());
        assert(rest@ =~= all.skip(0));
    }
    while rest.len() > 0
        invariant
            rest@.len() <= all.len(),
            rest@ == all.skip(all.len() - rest@.len()),
            r@ == all.take(all.len() - rest@.len()).filter(test),
            test == (|c: Control| carried(c)),
        decreases rest.len(),
    {
        let ghost done = all.len() - rest@.len();
        assert(rest@[0] == all[done as int]);
        let control = rest.remove(0);
        assert(rest@ =~= all.skip(done + 1));
        assert(all.take(done + 1) =~= all.take(done as int).push(control));
        proof {
            all.take(done as int).lemma_filter_push(control, test);
        }
        if !same_text(control.cpp_type.as_str(), "string") {
            r.push(control);
        }
    }
    assert(all.take(all.len() as int) =~= all);
    r
}

/// The first control with the identity is at position `i`.
pub open spec fn is_first(list: Seq<Control>, control_id: u64, i: int) -> bool {
    &&& 0 <= i < list.len()
    &&& list[i].id == control_id
    &&& forall|j: int| 0 <= j < i ==> (#[trigger] list[j]).id != control_id
}

pub open spec fn is_listed(list: Seq<Control>, control_id: u64) -> bool {
    exists|i: int| 0 <= i < list.len() && (#[trigger] list[i]).id == control_id
}

/// Finds a control by its identity.
fn find_pipeline_control(list: &Vec<Control>, control_id: u64) -> (r: Option<usize>)
    ensures
        match r {
            Some(i) => is_first(list@, control_id, i as int),
            None => !is_listed(list@, control_id),
        },
{
    let mut i: usize = 0;
    while i < list.len()
        invariant
            i <= list.len(),
            forall|j: int| 0 <= j < i ==> (#[trigger] list@[j]).id != control_id,
        decreases list.len() - i,
    {
        if list[i].id == control_id {
            return Some(i);
        }
        i += 1;
    }
    None
}

/// No control has that identity.
#[derive(Clone, Copy, Debug, PartialEq, Eq, Structural)]
pub struct ControlNotFound {
    pub control_id: u64,
}

impl ControlNotFound {
    pub fn message(&self) -> (r: String)
        ensures
            r@ == "Pipeline control "@ + decimal(self.control_id as nat) + " not found"@,
    {
        let mut s = "Pipeline control ".to_owned();
        append_u64(&mut s, self.control_id);
        s.append(" not found");
        s
    }
}

/// The control with that identity in the list is set to the value; there is none
/// where nothing is read.
pub open spec fn is_reading(
    list: Seq<Control>,
    control_id: u64,
    reading: Result<i64, ControlNotFound>,
) -> bool {
    match reading {
        Ok(value) => exists|i: int| #[trigger]
            is_first(list, control_id, i) && value == list[i].configuration.value(),
        Err(error) => !is_listed(list, control_id) && error == (ControlNotFound { control_id }),
    }
}

/// What a control of a stream is set to.
pub fn pipeline_control_value_by_id(
    ids: &ControlIds,
    stream: &TranscodedStream,
    encoder: Encoder,
    control_id: u64,
) -> (r: Result<i64, ControlNotFound>)
    requires
        stream.wf(),
    ensures
        exists|list: Seq<Control>| #[trigger]
            is_list_of(list, *ids, *stream, encoder) && is_reading(list, control_id, r),
{
    let list = list_pipeline_controls(ids, stream, encoder);
    assert(is_list_of(list@, *ids, *stream, encoder));
    match find_pipeline_control(&list, control_id) {
        Some(i) => {
            assert(is_first(list@, control_id, i as int));
            Ok(control_current_value(&list[i].configuration))
        },
        None => Err(ControlNotFound { control_id }),
    }
}

/// How writing a property of the running encoder went.
#[derive(Clone, Copy, Debug, PartialEq, Eq, Structural)]
pub enum LiveWrite {
    /// No encoder runs.
    NoEncoder,
    Written,
    Failed,
}

/// Why a control was not set.
#[derive(Clone, Copy, Debug, PartialEq, Eq, Structural)]
pub enum ControlError {
    NotFound,
    /// The running encoder did not take the value.
    LiveFailed,
    /// The stream captures no video.
    NotVideo,
    /// The stream is not transcoded by hand.
    NotManual,
}

/// What follows from setting a control.
#[derive(Clone, Copy, Debug, PartialEq, Eq, Structural)]
pub struct ControlOutcome {
    /// The stream is to be restarted, once its configuration is written back.
    pub restart: bool,
    /// The stream is to be marked as one that a restart would change.
    pub restart_needed: bool,
}

/// The property named is the one to be written to the running encoder when the
/// control is set.
pub open spec fn is_live_write(
    ids: ControlIds,
    list: Seq<Control>,
    control_id: u64,
    name: Option<String>,
) -> bool {
    match name {
        Some(name) => control_id != ids.restart_stream && control_id != ids.auto_restart
            && exists|i: int| #[trigger]
            is_first(list, control_id, i) && list[i].mutable_in_playing && name@ == list[i].name@,
        None => control_id == ids.restart_stream || control_id == ids.auto_restart || !is_listed(
            list,
            control_id,
        ) || exists|i: int| #[trigger]
            is_first(list, control_id, i) && !list[i].mutable_in_playing,
    }
}

/// The name of the property to be written to the running encoder before the
/// control is set, if the control is one that may be changed while it runs.
pub fn live_write_wanted(
    ids: &ControlIds,
    stream: &TranscodedStream,
    encoder: Encoder,
    control_id: u64,
) -> (r: Option<String>)
    requires
        stream.wf(),
    ensures
        exists|list: Seq<Control>| #[trigger]
            is_list_of(list, *ids, *stream, encoder) && is_live_write(*ids, list, control_id, r),
{
    let list = list_pipeline_controls(ids, stream, encoder);
    assert(is_list_of(list@, *ids, *stream, encoder));
    if control_id == ids.restart_stream || control_id == ids.auto_restart {
        return None;
    }
    match find_pipeline_control(&list, control_id) {
        Some(i) => {
            assert(is_first(list@, control_id, i as int));
            if list[i].mutable_in_playing {
                Some(list[i].name.clone())
            } else {
                None
            }
        },
        None => None,
    }
}

fn update_encoder_property(stream: &mut TranscodedStream, name: &str, value: EncoderValue) -> (r:
    Result<(), ControlError>)
    requires
        old(stream).wf(),
    ensures
        final(stream).wf(),
        match r {
            Ok(()) => {
                &&& old(stream).manual() is Some
                &&& *final(stream) == old(stream).with_properties(final(stream).properties())
                &&& stored(final(stream).properties()@, name@) == Some(value@)
                &&& forall|other: Seq<char>|
                    other != name@ ==> #[trigger] stored(final(stream).properties()@, other)
                        == stored(old(stream).properties()@, other)
            },
            Err(error) => {
                &&& *final(stream) == *old(stream)
                &&& old(stream).manual() is None
                &&& error == (if old(stream).configuration is Redirect {
                    ControlError::NotVideo
                } else {
                    ControlError::NotManual
                })
            },
        },
{
    match &mut stream.configuration {
        TranscodingCapture::Video(c) => match &mut c.source_configuration {
            SourceConfiguration::ManualTranscoding(m) => {
                store(&mut m.encoder_properties, name, value);
                Ok(())
            },
            _ => Err(ControlError::NotManual),
        },
        TranscodingCapture::Redirect => Err(ControlError::NotVideo),
    }
}

/// Setting the control at position `i` of the list stores its value.
pub open spec fn is_stored(
    before: TranscodedStream,
    after: TranscodedStream,
    control: Control,
    value: i64,
    probe: Probe,
) -> bool {
    &&& before.manual() is Some
    &&& after == before.with_properties(after.properties())
    &&& stored(after.properties()@, control.name@) == Some(property_of(control, value, probe))
    &&& forall|other: Seq<char>|
        other != control.name@ ==> #[trigger] stored(after.properties()@, other) == stored(
            before.properties()@,
            other,
        )
}

/// What setting a control makes of the stream, and what follows, where `list` are
/// the controls of the stream.
pub open spec fn is_setting(
    ids: ControlIds,
    list: Seq<Control>,
    before: TranscodedStream,
    after: TranscodedStream,
    probe: Probe,
    live: LiveWrite,
    control_id: u64,
    value: i64,
    r: Result<ControlOutcome, ControlError>,
) -> bool {
    if control_id == ids.restart_stream {
        after == before && r == Ok::<ControlOutcome, ControlError>(
            ControlOutcome { restart: value != 0, restart_needed: false },
        )
    } else if control_id == ids.auto_restart {
        after == before.with_auto_restart(value != 0) && r == Ok::<ControlOutcome, ControlError>(
            ControlOutcome { restart: false, restart_needed: false },
        )
    } else if !is_listed(list, control_id) {
        after == before && r == Err::<ControlOutcome, ControlError>(ControlError::NotFound)
    } else {
        exists|i: int| #[trigger]
            is_first(list, control_id, i) && is_setting_of(
                list[i],
                before,
                after,
                probe,
                live,
                value,
                r,
            )
    }
}

/// What setting that control of the encoder makes of the stream, and what
/// follows.
pub open spec fn is_setting_of(
    control: Control,
    before: TranscodedStream,
    after: TranscodedStream,
    probe: Probe,
    live: LiveWrite,
    value: i64,
    r: Result<ControlOutcome, ControlError>,
) -> bool {
    if control.mutable_in_playing && live == LiveWrite::Failed {
        after == before && r == Err::<ControlOutcome, ControlError>(ControlError::LiveFailed)
    } else if before.configuration is Redirect {
        after == before && r == Err::<ControlOutcome, ControlError>(ControlError::NotVideo)
    } else if before.manual() is None {
        after == before && r == Err::<ControlOutcome, ControlError>(ControlError::NotManual)
    } else {
        &&& is_stored(before, after, control, value, probe)
        &&& r == Ok::<ControlOutcome, ControlError>(
            ControlOutcome {
                restart: control.requires_restart && before.auto_restart(),
                restart_needed: control.requires_restart && !before.auto_restart(),
            },
        )
    }
}

/// Sets a control of a stream. `live` says how writing the value to the running
/// encoder went, where [`live_write_wanted`] asked for it.
pub fn set_pipeline_control(
    ids: &ControlIds,
    stream: &mut TranscodedStream,
    encoder: Encoder,
    live: LiveWrite,
    control_id: u64,
    value: i64,
) -> (r: Result<ControlOutcome, ControlError>)
    requires
        old(stream).wf(),
    ensures
        final(stream).wf(),
        exists|list: Seq<Control>| #[trigger]
            is_list_of(list, *ids, *old(stream), encoder) && is_setting(
                *ids,
                list,
                *old(stream),
                *final(stream),
                encoder.probe,
                live,
                control_id,
                value,
                r,
            ),
{
    let list = listing(ids, stream, encoder.controls, &encoder.probe, &encoder.live);
    assert(is_list_of(list@, *ids, *old(stream), encoder));
    if control_id == ids.restart_stream {
        return Ok(ControlOutcome { restart: value != 0, restart_needed: false });
    }
    if control_id == ids.auto_restart {
        set_auto_restart_on_config_change(stream, value != 0);
        return Ok(ControlOutcome { restart: false, restart_needed: false });
    }
    let i: usize = match find_pipeline_control(&list, control_id) {
        Some(i) => i,
        None => {
            return Err(ControlError::NotFound);
        },
    };
    assert(is_first(list@, control_id, i as int));
    assert(is_listed(list@, control_id)) by {
        assert(list@[i as int].id == control_id);
    }
    let control = &list[i];
    if control.mutable_in_playing {
        match live {
            LiveWrite::Failed => {
                return Err(ControlError::LiveFailed);
            },
            _ => {},
        }
    }
    let stored_value = api_value_to_property_value(control, value, &encoder.probe);
    if let Err(error) = update_encoder_property(stream, control.name.as_str(), stored_value) {
        return Err(error);
    }
    assert(is_stored(*old(stream), *stream, list@[i as int], value, encoder.probe));
    let auto_restart = auto_restart_on_config_change(stream);
    Ok(
        ControlOutcome {
            restart: control.requires_restart && auto_restart,
            restart_needed: control.requires_restart && !auto_restart,
        },
    )
}

/// Forgets everything that was set; the stream is then to be marked as one that
/// a restart would change.
pub fn reset_pipeline_controls(stream: &mut TranscodedStream) -> (r: ControlOutcome)
    ensures
        r == (ControlOutcome { restart: false, restart_needed: true }),
        final(stream).wf(),
        *final(stream) == old(stream).with_properties(
            final(stream).properties(),
        ).with_auto_restart(false),
        old(stream).manual() is Some ==> final(stream).manual() is Some
            && final(stream).properties()@.len() == 0,
        old(stream).manual() is None ==> *final(stream) == old(stream).with_auto_restart(false),
{
    match &mut stream.configuration {
        TranscodingCapture::Video(c) => {
            match &mut c.source_configuration {
                SourceConfiguration::ManualTranscoding(m) => {
                    m.encoder_properties.clear();
                },
                _ => {},
            }
            c.auto_restart_on_config_change = false;
        },
        TranscodingCapture::Redirect => {},
    }
    ControlOutcome { restart: false, restart_needed: true }
}

/// What a control of the encoder was set to is what the list shows for it next,
/// where no encoder runs and the value is one that can be read back.
pub proof fn set_controls_are_listed(
    before: TranscodedStream,
    after: TranscodedStream,
    control: Control,
    value: i64,
    probe: Probe,
)
    requires
        is_stored(before, after, control, value, probe),
        api_of(property_of(control, value, probe), control.name@, probe) == value,
    ensures
        current(control, after.properties()@, probe, Seq::empty()).configuration.value() == value,
{
}

/// After everything was forgotten the controls of the encoder are listed as the
/// encoder has them.
pub proof fn reset_controls_are_listed_as_they_come(
    stream: TranscodedStream,
    controls: Seq<Control>,
    probe: Probe,
)
    requires
        stream.manual() is Some,
        stream.properties()@.len() == 0,
    ensures
        encoder_controls_of(stream, controls, probe, Seq::empty()) == controls,
{
    assert(encoder_controls_of(stream, controls, probe, Seq::empty()) =~= controls);
}

/// The controls of the stream itself are pipeline controls, and can be told
/// apart.
pub proof fn synthetic_controls_are_in_the_namespace(
    list: Seq<Control>,
    ids: ControlIds,
    stream: TranscodedStream,
    encoder_controls: Seq<Control>,
    probe: Probe,
    live: Seq<LiveValue>,
)
    requires
        ids.wf(),
        is_listing(list, ids, stream, encoder_controls, probe, live),
    ensures
        list[list.len() - 2].id >= ids.offset,
        list[list.len() - 1].id >= ids.offset,
        list[list.len() - 2].id != list[list.len() - 1].id,
{
}

/// Whether changes restart the stream is listed as it was set last, wherever the
/// stream captures video.
pub proof fn auto_restart_is_listed_as_set(
    list: Seq<Control>,
    ids: ControlIds,
    stream: TranscodedStream,
    value: bool,
    encoder: Encoder,
)
    requires
        stream.configuration is Video,
        is_list_of(list, ids, stream.with_auto_restart(value), encoder),
    ensures
        list[list.len() - 2].configuration.value() == (if value {
            1int
        } else {
            0int
        }),
{
}

/// No control of the encoder has the identity of a control of the stream itself.
pub open spec fn leaves_free(controls: Seq<Control>, ids: ControlIds) -> bool {
    forall|i: int|
        0 <= i < controls.len() ==> (#[trigger] controls[i]).id != ids.auto_restart
            && controls[i].id != ids.restart_stream
}

/// A list has the identities of the encoder's controls, then those of the stream's
/// own, and the values that go with them.
proof fn listed_identities(
    list: Seq<Control>,
    ids: ControlIds,
    stream: TranscodedStream,
    encoder: Encoder,
)
    requires
        is_list_of(list, ids, stream, encoder),
    ensures
        list.len() >= 2,
        list.len() - 2 == (if stream.manual() is Some {
            encoder.controls@.len()
        } else {
            0
        }),
        forall|i: int|
            0 <= i < list.len() - 2 ==> #[trigger] list[i] == current(
                encoder.controls@[i],
                stream.properties()@,
                encoder.probe,
                encoder.live@,
            ) && list[i].id == encoder.controls@[i].id,
{
    let own = encoder_controls_of(stream, encoder.controls@, encoder.probe, encoder.live@);
    assert forall|i: int| 0 <= i < list.len() - 2 implies #[trigger] list[i] == own[i] by {
        assert(list[i] == list.take(own.len() as int)[i]);
    }
}

/// Only one control of an identity is the first.
proof fn first_is_one(list: Seq<Control>, control_id: u64, i: int, j: int)
    requires
        is_first(list, control_id, i),
        is_first(list, control_id, j),
    ensures
        i == j,
{
    if i < j {
        assert(list[i].id != control_id);
    }
    if j < i {
        assert(list[j].id != control_id);
    }
}

/// What reading a control gives: an error exactly where no control in the list has
/// the identity; for the button that restarts the stream always zero; and for
/// whether changes restart the stream what was set last, where it captures video.
pub proof fn stream_controls_are_read_back(
    ids: ControlIds,
    set_list: Seq<Control>,
    before: TranscodedStream,
    after: TranscodedStream,
    live: LiveWrite,
    value: i64,
    outcome: Result<ControlOutcome, ControlError>,
    list: Seq<Control>,
    encoder: Encoder,
    control_id: u64,
    reading: Result<i64, ControlNotFound>,
)
    requires
        ids.wf(),
        leaves_free(encoder.controls@, ids),
        before.configuration is Video,
        is_setting(
            ids,
            set_list,
            before,
            after,
            encoder.probe,
            live,
            ids.auto_restart,
            value,
            outcome,
        ),
        is_list_of(list, ids, after, encoder),
        is_reading(list, control_id, reading),
    ensures
        reading is Err <==> !is_listed(list, control_id),
        control_id == ids.restart_stream ==> reading == Ok::<i64, ControlNotFound>(0),
        control_id == ids.auto_restart ==> reading == Ok::<i64, ControlNotFound>(
            if value != 0 {
                1
            } else {
                0
            },
        ),
{
    let n = list.len() - 2;
    listed_identities(list, ids, after, encoder);
    assert(list[n].id == ids.auto_restart);
    assert(list[n + 1].id == ids.restart_stream);
    assert forall|i: int| 0 <= i < n implies (#[trigger] list[i]).id != ids.auto_restart
        && list[i].id != ids.restart_stream by {
        assert(list[i].id == encoder.controls@[i].id);
    }
    assert(is_first(list, ids.auto_restart, n));
    assert(is_first(list, ids.restart_stream, n + 1));
    if reading is Ok {
        let i = choose|i: int| #[trigger]
            is_first(list, control_id, i) && reading->Ok_0 == list[i].configuration.value();
        assert(is_listed(list, control_id));
        if control_id == ids.auto_restart {
            first_is_one(list, control_id, i, n);
        }
        if control_id == ids.restart_stream {
            first_is_one(list, control_id, i, n + 1);
        }
    }
}

/// What a control of the encoder was set to is what reading it by its identity
/// gives, where no encoder runs and the value is one that can be read back.
pub proof fn encoder_controls_are_read_back(
    ids: ControlIds,
    set_list: Seq<Control>,
    before: TranscodedStream,
    after: TranscodedStream,
    live: LiveWrite,
    control_id: u64,
    value: i64,
    outcome: Result<ControlOutcome, ControlError>,
    set_encoder: Encoder,
    list: Seq<Control>,
    encoder: Encoder,
    reading: Result<i64, ControlNotFound>,
)
    requires
        control_id != ids.auto_restart,
        control_id != ids.restart_stream,
        is_list_of(set_list, ids, before, set_encoder),
        is_setting(
            ids,
            set_list,
            before,
            after,
            set_encoder.probe,
            live,
            control_id,
            value,
            outcome,
        ),
        outcome is Ok,
        forall|i: int|
            is_first(set_list, control_id, i) ==> api_of(
                property_of(#[trigger] set_list[i], value, set_encoder.probe),
                set_list[i].name@,
                set_encoder.probe,
            ) == value,
        encoder.controls@ == set_encoder.controls@,
        encoder.probe == set_encoder.probe,
        encoder.live@.len() == 0,
        is_list_of(list, ids, after, encoder),
        is_reading(list, control_id, reading),
    ensures
        reading == Ok::<i64, ControlNotFound>(value),
{
    let i = choose|i: int| #[trigger]
        is_first(set_list, control_id, i) && is_setting_of(
            set_list[i],
            before,
            after,
            set_encoder.probe,
            live,
            value,
            outcome,
        );
    listed_identities(set_list, ids, before, set_encoder);
    listed_identities(list, ids, after, encoder);
    assert(after.manual() is Some);
    assert(i < list.len() - 2);
    assert(list[i].id == set_list[i].id);
    assert forall|j: int| 0 <= j < i implies (#[trigger] list[j]).id != control_id by {
        assert(list[j].id == set_list[j].id);
    }
    assert(is_first(list, control_id, i));
    assert(is_listed(list, control_id));
    let k = choose|k: int| #[trigger]
        is_first(list, control_id, k) && reading->Ok_0 == list[k].configuration.value();
    first_is_one(list, control_id, i, k);
    assert(set_list[i].name@ == encoder.controls@[i].name@);
    assert(list[i] == current(
        encoder.controls@[i],
        after.properties()@,
        encoder.probe,
        encoder.live@,
    ));
}

/// No control that holds text is handed to MAVLink, and none of the others is
/// left out.
pub proof fn mavlink_gets_all_but_text(list: Seq<Control>, control: Control)
    ensures
        list.filter(|c: Control| carried(c)).contains(control) <==> list.contains(control)
            && control.cpp_type@ != "string"@,
{
    let test = |c: Control| carried(c);
    let rest = list.filter(test);
    if rest.contains(control) {
        let i = rest.index_of(control);
        list.lemma_filter_pred(test, i);
        list.lemma_filter_contains_rev(test, rest[i]);
    }
    if list.contains(control) && carried(control) {
        let i = list.index_of(control);
        assert(test(list[i]) && list[i] == control);
        list.lemma_filter_contains(test, i);
    }
}

/// A switch counts as one or zero, a number as itself, and a choice as the value of
/// the first that the encoder knows of the property by that nick; one that it does not
/// know counts as zero.
pub proof fn properties_count_as_numbers(
    probe: Probe,
    property: Seq<char>,
    nick: Seq<char>,
    on: bool,
    number: i64,
    bits: u64,
    i: int,
)
    ensures
        api_of(EncoderValueView::Bool(on), property, probe) == if on {
            1int
        } else {
            0int
        },
        api_of(EncoderValueView::Integer(number), property, probe) == number,
        api_of(EncoderValueView::Number { bits, api: number }, property, probe) == number,
        0 <= i < probe.nicks@.len() && probe.nicks@[i].property@ == property
            && probe.nicks@[i].nick@ == nick && (forall|j: int|
            0 <= j < i ==> (#[trigger] probe.nicks@[j]).property@ != property
                || probe.nicks@[j].nick@ != nick) ==> api_of(
            EncoderValueView::Text(nick),
            property,
            probe,
        ) == probe.nicks@[i].value,
        (forall|j: int|
            0 <= j < probe.nicks@.len() ==> (#[trigger] probe.nicks@[j]).property@ != property
                || probe.nicks@[j].nick@ != nick) ==> api_of(
            EncoderValueView::Text(nick),
            property,
            probe,
        ) == 0,
{
    if 0 <= i < probe.nicks@.len() && probe.nicks@[i].property@ == property
        && probe.nicks@[i].nick@ == nick && (forall|j: int|
        0 <= j < i ==> (#[trigger] probe.nicks@[j]).property@ != property
            || probe.nicks@[j].nick@ != nick) {
        first_nick(probe, property, nick, 0, i);
    }
    if forall|j: int|
        0 <= j < probe.nicks@.len() ==> (#[trigger] probe.nicks@[j]).property@ != property
            || probe.nicks@[j].nick@ != nick {
        no_nick(probe, property, nick, 0);
    }
}

proof fn first_nick(probe: Probe, property: Seq<char>, nick: Seq<char>, from: int, i: int)
    requires
        0 <= from <= i < probe.nicks@.len(),
        probe.nicks@[i].property@ == property && probe.nicks@[i].nick@ == nick,
        forall|j: int|
            0 <= j < i ==> (#[trigger] probe.nicks@[j]).property@ != property
                || probe.nicks@[j].nick@ != nick,
    ensures
        probe.value_from(from, property, nick) == Some(probe.nicks@[i].value as i64),
    decreases i - from,
{
    if from < i {
        first_nick(probe, property, nick, from + 1, i);
    }
}

proof fn no_nick(probe: Probe, property: Seq<char>, nick: Seq<char>, from: int)
    requires
        0 <= from,
        forall|j: int|
            0 <= j < probe.nicks@.len() ==> (#[trigger] probe.nicks@[j]).property@ != property
                || probe.nicks@[j].nick@ != nick,
    ensures
        probe.value_from(from, property, nick) is None,
    decreases probe.nicks@.len() - from,
{
    if from < probe.nicks@.len() {
        no_nick(probe, property, nick, from + 1);
    }
}

/// A switch is stored as on or off, a slider and flags as their number.
pub proof fn numbers_are_stored_in_kind(control: Control, value: i64, probe: Probe)
    ensures
        control.configuration is Bool ==> property_of(control, value, probe)
            == EncoderValueView::Bool(value != 0),
        control.configuration is Slider || control.configuration is Flags ==> property_of(
            control,
            value,
            probe,
        ) == EncoderValueView::Integer(value),
{
}

/// A choice of a menu is stored by the name of the first option that has its value;
/// where no option has it, by the nick of the first choice of the property that the
/// encoder knows with that value; and where it knows none, as its number.
pub proof fn choices_are_stored_by_name(
    control: Control,
    menu: ControlMenu,
    value: i64,
    probe: Probe,
    i: int,
)
    requires
        control.configuration == ControlType::Menu(menu),
    ensures
        0 <= i < menu.options@.len() && menu.options@[i].value == value && (forall|j: int|
            0 <= j < i ==> (#[trigger] menu.options@[j]).value != value) ==> property_of(
            control,
            value,
            probe,
        ) == EncoderValueView::Text(menu.options@[i].name@),
        (forall|j: int| 0 <= j < menu.options@.len() ==> (#[trigger] menu.options@[j]).value
            != value) && 0 <= i < probe.nicks@.len() && probe.nicks@[i].property@ == control.name@
            && probe.nicks@[i].value == value && (forall|j: int|
            0 <= j < i ==> (#[trigger] probe.nicks@[j]).property@ != control.name@
                || probe.nicks@[j].value != value) ==> property_of(control, value, probe)
            == EncoderValueView::Text(probe.nicks@[i].nick@),
        (forall|j: int| 0 <= j < menu.options@.len() ==> (#[trigger] menu.options@[j]).value
            != value) && (forall|j: int|
            0 <= j < probe.nicks@.len() ==> (#[trigger] probe.nicks@[j]).property@ != control.name@
                || probe.nicks@[j].value != value) ==> property_of(control, value, probe)
            == EncoderValueView::Integer(value),
{
    if 0 <= i < menu.options@.len() && menu.options@[i].value == value && (forall|j: int|
        0 <= j < i ==> (#[trigger] menu.options@[j]).value != value) {
        first_option(menu.options@, value, 0, i);
    }
    if forall|j: int| 0 <= j < menu.options@.len() ==> (#[trigger] menu.options@[j]).value != value {
        no_option(menu.options@, value, 0);
        if 0 <= i < probe.nicks@.len() && probe.nicks@[i].property@ == control.name@
            && probe.nicks@[i].value == value && (forall|j: int|
            0 <= j < i ==> (#[trigger] probe.nicks@[j]).property@ != control.name@
                || probe.nicks@[j].value != value) {
            first_value(probe, control.name@, value, 0, i);
        }
        if forall|j: int|
            0 <= j < probe.nicks@.len() ==> (#[trigger] probe.nicks@[j]).property@ != control.name@
                || probe.nicks@[j].value != value {
            no_value(probe, control.name@, value, 0);
        }
    }
}

proof fn first_option(options: Seq<ControlOption>, value: i64, from: int, i: int)
    requires
        0 <= from <= i < options.len(),
        options[i].value == value,
        forall|j: int| 0 <= j < i ==> (#[trigger] options[j]).value != value,
    ensures
        option_from(options, from, value) == Some(options[i].name@),
    decreases i - from,
{
    if from < i {
        first_option(options, value, from + 1, i);
    }
}

proof fn no_option(options: Seq<ControlOption>, value: i64, from: int)
    requires
        0 <= from,
        forall|j: int| 0 <= j < options.len() ==> (#[trigger] options[j]).value != value,
    ensures
        option_from(options, from, value) is None,
    decreases options.len() - from,
{
    if from < options.len() {
        no_option(options, value, from + 1);
    }
}

proof fn first_value(probe: Probe, property: Seq<char>, value: i64, from: int, i: int)
    requires
        0 <= from <= i < probe.nicks@.len(),
        probe.nicks@[i].property@ == property && probe.nicks@[i].value == value,
        forall|j: int|
            0 <= j < i ==> (#[trigger] probe.nicks@[j]).property@ != property
                || probe.nicks@[j].value != value,
    ensures
        probe.nick_from(from, property, value) == Some(probe.nicks@[i].nick@),
    decreases i - from,
{
    if from < i {
        first_value(probe, property, value, from + 1, i);
    }
}

proof fn no_value(probe: Probe, property: Seq<char>, value: i64, from: int)
    requires
        0 <= from,
        forall|j: int|
            0 <= j < probe.nicks@.len() ==> (#[trigger] probe.nicks@[j]).property@ != property
                || probe.nicks@[j].value != value,
    ensures
        probe.nick_from(from, property, value) is None,
    decreases probe.nicks@.len() - from,
{
    if from < probe.nicks@.len() {
        no_value(probe, property, value, from + 1);
    }
}

/// What was read of a running encoder is taken as the number that it is, but for what
/// is of no kind that counts, and for numbers that are too large.
pub proof fn readings_keep_their_number(property: LiveProperty)
    ensures
        live_api(property) is None <==> property is Unsupported || (property matches
            LiveProperty::U64(u) && u > 0x7fff_ffff_ffff_ffff),
        property matches LiveProperty::Enum(n) ==> live_api(property)->0 == n,
        property matches LiveProperty::Bool(b) ==> live_api(property)->0 == if b {
            1int
        } else {
            0int
        },
        property matches LiveProperty::I32(n) ==> live_api(property)->0 == n,
        property matches LiveProperty::U32(n) ==> live_api(property)->0 == n,
        property matches LiveProperty::I64(n) ==> live_api(property)->0 == n,
        property matches LiveProperty::U64(n) ==> n <= 0x7fff_ffff_ffff_ffff ==> live_api(
            property,
        )->0 == n,
        property matches LiveProperty::Float(n) ==> live_api(property)->0 == n,
{
}

/// What is stored for a name is the value of the property that has it; nothing is
/// stored where none has.
pub proof fn properties_are_found_by_name(
    properties: Seq<EncoderProperty>,
    name: Seq<char>,
    i: int,
)
    requires
        in_order(properties),
    ensures
        0 <= i < properties.len() && properties[i].name@ == name ==> stored(properties, name)
            == Some(properties[i].value@),
        stored(properties, name) is None <==> forall|j: int|
            0 <= j < properties.len() ==> (#[trigger] properties[j]).name@ != name,
        forall|j: int|
            i < j < properties.len() && 0 <= i ==> precedes(
                properties[i].name@,
                (#[trigger] properties[j]).name@,
            ),
{
    if 0 <= i < properties.len() && properties[i].name@ == name {
        stored_at(properties, i);
    }
    if exists|j: int| 0 <= j < properties.len() && (#[trigger] properties[j]).name@ == name {
        let j = choose|j: int|
            0 <= j < properties.len() && (#[trigger] properties[j]).name@ == name;
        stored_at(properties, j);
    } else {
        not_stored(properties, name);
    }
}

proof fn first_live(live: Seq<LiveValue>, name: Seq<char>, from: int, i: int)
    requires
        0 <= from <= i < live.len(),
        live[i].name@ == name,
        forall|j: int| 0 <= j < i ==> (#[trigger] live[j]).name@ != name,
    ensures
        live_from(live, from, name) == live_api(live[i].property),
    decreases i - from,
{
    if from < i {
        first_live(live, name, from + 1, i);
    }
}

proof fn no_live(live: Seq<LiveValue>, name: Seq<char>, from: int)
    requires
        0 <= from,
        forall|j: int| 0 <= j < live.len() ==> (#[trigger] live[j]).name@ != name,
    ensures
        live_from(live, from, name) is None,
    decreases live.len() - from,
{
    if from < live.len() {
        no_live(live, name, from + 1);
    }
}

/// A control shows what the running encoder says of the property of its name; where
/// that says nothing, what is stored for it; and where nothing is, what it came with.
/// Nothing else of it changes.
pub proof fn controls_show_what_is_set(
    control: Control,
    properties: Seq<EncoderProperty>,
    probe: Probe,
    live: Seq<LiveValue>,
    i: int,
)
    ensures
        ({
            let shown = current(control, properties, probe, live);
            let first = 0 <= i < live.len() && live[i].name@ == control.name@ && (forall|j: int|
                0 <= j < i ==> (#[trigger] live[j]).name@ != control.name@);
            let absent = forall|j: int|
                0 <= j < live.len() ==> (#[trigger] live[j]).name@ != control.name@;
            let silent = absent || (first && live_api(live[i].property) is None);
            let kept = stored(properties, control.name@);
            let value = match shown.configuration {
                ControlType::Bool(c) => c.value,
                ControlType::Slider(c) => c.value,
                ControlType::Menu(c) => c.value,
                ControlType::Flags(c) => c.value,
            };
            &&& first && live_api(live[i].property) is Some ==> value == live_api(
                live[i].property,
            )->0
            &&& silent && kept is Some ==> value == api_of(kept->0, control.name@, probe)
            &&& silent && kept is None ==> shown == control
            &&& shown.name == control.name && shown.element == control.element
            &&& shown.cpp_type == control.cpp_type && shown.id == control.id
            &&& shown.state == control.state
            &&& shown.mutable_in_playing == control.mutable_in_playing
            &&& shown.requires_restart == control.requires_restart
            &&& control.configuration matches ControlType::Bool(c) ==> {
                &&& shown.configuration is Bool
                &&& shown.configuration->Bool_0.default == c.default
            }
            &&& control.configuration matches ControlType::Slider(c) ==> {
                &&& shown.configuration is Slider
                &&& shown.configuration->Slider_0.default == c.default
                &&& shown.configuration->Slider_0.step == c.step
                &&& shown.configuration->Slider_0.max == c.max
                &&& shown.configuration->Slider_0.min == c.min
            }
            &&& control.configuration matches ControlType::Menu(c) ==> {
                &&& shown.configuration is Menu
                &&& shown.configuration->Menu_0.default == c.default
                &&& shown.configuration->Menu_0.options == c.options
            }
            &&& control.configuration matches ControlType::Flags(c) ==> {
                &&& shown.configuration is Flags
                &&& shown.configuration->Flags_0.default == c.default
            }
        }),
{
    if 0 <= i < live.len() && live[i].name@ == control.name@ && (forall|j: int|
        0 <= j < i ==> (#[trigger] live[j]).name@ != control.name@) {
        first_live(live, control.name@, 0, i);
    }
    if forall|j: int| 0 <= j < live.len() ==> (#[trigger] live[j]).name@ != control.name@ {
        no_live(live, control.name@, 0);
    }
}

/// A list holds the controls of the encoder in its order where the stream is transcoded
/// by hand, and none of them where it is not; behind them stand the switch that says
/// whether changes restart the stream and the button that does, which are bools of the
/// stream, can be changed while it runs, and restart nothing by themselves.
pub proof fn lists_hold_the_encoder_and_the_stream(
    list: Seq<Control>,
    ids: ControlIds,
    stream: TranscodedStream,
    encoder: Encoder,
)
    requires
        is_list_of(list, ids, stream, encoder),
    ensures
        ({
            let by_hand = stream.configuration matches TranscodingCapture::Video(c)
                && c.source_configuration is ManualTranscoding;
            let restarts = stream.configuration matches TranscodingCapture::Video(c)
                && c.auto_restart_on_config_change;
            let switch = list[list.len() - 2];
            let button = list[list.len() - 1];
            &&& list.len() == 2 + if by_hand {
                encoder.controls@.len()
            } else {
                0
            }
            &&& forall|i: int|
                0 <= i < list.len() - 2 ==> (#[trigger] list[i]).id == encoder.controls@[i].id
                    && list[i].name == encoder.controls@[i].name && list[i] == current(
                    encoder.controls@[i],
                    stream.configuration->Video_0.source_configuration->ManualTranscoding_0.encoder_properties@,
                    encoder.probe,
                    encoder.live@,
                )
            &&& switch.name@ == "auto-restart-on-config-change"@ && switch.id == ids.auto_restart
            &&& switch.configuration == ControlType::Bool(
                ControlBool {
                    default: 0,
                    value: if restarts {
                        1
                    } else {
                        0
                    },
                },
            )
            &&& button.name@ == "restart-stream"@ && button.id == ids.restart_stream
            &&& button.configuration == ControlType::Bool(ControlBool { default: 0, value: 0 })
            &&& forall|i: int|
                list.len() - 2 <= i < list.len() ==> (#[trigger] list[i]).element@ == "stream"@
                    && list[i].cpp_type@ == "bool"@ && !list[i].state.is_disabled
                    && !list[i].state.is_inactive && list[i].mutable_in_playing
                    && !list[i].requires_restart
        }),
{
    listed_identities(list, ids, stream, encoder);
}

/// Reading gives what the first control with the identity is set to, and fails with
/// that identity where no control has it.
pub proof fn first_controls_are_read(
    list: Seq<Control>,
    control_id: u64,
    reading: Result<i64, ControlNotFound>,
    i: int,
)
    requires
        is_reading(list, control_id, reading),
    ensures
        0 <= i < list.len() && list[i].id == control_id && (forall|j: int|
            0 <= j < i ==> (#[trigger] list[j]).id != control_id) ==> reading == Ok::<
            i64,
            ControlNotFound,
        >(
            match list[i].configuration {
                ControlType::Bool(c) => c.value,
                ControlType::Slider(c) => c.value,
                ControlType::Menu(c) => c.value,
                ControlType::Flags(c) => c.value,
            },
        ),
        (forall|j: int| 0 <= j < list.len() ==> (#[trigger] list[j]).id != control_id)
            ==> reading == Err::<i64, ControlNotFound>(ControlNotFound { control_id }),
{
    if 0 <= i < list.len() && list[i].id == control_id && (forall|j: int|
        0 <= j < i ==> (#[trigger] list[j]).id != control_id) {
        assert(is_first(list, control_id, i));
        assert(is_listed(list, control_id));
        let k = choose|k: int| #[trigger]
            is_first(list, control_id, k) && reading->Ok_0 == list[k].configuration.value();
        first_is_one(list, control_id, i, k);
    }
}

/// A running encoder is written to exactly where the first control with the identity is
/// one of the encoder that may be changed while it runs, and then under its name.
pub proof fn running_encoders_are_written_to(
    ids: ControlIds,
    list: Seq<Control>,
    control_id: u64,
    name: Option<String>,
    i: int,
)
    requires
        is_live_write(ids, list, control_id, name),
    ensures
        control_id == ids.restart_stream || control_id == ids.auto_restart ==> name is None,
        (forall|j: int| 0 <= j < list.len() ==> (#[trigger] list[j]).id != control_id)
            ==> name is None,
        control_id != ids.restart_stream && control_id != ids.auto_restart && 0 <= i < list.len()
            && list[i].id == control_id && (forall|j: int|
            0 <= j < i ==> (#[trigger] list[j]).id != control_id) ==> {
            &&& name is Some <==> list[i].mutable_in_playing
            &&& name is Some ==> name->0@ == list[i].name@
        },
{
    if control_id != ids.restart_stream && control_id != ids.auto_restart && 0 <= i < list.len()
        && list[i].id == control_id && (forall|j: int|
        0 <= j < i ==> (#[trigger] list[j]).id != control_id) {
        assert(is_first(list, control_id, i));
        assert(is_listed(list, control_id));
        match name {
            Some(name) => {
                let k = choose|k: int| #[trigger]
                    is_first(list, control_id, k) && list[k].mutable_in_playing && name@
                        == list[k].name@;
                first_is_one(list, control_id, i, k);
            },
            None => {
                let k = choose|k: int| #[trigger]
                    is_first(list, control_id, k) && !list[k].mutable_in_playing;
                first_is_one(list, control_id, i, k);
            },
        }
    }
}

/// The button restarts the stream exactly where it is set to anything but zero, and
/// changes nothing. The switch is kept by a stream that captures video, and restarts
/// nothing. Where no control has the identity nothing is changed.
pub proof fn stream_controls_are_set(
    ids: ControlIds,
    list: Seq<Control>,
    before: TranscodedStream,
    after: TranscodedStream,
    probe: Probe,
    live: LiveWrite,
    control_id: u64,
    value: i64,
    outcome: Result<ControlOutcome, ControlError>,
)
    requires
        ids.wf(),
        is_setting(ids, list, before, after, probe, live, control_id, value, outcome),
    ensures
        control_id == ids.restart_stream ==> {
            &&& after == before
            &&& outcome is Ok && !outcome->Ok_0.restart_needed
            &&& outcome->Ok_0.restart <==> value != 0
        },
        control_id == ids.auto_restart ==> {
            &&& outcome is Ok && !outcome->Ok_0.restart_needed && !outcome->Ok_0.restart
            &&& after.name == before.name && after.video_source == before.video_source
            &&& before.configuration is Redirect ==> after == before
            &&& before.configuration matches TranscodingCapture::Video(c) ==> {
                &&& after.configuration is Video
                &&& after.configuration->Video_0.auto_restart_on_config_change <==> value != 0
                &&& after.configuration->Video_0 == (TranscodingCaptureConfiguration {
                    auto_restart_on_config_change: value != 0,
                    ..c
                })
            }
        },
        control_id != ids.restart_stream && control_id != ids.auto_restart && (forall|j: int|
            0 <= j < list.len() ==> (#[trigger] list[j]).id != control_id) ==> after == before
            && outcome == Err::<ControlOutcome, ControlError>(ControlError::NotFound),
{
}

/// A control of the encoder is set where the stream is transcoded by hand, unless the
/// running encoder did not take the value of a control that may be changed while it
/// runs. Its value is then stored under its name and everything else stays. Where the
/// control says so, the stream is restarted if changes restart it, and marked if not.
/// Where it is not set the stream stays as it was, and why is told.
pub proof fn encoder_controls_are_set(
    ids: ControlIds,
    list: Seq<Control>,
    before: TranscodedStream,
    after: TranscodedStream,
    probe: Probe,
    live: LiveWrite,
    control_id: u64,
    value: i64,
    outcome: Result<ControlOutcome, ControlError>,
    i: int,
    other: Seq<char>,
)
    requires
        is_setting(ids, list, before, after, probe, live, control_id, value, outcome),
        control_id != ids.restart_stream,
        control_id != ids.auto_restart,
        0 <= i < list.len(),
        list[i].id == control_id,
        forall|j: int| 0 <= j < i ==> (#[trigger] list[j]).id != control_id,
    ensures
        ({
            let control = list[i];
            let refused = control.mutable_in_playing && live == LiveWrite::Failed;
            let by_hand = before.configuration matches TranscodingCapture::Video(c)
                && c.source_configuration is ManualTranscoding;
            let old_capture = before.configuration->Video_0;
            let new_capture = after.configuration->Video_0;
            let old_manual = old_capture.source_configuration->ManualTranscoding_0;
            let new_manual = new_capture.source_configuration->ManualTranscoding_0;
            &&& outcome is Ok <==> by_hand && !refused
            &&& outcome is Err ==> after == before
            &&& outcome == Err::<ControlOutcome, ControlError>(ControlError::LiveFailed)
                <==> refused
            &&& outcome == Err::<ControlOutcome, ControlError>(ControlError::NotVideo)
                <==> !refused && before.configuration is Redirect
            &&& outcome == Err::<ControlOutcome, ControlError>(ControlError::NotManual)
                <==> !refused && before.configuration is Video && !by_hand
            &&& outcome is Ok ==> {
                &&& outcome->Ok_0.restart <==> control.requires_restart
                    && old_capture.auto_restart_on_config_change
                &&& outcome->Ok_0.restart_needed <==> control.requires_restart
                    && !old_capture.auto_restart_on_config_change
                &&& after.name == before.name && after.video_source == before.video_source
                &&& after.configuration is Video
                &&& new_capture.source_configuration is ManualTranscoding
                &&& new_capture == (TranscodingCaptureConfiguration {
                    source_configuration: new_capture.source_configuration,
                    ..old_capture
                })
                &&& new_manual == (ManualTranscodingConfig {
                    encoder_properties: new_manual.encoder_properties,
                    ..old_manual
                })
                &&& stored(new_manual.encoder_properties@, control.name@) == Some(
                    property_of(control, value, probe),
                )
                &&& other != control.name@ ==> stored(new_manual.encoder_properties@, other)
                    == stored(old_manual.encoder_properties@, other)
            }
        }),
{
    assert(is_first(list, control_id, i));
    assert(is_listed(list, control_id));
    let k = choose|k: int| #[trigger]
        is_first(list, control_id, k) && is_setting_of(
            list[k],
            before,
            after,
            probe,
            live,
            value,
            outcome,
        );
    first_is_one(list, control_id, i, k);
}

/// The encoder of a stream is the one that was picked, where it is transcoded by hand
/// and one was; every other stream has `x264enc`.
pub proof fn encoders_are_those_picked(stream: TranscodedStream)
    ensures
        stream.configuration matches TranscodingCapture::Video(c) ==> {
            c.source_configuration matches SourceConfiguration::ManualTranscoding(m) ==> {
                &&& m.encoder@.len() > 0 ==> encoder_factory(stream) == m.encoder@
                &&& m.encoder@.len() == 0 ==> encoder_factory(stream) == "x264enc"@
            }
        },
        stream.configuration is Redirect
            || !(stream.configuration->Video_0.source_configuration is ManualTranscoding)
            ==> encoder_factory(stream) == "x264enc"@,
{
}

/// Exchanging the properties of the encoder, or whether changes restart the stream,
/// leaves everything else of a stream as it is.
pub proof fn exchanges_leave_the_rest(
    stream: TranscodedStream,
    properties: Vec<EncoderProperty>,
    value: bool,
)
    ensures
        ({
            let exchanged = stream.with_properties(properties);
            let switched = stream.with_auto_restart(value);
            &&& exchanged.name == stream.name && switched.name == stream.name
            &&& exchanged.video_source == stream.video_source && switched.video_source
                == stream.video_source
            &&& stream.configuration is Redirect ==> exchanged == stream && switched == stream
            &&& stream.configuration matches TranscodingCapture::Video(c) ==> {
                &&& switched.configuration == TranscodingCapture::Video(
                    TranscodingCaptureConfiguration { auto_restart_on_config_change: value, ..c },
                )
                &&& !(c.source_configuration is ManualTranscoding) ==> exchanged == stream
                &&& c.source_configuration matches SourceConfiguration::ManualTranscoding(m)
                    ==> exchanged.configuration == TranscodingCapture::Video(
                    TranscodingCaptureConfiguration {
                        source_configuration: SourceConfiguration::ManualTranscoding(
                            ManualTranscodingConfig { encoder_properties: properties, ..m },
                        ),
                        ..c
                    },
                ) && exchanged.properties() == properties && stream.properties()
                    == m.encoder_properties
            }
        }),
{
}

/// Identities are usable exactly where both are from the offset on, the offset itself
/// among them, and are not the same.
pub proof fn identities_begin_at_the_offset(ids: ControlIds)
    ensures
        ids.wf() <==> !(ids.auto_restart < ids.offset) && !(ids.restart_stream < ids.offset) && !(
        ids.auto_restart == ids.restart_stream),
{
}

} // verus!
