//! How the session with zenoh is set up.
use vstd::prelude::*;

verus! {

/// `zenoh::Config`, the configuration of a session.
#[verifier::external_type_specification]
#[verifier::external_body]
pub struct ExZenohConfig(zenoh::Config);

/// The configuration that `zenoh::Config::insert_json5` makes of another one, of a
/// key and of the text of a value; nothing where it refuses them.
pub uninterp spec fn json5_inserted(
    config: zenoh::Config,
    key: Seq<char>,
    value: Seq<char>,
) -> Option<zenoh::Config>;

/// A character that a name may hold: one that neither ends nor escapes a quoted
/// text, and opens and closes nothing.
pub open spec fn is_plain_char(c: char) -> bool {
    c != '"' && c != '\'' && c != '\\' && c != '[' && c != ']' && c != '{' && c != '}'
}

/// A name that can be put between quotes as it is.
pub open spec fn is_plain(name: Seq<char>) -> bool {
    forall|i: int| 0 <= i < name.len() ==> is_plain_char(#[trigger] name[i])
}

/// Whether a name can be put between quotes as it is.
pub fn is_plain_name(name: &str) -> (r: bool)
    ensures
        r == is_plain(name@),
{
    let n: usize = name.unicode_len();
    let mut i: usize = 0;
    while i < n
        invariant
            i <= n,
            n == name@.len(),
            forall|j: int| 0 <= j < i ==> is_plain_char(#[trigger] name@[j]),
        decreases n - i,
    {
        let c = name.get_char(i);
        if c == '"' || c == '\'' || c == '\\' || c == '[' || c == ']' || c == '{' || c == '}' {
            assert(!is_plain_char(name@[i as int]));
            return false;
        }
        i += 1;
    }
    true
}

/// How a session tells its name, as JSON5 text.
pub open spec fn name_value(name: Seq<char>) -> Seq<char> {
    "{\"name\": \""@ + name + "\"}"@
}

/// The keys that sessions are set up with, each with the values that it is given.
pub open spec fn is_known(key: Seq<char>, value: Seq<char>) -> bool {
    ||| key == "mode"@ && (value == "\"client\""@ || value == "\"peer\""@)
    ||| key == "connect/endpoints"@ && (value == "[\"tcp/127.0.0.1:7447\"]"@ || value == "[]"@)
    ||| key == "listen/endpoints"@ && value == "[\"tcp/127.0.0.1:0\"]"@
    ||| key == "scouting/multicast/enabled"@ && value == "false"@
    ||| key == "transport/link/tx/queue/size/real_time"@ && value == "16"@
    ||| key == "adminspace"@ && value == "{\"enabled\": true}"@
    ||| key == "metadata"@ && exists|name: Seq<char>|
        is_plain(name) && value == #[trigger] name_value(name)
}

/// `zenoh::Config::insert_json5`: puts a value, given as JSON5 text, at a key, and
/// says whether it did. What a refusal leaves behind is not stated. Only settings
/// that sessions are set up with are handed to it: with others it may stop, such
/// as a key below `plugins` where that holds a number, or lists in lists without
/// end.
#[verifier::external_body]
fn insert_json5(config: &mut zenoh::Config, key: &str, value: &str) -> (r: bool)
    requires
        is_known(key@, value@),
    ensures
        r == (json5_inserted(*old(config), key@, value@) is Some),
        r ==> Some(*final(config)) == json5_inserted(*old(config), key@, value@),
{
    config.insert_json5(key, value).is_ok()
}

/// `zenoh::Config::default`: the configuration of a session that nothing is said
/// of. Nothing is stated of it.
#[verifier::external_body]
fn default_config() -> (r: zenoh::Config)
{
    zenoh::Config::default()
}

/// A value, as JSON5 text, and the key that it stands at.
pub struct Setting {
    pub key: &'static str,
    pub value: String,
}

pub struct SettingView {
    pub key: Seq<char>,
    pub value: Seq<char>,
}

impl View for Setting {
    type V = SettingView;

    open spec fn view(&self) -> SettingView {
        SettingView { key: self.key@, value: self.value@ }
    }
}

pub open spec fn setting_views(list: Seq<Setting>) -> Seq<SettingView> {
    list.map_values(|s: Setting| s@)
}

pub open spec fn setting(key: Seq<char>, value: Seq<char>) -> SettingView {
    SettingView { key, value }
}

/// What is set where no file says how the session is to be: a client of the router
/// on this machine.
pub open spec fn client_settings() -> Seq<SettingView> {
    seq![
        setting("mode"@, "\"client\""@),
        setting("connect/endpoints"@, "[\"tcp/127.0.0.1:7447\"]"@),
    ]
}

/// What is set in any case.
pub open spec fn common_settings(name: Seq<char>) -> Seq<SettingView> {
    seq![
        setting("transport/link/tx/queue/size/real_time"@, "16"@),
        setting("adminspace"@, "{\"enabled\": true}"@),
        setting("metadata"@, name_value(name)),
    ]
}

/// What is set for a session that meets nobody else: a peer that connects to
/// nothing and looks for nobody.
pub open spec fn secluded_settings() -> Seq<SettingView> {
    seq![
        setting("mode"@, "\"peer\""@),
        setting("connect/endpoints"@, "[]"@),
        setting("listen/endpoints"@, "[\"tcp/127.0.0.1:0\"]"@),
        setting("scouting/multicast/enabled"@, "false"@),
    ]
}

/// The configuration after the settings from position `i` on; nothing where one
/// of them is refused.
pub open spec fn configured(
    config: zenoh::Config,
    settings: Seq<SettingView>,
    i: int,
) -> Option<zenoh::Config>
    decreases settings.len() - i,
{
    if i < 0 || i >= settings.len() {
        Some(config)
    } else {
        match json5_inserted(config, settings[i].key, settings[i].value) {
            Some(next) => configured(next, settings, i + 1),
            None => None,
        }
    }
}

/// The first setting that is refused, from position `i` on.
pub open spec fn refused(config: zenoh::Config, settings: Seq<SettingView>, i: int) -> Option<
    Seq<char>,
>
    decreases settings.len() - i,
{
    if i < 0 || i >= settings.len() {
        None
    } else {
        match json5_inserted(config, settings[i].key, settings[i].value) {
            Some(next) => refused(next, settings, i + 1),
            None => Some(settings[i].key),
        }
    }
}

/// A setting was refused.
#[derive(Clone, Copy, Debug)]
pub struct RefusedSetting {
    pub key: &'static str,
}

/// What comes of putting the settings into a configuration.
pub open spec fn is_configured(
    config: zenoh::Config,
    settings: Seq<SettingView>,
    r: Result<zenoh::Config, RefusedSetting>,
) -> bool {
    match r {
        Ok(made) => configured(config, settings, 0) == Some(made),
        Err(error) => refused(config, settings, 0) == Some(error.key@),
    }
}

/// All settings are ones that sessions are set up with.
pub open spec fn all_known(settings: Seq<SettingView>) -> bool {
    forall|i: int|
        0 <= i < settings.len() ==> is_known((#[trigger] settings[i]).key, settings[i].value)
}

/// Puts the settings into a configuration, one after the other.
pub fn apply(config: zenoh::Config, settings: &Vec<Setting>) -> (r: Result<
    zenoh::Config,
    RefusedSetting,
>)
    requires
        all_known(setting_views(settings@)),
    ensures
        is_configured(config, setting_views(settings@), r),
{
    let ghost views = setting_views(settings@);
    let mut made = config;
    let mut i: usize = 0;
    while i < settings.len()
        invariant
            i <= settings.len(),
            views == setting_views(settings@),
            all_known(views),
            configured(config, views, 0) == configured(made, views, i as int),
            refused(config, views, 0) == refused(made, views, i as int),
        decreases settings.len() - i,
    {
        assert(views[i as int] == settings@[i as int]@);
        let s = &settings[i];
        let ghost before = made;
        if !insert_json5(&mut made, s.key, s.value.as_str()) {
            assert(refused(before, views, i as int) == Some(s.key@));
            return Err(RefusedSetting { key: s.key });
        }
        i += 1;
    }
    Ok(made)
}

/// The settings of a session, where `from_file` says that a file gives the rest,
/// and `name` is what the session calls itself.
pub fn session_settings(from_file: bool, name: &str) -> (r: Vec<Setting>)
    ensures
        setting_views(r@) == (if from_file {
            Seq::empty()
        } else {
            client_settings()
        }) + common_settings(name@),
{
    let mut list: Vec<Setting> = Vec::new();
    if !from_file {
        list.push(Setting { key: "mode", value: "\"client\"".to_owned() });
        list.push(
            Setting {
                key: "connect/endpoints",
                value: "[\"tcp/127.0.0.1:7447\"]".to_owned(),
            },
        );
    }
    list.push(
        Setting { key: "transport/link/tx/queue/size/real_time", value: "16".to_owned() },
    );
    list.push(Setting { key: "adminspace", value: "{\"enabled\": true}".to_owned() });
    let mut metadata = "{\"name\": \"".to_owned();
    metadata.append(name);
    metadata.append("\"}");
    list.push(Setting { key: "metadata", value: metadata });
    assert(setting_views(list@) =~= (if from_file {
        Seq::empty()
    } else {
        client_settings()
    }) + common_settings(name@));
    list
}

/// The configuration of a session: the one that was read from a file, or that of a
/// client of the router on this machine; in both cases with the settings that all
/// sessions have. The name goes between quotes as it is.
pub fn load_config(file: Option<zenoh::Config>, name: &str) -> (r: Result<
    zenoh::Config,
    RefusedSetting,
>)
    requires
        is_plain(name@),
    ensures
        match file {
            Some(config) => is_configured(config, common_settings(name@), r),
            None => exists|config: zenoh::Config|
                #[trigger] is_configured(config, client_settings() + common_settings(name@), r),
        },
{
    let from_file = file.is_some();
    let settings = session_settings(from_file, name);
    let config = match file {
        Some(config) => {
            assert(Seq::<SettingView>::empty() + common_settings(name@) =~= common_settings(name@));
            config
        },
        None => default_config(),
    };
    proof {
        assert(is_known("metadata"@, name_value(name@)));
        let views = setting_views(settings@);
        assert forall|i: int| 0 <= i < views.len() implies is_known(
            (#[trigger] views[i]).key,
            views[i].value,
        ) by {
            if from_file {
                assert(views[i] == common_settings(name@)[i]);
            }
        }
    }
    apply(config, &settings)
}

/// The configuration of a session that meets nobody else.
pub fn secluded_config() -> (r: Result<zenoh::Config, RefusedSetting>)
    ensures
        exists|config: zenoh::Config|
            #[trigger] is_configured(config, secluded_settings(), r),
{
    let mut list: Vec<Setting> = Vec::new();
    list.push(Setting { key: "mode", value: "\"peer\"".to_owned() });
    list.push(Setting { key: "connect/endpoints", value: "[]".to_owned() });
    list.push(Setting { key: "listen/endpoints", value: "[\"tcp/127.0.0.1:0\"]".to_owned() });
    list.push(Setting { key: "scouting/multicast/enabled", value: "false".to_owned() });
    assert(setting_views(list@) =~= secluded_settings());
    apply(default_config(), &list)
}

/// Settings are either all put in, or one of them is refused.
pub proof fn settings_are_all_in_or_one_is_refused(
    config: zenoh::Config,
    settings: Seq<SettingView>,
    i: int,
)
    requires
        0 <= i,
    ensures
        configured(config, settings, i) is Some <==> refused(config, settings, i) is None,
    decreases settings.len() - i,
{
    if i < settings.len() {
        match json5_inserted(config, settings[i].key, settings[i].value) {
            Some(next) => {
                settings_are_all_in_or_one_is_refused(next, settings, i + 1);
            },
            None => {},
        }
    }
}

/// Settings are put in one after the other, each into what the ones before have made,
/// and the first that is refused is the one that is told.
pub proof fn settings_are_put_in_order(
    config: zenoh::Config,
    settings: Seq<SettingView>,
    i: int,
)
    requires
        0 <= i < settings.len(),
    ensures
        ({
            let next = json5_inserted(config, settings[i].key, settings[i].value);
            &&& next is None ==> configured(config, settings, i) is None && refused(
                config,
                settings,
                i,
            ) == Some(settings[i].key)
            &&& next is Some ==> configured(config, settings, i) == configured(
                next->0,
                settings,
                i + 1,
            ) && refused(config, settings, i) == refused(next->0, settings, i + 1)
        }),
        configured(config, settings, settings.len() as int) == Some(config),
        refused(config, settings, settings.len() as int) is None,
{
}

/// Where no file says otherwise a session is a client of the router on this machine;
/// every session has its queue, its administration space and its own name; and one
/// that is to meet nobody is a peer that connects to nothing, listens on this machine
/// alone and looks for nobody.
pub proof fn sessions_are_set_up_like_this(name: Seq<char>)
    ensures
        client_settings().len() == 2,
        client_settings()[0].key == "mode"@ && client_settings()[0].value == "\"client\""@,
        client_settings()[1].key == "connect/endpoints"@ && client_settings()[1].value
            == "[\"tcp/127.0.0.1:7447\"]"@,
        common_settings(name).len() == 3,
        common_settings(name)[0].key == "transport/link/tx/queue/size/real_time"@
            && common_settings(name)[0].value == "16"@,
        common_settings(name)[1].key == "adminspace"@ && common_settings(name)[1].value
            == "{\"enabled\": true}"@,
        common_settings(name)[2].key == "metadata"@ && common_settings(name)[2].value
            == "{\"name\": \""@ + name + "\"}"@,
        secluded_settings().len() == 4,
        secluded_settings()[0].key == "mode"@ && secluded_settings()[0].value == "\"peer\""@,
        secluded_settings()[1].key == "connect/endpoints"@ && secluded_settings()[1].value
            == "[]"@,
        secluded_settings()[2].key == "listen/endpoints"@ && secluded_settings()[2].value
            == "[\"tcp/127.0.0.1:0\"]"@,
        secluded_settings()[3].key == "scouting/multicast/enabled"@ && secluded_settings()[3].value
            == "false"@,
{
}

/// A name goes between quotes as it is exactly where it holds no quote, no backslash
/// and no bracket or brace.
pub proof fn plain_names_hold_nothing_special(name: Seq<char>)
    ensures
        is_plain(name) <==> !(name.contains('"') || name.contains('\'') || name.contains('\\')
            || name.contains('[') || name.contains(']') || name.contains('{') || name.contains(
            '}',
        )),
{
    if is_plain(name) {
        assert forall|c: char| name.contains(c) implies is_plain_char(c) by {
            let i = name.index_of(c);
            assert(name[i] == c);
        }
    } else {
        let i = choose|i: int| 0 <= i < name.len() && !is_plain_char(#[trigger] name[i]);
        assert(name.contains(name[i]));
    }
}

/// A session is configured where none of its settings is refused, with all of them in;
/// otherwise the key of the first that is refused is told.
pub proof fn configurations_are_made_or_refused(
    config: zenoh::Config,
    settings: Seq<SettingView>,
    r: Result<zenoh::Config, RefusedSetting>,
)
    requires
        is_configured(config, settings, r),
    ensures
        r is Ok ==> configured(config, settings, 0) == Some(r->Ok_0),
        r is Err ==> refused(config, settings, 0) == Some(r->Err_0.key@),
        r is Ok <==> refused(config, settings, 0) is None,
{
    refused_where_not_configured(config, settings, 0);
}

proof fn refused_where_not_configured(config: zenoh::Config, settings: Seq<SettingView>, i: int)
    requires
        0 <= i <= settings.len(),
    ensures
        configured(config, settings, i) is Some <==> refused(config, settings, i) is None,
    decreases settings.len() - i,
{
    if i < settings.len() {
        match json5_inserted(config, settings[i].key, settings[i].value) {
            Some(next) => {
                refused_where_not_configured(next, settings, i + 1);
            },
            None => {},
        }
    }
}

/// Sessions are set up with settings that are known alone, whatever their plain name.
pub proof fn sessions_are_set_up_with_known_settings(name: Seq<char>, i: int)
    requires
        is_plain(name),
    ensures
        0 <= i < client_settings().len() ==> is_known(
            client_settings()[i].key,
            client_settings()[i].value,
        ),
        0 <= i < common_settings(name).len() ==> is_known(
            common_settings(name)[i].key,
            common_settings(name)[i].value,
        ),
        0 <= i < secluded_settings().len() ==> is_known(
            secluded_settings()[i].key,
            secluded_settings()[i].value,
        ),
{
    let value = name_value(name);
    assert(is_plain(name) && value == name_value(name));
}

} // verus!
