//! The configuration data model and its layout in the configuration file.
use crate::json::{
    as_text, as_texts, as_u16, field, is_text, is_texts, keys_of, lemma_lookup_distinct, member,
    Json,
};
use vstd::prelude::*;

verus! {

/// What went wrong while loading or saving a configuration.
#[derive(Debug)]
pub enum Error {
    /// The file could not be opened, read or written.
    Io(String),
    /// The file's content is not a configuration (malformed JSON, a missing
    /// member or one of the wrong type).
    Parse(String),
    /// The configuration could not be encoded.
    Serialization(String),
}

/// Credentials for the LiveU account.
#[derive(Debug, Clone)]
pub struct Liveu {
    pub email: String,
    pub password: String,
}

/// The chat bot's settings.
#[derive(Debug, Clone)]
pub struct Twitch {
    pub bot_username: String,
    pub bot_oauth: String,
    pub channel: String,
    pub commands: Vec<String>,
    pub command_cooldown: u16,
}

/// Where the stream's bitrate can be read from.
#[derive(Debug, Clone)]
pub struct Rtmp {
    pub url: String,
    pub application: String,
    pub key: String,
}

/// Display names for the unit's network ports.
#[derive(Debug, Clone)]
pub struct CustomUnitNames {
    pub ethernet: String,
    pub wifi: String,
    pub usb1: String,
    pub usb2: String,
}

/// The whole configuration.
#[derive(Debug, Clone)]
pub struct Config {
    pub liveu: Liveu,
    pub twitch: Twitch,
    pub rtmp: Option<Rtmp>,
    pub custom_port_names: Option<CustomUnitNames>,
}

/// The model of a [`Liveu`]: its texts.
pub struct LiveuView {
    pub email: Seq<char>,
    pub password: Seq<char>,
}

/// The model of a [`Twitch`]: its texts, and the commands as a sequence of texts.
pub struct TwitchView {
    pub bot_username: Seq<char>,
    pub bot_oauth: Seq<char>,
    pub channel: Seq<char>,
    pub commands: Seq<Seq<char>>,
    pub command_cooldown: u16,
}

/// The model of an [`Rtmp`].
pub struct RtmpView {
    pub url: Seq<char>,
    pub application: Seq<char>,
    pub key: Seq<char>,
}

/// The model of a [`CustomUnitNames`].
pub struct CustomUnitNamesView {
    pub ethernet: Seq<char>,
    pub wifi: Seq<char>,
    pub usb1: Seq<char>,
    pub usb2: Seq<char>,
}

/// The model of a [`Config`].
pub struct ConfigView {
    pub liveu: LiveuView,
    pub twitch: TwitchView,
    pub rtmp: Option<RtmpView>,
    pub custom_port_names: Option<CustomUnitNamesView>,
}

impl View for Liveu {
    type V = LiveuView;

    open spec fn view(&self) -> LiveuView {
        LiveuView { email: self.email@, password: self.password@ }
    }
}

impl View for Twitch {
    type V = TwitchView;

    open spec fn view(&self) -> TwitchView {
        TwitchView {
            bot_username: self.bot_username@,
            bot_oauth: self.bot_oauth@,
            channel: self.channel@,
            commands: self.commands@.map_values(|s: String| s@),
            command_cooldown: self.command_cooldown,
        }
    }
}

impl View for Rtmp {
    type V = RtmpView;

    open spec fn view(&self) -> RtmpView {
        RtmpView { url: self.url@, application: self.application@, key: self.key@ }
    }
}

impl View for CustomUnitNames {
    type V = CustomUnitNamesView;

    open spec fn view(&self) -> CustomUnitNamesView {
        CustomUnitNamesView {
            ethernet: self.ethernet@,
            wifi: self.wifi@,
            usb1: self.usb1@,
            usb2: self.usb2@,
        }
    }
}

impl View for Config {
    type V = ConfigView;

    open spec fn view(&self) -> ConfigView {
        ConfigView {
            liveu: self.liveu@,
            twitch: self.twitch@,
            rtmp: match self.rtmp {
                Some(r) => Some(r@),
                None => None,
            },
            custom_port_names: match self.custom_port_names {
                Some(u) => Some(u@),
                None => None,
            },
        }
    }
}

/// The port names used when none are chosen.
pub open spec fn default_unit_names() -> CustomUnitNamesView {
    CustomUnitNamesView { ethernet: "ETH"@, wifi: "WiFi"@, usb1: "USB1"@, usb2: "USB2"@ }
}

/// The chat commands the bot answers to unless told otherwise.
pub open spec fn default_commands() -> Seq<Seq<char>> {
    seq!["!lustats"@, "!liveustats"@, "!lus"@]
}

impl Default for CustomUnitNames {
    fn default() -> (r: CustomUnitNames)
        ensures
            r@ == default_unit_names(),
    {
        CustomUnitNames {
            ethernet: "ETH".to_string(),
            wifi: "WiFi".to_string(),
            usb1: "USB1".to_string(),
            usb2: "USB2".to_string(),
        }
    }
}

/// The chat commands the bot answers to unless told otherwise.
pub fn default_commands_list() -> (r: Vec<String>)
    ensures
        r@.map_values(|s: String| s@) == default_commands(),
{
    let r = vec!["!lustats".to_string(), "!liveustats".to_string(), "!lus".to_string()];
    assert(r@.map_values(|s: String| s@) =~= default_commands());
    r
}

// ---- Reading the file layout ----
/// The LiveU block read from `j`.
pub open spec fn liveu_from_json(j: Json) -> Option<LiveuView> {
    match (as_text(member(j, "email"@)), as_text(member(j, "password"@))) {
        (Some(email), Some(password)) => Some(LiveuView { email, password }),
        _ => None,
    }
}

/// The Twitch block read from `j`; its member names are in camel case.
pub open spec fn twitch_from_json(j: Json) -> Option<TwitchView> {
    match (
        as_text(member(j, "botUsername"@)),
        as_text(member(j, "botOauth"@)),
        as_text(member(j, "channel"@)),
        as_texts(member(j, "commands"@)),
        as_u16(member(j, "commandCooldown"@)),
    ) {
        (
            Some(bot_username),
            Some(bot_oauth),
            Some(channel),
            Some(commands),
            Some(command_cooldown),
        ) => Some(TwitchView { bot_username, bot_oauth, channel, commands, command_cooldown }),
        _ => None,
    }
}

/// The RTMP block read from `j`.
pub open spec fn rtmp_from_json(j: Json) -> Option<RtmpView> {
    match (
        as_text(member(j, "url"@)),
        as_text(member(j, "application"@)),
        as_text(member(j, "key"@)),
    ) {
        (Some(url), Some(application), Some(key)) => Some(RtmpView { url, application, key }),
        _ => None,
    }
}

/// The port names block read from `j`.
pub open spec fn units_from_json(j: Json) -> Option<CustomUnitNamesView> {
    match (
        as_text(member(j, "ethernet"@)),
        as_text(member(j, "wifi"@)),
        as_text(member(j, "usb1"@)),
        as_text(member(j, "usb2"@)),
    ) {
        (Some(ethernet), Some(wifi), Some(usb1), Some(usb2)) => Some(
            CustomUnitNamesView { ethernet, wifi, usb1, usb2 },
        ),
        _ => None,
    }
}

/// An optional RTMP block: absent or `null` is no block, `Some(None)`
/// here; `None` when present but not a valid block.
pub open spec fn rtmp_entry(j: Option<Json>) -> Option<Option<RtmpView>> {
    match j {
        None => Some(None),
        Some(Json::Null) => Some(None),
        Some(v) => match rtmp_from_json(v) {
            Some(r) => Some(Some(r)),
            None => None,
        },
    }
}

/// An optional port names block, read as [`rtmp_entry`] reads its block.
pub open spec fn units_entry(j: Option<Json>) -> Option<Option<CustomUnitNamesView>> {
    match j {
        None => Some(None),
        Some(Json::Null) => Some(None),
        Some(v) => match units_from_json(v) {
            Some(u) => Some(Some(u)),
            None => None,
        },
    }
}

/// The configuration read from the document `j`, if `j` holds one.
/// Members that the layout does not name are ignored.
pub open spec fn config_from_json(j: Json) -> Option<ConfigView> {
    match (member(j, "liveu"@), member(j, "twitch"@)) {
        (Some(l), Some(t)) => match (
            liveu_from_json(l),
            twitch_from_json(t),
            rtmp_entry(member(j, "rtmp"@)),
            units_entry(member(j, "custom_port_names"@)),
        ) {
            (Some(liveu), Some(twitch), Some(rtmp), Some(custom_port_names)) => Some(
                ConfigView { liveu, twitch, rtmp, custom_port_names },
            ),
            _ => None,
        },
        _ => None,
    }
}

// ---- Writing the file layout ----
/// `j` is the object `keys` with a member for each of them, in that order.
pub open spec fn has_keys(j: Json, keys: Seq<Seq<char>>) -> bool {
    j is Object && keys_of(j) == keys
}

/// `j` is the LiveU block that holds `l`.
pub open spec fn liveu_json(j: Json, l: LiveuView) -> bool {
    &&& has_keys(j, seq!["email"@, "password"@])
    &&& is_text(field(j, 0), l.email)
    &&& is_text(field(j, 1), l.password)
}

/// `j` is the Twitch block that holds `t`.
pub open spec fn twitch_json(j: Json, t: TwitchView) -> bool {
    &&& has_keys(
        j,
        seq!["botUsername"@, "botOauth"@, "channel"@, "commands"@, "commandCooldown"@],
    )
    &&& is_text(field(j, 0), t.bot_username)
    &&& is_text(field(j, 1), t.bot_oauth)
    &&& is_text(field(j, 2), t.channel)
    &&& is_texts(field(j, 3), t.commands)
    &&& field(j, 4) == Json::Number(Some(t.command_cooldown as u64))
}

/// `j` is the RTMP block that holds `r`.
pub open spec fn rtmp_json(j: Json, r: RtmpView) -> bool {
    &&& has_keys(j, seq!["url"@, "application"@, "key"@])
    &&& is_text(field(j, 0), r.url)
    &&& is_text(field(j, 1), r.application)
    &&& is_text(field(j, 2), r.key)
}

/// `j` is the port names block that holds `u`.
pub open spec fn units_json(j: Json, u: CustomUnitNamesView) -> bool {
    &&& has_keys(j, seq!["ethernet"@, "wifi"@, "usb1"@, "usb2"@])
    &&& is_text(field(j, 0), u.ethernet)
    &&& is_text(field(j, 1), u.wifi)
    &&& is_text(field(j, 2), u.usb1)
    &&& is_text(field(j, 3), u.usb2)
}

/// `j` is the document that holds `c`: an absent block is written `null`.
pub open spec fn config_json(j: Json, c: ConfigView) -> bool {
    &&& has_keys(j, seq!["liveu"@, "twitch"@, "rtmp"@, "custom_port_names"@])
    &&& liveu_json(field(j, 0), c.liveu)
    &&& twitch_json(field(j, 1), c.twitch)
    &&& match c.rtmp {
        Some(r) => rtmp_json(field(j, 2), r),
        None => field(j, 2) is Null,
    }
    &&& match c.custom_port_names {
        Some(u) => units_json(field(j, 3), u),
        None => field(j, 3) is Null,
    }
}


/// The string value holding a copy of `s`.
fn text_json(s: &String) -> (r: Json)
    ensures
        is_text(r, s@),
{
    Json::Str(s.clone())
}

impl Liveu {
    /// Reads a LiveU block.
    pub fn from_json(j: &Json) -> (r: Option<Liveu>)
        ensures
            match r {
                Some(l) => liveu_from_json(*j) == Some(l@),
                None => liveu_from_json(*j) is None,
            },
    {
        let email = Json::text_of(j.member("email"))?;
        let password = Json::text_of(j.member("password"))?;
        Some(Liveu { email, password })
    }

    /// Writes this block.
    pub fn to_json(&self) -> (r: Json)
        ensures
            liveu_json(r, self@),
    {
        let r = Json::Object(
            vec![
                ("email".to_string(), text_json(&self.email)),
                ("password".to_string(), text_json(&self.password)),
            ],
        );
        assert(keys_of(r) =~= seq!["email"@, "password"@]);
        r
    }
}

impl Twitch {
    /// Reads a Twitch block.
    pub fn from_json(j: &Json) -> (r: Option<Twitch>)
        ensures
            match r {
                Some(t) => twitch_from_json(*j) == Some(t@),
                None => twitch_from_json(*j) is None,
            },
    {
        let bot_username = Json::text_of(j.member("botUsername"))?;
        let bot_oauth = Json::text_of(j.member("botOauth"))?;
        let channel = Json::text_of(j.member("channel"))?;
        let commands = Json::texts_of(j.member("commands"))?;
        let command_cooldown = Json::u16_of(j.member("commandCooldown"))?;
        Some(Twitch { bot_username, bot_oauth, channel, commands, command_cooldown })
    }

    /// Writes this block.
    pub fn to_json(&self) -> (r: Json)
        ensures
            twitch_json(r, self@),
    {
        let r = Json::Object(
            vec![
                ("botUsername".to_string(), text_json(&self.bot_username)),
                ("botOauth".to_string(), text_json(&self.bot_oauth)),
                ("channel".to_string(), text_json(&self.channel)),
                ("commands".to_string(), Json::from_texts(&self.commands)),
                ("commandCooldown".to_string(), Json::Number(Some(self.command_cooldown as u64))),
            ],
        );
        assert(keys_of(r) =~= seq![
            "botUsername"@,
            "botOauth"@,
            "channel"@,
            "commands"@,
            "commandCooldown"@,
        ]);
        r
    }
}

impl Rtmp {
    /// Reads an RTMP block.
    pub fn from_json(j: &Json) -> (r: Option<Rtmp>)
        ensures
            match r {
                Some(x) => rtmp_from_json(*j) == Some(x@),
                None => rtmp_from_json(*j) is None,
            },
    {
        let url = Json::text_of(j.member("url"))?;
        let application = Json::text_of(j.member("application"))?;
        let key = Json::text_of(j.member("key"))?;
        Some(Rtmp { url, application, key })
    }

    /// Writes this block.
    pub fn to_json(&self) -> (r: Json)
        ensures
            rtmp_json(r, self@),
    {
        let r = Json::Object(
            vec![
                ("url".to_string(), text_json(&self.url)),
                ("application".to_string(), text_json(&self.application)),
                ("key".to_string(), text_json(&self.key)),
            ],
        );
        assert(keys_of(r) =~= seq!["url"@, "application"@, "key"@]);
        r
    }
}

impl CustomUnitNames {
    /// Reads a port names block.
    pub fn from_json(j: &Json) -> (r: Option<CustomUnitNames>)
        ensures
            match r {
                Some(u) => units_from_json(*j) == Some(u@),
                None => units_from_json(*j) is None,
            },
    {
        let ethernet = Json::text_of(j.member("ethernet"))?;
        let wifi = Json::text_of(j.member("wifi"))?;
        let usb1 = Json::text_of(j.member("usb1"))?;
        let usb2 = Json::text_of(j.member("usb2"))?;
        Some(CustomUnitNames { ethernet, wifi, usb1, usb2 })
    }

    /// Writes this block.
    pub fn to_json(&self) -> (r: Json)
        ensures
            units_json(r, self@),
    {
        let r = Json::Object(
            vec![
                ("ethernet".to_string(), text_json(&self.ethernet)),
                ("wifi".to_string(), text_json(&self.wifi)),
                ("usb1".to_string(), text_json(&self.usb1)),
                ("usb2".to_string(), text_json(&self.usb2)),
            ],
        );
        assert(keys_of(r) =~= seq!["ethernet"@, "wifi"@, "usb1"@, "usb2"@]);
        r
    }
}

impl Config {
    /// Reads a configuration from a parsed configuration file. Fails with
    /// `Error::Parse` exactly when the document does not hold one.
    pub fn from_json(j: &Json) -> (r: Result<Config, Error>)
        ensures
            match r {
                Ok(c) => config_from_json(*j) == Some(c@),
                Err(e) => config_from_json(*j) is None && e is Parse,
            },
    {
        match Config::read_blocks(j) {
            Some(c) => Ok(c),
            None => Err(Error::Parse("the file does not hold a valid configuration".to_string())),
        }
    }

    fn read_blocks(j: &Json) -> (r: Option<Config>)
        ensures
            match r {
                Some(c) => config_from_json(*j) == Some(c@),
                None => config_from_json(*j) is None,
            },
    {
        let liveu = Liveu::from_json(j.member("liveu")?)?;
        let twitch = Twitch::from_json(j.member("twitch")?)?;
        let rtmp = match j.member("rtmp") {
            None | Some(Json::Null) => None,
            Some(v) => Some(Rtmp::from_json(v)?),
        };
        let custom_port_names = match j.member("custom_port_names") {
            None | Some(Json::Null) => None,
            Some(v) => Some(CustomUnitNames::from_json(v)?),
        };
        Some(Config { liveu, twitch, rtmp, custom_port_names })
    }

    /// The document that the configuration file holds for this value; an
    /// absent optional block is written as `null`.
    pub fn to_json(&self) -> (r: Json)
        ensures
            config_json(r, self@),
    {
        let rtmp = match &self.rtmp {
            Some(x) => x.to_json(),
            None => Json::Null,
        };
        let units = match &self.custom_port_names {
            Some(u) => u.to_json(),
            None => Json::Null,
        };
        let r = Json::Object(
            vec![
                ("liveu".to_string(), self.liveu.to_json()),
                ("twitch".to_string(), self.twitch.to_json()),
                ("rtmp".to_string(), rtmp),
                ("custom_port_names".to_string(), units),
            ],
        );
        assert(keys_of(r) =~= seq!["liveu"@, "twitch"@, "rtmp"@, "custom_port_names"@]);
        r
    }
}

// ---- Reading back what was written ----
proof fn lemma_liveu_round_trip(j: Json, l: LiveuView)
    requires
        liveu_json(j, l),
    ensures
        liveu_from_json(j) == Some(l),
{
    reveal_strlit("email");
    reveal_strlit("password");
    assert("email"@.len() == 5);
    assert("password"@.len() == 8);
    assert(keys_of(j).no_duplicates());
    lemma_lookup_distinct(j, 0);
    lemma_lookup_distinct(j, 1);
}

proof fn lemma_twitch_round_trip(j: Json, t: TwitchView)
    requires
        twitch_json(j, t),
    ensures
        twitch_from_json(j) == Some(t),
{
    reveal_strlit("botUsername");
    reveal_strlit("botOauth");
    reveal_strlit("channel");
    reveal_strlit("commands");
    reveal_strlit("commandCooldown");
    assert("botUsername"@.len() == 11);
    assert("botOauth"@.len() == 8);
    assert("channel"@.len() == 7);
    assert("commands"@.len() == 8);
    assert("commandCooldown"@.len() == 15);
    assert("botOauth"@[0] != "commands"@[0]);
    assert(keys_of(j).no_duplicates());
    lemma_lookup_distinct(j, 0);
    lemma_lookup_distinct(j, 1);
    lemma_lookup_distinct(j, 2);
    lemma_lookup_distinct(j, 3);
    lemma_lookup_distinct(j, 4);
    let a = field(j, 3)->Array_0@;
    assert(forall|i: int| 0 <= i < a.len() ==> (#[trigger] a[i]) is Str);
    assert(a.map_values(|x: Json| x->Str_0@) =~= t.commands);
}

proof fn lemma_rtmp_round_trip(j: Json, r: RtmpView)
    requires
        rtmp_json(j, r),
    ensures
        rtmp_from_json(j) == Some(r),
{
    reveal_strlit("url");
    reveal_strlit("application");
    reveal_strlit("key");
    assert("url"@.len() == 3);
    assert("application"@.len() == 11);
    assert("key"@.len() == 3);
    assert("url"@[0] != "key"@[0]);
    assert(keys_of(j).no_duplicates());
    lemma_lookup_distinct(j, 0);
    lemma_lookup_distinct(j, 1);
    lemma_lookup_distinct(j, 2);
}

proof fn lemma_units_round_trip(j: Json, u: CustomUnitNamesView)
    requires
        units_json(j, u),
    ensures
        units_from_json(j) == Some(u),
{
    reveal_strlit("ethernet");
    reveal_strlit("wifi");
    reveal_strlit("usb1");
    reveal_strlit("usb2");
    assert("ethernet"@.len() == 8);
    assert("wifi"@.len() == 4);
    assert("usb1"@.len() == 4);
    assert("usb2"@.len() == 4);
    assert("wifi"@[0] != "usb1"@[0]);
    assert("wifi"@[0] != "usb2"@[0]);
    assert("usb1"@[3] != "usb2"@[3]);
    assert(keys_of(j).no_duplicates());
    lemma_lookup_distinct(j, 0);
    lemma_lookup_distinct(j, 1);
    lemma_lookup_distinct(j, 2);
    lemma_lookup_distinct(j, 3);
}

/// Reading back the document written for a configuration gives that same
/// configuration, field for field, whether or not its optional blocks are
/// present: `Config::from_json(&c.to_json())` is `Ok` of a value equal to `c`.
pub proof fn lemma_round_trip(j: Json, c: ConfigView)
    requires
        config_json(j, c),
    ensures
        config_from_json(j) == Some(c),
{
    reveal_strlit("liveu");
    reveal_strlit("twitch");
    reveal_strlit("rtmp");
    reveal_strlit("custom_port_names");
    assert("liveu"@.len() == 5);
    assert("twitch"@.len() == 6);
    assert("rtmp"@.len() == 4);
    assert("custom_port_names"@.len() == 17);
    assert(keys_of(j).no_duplicates());
    lemma_lookup_distinct(j, 0);
    lemma_lookup_distinct(j, 1);
    lemma_lookup_distinct(j, 2);
    lemma_lookup_distinct(j, 3);
    lemma_liveu_round_trip(field(j, 0), c.liveu);
    lemma_twitch_round_trip(field(j, 1), c.twitch);
    if let Some(r) = c.rtmp {
        lemma_rtmp_round_trip(field(j, 2), r);
    }
    if let Some(u) = c.custom_port_names {
        lemma_units_round_trip(field(j, 3), u);
    }
}

} // verus!
