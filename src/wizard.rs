//! The interactive setup: the order in which the settings are asked for,
//! and what each answer does to the configuration being built.
//!
//! The wizard is a state machine. Its driver shows the question for the
//! current [`Step`], reads one line, and hands it to [`Wizard::answer`]; a
//! rejected answer leaves the wizard where it was, so the same question is
//! asked again. Once the step is [`Step::Done`] the configuration is ready.
use crate::config::{
    default_commands, default_commands_list, default_unit_names, Config, ConfigView,
    CustomUnitNames, CustomUnitNamesView, Liveu, LiveuView, Rtmp, RtmpView, Twitch, TwitchView,
};
use crate::validate::{
    cooldown_spec, gate_answer, gate_answer_spec, normalize_oauth, parse_cooldown, strip_oauth,
};
use vstd::prelude::*;

verus! {

/// The question the wizard is waiting on.
#[derive(Clone, Copy, PartialEq, Eq, Debug, Structural)]
pub enum Step {
    Email,
    Password,
    BotUsername,
    BotOauth,
    Channel,
    CommandCooldown,
    /// Whether to collect the RTMP block.
    RtmpGate,
    RtmpUrl,
    RtmpApplication,
    RtmpKey,
    /// Whether to collect custom port names.
    UnitNamesGate,
    Ethernet,
    Wifi,
    Usb1,
    Usb2,
    Done,
}

/// The setup wizard: the question it waits on and what it has collected.
pub struct Wizard {
    step: Step,
    config: Config,
}

/// The model of a [`Wizard`].
pub struct WizardView {
    pub step: Step,
    pub config: ConfigView,
}

impl View for Wizard {
    type V = WizardView;

    closed spec fn view(&self) -> WizardView {
        WizardView { step: self.step, config: self.config@ }
    }
}

/// An RTMP block with every field empty.
pub open spec fn blank_rtmp() -> RtmpView {
    RtmpView { url: Seq::empty(), application: Seq::empty(), key: Seq::empty() }
}

/// The RTMP block being filled in.
pub open spec fn rtmp_or_blank(r: Option<RtmpView>) -> RtmpView {
    match r {
        Some(x) => x,
        None => blank_rtmp(),
    }
}

/// The port names being filled in.
pub open spec fn units_or_default(u: Option<CustomUnitNamesView>) -> CustomUnitNamesView {
    match u {
        Some(x) => x,
        None => default_unit_names(),
    }
}

/// A port name answer: an empty answer keeps the default.
pub open spec fn name_or_default(answer: Seq<char>, default: Seq<char>) -> Seq<char> {
    if answer.len() == 0 {
        default
    } else {
        answer
    }
}

/// Where the wizard starts: nothing entered yet, the default chat
/// commands, and neither optional block.
pub open spec fn initial() -> WizardView {
    WizardView {
        step: Step::Email,
        config: ConfigView {
            liveu: LiveuView { email: Seq::empty(), password: Seq::empty() },
            twitch: TwitchView {
                bot_username: Seq::empty(),
                bot_oauth: Seq::empty(),
                channel: Seq::empty(),
                commands: default_commands(),
                command_cooldown: 0,
            },
            rtmp: None,
            custom_port_names: None,
        },
    }
}

/// The wizard after `w` is given the answer `line`; `None` when the answer
/// is rejected, which leaves the wizard unchanged.
pub open spec fn next(w: WizardView, line: Seq<char>) -> Option<WizardView> {
    let c = w.config;
    let l = c.liveu;
    let t = c.twitch;
    let r = rtmp_or_blank(c.rtmp);
    let u = units_or_default(c.custom_port_names);
    match w.step {
        Step::Email => Some(
            WizardView {
                step: Step::Password,
                config: ConfigView { liveu: LiveuView { email: line, ..l }, ..c },
            },
        ),
        Step::Password => Some(
            WizardView {
                step: Step::BotUsername,
                config: ConfigView { liveu: LiveuView { password: line, ..l }, ..c },
            },
        ),
        Step::BotUsername => Some(
            WizardView {
                step: Step::BotOauth,
                config: ConfigView { twitch: TwitchView { bot_username: line, ..t }, ..c },
            },
        ),
        Step::BotOauth => Some(
            WizardView {
                step: Step::Channel,
                config: ConfigView {
                    twitch: TwitchView { bot_oauth: strip_oauth(line), ..t },
                    ..c
                },
            },
        ),
        Step::Channel => Some(
            WizardView {
                step: Step::CommandCooldown,
                config: ConfigView { twitch: TwitchView { channel: line, ..t }, ..c },
            },
        ),
        Step::CommandCooldown => match cooldown_spec(line) {
            Some(v) => Some(
                WizardView {
                    step: Step::RtmpGate,
                    config: ConfigView { twitch: TwitchView { command_cooldown: v, ..t }, ..c },
                },
            ),
            None => None,
        },
        Step::RtmpGate => match gate_answer_spec(line) {
            Some(true) => Some(
                WizardView {
                    step: Step::RtmpUrl,
                    config: ConfigView { rtmp: Some(blank_rtmp()), ..c },
                },
            ),
            Some(false) => Some(
                WizardView { step: Step::UnitNamesGate, config: ConfigView { rtmp: None, ..c } },
            ),
            None => None,
        },
        Step::RtmpUrl => Some(
            WizardView {
                step: Step::RtmpApplication,
                config: ConfigView { rtmp: Some(RtmpView { url: line, ..r }), ..c },
            },
        ),
        Step::RtmpApplication => Some(
            WizardView {
                step: Step::RtmpKey,
                config: ConfigView { rtmp: Some(RtmpView { application: line, ..r }), ..c },
            },
        ),
        Step::RtmpKey => Some(
            WizardView {
                step: Step::UnitNamesGate,
                config: ConfigView { rtmp: Some(RtmpView { key: line, ..r }), ..c },
            },
        ),
        Step::UnitNamesGate => match gate_answer_spec(line) {
            Some(true) => Some(
                WizardView {
                    step: Step::Ethernet,
                    config: ConfigView { custom_port_names: Some(default_unit_names()), ..c },
                },
            ),
            Some(false) => Some(
                WizardView { step: Step::Done, config: ConfigView { custom_port_names: None, ..c } },
            ),
            None => None,
        },
        Step::Ethernet => Some(
            WizardView {
                step: Step::Wifi,
                config: ConfigView {
                    custom_port_names: Some(
                        CustomUnitNamesView {
                            ethernet: name_or_default(line, default_unit_names().ethernet),
                            ..u
                        },
                    ),
                    ..c
                },
            },
        ),
        Step::Wifi => Some(
            WizardView {
                step: Step::Usb1,
                config: ConfigView {
                    custom_port_names: Some(
                        CustomUnitNamesView {
                            wifi: name_or_default(line, default_unit_names().wifi),
                            ..u
                        },
                    ),
                    ..c
                },
            },
        ),
        Step::Usb1 => Some(
            WizardView {
                step: Step::Usb2,
                config: ConfigView {
                    custom_port_names: Some(
                        CustomUnitNamesView {
                            usb1: name_or_default(line, default_unit_names().usb1),
                            ..u
                        },
                    ),
                    ..c
                },
            },
        ),
        Step::Usb2 => Some(
            WizardView {
                step: Step::Done,
                config: ConfigView {
                    custom_port_names: Some(
                        CustomUnitNamesView {
                            usb2: name_or_default(line, default_unit_names().usb2),
                            ..u
                        },
                    ),
                    ..c
                },
            },
        ),
        Step::Done => None,
    }
}

/// A port name answer: an empty answer keeps the default.
fn name_or_default_exec(answer: String, default: &str) -> (r: String)
    ensures
        r@ == name_or_default(answer@, default@),
{
    if answer.as_str().unicode_len() == 0 {
        default.to_string()
    } else {
        answer
    }
}

impl Wizard {
    /// A wizard waiting on its first question.
    pub fn new() -> (r: Wizard)
        ensures
            r@ == initial(),
    {
        let commands = default_commands_list();
        let r = Wizard {
            step: Step::Email,
            config: Config {
                liveu: Liveu { email: String::new(), password: String::new() },
                twitch: Twitch {
                    bot_username: String::new(),
                    bot_oauth: String::new(),
                    channel: String::new(),
                    commands,
                    command_cooldown: 0,
                },
                rtmp: None,
                custom_port_names: None,
            },
        };
        assert(r@.config.liveu.email =~= Seq::<char>::empty());
        r
    }

    /// The question the wizard waits on.
    pub fn step(&self) -> (r: Step)
        ensures
            r == self@.step,
    {
        self.step
    }

    /// Whether every question has been answered.
    pub fn is_done(&self) -> (r: bool)
        ensures
            r == (self@.step == Step::Done),
    {
        self.step == Step::Done
    }

    /// Gives the answer `line` to the current question. Returns whether the
    /// answer was accepted; a rejected answer changes nothing.
    pub fn answer(&mut self, line: String) -> (accepted: bool)
        ensures
            match next(old(self)@, line@) {
                Some(n) => accepted && final(self)@ == n,
                None => !accepted && final(self)@ == old(self)@,
            },
    {
        match self.step {
            Step::Email => {
                self.config.liveu.email = line;
                self.step = Step::Password;
            },
            Step::Password => {
                self.config.liveu.password = line;
                self.step = Step::BotUsername;
            },
            Step::BotUsername => {
                self.config.twitch.bot_username = line;
                self.step = Step::BotOauth;
            },
            Step::BotOauth => {
                self.config.twitch.bot_oauth = normalize_oauth(line);
                self.step = Step::Channel;
            },
            Step::Channel => {
                self.config.twitch.channel = line;
                self.step = Step::CommandCooldown;
            },
            Step::CommandCooldown => match parse_cooldown(line.as_str()) {
                Some(v) => {
                    self.config.twitch.command_cooldown = v;
                    self.step = Step::RtmpGate;
                },
                None => {
                    return false;
                },
            },
            Step::RtmpGate => match gate_answer(line.as_str()) {
                Some(true) => {
                    self.config.rtmp = Some(
                        Rtmp { url: String::new(), application: String::new(), key: String::new() },
                    );
                    self.step = Step::RtmpUrl;
                },
                Some(false) => {
                    self.config.rtmp = None;
                    self.step = Step::UnitNamesGate;
                },
                None => {
                    return false;
                },
            },
            Step::RtmpUrl | Step::RtmpApplication | Step::RtmpKey => {
                let mut r = match self.config.rtmp.take() {
                    Some(x) => x,
                    None => Rtmp { url: String::new(), application: String::new(), key: String::new() },
                };
                if self.step == Step::RtmpUrl {
                    r.url = line;
                    self.step = Step::RtmpApplication;
                } else if self.step == Step::RtmpApplication {
                    r.application = line;
                    self.step = Step::RtmpKey;
                } else {
                    r.key = line;
                    self.step = Step::UnitNamesGate;
                }
                self.config.rtmp = Some(r);
            },
            Step::UnitNamesGate => match gate_answer(line.as_str()) {
                Some(true) => {
                    self.config.custom_port_names = Some(CustomUnitNames::default());
                    self.step = Step::Ethernet;
                },
                Some(false) => {
                    self.config.custom_port_names = None;
                    self.step = Step::Done;
                },
                None => {
                    return false;
                },
            },
            Step::Ethernet | Step::Wifi | Step::Usb1 | Step::Usb2 => {
                let mut u = match self.config.custom_port_names.take() {
                    Some(x) => x,
                    None => CustomUnitNames::default(),
                };
                if self.step == Step::Ethernet {
                    u.ethernet = name_or_default_exec(line, "ETH");
                    self.step = Step::Wifi;
                } else if self.step == Step::Wifi {
                    u.wifi = name_or_default_exec(line, "WiFi");
                    self.step = Step::Usb1;
                } else if self.step == Step::Usb1 {
                    u.usb1 = name_or_default_exec(line, "USB1");
                    self.step = Step::Usb2;
                } else {
                    u.usb2 = name_or_default_exec(line, "USB2");
                    self.step = Step::Done;
                }
                self.config.custom_port_names = Some(u);
            },
            Step::Done => {
                return false;
            },
        }
        true
    }

    /// The configuration collected, once every question is answered.
    pub fn into_config(self) -> (r: Option<Config>)
        ensures
            match r {
                Some(c) => self@.step == Step::Done && c@ == self@.config,
                None => self@.step != Step::Done,
            },
    {
        if self.step == Step::Done {
            Some(self.config)
        } else {
            None
        }
    }
}

/// At either yes / no question an answer is accepted exactly when it is
/// `y`, `Y`, `n` or `N`; `y` and `Y` collect the block, `n` and `N` leave
/// it out. Any other answer is rejected and the question is asked again.
pub proof fn lemma_gate_enforced(w: WizardView, line: Seq<char>)
    requires
        w.step == Step::RtmpGate || w.step == Step::UnitNamesGate,
    ensures
        next(w, line) is Some <==> (line == seq!['y'] || line == seq!['Y'] || line == seq!['n']
            || line == seq!['N']),
        (line == seq!['y'] || line == seq!['Y']) ==> (w.step == Step::RtmpGate ==> next(
            w,
            line,
        )->Some_0.config.rtmp is Some) && (w.step == Step::UnitNamesGate ==> next(
            w,
            line,
        )->Some_0.config.custom_port_names is Some),
        (line == seq!['n'] || line == seq!['N']) ==> (w.step == Step::RtmpGate ==> next(
            w,
            line,
        )->Some_0.config.rtmp is None) && (w.step == Step::UnitNamesGate ==> next(
            w,
            line,
        )->Some_0.config.custom_port_names is None),
{
}

/// At the cooldown question an answer is accepted exactly when it is a
/// whole number from 0 to 65535, which becomes the cooldown; any other
/// answer is rejected and the question is asked again.
pub proof fn lemma_cooldown_enforced(w: WizardView, line: Seq<char>)
    requires
        w.step == Step::CommandCooldown,
    ensures
        next(w, line) is Some <==> cooldown_spec(line) is Some,
        cooldown_spec(line) is Some ==> next(w, line)->Some_0.config.twitch.command_cooldown
            == cooldown_spec(line)->Some_0,
{
}

/// With custom port names enabled, an empty answer gives the port its
/// default name (`ETH`, `WiFi`, `USB1`, `USB2`) and any other answer is
/// the name.
pub proof fn lemma_unit_name_default(w: WizardView, line: Seq<char>)
    requires
        w.step == Step::Ethernet || w.step == Step::Wifi || w.step == Step::Usb1 || w.step
            == Step::Usb2,
    ensures
        next(w, line) is Some,
        next(w, line)->Some_0.config.custom_port_names is Some,
        ({
            let u = next(w, line)->Some_0.config.custom_port_names->Some_0;
            let name = if line.len() == 0 {
                match w.step {
                    Step::Ethernet => "ETH"@,
                    Step::Wifi => "WiFi"@,
                    Step::Usb1 => "USB1"@,
                    _ => "USB2"@,
                }
            } else {
                line
            };
            match w.step {
                Step::Ethernet => u.ethernet == name,
                Step::Wifi => u.wifi == name,
                Step::Usb1 => u.usb1 == name,
                _ => u.usb2 == name,
            }
        }),
{
}

/// The chat token answer is stored without a leading `oauth:`.
pub proof fn lemma_oauth_normalized(w: WizardView, line: Seq<char>)
    requires
        w.step == Step::BotOauth,
    ensures
        next(w, line) is Some,
        next(w, line)->Some_0.config.twitch.bot_oauth == strip_oauth(line),
{
}

/// The wizard after it is given each of `lines` in turn; a rejected line
/// changes nothing.
pub open spec fn run(w: WizardView, lines: Seq<Seq<char>>) -> WizardView
    decreases lines.len(),
{
    if lines.len() == 0 {
        w
    } else {
        let w1 = match next(w, lines[0]) {
            Some(n) => n,
            None => w,
        };
        run(w1, lines.drop_first())
    }
}

/// Answering both yes / no questions with no finishes the wizard with
/// neither optional block and with the default chat commands, whatever
/// the other answers were, as long as the cooldown was accepted.
pub proof fn lemma_declined_sections(
    email: Seq<char>,
    password: Seq<char>,
    username: Seq<char>,
    oauth: Seq<char>,
    channel: Seq<char>,
    cooldown: Seq<char>,
    rtmp_answer: Seq<char>,
    units_answer: Seq<char>,
)
    requires
        cooldown_spec(cooldown) is Some,
        gate_answer_spec(rtmp_answer) == Some(false),
        gate_answer_spec(units_answer) == Some(false),
    ensures
        ({
            let w = run(
                initial(),
                seq![email, password, username, oauth, channel, cooldown, rtmp_answer, units_answer],
            );
            &&& w.step == Step::Done
            &&& w.config.rtmp is None
            &&& w.config.custom_port_names is None
            &&& w.config.twitch.commands == default_commands()
            &&& w.config.twitch.bot_oauth == strip_oauth(oauth)
            &&& w.config.twitch.command_cooldown == cooldown_spec(cooldown)->Some_0
        }),
{
    let lines = seq![email, password, username, oauth, channel, cooldown, rtmp_answer, units_answer];
    let mut w = initial();
    let mut rest = lines;
    lemma_run_answer(w, rest);
    w = next(w, rest[0])->Some_0;
    rest = rest.drop_first();
    lemma_run_answer(w, rest);
    w = next(w, rest[0])->Some_0;
    rest = rest.drop_first();
    lemma_run_answer(w, rest);
    w = next(w, rest[0])->Some_0;
    rest = rest.drop_first();
    lemma_run_answer(w, rest);
    w = next(w, rest[0])->Some_0;
    rest = rest.drop_first();
    lemma_run_answer(w, rest);
    w = next(w, rest[0])->Some_0;
    rest = rest.drop_first();
    lemma_run_answer(w, rest);
    w = next(w, rest[0])->Some_0;
    rest = rest.drop_first();
    lemma_run_answer(w, rest);
    w = next(w, rest[0])->Some_0;
    rest = rest.drop_first();
    lemma_run_answer(w, rest);
    w = next(w, rest[0])->Some_0;
    rest = rest.drop_first();
    assert(rest.len() == 0);
}

proof fn lemma_run_answer(w: WizardView, lines: Seq<Seq<char>>)
    requires
        lines.len() > 0,
        next(w, lines[0]) is Some,
    ensures
        run(w, lines) == run(next(w, lines[0])->Some_0, lines.drop_first()),
{
}

} // verus!
