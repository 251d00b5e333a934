//! The H7105 fan as Home Assistant sees it: how it is announced over MQTT, what
//! is published of its state, and what a request to it asks for.

use crate::error::{Error, NumberError};
use crate::text::{
    byte_text, byte_value, decimal, equal_ignoring_case, parse_byte, same_but_case, same_text,
};
use vstd::prelude::*;
use vstd::string::StringExecFns;

verus! {

/// The part of an announcement that every kind of entity has. Origin and device
/// are handed on as they come.
#[derive(Clone, Debug, PartialEq, Eq)]
pub struct EntityConfig<O, D> {
    pub availability_topic: String,
    pub name: Option<String>,
    pub device_class: Option<String>,
    pub origin: O,
    pub device: D,
    pub unique_id: String,
    pub entity_category: Option<String>,
    pub icon: Option<String>,
}

/// The announcement of a fan.
#[derive(Clone, Debug, PartialEq, Eq)]
pub struct FanConfig<O, D> {
    pub base: EntityConfig<O, D>,
    pub command_topic: String,
    pub state_topic: String,
    pub percentage_command_topic: String,
    pub percentage_state_topic: String,
    pub preset_mode_command_topic: String,
    pub preset_mode_state_topic: String,
    pub preset_modes: Vec<String>,
    pub oscillation_state_topic: String,
    pub payload_on: String,
    pub payload_off: String,
    pub payload_oscillation_on: String,
    pub payload_oscillation_off: String,
    pub payload_available: String,
    pub speed_range_min: u8,
    pub speed_range_max: u8,
    pub optimistic: bool,
}

/// The fan that is announced: its identity, the form of it that topics can hold,
/// and what is told of the device as a whole.
#[derive(Clone, Debug, PartialEq, Eq)]
pub struct FanDevice<D> {
    pub id: String,
    pub safe_id: String,
    pub info: D,
}

/// The topic `suffix` of the fan that topics call `safe_id`.
pub open spec fn fan_topic(safe_id: Seq<char>, suffix: Seq<char>) -> Seq<char> {
    "gv2mqtt/fan/"@ + safe_id + "/"@ + suffix
}

/// The name that Home Assistant knows the fan by.
pub open spec fn fan_unique_id(safe_id: Seq<char>) -> Seq<char> {
    "gv2mqtt-"@ + safe_id + "-fan"@
}

/// Whether `base` announces the fan that topics call `safe_id`.
pub open spec fn is_base_of<O, D>(
    base: EntityConfig<O, D>,
    safe_id: Seq<char>,
    availability_topic: Seq<char>,
    origin: O,
    info: D,
) -> bool {
    &&& base.availability_topic@ == availability_topic
    &&& base.name is None
    &&& base.device_class is None
    &&& base.origin == origin
    &&& base.device == info
    &&& base.unique_id@ == fan_unique_id(safe_id)
    &&& base.entity_category is None
    &&& base.icon is Some
    &&& base.icon->Some_0@ == "mdi:fan"@
}

/// Whether `config` announces the fan that topics call `safe_id`, apart from the
/// part that every kind of entity has.
pub open spec fn is_config_of<O, D>(config: FanConfig<O, D>, safe_id: Seq<char>) -> bool {
    &&& config.command_topic@ == fan_topic(safe_id, "command"@)
    &&& config.state_topic@ == fan_topic(safe_id, "state"@)
    &&& config.percentage_command_topic@ == fan_topic(safe_id, "speed/command"@)
    &&& config.percentage_state_topic@ == fan_topic(safe_id, "speed/state"@)
    &&& config.preset_mode_command_topic@ == fan_topic(safe_id, "preset/command"@)
    &&& config.preset_mode_state_topic@ == fan_topic(safe_id, "preset/state"@)
    &&& config.preset_modes@.len() == 1
    &&& config.preset_modes@[0]@ == "Auto"@
    &&& config.oscillation_state_topic@ == fan_topic(safe_id, "oscillation/state"@)
    &&& config.payload_on@ == "ON"@
    &&& config.payload_off@ == "OFF"@
    &&& config.payload_oscillation_on@ == "ON"@
    &&& config.payload_oscillation_off@ == "OFF"@
    &&& config.payload_available@ == "online"@
    &&& config.speed_range_min == 1
    &&& config.speed_range_max == 12
    &&& !config.optimistic
}

/// What is known of the state of a fan, apart from whether it is on.
#[derive(Clone, Copy, Default, Debug, PartialEq, Eq)]
pub struct H7105FanState {
    pub speed: Option<u8>,
    pub auto: bool,
    pub oscillating: Option<bool>,
}

/// A message to publish.
#[derive(Clone, Debug, PartialEq, Eq)]
pub struct Publication {
    pub topic: String,
    pub payload: String,
}

/// The text for a switch.
pub open spec fn on_off(on: bool) -> Seq<char> {
    if on {
        "ON"@
    } else {
        "OFF"@
    }
}

/// Topic and payload of each message.
pub open spec fn messages(publications: Seq<Publication>) -> Seq<(Seq<char>, Seq<char>)> {
    Seq::new(
        publications.len(),
        |i: int| (publications[i].topic@, publications[i].payload@),
    )
}

/// What is published of a fan. A fan of which it is not known whether it is on
/// counts as off; of speed and oscillation nothing is published while they are
/// not known.
pub open spec fn state_messages<O, D>(
    config: FanConfig<O, D>,
    on: Option<bool>,
    fan: H7105FanState,
) -> Seq<(Seq<char>, Seq<char>)> {
    let power = seq![(config.state_topic@, on_off(on == Some(true)))];
    let speed = match fan.speed {
        Some(speed) => seq![(config.percentage_state_topic@, decimal(speed as nat))],
        None => seq![],
    };
    let preset = seq![
        (
            config.preset_mode_state_topic@,
            if fan.auto {
                "Auto"@
            } else {
                "None"@
            },
        ),
    ];
    let oscillation = match fan.oscillating {
        Some(oscillating) => seq![(config.oscillation_state_topic@, on_off(oscillating))],
        None => seq![],
    };
    power + speed + preset + oscillation
}

/// The topic `suffix` of the fan that topics call `safe_id`.
pub fn topic(safe_id: &str, suffix: &str) -> (r: String)
    ensures
        r@ == fan_topic(safe_id@, suffix@),
{
    let mut text = "gv2mqtt/fan/".to_owned();
    text.append(safe_id);
    text.append("/");
    text.append(suffix);
    text
}

/// The text for a switch.
fn switch_text(on: bool) -> (r: String)
    ensures
        r@ == on_off(on),
{
    if on {
        "ON".to_owned()
    } else {
        "OFF".to_owned()
    }
}

/// A fan that is announced to Home Assistant.
#[derive(Clone)]
pub struct H7105Fan<O, D> {
    config: FanConfig<O, D>,
    device_id: String,
}

impl<O, D> H7105Fan<O, D> {
    /// The announcement.
    pub closed spec fn spec_config(&self) -> FanConfig<O, D> {
        self.config
    }

    /// The identity of the device.
    pub closed spec fn spec_device_id(&self) -> Seq<char> {
        self.device_id@
    }

    /// The entity for a fan, which is available as `availability_topic` says.
    pub fn new(device: FanDevice<D>, availability_topic: String, origin: O) -> (r: Self)
        ensures
            r.spec_device_id() == device.id@,
            is_config_of(r.spec_config(), device.safe_id@),
            is_base_of(
                r.spec_config().base,
                device.safe_id@,
                availability_topic@,
                origin,
                device.info,
            ),
    {
        let safe_id = device.safe_id.as_str();
        let mut unique_id = "gv2mqtt-".to_owned();
        unique_id.append(safe_id);
        unique_id.append("-fan");
        let config = FanConfig {
            command_topic: topic(safe_id, "command"),
            state_topic: topic(safe_id, "state"),
            percentage_command_topic: topic(safe_id, "speed/command"),
            percentage_state_topic: topic(safe_id, "speed/state"),
            preset_mode_command_topic: topic(safe_id, "preset/command"),
            preset_mode_state_topic: topic(safe_id, "preset/state"),
            preset_modes: vec!["Auto".to_owned()],
            oscillation_state_topic: topic(safe_id, "oscillation/state"),
            payload_on: "ON".to_owned(),
            payload_off: "OFF".to_owned(),
            payload_oscillation_on: "ON".to_owned(),
            payload_oscillation_off: "OFF".to_owned(),
            payload_available: "online".to_owned(),
            speed_range_min: 1,
            speed_range_max: 12,
            optimistic: false,
            base: EntityConfig {
                availability_topic,
                name: None,
                device_class: None,
                origin,
                device: device.info,
                unique_id,
                entity_category: None,
                icon: Some("mdi:fan".to_owned()),
            },
        };
        H7105Fan { config, device_id: device.id }
    }

    /// The announcement.
    pub fn config(&self) -> (r: &FanConfig<O, D>)
        ensures
            *r == self.spec_config(),
    {
        &self.config
    }

    /// The identity of the device.
    pub fn device_id(&self) -> (r: &str)
        ensures
            r@ == self.spec_device_id(),
    {
        self.device_id.as_str()
    }

    /// What to publish of the state of the fan, in this order.
    pub fn notify_state(&self, on: Option<bool>, fan: H7105FanState) -> (r: Vec<Publication>)
        ensures
            messages(r@) == state_messages(self.spec_config(), on, fan),
    {
        let on = match on {
            Some(on) => on,
            None => false,
        };
        let mut publications: Vec<Publication> = Vec::new();
        publications.push(
            Publication {
                topic: self.config.state_topic.as_str().to_owned(),
                payload: switch_text(on),
            },
        );
        if let Some(speed) = fan.speed {
            publications.push(
                Publication {
                    topic: self.config.percentage_state_topic.as_str().to_owned(),
                    payload: byte_text(speed),
                },
            );
        }
        publications.push(
            Publication {
                topic: self.config.preset_mode_state_topic.as_str().to_owned(),
                payload: if fan.auto {
                    "Auto".to_owned()
                } else {
                    "None".to_owned()
                },
            },
        );
        if let Some(oscillating) = fan.oscillating {
            publications.push(
                Publication {
                    topic: self.config.oscillation_state_topic.as_str().to_owned(),
                    payload: switch_text(oscillating),
                },
            );
        }
        publications
    }
}

/// Which fan a request is for.
#[derive(Clone, Debug, PartialEq, Eq)]
pub struct FanId {
    id: String,
}

impl FanId {
    /// The identity that the topic names.
    pub closed spec fn spec_id(&self) -> Seq<char> {
        self.id@
    }

    /// The fan with this identity.
    pub fn new(id: String) -> (r: Self)
        ensures
            r.spec_id() == id@,
    {
        FanId { id }
    }

    /// The identity that the topic names.
    pub fn id(&self) -> (r: &str)
        ensures
            r@ == self.spec_id(),
    {
        self.id.as_str()
    }
}

/// What a request can be about.
pub enum FanRequest {
    Power,
    Speed,
    Preset,
}

/// How far a request has been carried out.
#[derive(Clone, Copy, Debug, PartialEq, Eq)]
pub enum Stage {
    /// It has come in.
    Received,
    /// The device has been found.
    Resolved,
    /// The device has been told.
    Applied,
    /// The new state of the device has been asked for.
    Polled,
}

/// What to do next for a request.
#[derive(Clone, Copy, Debug, PartialEq, Eq)]
pub enum Action {
    ResolveDevice,
    SetPower(bool),
    SetSpeed(u8),
    SetAuto,
    PollDevice,
    Finish,
}

impl Stage {
    /// The stage that comes next when the action of this one has succeeded.
    pub open spec fn spec_next(self) -> Stage {
        match self {
            Stage::Received => Stage::Resolved,
            Stage::Resolved => Stage::Applied,
            Stage::Applied => Stage::Polled,
            Stage::Polled => Stage::Polled,
        }
    }

    /// The stage that comes next when the action of this one has been tried. An
    /// action that failed ends the request with its error.
    pub fn after(self, ok: bool) -> (r: Option<Stage>)
        ensures
            r is None <==> !ok,
            ok ==> r == Some(self.spec_next()),
    {
        if !ok {
            return None;
        }
        Some(
            match self {
                Stage::Received => Stage::Resolved,
                Stage::Resolved => Stage::Applied,
                Stage::Applied => Stage::Polled,
                Stage::Polled => Stage::Polled,
            },
        )
    }
}

/// What a request asks of the device, if it makes sense.
pub open spec fn asked_for(request: FanRequest, payload: Seq<char>) -> Option<Action> {
    match request {
        FanRequest::Power => if payload == "ON"@ {
            Some(Action::SetPower(true))
        } else if payload == "OFF"@ {
            Some(Action::SetPower(false))
        } else {
            None
        },
        FanRequest::Speed => match byte_value(payload) {
            Ok(speed) => Some(Action::SetSpeed(speed)),
            Err(_) => None,
        },
        FanRequest::Preset => if same_but_case(payload, "auto"@) {
            Some(Action::SetAuto)
        } else {
            None
        },
    }
}

/// What to do for a request at a stage, or nothing if it is refused there. A
/// preset is refused before the device is looked for, anything else after.
pub open spec fn next_action(
    request: FanRequest,
    payload: Seq<char>,
    stage: Stage,
) -> Option<Action> {
    match stage {
        Stage::Received => if request is Preset && asked_for(request, payload) is None {
            None
        } else {
            Some(Action::ResolveDevice)
        },
        Stage::Resolved => asked_for(request, payload),
        Stage::Applied => Some(Action::PollDevice),
        Stage::Polled => Some(Action::Finish),
    }
}

/// What to do at a stage of a request to switch the fan `ON` or `OFF`.
pub fn mqtt_h7105_power(payload: &str, stage: Stage) -> (r: Result<Action, Error>)
    ensures
        match next_action(FanRequest::Power, payload@, stage) {
            Some(action) => r == Ok::<Action, Error>(action),
            None => r is Err && r->Err_0 is InvalidPower && r->Err_0->InvalidPower_0@ == payload@,
        },
{
    match stage {
        Stage::Received => Ok(Action::ResolveDevice),
        Stage::Resolved => {
            if same_text(payload, "ON") {
                Ok(Action::SetPower(true))
            } else if same_text(payload, "OFF") {
                Ok(Action::SetPower(false))
            } else {
                Err(Error::InvalidPower(payload.to_owned()))
            }
        },
        Stage::Applied => Ok(Action::PollDevice),
        Stage::Polled => Ok(Action::Finish),
    }
}

/// What to do at a stage of a request for a speed, given in base ten.
pub fn mqtt_h7105_speed(payload: &str, stage: Stage) -> (r: Result<Action, Error>)
    ensures
        match next_action(FanRequest::Speed, payload@, stage) {
            Some(action) => r == Ok::<Action, Error>(action),
            None => r == Err::<Action, Error>(Error::InvalidSpeed(byte_value(payload@)->Err_0)),
        },
{
    match stage {
        Stage::Received => Ok(Action::ResolveDevice),
        Stage::Resolved => match parse_byte(payload) {
            Ok(speed) => Ok(Action::SetSpeed(speed)),
            Err(e) => Err(Error::InvalidSpeed(e)),
        },
        Stage::Applied => Ok(Action::PollDevice),
        Stage::Polled => Ok(Action::Finish),
    }
}

/// What to do at a stage of a request for a preset, of which there is only one.
pub fn mqtt_h7105_preset(payload: &str, stage: Stage) -> (r: Result<Action, Error>)
    ensures
        match next_action(FanRequest::Preset, payload@, stage) {
            Some(action) => r == Ok::<Action, Error>(action),
            None => {
                &&& r is Err
                &&& r->Err_0 is UnsupportedPreset
                &&& r->Err_0->UnsupportedPreset_0@ == payload@
            },
        },
{
    match stage {
        Stage::Received => {
            if !equal_ignoring_case(payload, "auto") {
                return Err(Error::UnsupportedPreset(payload.to_owned()));
            }
            Ok(Action::ResolveDevice)
        },
        Stage::Resolved => {
            if !equal_ignoring_case(payload, "auto") {
                return Err(Error::UnsupportedPreset(payload.to_owned()));
            }
            Ok(Action::SetAuto)
        },
        Stage::Applied => Ok(Action::PollDevice),
        Stage::Polled => Ok(Action::Finish),
    }
}

/// How many stages are still to come.
pub open spec fn stages_left(stage: Stage) -> nat {
    match stage {
        Stage::Received => 3,
        Stage::Resolved => 2,
        Stage::Applied => 1,
        Stage::Polled => 0,
    }
}

/// How a request ends.
pub enum Ending {
    /// Everything was done.
    Done,
    /// It makes no sense.
    Refused,
    /// The action at this stage failed.
    Failed(Stage),
}

/// Everything that is tried for a request from a stage on, where `succeeds` says
/// of each stage whether its action succeeds.
pub open spec fn course(
    request: FanRequest,
    payload: Seq<char>,
    stage: Stage,
    succeeds: spec_fn(Stage) -> bool,
) -> Seq<Action>
    decreases stages_left(stage),
{
    match next_action(request, payload, stage) {
        None => seq![],
        Some(action) => if stage is Polled {
            seq![]
        } else if succeeds(stage) {
            seq![action] + course(request, payload, stage.spec_next(), succeeds)
        } else {
            seq![action]
        },
    }
}

/// How a request ends that has come to a stage.
pub open spec fn ending(
    request: FanRequest,
    payload: Seq<char>,
    stage: Stage,
    succeeds: spec_fn(Stage) -> bool,
) -> Ending
    decreases stages_left(stage),
{
    match next_action(request, payload, stage) {
        None => Ending::Refused,
        Some(_) => if stage is Polled {
            Ending::Done
        } else if succeeds(stage) {
            ending(request, payload, stage.spec_next(), succeeds)
        } else {
            Ending::Failed(stage)
        },
    }
}

/// For a request that makes sense the device is found, told what was asked for
/// and then asked for its new state, each once and in this order, if all of that
/// succeeds.
pub proof fn law_request_is_carried_out(
    request: FanRequest,
    payload: Seq<char>,
    succeeds: spec_fn(Stage) -> bool,
)
    requires
        asked_for(request, payload) is Some,
        succeeds(Stage::Received),
        succeeds(Stage::Resolved),
        succeeds(Stage::Applied),
    ensures
        course(request, payload, Stage::Received, succeeds) == seq![
            Action::ResolveDevice,
            asked_for(request, payload)->Some_0,
            Action::PollDevice,
        ],
        ending(request, payload, Stage::Received, succeeds) is Done,
{
    reveal_with_fuel(course, 5);
    reveal_with_fuel(ending, 5);
    assert(course(request, payload, Stage::Received, succeeds) =~= seq![
        Action::ResolveDevice,
        asked_for(request, payload)->Some_0,
        Action::PollDevice,
    ]);
}

/// For any other request nothing is changed. A preset is refused at once, power
/// and speed once the device is found; a device that is not found is the failure
/// that they end with.
pub proof fn law_refused_request_changes_nothing(
    request: FanRequest,
    payload: Seq<char>,
    succeeds: spec_fn(Stage) -> bool,
)
    requires
        asked_for(request, payload) is None,
    ensures
        course(request, payload, Stage::Received, succeeds) == if request is Preset {
            seq![]
        } else {
            seq![Action::ResolveDevice]
        },
        ending(request, payload, Stage::Received, succeeds) == if request is Preset || succeeds(
            Stage::Received,
        ) {
            Ending::Refused
        } else {
            Ending::Failed(Stage::Received)
        },
{
    reveal_with_fuel(course, 5);
    reveal_with_fuel(ending, 5);
    assert(course(request, payload, Stage::Resolved, succeeds) =~= Seq::<Action>::empty());
    assert(course(request, payload, Stage::Received, succeeds) =~= if request is Preset {
        seq![]
    } else {
        seq![Action::ResolveDevice]
    });
}

/// An action that fails is the last one of its request, and the request ends
/// with that failure.
pub proof fn law_failed_action_ends_request(
    request: FanRequest,
    payload: Seq<char>,
    stage: Stage,
    succeeds: spec_fn(Stage) -> bool,
)
    requires
        !(stage is Polled),
        next_action(request, payload, stage) is Some,
        !succeeds(stage),
    ensures
        course(request, payload, stage, succeeds) == seq![
            next_action(request, payload, stage)->Some_0,
        ],
        ending(request, payload, stage, succeeds) == Ending::Failed(stage),
{
}

/// Of a request that makes sense just the actions up to the first one that fails
/// are tried, that one included, and it ends with the failure of that one.
pub proof fn law_first_failure_ends_request(
    request: FanRequest,
    payload: Seq<char>,
    succeeds: spec_fn(Stage) -> bool,
)
    requires
        asked_for(request, payload) is Some,
    ensures
        ({
            let asked = asked_for(request, payload)->Some_0;
            let all = seq![Action::ResolveDevice, asked, Action::PollDevice];
            let tried = course(request, payload, Stage::Received, succeeds);
            let end = ending(request, payload, Stage::Received, succeeds);
            if !succeeds(Stage::Received) {
                tried == all.take(1) && end == Ending::Failed(Stage::Received)
            } else if !succeeds(Stage::Resolved) {
                tried == all.take(2) && end == Ending::Failed(Stage::Resolved)
            } else if !succeeds(Stage::Applied) {
                tried == all && end == Ending::Failed(Stage::Applied)
            } else {
                tried == all && end is Done
            }
        }),
{
    reveal_with_fuel(course, 5);
    reveal_with_fuel(ending, 5);
    let asked = asked_for(request, payload)->Some_0;
    let all = seq![Action::ResolveDevice, asked, Action::PollDevice];
    let tried = course(request, payload, Stage::Received, succeeds);
    if !succeeds(Stage::Received) {
        assert(tried =~= all.take(1));
    } else if !succeeds(Stage::Resolved) {
        assert(tried =~= all.take(2));
    } else {
        assert(tried =~= all);
    }
}

/// A speed that is published is one that can be asked for: sent back, it sets
/// the same speed.
pub proof fn law_published_speed_can_be_asked_for(speed: u8)
    ensures
        asked_for(FanRequest::Speed, decimal(speed as nat)) == Some(Action::SetSpeed(speed)),
{
    crate::text::law_byte_text_round_trip(speed);
}

/// The payloads that are published and announced for power are the ones that
/// can be asked for, and they set what they say.
pub proof fn law_published_power_can_be_asked_for(on: bool)
    ensures
        asked_for(FanRequest::Power, on_off(on)) == Some(Action::SetPower(on)),
{
    reveal_strlit("ON");
    reveal_strlit("OFF");
}

/// The preset that is announced can be asked for.
pub proof fn law_announced_preset_can_be_asked_for<O, D>(config: FanConfig<O, D>, safe_id: Seq<char>)
    requires
        is_config_of(config, safe_id),
    ensures
        forall|i: int|
            0 <= i < config.preset_modes@.len() ==> asked_for(
                FanRequest::Preset,
                #[trigger] config.preset_modes@[i]@,
            ) == Some(Action::SetAuto),
{
    reveal_strlit("Auto");
    reveal_strlit("auto");
}

/// Fans whose names hold no slash never share a topic: it tells the fan and what
/// it is about.
pub proof fn law_topics_do_not_collide(
    a: Seq<char>,
    suffix_a: Seq<char>,
    b: Seq<char>,
    suffix_b: Seq<char>,
)
    requires
        !a.contains('/'),
        !b.contains('/'),
        fan_topic(a, suffix_a) == fan_topic(b, suffix_b),
    ensures
        a == b,
        suffix_a == suffix_b,
{
    reveal_strlit("gv2mqtt/fan/");
    reveal_strlit("/");
    let x = fan_topic(a, suffix_a);
    let y = fan_topic(b, suffix_b);
    assert(forall|i: int| 0 <= i < a.len() ==> x[12 + i] == a[i]);
    assert(forall|i: int| 0 <= i < b.len() ==> y[12 + i] == b[i]);
    assert(x[12 + a.len() as int] == '/');
    assert(y[12 + b.len() as int] == '/');
    if a.len() < b.len() {
        assert(b[a.len() as int] == '/');
    }
    if b.len() < a.len() {
        assert(a[b.len() as int] == '/');
    }
    assert(a =~= x.subrange(12, 12 + a.len() as int));
    assert(b =~= y.subrange(12, 12 + b.len() as int));
    assert(suffix_a =~= x.skip(13 + a.len() as int));
    assert(suffix_b =~= y.skip(13 + b.len() as int));
}

/// A topic is the word for fans, the name of the fan and what it is about, each
/// behind a slash.
pub proof fn law_topic_of_fan(safe_id: Seq<char>, suffix: Seq<char>)
    ensures
        fan_topic(safe_id, suffix) == "gv2mqtt/fan/"@ + safe_id + seq!['/'] + suffix,
        fan_unique_id(safe_id) == "gv2mqtt-"@ + safe_id + "-fan"@,
{
    reveal_strlit("/");
    assert("/"@ =~= seq!['/']);
}

/// A fan is announced with its own topics, the payloads on and off, the one
/// preset, twelve speeds from one on, and nothing that is taken for granted.
pub proof fn law_announcement_of_fan<O, D>(config: FanConfig<O, D>, safe_id: Seq<char>)
    requires
        is_config_of(config, safe_id),
    ensures
        config.command_topic@ == "gv2mqtt/fan/"@ + safe_id + "/command"@,
        config.state_topic@ == "gv2mqtt/fan/"@ + safe_id + "/state"@,
        config.percentage_command_topic@ == "gv2mqtt/fan/"@ + safe_id + "/speed/command"@,
        config.percentage_state_topic@ == "gv2mqtt/fan/"@ + safe_id + "/speed/state"@,
        config.preset_mode_command_topic@ == "gv2mqtt/fan/"@ + safe_id + "/preset/command"@,
        config.preset_mode_state_topic@ == "gv2mqtt/fan/"@ + safe_id + "/preset/state"@,
        config.oscillation_state_topic@ == "gv2mqtt/fan/"@ + safe_id + "/oscillation/state"@,
        config.preset_modes@.len() == 1,
        config.preset_modes@[0]@ == "Auto"@,
        config.payload_on@ == "ON"@,
        config.payload_off@ == "OFF"@,
        config.payload_oscillation_on@ == "ON"@,
        config.payload_oscillation_off@ == "OFF"@,
        config.payload_available@ == "online"@,
        config.speed_range_min == 1,
        config.speed_range_max == 12,
        config.optimistic == false,
{
    reveal_strlit("/");
    reveal_strlit("command");
    reveal_strlit("/command");
    assert("/"@ + "command"@ =~= "/command"@);
    reveal_strlit("state");
    reveal_strlit("/state");
    assert("/"@ + "state"@ =~= "/state"@);
    reveal_strlit("speed/command");
    reveal_strlit("/speed/command");
    assert("/"@ + "speed/command"@ =~= "/speed/command"@);
    reveal_strlit("speed/state");
    reveal_strlit("/speed/state");
    assert("/"@ + "speed/state"@ =~= "/speed/state"@);
    reveal_strlit("preset/command");
    reveal_strlit("/preset/command");
    assert("/"@ + "preset/command"@ =~= "/preset/command"@);
    reveal_strlit("preset/state");
    reveal_strlit("/preset/state");
    assert("/"@ + "preset/state"@ =~= "/preset/state"@);
    reveal_strlit("oscillation/state");
    reveal_strlit("/oscillation/state");
    assert("/"@ + "oscillation/state"@ =~= "/oscillation/state"@);
    assert(config.command_topic@ =~= "gv2mqtt/fan/"@ + safe_id + "/command"@);
    assert(config.state_topic@ =~= "gv2mqtt/fan/"@ + safe_id + "/state"@);
    assert(config.percentage_command_topic@ =~= "gv2mqtt/fan/"@ + safe_id + "/speed/command"@);
    assert(config.percentage_state_topic@ =~= "gv2mqtt/fan/"@ + safe_id + "/speed/state"@);
    assert(config.preset_mode_command_topic@ =~= "gv2mqtt/fan/"@ + safe_id + "/preset/command"@);
    assert(config.preset_mode_state_topic@ =~= "gv2mqtt/fan/"@ + safe_id + "/preset/state"@);
    assert(config.oscillation_state_topic@ =~= "gv2mqtt/fan/"@ + safe_id + "/oscillation/state"@);
}

/// What is told of a fan as an entity: where its availability is told, its own
/// name among all entities, its icon, and the origin and device as they came.
pub proof fn law_announcement_of_entity<O, D>(
    base: EntityConfig<O, D>,
    safe_id: Seq<char>,
    availability_topic: Seq<char>,
    origin: O,
    info: D,
)
    requires
        is_base_of(base, safe_id, availability_topic, origin, info),
    ensures
        base.availability_topic@ == availability_topic,
        base.origin == origin,
        base.device == info,
        base.unique_id@ == "gv2mqtt-"@ + safe_id + "-fan"@,
        base.icon is Some && base.icon->Some_0@ == "mdi:fan"@,
        base.name is None,
        base.device_class is None,
        base.entity_category is None,
{
}

/// The messages are the publications, one for one.
pub proof fn law_messages_are_publications(publications: Seq<Publication>, i: int)
    ensures
        messages(publications).len() == publications.len(),
        0 <= i < publications.len() ==> messages(publications)[i].0 == publications[i].topic@,
        0 <= i < publications.len() ==> messages(publications)[i].1 == publications[i].payload@,
{
}

/// What is published of a fan, message by message: first whether it is on, then
/// the speed if it is known, then the preset, then the oscillation if it is
/// known, and nothing else.
pub proof fn law_published_messages<O, D>(
    config: FanConfig<O, D>,
    on: Option<bool>,
    fan: H7105FanState,
    published: Seq<Publication>,
)
    requires
        messages(published) == state_messages(config, on, fan),
    ensures
        ({
            let speeds: int = if fan.speed is Some {
                1
            } else {
                0
            };
            let swings: int = if fan.oscillating is Some {
                1
            } else {
                0
            };
            &&& published.len() == 2 + speeds + swings
            &&& published[0].topic@ == config.state_topic@
            &&& on == Some(true) ==> published[0].payload@ == "ON"@
            &&& on != Some(true) ==> published[0].payload@ == "OFF"@
            &&& fan.speed is Some ==> published[1].topic@ == config.percentage_state_topic@
            &&& fan.speed is Some ==> published[1].payload@ == decimal(fan.speed->Some_0 as nat)
            &&& published[1 + speeds].topic@ == config.preset_mode_state_topic@
            &&& fan.auto ==> published[1 + speeds].payload@ == "Auto"@
            &&& !fan.auto ==> published[1 + speeds].payload@ == "None"@
            &&& fan.oscillating is Some ==> published[2 + speeds].topic@
                == config.oscillation_state_topic@
            &&& fan.oscillating == Some(true) ==> published[2 + speeds].payload@ == "ON"@
            &&& fan.oscillating == Some(false) ==> published[2 + speeds].payload@ == "OFF"@
        }),
{
    let all = state_messages(config, on, fan);
    assert(published.len() == all.len());
    assert(published.len() > 0 ==> all[0] == (published[0].topic@, published[0].payload@));
    assert(published.len() > 1 ==> all[1] == (published[1].topic@, published[1].payload@));
    assert(published.len() > 2 ==> all[2] == (published[2].topic@, published[2].payload@));
    assert(published.len() > 3 ==> all[3] == (published[3].topic@, published[3].payload@));
}

/// The topics that an announced fan publishes its state on are four different
/// ones.
pub proof fn law_state_topics_differ<O, D>(config: FanConfig<O, D>, safe_id: Seq<char>)
    requires
        is_config_of(config, safe_id),
    ensures
        config.state_topic@ != config.percentage_state_topic@,
        config.state_topic@ != config.preset_mode_state_topic@,
        config.state_topic@ != config.oscillation_state_topic@,
        config.percentage_state_topic@ != config.preset_mode_state_topic@,
        config.percentage_state_topic@ != config.oscillation_state_topic@,
        config.preset_mode_state_topic@ != config.oscillation_state_topic@,
{
    reveal_strlit("gv2mqtt/fan/");
    reveal_strlit("/");
    reveal_strlit("state");
    reveal_strlit("speed/state");
    reveal_strlit("preset/state");
    reveal_strlit("oscillation/state");
    let start = 13 + safe_id.len();
    assert(config.percentage_state_topic@.len() == start + 11);
    assert(config.preset_mode_state_topic@.len() == start + 12);
    assert(config.oscillation_state_topic@.len() == start + 17);
    assert(config.state_topic@.len() == start + 5);
}

/// The speed of an announced fan is published exactly if it is known, in one
/// message only, and what is published reads back as the speed. Whether the fan
/// is on, in which preset it is and whether it swings make no difference.
pub proof fn law_known_speed_is_published<O, D>(
    config: FanConfig<O, D>,
    safe_id: Seq<char>,
    on: Option<bool>,
    fan: H7105FanState,
    published: Seq<Publication>,
)
    requires
        is_config_of(config, safe_id),
        messages(published) == state_messages(config, on, fan),
    ensures
        (exists|i: int|
            0 <= i < published.len() && #[trigger] published[i].topic@
                == config.percentage_state_topic@) <==> fan.speed is Some,
        forall|i: int|
            0 <= i < published.len() && #[trigger] published[i].topic@
                == config.percentage_state_topic@ ==> i == 1 && byte_value(
                published[i].payload@,
            ) == Ok::<u8, NumberError>(fan.speed->Some_0),
{
    law_published_messages(config, on, fan, published);
    law_state_topics_differ(config, safe_id);
    if fan.speed is Some {
        crate::text::law_byte_text_round_trip(fan.speed->Some_0);
        assert(published[1].topic@ == config.percentage_state_topic@);
    }
}

/// The oscillation of an announced fan is published exactly if it is known, in
/// one message only, which says whether it swings.
pub proof fn law_known_oscillation_is_published<O, D>(
    config: FanConfig<O, D>,
    safe_id: Seq<char>,
    on: Option<bool>,
    fan: H7105FanState,
    published: Seq<Publication>,
)
    requires
        is_config_of(config, safe_id),
        messages(published) == state_messages(config, on, fan),
    ensures
        (exists|i: int|
            0 <= i < published.len() && #[trigger] published[i].topic@
                == config.oscillation_state_topic@) <==> fan.oscillating is Some,
        forall|i: int|
            0 <= i < published.len() && #[trigger] published[i].topic@
                == config.oscillation_state_topic@ ==> {
                &&& i == published.len() - 1
                &&& published[i].payload@ == "ON"@ <==> fan.oscillating == Some(true)
                &&& published[i].payload@ == "OFF"@ <==> fan.oscillating == Some(false)
            },
{
    reveal_strlit("ON");
    reveal_strlit("OFF");
    assert("ON"@.len() == 2 && "OFF"@.len() == 3);
    law_published_messages(config, on, fan, published);
    law_state_topics_differ(config, safe_id);
    if fan.oscillating is Some {
        assert(published[published.len() - 1].topic@ == config.oscillation_state_topic@);
    }
}

/// A request for power makes sense exactly if it says on or off in capitals, and
/// asks for what it says.
pub proof fn law_power_requests(payload: Seq<char>, on: bool)
    ensures
        asked_for(FanRequest::Power, payload) == Some(Action::SetPower(on)) <==> payload == if on {
            seq!['O', 'N']
        } else {
            seq!['O', 'F', 'F']
        },
        asked_for(FanRequest::Power, payload) is None <==> payload != seq!['O', 'N'] && payload
            != seq!['O', 'F', 'F'],
{
    reveal_strlit("ON");
    reveal_strlit("OFF");
    assert("ON"@ =~= seq!['O', 'N']);
    assert("OFF"@ =~= seq!['O', 'F', 'F']);
    assert("ON"@.len() == 2 && "OFF"@.len() == 3);
}

/// A request for a speed makes sense exactly if it is a number that fits in a
/// byte, and asks for that number.
pub proof fn law_speed_requests(payload: Seq<char>, speed: u8)
    ensures
        asked_for(FanRequest::Speed, payload) == Some(Action::SetSpeed(speed)) <==> byte_value(
            payload,
        ) == Ok::<u8, NumberError>(speed),
        asked_for(FanRequest::Speed, payload) is None <==> byte_value(payload) is Err,
{
}

/// A request for a preset makes sense exactly if it is the word auto in capital
/// or small letters.
pub proof fn law_preset_requests(payload: Seq<char>)
    ensures
        asked_for(FanRequest::Preset, payload) == Some(Action::SetAuto) <==> {
            &&& payload.len() == 4
            &&& payload[0] == 'a' || payload[0] == 'A'
            &&& payload[1] == 'u' || payload[1] == 'U'
            &&& payload[2] == 't' || payload[2] == 'T'
            &&& payload[3] == 'o' || payload[3] == 'O'
        },
        asked_for(FanRequest::Preset, payload) is None <==> asked_for(FanRequest::Preset, payload)
            != Some(Action::SetAuto),
{
    reveal_strlit("auto");
    if same_but_case(payload, "auto"@) {
        assert(crate::text::ascii_lower(payload[0]) == crate::text::ascii_lower("auto"@[0]));
        assert(crate::text::ascii_lower(payload[1]) == crate::text::ascii_lower("auto"@[1]));
        assert(crate::text::ascii_lower(payload[2]) == crate::text::ascii_lower("auto"@[2]));
        assert(crate::text::ascii_lower(payload[3]) == crate::text::ascii_lower("auto"@[3]));
    }
}

/// What is done at each stage of a request: the device is found, told what was
/// asked for, asked for its state, and then all is done. Only a preset that makes
/// no sense is refused before the device is found.
pub proof fn law_actions_at_stages(request: FanRequest, payload: Seq<char>)
    ensures
        request is Preset && asked_for(request, payload) is None <==> next_action(
            request,
            payload,
            Stage::Received,
        ) is None,
        !(request is Preset) || asked_for(request, payload) is Some <==> next_action(
            request,
            payload,
            Stage::Received,
        ) == Some(Action::ResolveDevice),
        next_action(request, payload, Stage::Resolved) == asked_for(request, payload),
        next_action(request, payload, Stage::Applied) == Some(Action::PollDevice),
        next_action(request, payload, Stage::Polled) == Some(Action::Finish),
        Stage::Received.spec_next() == Stage::Resolved,
        Stage::Resolved.spec_next() == Stage::Applied,
        Stage::Applied.spec_next() == Stage::Polled,
        Stage::Polled.spec_next() == Stage::Polled,
{
}

} // verus!
