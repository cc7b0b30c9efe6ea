//! The data model: switch and teleport-zone definitions, submissions, the
//! classification result types, and the error taxonomy.
//!
//! Position limits and coordinates travel through the engine as raw JSON
//! number literals (`String` fields validated against the JSON number
//! grammar); the engine never computes with them, it only stores, compares
//! and re-serializes them.

use vstd::prelude::*;

use crate::jsontext::{is_number_text, obj_text, obj_text_exec, pairs_view, quote_spec, quoted};

verus! {

/// The closed vocabulary of switch kinds.
#[derive(Clone, Copy, Debug, PartialEq, Eq, Structural)]
pub enum SwitchType {
    Lever,
    Button,
    Dial,
    Throttle,
}

/// The axis a switch moves along.
#[derive(Clone, Copy, Debug, PartialEq, Eq, Structural)]
pub enum MovementAxis {
    X,
    Y,
    Z,
}

/// The sound effect played for a switch; functionally determined by its kind.
#[derive(Clone, Copy, Debug, PartialEq, Eq, Structural)]
pub enum SoundEffect {
    LeverSound,
    ButtonSound,
    DialSound,
    ThrottleSound,
}

/// What went wrong with a configuration operation.
#[derive(Clone, Copy, Debug, PartialEq, Eq, Structural)]
pub enum ConfigError {
    /// The stored document is valid JSON but its root is not an object.
    Parse,
    /// A section the engine models is present but has the wrong shape.
    Schema,
    /// A submission carries a field that is not a JSON number literal.
    Validation,
    /// The named teleport zone does not exist.
    NotFound,
    /// Renaming would overwrite a different, existing teleport zone.
    Conflict,
    /// The stored document lacks a string `modelPath`.
    MissingField,
}

/// The sound effect for each switch kind: a total mapping with no fallback.
pub open spec fn spec_sound_effect(t: SwitchType) -> SoundEffect {
    match t {
        SwitchType::Lever => SoundEffect::LeverSound,
        SwitchType::Button => SoundEffect::ButtonSound,
        SwitchType::Dial => SoundEffect::DialSound,
        SwitchType::Throttle => SoundEffect::ThrottleSound,
    }
}

/// Derives the sound effect from the switch kind.
pub fn sound_effect_for(t: SwitchType) -> (r: SoundEffect)
    ensures
        r == spec_sound_effect(t),
{
    match t {
        SwitchType::Lever => SoundEffect::LeverSound,
        SwitchType::Button => SoundEffect::ButtonSound,
        SwitchType::Dial => SoundEffect::DialSound,
        SwitchType::Throttle => SoundEffect::ThrottleSound,
    }
}

/// The persisted JSON word for a switch kind.
pub open spec fn spec_switch_type_word(t: SwitchType) -> Seq<char> {
    match t {
        SwitchType::Lever => seq!['l', 'e', 'v', 'e', 'r'],
        SwitchType::Button => seq!['b', 'u', 't', 't', 'o', 'n'],
        SwitchType::Dial => seq!['d', 'i', 'a', 'l'],
        SwitchType::Throttle => seq!['t', 'h', 'r', 'o', 't', 't', 'l', 'e'],
    }
}

pub fn switch_type_word(t: SwitchType) -> (r: String)
    ensures
        r@ == spec_switch_type_word(t),
{
    match t {
        SwitchType::Lever => {
            let r = String::from_str("lever");
            proof {
                reveal_strlit("lever");
                assert(r@ =~= spec_switch_type_word(t));
            }
            r
        },
        SwitchType::Button => {
            let r = String::from_str("button");
            proof {
                reveal_strlit("button");
                assert(r@ =~= spec_switch_type_word(t));
            }
            r
        },
        SwitchType::Dial => {
            let r = String::from_str("dial");
            proof {
                reveal_strlit("dial");
                assert(r@ =~= spec_switch_type_word(t));
            }
            r
        },
        SwitchType::Throttle => {
            let r = String::from_str("throttle");
            proof {
                reveal_strlit("throttle");
                assert(r@ =~= spec_switch_type_word(t));
            }
            r
        },
    }
}

/// The persisted JSON word for a movement axis.
pub open spec fn spec_axis_word(a: MovementAxis) -> Seq<char> {
    match a {
        MovementAxis::X => seq!['X'],
        MovementAxis::Y => seq!['Y'],
        MovementAxis::Z => seq!['Z'],
    }
}

pub fn axis_word(a: MovementAxis) -> (r: String)
    ensures
        r@ == spec_axis_word(a),
{
    match a {
        MovementAxis::X => {
            let r = String::from_str("X");
            proof {
                reveal_strlit("X");
                assert(r@ =~= spec_axis_word(a));
            }
            r
        },
        MovementAxis::Y => {
            let r = String::from_str("Y");
            proof {
                reveal_strlit("Y");
                assert(r@ =~= spec_axis_word(a));
            }
            r
        },
        MovementAxis::Z => {
            let r = String::from_str("Z");
            proof {
                reveal_strlit("Z");
                assert(r@ =~= spec_axis_word(a));
            }
            r
        },
    }
}

/// The persisted JSON word for a sound effect.
pub open spec fn spec_sound_word(s: SoundEffect) -> Seq<char> {
    match s {
        SoundEffect::LeverSound => seq!['l', 'e', 'v', 'e', 'r', 'S', 'o', 'u', 'n', 'd'],
        SoundEffect::ButtonSound => seq!['b', 'u', 't', 't', 'o', 'n', 'S', 'o', 'u', 'n', 'd'],
        SoundEffect::DialSound => seq!['d', 'i', 'a', 'l', 'S', 'o', 'u', 'n', 'd'],
        SoundEffect::ThrottleSound => seq![
            't',
            'h',
            'r',
            'o',
            't',
            't',
            'l',
            'e',
            'S',
            'o',
            'u',
            'n',
            'd',
        ],
    }
}

pub fn sound_word(s: SoundEffect) -> (r: String)
    ensures
        r@ == spec_sound_word(s),
{
    match s {
        SoundEffect::LeverSound => {
            let r = String::from_str("leverSound");
            proof {
                reveal_strlit("leverSound");
                assert(r@ =~= spec_sound_word(s));
            }
            r
        },
        SoundEffect::ButtonSound => {
            let r = String::from_str("buttonSound");
            proof {
                reveal_strlit("buttonSound");
                assert(r@ =~= spec_sound_word(s));
            }
            r
        },
        SoundEffect::DialSound => {
            let r = String::from_str("dialSound");
            proof {
                reveal_strlit("dialSound");
                assert(r@ =~= spec_sound_word(s));
            }
            r
        },
        SoundEffect::ThrottleSound => {
            let r = String::from_str("throttleSound");
            proof {
                reveal_strlit("throttleSound");
                assert(r@ =~= spec_sound_word(s));
            }
            r
        },
    }
}

/// The JSON boolean literal for `b`.
pub open spec fn spec_bool_text(b: bool) -> Seq<char> {
    if b {
        seq!['t', 'r', 'u', 'e']
    } else {
        seq!['f', 'a', 'l', 's', 'e']
    }
}

pub fn bool_text(b: bool) -> (r: String)
    ensures
        r@ == spec_bool_text(b),
{
    if b {
        let r = String::from_str("true");
        proof {
            reveal_strlit("true");
            assert(r@ =~= spec_bool_text(b));
        }
        r
    } else {
        let r = String::from_str("false");
        proof {
            reveal_strlit("false");
            assert(r@ =~= spec_bool_text(b));
        }
        r
    }
}

/// One switch submission, as handed in by the operator.
#[derive(Clone, Debug)]
pub struct NewSwitchSubmission {
    pub switch_type: SwitchType,
    pub switch_name: String,
    pub switch_description: String,
    pub movement_axis: MovementAxis,
    pub movement_mode: bool,
    pub momentary_switch: bool,
    pub bleed_margins: String,
    pub default_position: String,
    pub upper_limit: String,
    pub lower_limit: String,
    pub raw_node_name: String,
}

/// A submission is valid when every numeric field is a JSON number literal.
pub open spec fn valid_submission(s: NewSwitchSubmission) -> bool {
    &&& is_number_text(s.bleed_margins@)
    &&& is_number_text(s.default_position@)
    &&& is_number_text(s.upper_limit@)
    &&& is_number_text(s.lower_limit@)
}

/// Checks that every numeric field of `s` is a JSON number literal.
pub fn check_submission(s: &NewSwitchSubmission) -> (r: bool)
    ensures
        r == valid_submission(*s),
{
    let a = crate::jsontext::is_number_str(s.bleed_margins.as_str());
    let b = crate::jsontext::is_number_str(s.default_position.as_str());
    let c = crate::jsontext::is_number_str(s.upper_limit.as_str());
    let d = crate::jsontext::is_number_str(s.lower_limit.as_str());
    a && b && c && d
}

/// A full persisted switch definition.
#[derive(Clone, Debug)]
pub struct SwitchData {
    pub switch_type: SwitchType,
    pub switch_description: String,
    pub movement_axis: MovementAxis,
    pub sound_effect: SoundEffect,
    pub movement_mode: bool,
    pub momentary_switch: bool,
    pub bleed_margins: String,
    pub default_position: String,
    pub upper_limit: String,
    pub lower_limit: String,
    pub raw_node_name: String,
}

/// The definition a submission persists as: the submission's own fields plus
/// the sound effect derived from the switch kind.
pub open spec fn spec_switch_data(s: NewSwitchSubmission) -> SwitchData {
    SwitchData {
        switch_type: s.switch_type,
        switch_description: s.switch_description,
        movement_axis: s.movement_axis,
        sound_effect: spec_sound_effect(s.switch_type),
        movement_mode: s.movement_mode,
        momentary_switch: s.momentary_switch,
        bleed_margins: s.bleed_margins,
        default_position: s.default_position,
        upper_limit: s.upper_limit,
        lower_limit: s.lower_limit,
        raw_node_name: s.raw_node_name,
    }
}

/// The entries of a switch definition's JSON object, in persisted order.
pub open spec fn spec_switch_entries(d: SwitchData) -> Seq<(Seq<char>, Seq<char>)> {
    seq![
        ("switchType"@, quote_spec(spec_switch_type_word(d.switch_type))),
        ("switchDescription"@, quote_spec(d.switch_description@)),
        ("movementAxis"@, quote_spec(spec_axis_word(d.movement_axis))),
        ("soundEffect"@, quote_spec(spec_sound_word(d.sound_effect))),
        ("movementMode"@, spec_bool_text(d.movement_mode)),
        ("momentarySwitch"@, spec_bool_text(d.momentary_switch)),
        ("bleedMargins"@, d.bleed_margins@),
        ("defaultPosition"@, d.default_position@),
        ("upperLimit"@, d.upper_limit@),
        ("lowerLimit"@, d.lower_limit@),
        ("rawNodeName"@, quote_spec(d.raw_node_name@)),
    ]
}

/// The JSON text a switch definition persists as.
pub open spec fn spec_switch_value_text(d: SwitchData) -> Seq<char> {
    obj_text(spec_switch_entries(d))
}

/// Builds the switch definition for a submission, deriving its sound effect.
pub fn switch_data_of(s: &NewSwitchSubmission) -> (r: SwitchData)
    ensures
        r == spec_switch_data(*s),
{
    SwitchData {
        switch_type: s.switch_type,
        switch_description: s.switch_description.clone(),
        movement_axis: s.movement_axis,
        sound_effect: sound_effect_for(s.switch_type),
        movement_mode: s.movement_mode,
        momentary_switch: s.momentary_switch,
        bleed_margins: s.bleed_margins.clone(),
        default_position: s.default_position.clone(),
        upper_limit: s.upper_limit.clone(),
        lower_limit: s.lower_limit.clone(),
        raw_node_name: s.raw_node_name.clone(),
    }
}

/// Serializes a switch definition as its persisted JSON object text.
pub fn switch_value_text(d: &SwitchData) -> (r: String)
    ensures
        r@ == spec_switch_value_text(*d),
{
    let mut entries: Vec<(String, String)> = Vec::new();
    entries.push((String::from_str("switchType"), quoted(switch_type_word(d.switch_type).as_str())));
    entries.push((String::from_str("switchDescription"), quoted(d.switch_description.as_str())));
    entries.push((String::from_str("movementAxis"), quoted(axis_word(d.movement_axis).as_str())));
    entries.push((String::from_str("soundEffect"), quoted(sound_word(d.sound_effect).as_str())));
    entries.push((String::from_str("movementMode"), bool_text(d.movement_mode)));
    entries.push((String::from_str("momentarySwitch"), bool_text(d.momentary_switch)));
    entries.push((String::from_str("bleedMargins"), d.bleed_margins.clone()));
    entries.push((String::from_str("defaultPosition"), d.default_position.clone()));
    entries.push((String::from_str("upperLimit"), d.upper_limit.clone()));
    entries.push((String::from_str("lowerLimit"), d.lower_limit.clone()));
    entries.push((String::from_str("rawNodeName"), quoted(d.raw_node_name.as_str())));
    proof {
        assert(pairs_view(entries@) =~= spec_switch_entries(*d));
    }
    let chars = obj_text_exec(&entries);
    crate::text::string_of(&chars)
}

/// One teleport zone: three world-space coordinates.
#[derive(Clone, Debug)]
pub struct TeleportZone {
    pub x: String,
    pub y: String,
    pub z: String,
}

/// A submission creating or overwriting a teleport zone.
#[derive(Clone, Debug)]
pub struct NewTeleportZoneSubmission {
    pub teleport_zone_name: String,
    pub x: String,
    pub y: String,
    pub z: String,
}

/// A submission updating, and possibly renaming, a teleport zone.
#[derive(Clone, Debug)]
pub struct TeleportZoneUpdate {
    pub name: String,
    pub x: String,
    pub y: String,
    pub z: String,
}

/// The coordinates are JSON number literals.
pub open spec fn valid_zone_coords(x: Seq<char>, y: Seq<char>, z: Seq<char>) -> bool {
    is_number_text(x) && is_number_text(y) && is_number_text(z)
}

/// The entries of a freshly written teleport-zone object.
pub open spec fn spec_zone_entries(x: Seq<char>, y: Seq<char>, z: Seq<char>) -> Seq<
    (Seq<char>, Seq<char>),
> {
    seq![("x"@, x), ("y"@, y), ("z"@, z)]
}

/// The JSON text a freshly written teleport zone persists as.
pub open spec fn spec_zone_value_text(x: Seq<char>, y: Seq<char>, z: Seq<char>) -> Seq<char> {
    obj_text(spec_zone_entries(x, y, z))
}

/// Serializes a freshly written teleport zone as its JSON object text.
pub fn zone_value_text(zone: &TeleportZone) -> (r: String)
    ensures
        r@ == spec_zone_value_text(zone.x@, zone.y@, zone.z@),
{
    let mut entries: Vec<(String, String)> = Vec::new();
    entries.push((String::from_str("x"), zone.x.clone()));
    entries.push((String::from_str("y"), zone.y.clone()));
    entries.push((String::from_str("z"), zone.z.clone()));
    proof {
        assert(pairs_view(entries@) =~= spec_zone_entries(zone.x@, zone.y@, zone.z@));
    }
    let chars = obj_text_exec(&entries);
    crate::text::string_of(&chars)
}

/// One classified switch candidate, as reported to the operator.
#[derive(Clone, Debug)]
pub struct SwitchItem {
    pub mesh_name: String,
    pub pretty_name: String,
    pub is_configured: bool,
    pub switch_type: String,
    pub raw_node_name: String,
}

/// A model import's result: the classified candidates and the asset bytes
/// encoded for transport to the rendering layer.
#[derive(Clone, Debug)]
pub struct ParsedGLBData {
    pub switches: Vec<SwitchItem>,
    pub model_base64: String,
}

/// A directory listing entry: one stored configuration file.
#[derive(Clone, Debug)]
pub struct PlaneConfigFile {
    pub file_name: String,
    pub model_path: String,
}

/// The session state: which configuration file is currently selected.
#[derive(Clone, Debug)]
pub struct AppData {
    pub current_json_file: String,
}

impl AppData {
    /// A session with no file selected.
    pub fn new() -> (r: AppData)
        ensures
            r.current_json_file@ == Seq::<char>::empty(),
    {
        AppData { current_json_file: String::new() }
    }

    /// Selects a configuration file.
    pub fn set_current_json_file(&mut self, file_name: String)
        ensures
            final(self).current_json_file == file_name,
    {
        self.current_json_file = file_name;
    }

    /// The currently selected configuration file name.
    pub fn get_current_json_file(&self) -> (r: String)
        ensures
            r@ == self.current_json_file@,
    {
        self.current_json_file.clone()
    }

    /// The selected file name, or nothing when no file is selected.
    pub fn get_current_file_name(&self) -> (r: Option<String>)
        ensures
            match r {
                Some(name) => name@ == self.current_json_file@ && self.current_json_file@.len()
                    > 0,
                None => self.current_json_file@.len() == 0,
            },
    {
        if self.current_json_file.as_str().unicode_len() == 0 {
            None
        } else {
            Some(self.current_json_file.clone())
        }
    }
}

} // verus!
