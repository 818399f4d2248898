//! The GPIO hardware: the descriptions of its pins, the pins configured on it, and the
//! decisions taken when driving it. What is done to the pins themselves is left to the caller,
//! which is told what to do by a [PinAction].

pub mod fake_hw;
pub mod hardware_description;
pub mod none;
pub mod pi;
pub mod pi_hw;
pub mod pico;
pub mod pin_descriptions;

use std::collections::HashMap;

use vstd::prelude::*;
use vstd::string::StrSliceExecFns;

use crate::hw::pin_descriptions::{describes_board_pin, gpio_pin_descriptions, PIN_COUNT};
use crate::hw_definition::description::{HardwareDescription, HardwareDetails, PinDescriptionSet};
use crate::hw_definition::pin_function::{InputPull, PinFunction};
use crate::hw_definition::{BCMPinNumber, PinLevel};
use crate::text::{first_index_of, spec_first_index_of, spec_trim, trim};

verus! {

broadcast use vstd::std_specs::hash::group_hash_axioms;

/// How a configured pin is used
#[derive(Debug, Clone, Copy, PartialEq, Eq, Structural)]
pub enum PinUse {
    Input,
    Output,
}

/// What must be done to a pin of the GPIO hardware to give it a [PinFunction]
#[derive(Debug, Clone, Copy, PartialEq, Eq, Structural)]
pub enum PinAction {
    /// Release the pin: it is no longer used
    Release,
    /// Make the pin an input, with this pull
    MakeInput(InputPull),
    /// Make the pin an output, set to this level if one is given
    MakeOutput(Option<PinLevel>),
}

/// Why the level of a pin could not be read or written
#[derive(Debug, Clone, Copy, PartialEq, Eq, Structural)]
pub enum PinError {
    /// The pin is not configured as an input
    NoInputPin,
    /// The pin is not configured as an output
    NoOutputPin,
}

impl PinError {
    /// The message that describes the error
    pub fn message(&self) -> (res: &'static str)
        ensures
            res@ == spec_pin_error_message(*self),
    {
        match self {
            PinError::NoInputPin => "Could not find a configured input pin",
            PinError::NoOutputPin => "Could not find a configured output pin",
        }
    }
}

/// The message that describes a [PinError]
pub open spec fn spec_pin_error_message(e: PinError) -> Seq<char> {
    match e {
        PinError::NoInputPin => "Could not find a configured input pin"@,
        PinError::NoOutputPin => "Could not find a configured output pin"@,
    }
}

/// What must be done to a pin to give it the function `pin_function`. An input without a pull
/// given gets no pull.
pub open spec fn spec_pin_action(pin_function: PinFunction) -> PinAction {
    match pin_function {
        PinFunction::Unused => PinAction::Release,
        PinFunction::Input(pull) => PinAction::MakeInput(
            match pull {
                Some(p) => p,
                None => InputPull::NoPull,
            },
        ),
        PinFunction::Output(level) => PinAction::MakeOutput(level),
    }
}

/// Giving a pin a function asks the hardware for exactly that function: an input with a pull
/// given gets that pull, an input without one gets no pull, an output gets the level given, and
/// no function releases the pin
pub proof fn law_pin_action_keeps_function(pull: InputPull, level: Option<PinLevel>)
    ensures
        spec_pin_action(PinFunction::Input(Some(pull))) == PinAction::MakeInput(pull),
        spec_pin_action(PinFunction::Input(None)) == PinAction::MakeInput(InputPull::NoPull),
        spec_pin_action(PinFunction::Output(level)) == PinAction::MakeOutput(level),
        spec_pin_action(PinFunction::Unused) == PinAction::Release,
        forall|p: InputPull, q: InputPull|
            spec_pin_action(PinFunction::Input(Some(p))) == spec_pin_action(
                PinFunction::Input(Some(q)),
            ) ==> p == q,
{
}

/// How a pin with the function `pin_function` is used, if it is used at all
pub open spec fn spec_pin_use(pin_function: PinFunction) -> Option<PinUse> {
    match pin_function {
        PinFunction::Unused => None,
        PinFunction::Input(_) => Some(PinUse::Input),
        PinFunction::Output(_) => Some(PinUse::Output),
    }
}

/// The pins in use after pin `bcm` of `pins` was given the function `pin_function`, where
/// `configured` tells whether the hardware accepted that function. Any previous use of the pin
/// ends; the pin is in use again only if the hardware accepted a function that uses it.
pub open spec fn spec_after_pin_config(
    pins: Map<BCMPinNumber, PinUse>,
    bcm: BCMPinNumber,
    pin_function: PinFunction,
    configured: bool,
) -> Map<BCMPinNumber, PinUse> {
    match spec_pin_use(pin_function) {
        Some(u) => if configured {
            pins.insert(bcm, u)
        } else {
            pins.remove(bcm)
        },
        None => pins.remove(bcm),
    }
}

/// Once pin `bcm` was given a function, it can be read as an input exactly when the hardware
/// accepted an input function for it, and set as an output exactly when the hardware accepted an
/// output function for it; a released pin, or one whose function the hardware refused, can be
/// neither read nor set
pub proof fn law_pin_use_after_config(
    pins: Map<BCMPinNumber, PinUse>,
    bcm: BCMPinNumber,
    pin_function: PinFunction,
    configured: bool,
)
    ensures
        ({
            let after = spec_after_pin_config(pins, bcm, pin_function, configured);
            &&& (after.contains_key(bcm) && after[bcm] == PinUse::Input) <==> (configured
                && pin_function is Input)
            &&& (after.contains_key(bcm) && after[bcm] == PinUse::Output) <==> (configured
                && pin_function is Output)
        }),
{
}

/// Giving pin `bcm` a function leaves the use of every other pin as it was
pub proof fn law_other_pins_unchanged(
    pins: Map<BCMPinNumber, PinUse>,
    bcm: BCMPinNumber,
    pin_function: PinFunction,
    configured: bool,
    other: BCMPinNumber,
)
    requires
        other != bcm,
    ensures
        ({
            let after = spec_after_pin_config(pins, bcm, pin_function, configured);
            &&& after.contains_key(other) == pins.contains_key(other)
            &&& pins.contains_key(other) ==> after[other] == pins[other]
        }),
{
}

/// Giving a pin the same function twice, accepted both times, leaves the pins in use as
/// giving it once does
pub proof fn law_pin_config_idempotent(
    pins: Map<BCMPinNumber, PinUse>,
    bcm: BCMPinNumber,
    pin_function: PinFunction,
)
    ensures
        spec_after_pin_config(
            spec_after_pin_config(pins, bcm, pin_function, true),
            bcm,
            pin_function,
            true,
        ) == spec_after_pin_config(pins, bcm, pin_function, true),
{
    let once = spec_after_pin_config(pins, bcm, pin_function, true);
    let twice = spec_after_pin_config(once, bcm, pin_function, true);
    assert(twice =~= once);
}

/// The four details of a board that /proc/cpuinfo gives: hardware, revision, serial and model
pub type CpuFields = (Seq<char>, Seq<char>, Seq<char>, Seq<char>);

/// The key and the value of a line `key: value`, split at its first ':' and each trimmed of
/// white space; a line without ':' has neither
pub open spec fn spec_key_value(line: Seq<char>) -> Option<(Seq<char>, Seq<char>)> {
    match spec_first_index_of(line, ':') {
        Some(i) => Some((spec_trim(line.take(i)), spec_trim(line.skip(i + 1)))),
        None => None,
    }
}

/// `fields` after reading `line`: a line with the key "Hardware", "Revision", "Serial" or "Model"
/// sets that field to its value; any other line leaves the fields as they are
#[verifier::opaque]
pub open spec fn spec_read_line(line: Seq<char>, fields: CpuFields) -> CpuFields {
    match spec_key_value(line) {
        Some((key, value)) => if key == "Hardware"@ {
            (value, fields.1, fields.2, fields.3)
        } else if key == "Revision"@ {
            (fields.0, value, fields.2, fields.3)
        } else if key == "Serial"@ {
            (fields.0, fields.1, value, fields.3)
        } else if key == "Model"@ {
            (fields.0, fields.1, fields.2, value)
        } else {
            fields
        },
        None => fields,
    }
}

/// `fields` after reading, in turn, each line of `text` (the lines are what lies between
/// '\n' characters)
#[verifier::opaque]
pub open spec fn spec_read_lines(text: Seq<char>, fields: CpuFields) -> CpuFields
    decreases text.len(),
{
    match spec_first_index_of(text, '\n') {
        Some(i) => {
            proof {
                lemma_first_index_in_range(text, '\n');
            }
            spec_read_lines(text.skip(i + 1), spec_read_line(text.take(i), fields))
        },
        None => spec_read_line(text, fields),
    }
}

/// Reading the lines of `text` is reading its first line, then the lines after it
proof fn lemma_read_lines_unfold(text: Seq<char>, fields: CpuFields)
    ensures
        spec_read_lines(text, fields) == match spec_first_index_of(text, '\n') {
            Some(i) => spec_read_lines(text.skip(i + 1), spec_read_line(text.take(i), fields)),
            None => spec_read_line(text, fields),
        },
{
    reveal(spec_read_lines);
}

/// The fields of an unknown board
pub open spec fn unknown_fields() -> CpuFields {
    ("Unknown"@, "Unknown"@, "Unknown"@, "Unknown"@)
}

/// The fields that the contents `cpuinfo` of /proc/cpuinfo give: each is "Unknown", unless a
/// line sets it; where several lines set it, the last one counts
pub open spec fn spec_cpuinfo_fields(cpuinfo: Seq<char>) -> CpuFields {
    spec_read_lines(cpuinfo, unknown_fields())
}

/// Where `c` occurs at `k`, it has a first occurrence
proof fn lemma_first_occurrence_exists(text: Seq<char>, c: char, k: int)
    requires
        0 <= k < text.len(),
        text[k] == c,
    ensures
        exists|i: int|
            0 <= i < text.len() && text[i] == c && forall|j: int| 0 <= j < i ==> text[j] != c,
    decreases k,
{
    if exists|j: int| 0 <= j < k && text[j] == c {
        let j = choose|j: int| 0 <= j < k && text[j] == c;
        lemma_first_occurrence_exists(text, c, j);
    } else {
        assert(forall|j: int| 0 <= j < k ==> text[j] != c);
    }
}

/// The position `spec_first_index_of` gives is within the text, and holds the character
pub proof fn lemma_first_index_in_range(text: Seq<char>, c: char)
    ensures
        spec_first_index_of(text, c) matches Some(i) ==> 0 <= i < text.len() && text[i] == c,
{
    if exists|i: int| 0 <= i < text.len() && text[i] == c {
        let k = choose|i: int| 0 <= i < text.len() && text[i] == c;
        lemma_first_occurrence_exists(text, c, k);
    }
}

/// The first position of `c` in `text` is the one position where `c` occurs with no `c` before it
proof fn lemma_first_index_is(text: Seq<char>, c: char, j: int)
    requires
        0 <= j < text.len(),
        text[j] == c,
        forall|k: int| 0 <= k < j ==> text[k] != c,
    ensures
        spec_first_index_of(text, c) == Some(j),
{
    let i = choose|i: int|
        0 <= i < text.len() && text[i] == c && forall|k: int| 0 <= k < i ==> text[k] != c;
    assert(0 <= i < text.len() && text[i] == c && forall|k: int| 0 <= k < i ==> text[k] != c);
    if i < j {
        assert(text[i] != c);
    } else if i > j {
        assert(text[j] != c);
    }
}

/// The first position of `c` in `text + rest` is its first position in `text`, where it
/// occurs in `text`
proof fn lemma_first_index_prefix(text: Seq<char>, rest: Seq<char>, c: char)
    requires
        spec_first_index_of(text, c) is Some,
    ensures
        spec_first_index_of(text + rest, c) == spec_first_index_of(text, c),
{
    lemma_first_index_in_range(text, c);
    let j = spec_first_index_of(text, c).unwrap();
    let k0 = choose|i: int| 0 <= i < text.len() && text[i] == c;
    lemma_first_occurrence_exists(text, c, k0);
    let whole = text + rest;
    assert forall|k: int| 0 <= k < j implies whole[k] != c by {
        assert(whole[k] == text[k]);
    }
    lemma_first_index_is(whole, c, j);
}

/// Where `text` holds no line break, the first line break of `text`, a line break and `rest`
/// is the one after `text`
proof fn lemma_first_break_after(text: Seq<char>, rest: Seq<char>)
    requires
        spec_first_index_of(text, '\n') is None,
    ensures
        spec_first_index_of(text + (seq!['\n'] + rest), '\n') == Some(text.len() as int),
{
    let whole = text + (seq!['\n'] + rest);
    assert forall|k: int| 0 <= k < text.len() implies whole[k] != '\n' by {
        assert(whole[k] == text[k]);
        if text[k] == '\n' {
            lemma_first_occurrence_exists(text, '\n', k);
        }
    }
    assert(whole[text.len() as int] == '\n');
    lemma_first_index_is(whole, '\n', text.len() as int);
}

/// Reading the lines of `text`, then a line break, then the lines of `rest`, is reading the
/// lines of `text` and then those of `rest`
#[verifier::rlimit(30)]
proof fn lemma_read_lines_append(text: Seq<char>, rest: Seq<char>, fields: CpuFields)
    ensures
        spec_read_lines(text + (seq!['\n'] + rest), fields) == spec_read_lines(
            rest,
            spec_read_lines(text, fields),
        ),
    decreases text.len(),
{
    let whole = text + (seq!['\n'] + rest);
    lemma_first_index_in_range(text, '\n');
    lemma_read_lines_unfold(whole, fields);
    lemma_read_lines_unfold(text, fields);
    if spec_first_index_of(text, '\n') is Some {
        let j = spec_first_index_of(text, '\n').unwrap();
        lemma_first_index_prefix(text, seq!['\n'] + rest, '\n');
        let after = text.skip(j + 1);
        assert(whole.take(j) =~= text.take(j));
        assert(whole.skip(j + 1) =~= after + (seq!['\n'] + rest));
        lemma_read_lines_append(after, rest, spec_read_line(text.take(j), fields));
    } else {
        lemma_first_break_after(text, rest);
        assert(whole.take(text.len() as int) =~= text);
        assert(whole.skip(text.len() as int + 1) =~= rest);
    }
}

/// Of the lines of /proc/cpuinfo that give a detail, the last one counts: a last line
/// `key: value` sets its detail to its value, whatever the lines before it gave, and leaves
/// the other details as the lines before it gave them
pub proof fn law_last_line_counts(text: Seq<char>, line: Seq<char>)
    requires
        !line.contains('\n'),
    ensures
        spec_cpuinfo_fields(text + (seq!['\n'] + line)) == spec_read_line(
            line,
            spec_cpuinfo_fields(text),
        ),
{
    lemma_read_lines_append(text, line, unknown_fields());
    lemma_first_index_in_range(line, '\n');
    if spec_first_index_of(line, '\n') is Some {
        let i = spec_first_index_of(line, '\n').unwrap();
        assert(line.contains(line[i]));
    }
    lemma_read_lines_unfold(line, spec_cpuinfo_fields(text));
}

/// The details of a board that has only the four fields `fields`
pub open spec fn details_match(details: HardwareDetails, fields: CpuFields) -> bool {
    &&& details.hardware@ == fields.0
    &&& details.revision@ == fields.1
    &&& details.serial@ == fields.2
    &&& details.model@ == fields.3
    &&& !details.wifi
    &&& details.app_name@ == Seq::<char>::empty()
    &&& details.app_version@ == Seq::<char>::empty()
}

/// Read one line of /proc/cpuinfo into the four fields
fn read_line(
    line: &str,
    hardware: &mut String,
    revision: &mut String,
    serial: &mut String,
    model: &mut String,
)
    ensures
        (final(hardware)@, final(revision)@, final(serial)@, final(model)@) == spec_read_line(
            line@,
            (old(hardware)@, old(revision)@, old(serial)@, old(model)@),
        ),
{
    match first_index_of(line, ':') {
        Some(i) => {
            let len = line.unicode_len();
            let key = trim(line.substring_char(0, i));
            let value = trim(line.substring_char(i + 1, len));
            proof {
                assert(line@.subrange(0, i as int) =~= line@.take(i as int));
                assert(line@.subrange(i + 1, len as int) =~= line@.skip(i + 1));
            }
            proof {
                reveal(spec_read_line);
            }
            if key == String::from_str("Hardware") {
                *hardware = value;
            } else if key == String::from_str("Revision") {
                *revision = value;
            } else if key == String::from_str("Serial") {
                *serial = value;
            } else if key == String::from_str("Model") {
                *model = value;
            }
        },
        None => {
            proof {
                reveal(spec_read_line);
            }
        },
    }
}

/// The four details read from `cpuinfo`, the contents of /proc/cpuinfo
fn read_cpuinfo(cpuinfo: &str) -> (res: (String, String, String, String))
    ensures
        (res.0@, res.1@, res.2@, res.3@) == spec_cpuinfo_fields(cpuinfo@),
{
    let mut hardware = String::from_str("Unknown");
    let mut revision = String::from_str("Unknown");
    let mut serial = String::from_str("Unknown");
    let mut model = String::from_str("Unknown");
    let mut rest: &str = cpuinfo;
    loop
        invariant_except_break
            spec_read_lines(rest@, (hardware@, revision@, serial@, model@))
                == spec_cpuinfo_fields(cpuinfo@),
        ensures
            (hardware@, revision@, serial@, model@) == spec_cpuinfo_fields(cpuinfo@),
        decreases rest@.len(),
    {
        proof {
            lemma_read_lines_unfold(rest@, (hardware@, revision@, serial@, model@));
        }
        match first_index_of(rest, '\n') {
            Some(i) => {
                let len = rest.unicode_len();
                let line = rest.substring_char(0, i);
                proof {
                    assert(line@ =~= rest@.take(i as int));
                }
                read_line(line, &mut hardware, &mut revision, &mut serial, &mut model);
                let next = rest.substring_char(i + 1, len);
                proof {
                    assert(next@ =~= rest@.skip(i + 1));
                }
                rest = next;
            },
            None => {
                read_line(rest, &mut hardware, &mut revision, &mut serial, &mut model);
                break ;
            },
        }
    }
    (hardware, revision, serial, model)
}

/// The details of a board that has only the four fields given
fn details_of(hardware: String, revision: String, serial: String, model: String) -> (res:
    HardwareDetails)
    ensures
        details_match(res, (hardware@, revision@, serial@, model@)),
{
    HardwareDetails {
        model,
        hardware,
        revision,
        serial,
        wifi: false,
        app_name: String::new(),
        app_version: String::new(),
    }
}

/// The GPIO hardware of a Raspberry Pi, and the pins configured on it. A pin is in use once
/// the hardware accepted an input or output function for it, until it is given another function.
pub struct HW {
    configured_pins: HashMap<BCMPinNumber, PinUse>,
}

impl View for HW {
    type V = Map<BCMPinNumber, PinUse>;

    closed spec fn view(&self) -> Map<BCMPinNumber, PinUse> {
        self.configured_pins@
    }
}

/// Create a new HW instance, with no pin in use
pub fn get() -> (res: HW)
    ensures
        res@ == Map::<BCMPinNumber, PinUse>::empty(),
{
    HW { configured_pins: HashMap::new() }
}

/// `pins` are the descriptions of the 40 pins of the GPIO header, by board pin number
pub open spec fn is_gpio_header(pins: Seq<crate::hw_definition::description::PinDescription>) -> bool {
    &&& pins.len() == PIN_COUNT
    &&& forall|i: int| 0 <= i < PIN_COUNT ==> describes_board_pin(#[trigger] pins[i], i + 1)
}

impl HW {
    /// The details of the board read from `cpuinfo`, the contents of /proc/cpuinfo: "Hardware",
    /// "Revision", "Serial" and "Model" come from the lines `key: value` with those keys, and
    /// are "Unknown" where no line gives them
    pub fn get_details(cpuinfo: &str) -> (res: HardwareDetails)
        ensures
            details_match(res, spec_cpuinfo_fields(cpuinfo@)),
    {
        let (hardware, revision, serial, model) = read_cpuinfo(cpuinfo);
        details_of(hardware, revision, serial, model)
    }

    /// The description of hardware whose details are unknown: every detail is "Unknown", and
    /// the pins are those of the 40 pin GPIO header
    pub fn description(&self) -> (res: HardwareDescription)
        ensures
            details_match(res.details, unknown_fields()),
            is_gpio_header(res.pins.pins@),
    {
        let details = details_of(
            String::from_str("Unknown"),
            String::from_str("Unknown"),
            String::from_str("Unknown"),
            String::from_str("Unknown"),
        );
        HardwareDescription { details, pins: PinDescriptionSet { pins: gpio_pin_descriptions() } }
    }

    /// The description of the board whose /proc/cpuinfo holds `cpuinfo`, with the pins of the 40
    /// pin GPIO header
    pub fn description_from_cpuinfo(&self, cpuinfo: &str) -> (res: HardwareDescription)
        ensures
            details_match(res.details, spec_cpuinfo_fields(cpuinfo@)),
            is_gpio_header(res.pins.pins@),
    {
        HardwareDescription {
            details: Self::get_details(cpuinfo),
            pins: PinDescriptionSet { pins: gpio_pin_descriptions() },
        }
    }

    /// The descriptions of the 40 pins of the GPIO header
    pub fn pin_descriptions(&self) -> (res: Vec<crate::hw_definition::description::PinDescription>)
        ensures
            is_gpio_header(res@),
    {
        gpio_pin_descriptions()
    }

    /// What must be done to a pin to give it the function `pin_function`
    pub fn pin_action(pin_function: &PinFunction) -> (res: PinAction)
        ensures
            res == spec_pin_action(*pin_function),
            *pin_function matches PinFunction::Input(Some(pull)) ==> res == PinAction::MakeInput(pull),
            *pin_function == PinFunction::Input(None) ==> res == PinAction::MakeInput(InputPull::NoPull),
            *pin_function matches PinFunction::Output(level) ==> res == PinAction::MakeOutput(level),
            *pin_function is Unused ==> res is Release,
    {
        match pin_function {
            PinFunction::Unused => PinAction::Release,
            PinFunction::Input(pull) => PinAction::MakeInput(
                match pull {
                    Some(p) => *p,
                    None => InputPull::NoPull,
                },
            ),
            PinFunction::Output(level) => PinAction::MakeOutput(*level),
        }
    }

    /// Record that pin `bcm` was given the function `pin_function`, where `configured` tells
    /// whether the hardware accepted it: any previous use of the pin ends, and the pin is in
    /// use again if the hardware accepted an input or an output function for it
    pub fn apply_pin_config(&mut self, bcm: BCMPinNumber, pin_function: &PinFunction, configured: bool)
        ensures
            final(self)@ == spec_after_pin_config(old(self)@, bcm, *pin_function, configured),
    {
        self.configured_pins.remove(&bcm);
        if configured {
            match pin_function {
                PinFunction::Input(_) => {
                    self.configured_pins.insert(bcm, PinUse::Input);
                },
                PinFunction::Output(_) => {
                    self.configured_pins.insert(bcm, PinUse::Output);
                },
                PinFunction::Unused => {},
            }
        }
    }

    /// How pin `bcm` is used, if it is in use
    pub fn pin_use(&self, bcm: BCMPinNumber) -> (res: Option<PinUse>)
        ensures
            res == (if self@.contains_key(bcm) { Some(self@[bcm]) } else { None }),
    {
        match self.configured_pins.get(&bcm) {
            Some(u) => Some(*u),
            None => None,
        }
    }

    /// Check that the level of pin `bcm` can be read: it must be in use as an input
    pub fn get_input_level(&self, bcm: BCMPinNumber) -> (res: Result<(), PinError>)
        ensures
            res is Ok <==> self@.contains_key(bcm) && self@[bcm] == PinUse::Input,
            res is Err ==> res == Err::<(), PinError>(PinError::NoInputPin),
    {
        match self.pin_use(bcm) {
            Some(PinUse::Input) => Ok(()),
            _ => Err(PinError::NoInputPin),
        }
    }

    /// Check that the level of pin `bcm` can be set: it must be in use as an output
    pub fn set_output_level(&self, bcm: BCMPinNumber) -> (res: Result<(), PinError>)
        ensures
            res is Ok <==> self@.contains_key(bcm) && self@[bcm] == PinUse::Output,
            res is Err ==> res == Err::<(), PinError>(PinError::NoOutputPin),
    {
        match self.pin_use(bcm) {
            Some(PinUse::Output) => Ok(()),
            _ => Err(PinError::NoOutputPin),
        }
    }
}

} // verus!
