//! The closed set of video inputs, their one-byte DDC/CI codes and their names.

use vstd::prelude::*;
use vstd::string::StringExecFns;

verus! {

/// A video input of a monitor, as selected through VCP feature `0x60`.
///
/// The wire code is the sole identity of an input: two inputs are the same
/// exactly when their codes are.
#[derive(Clone, Copy, Debug, PartialEq, Eq, Structural)]
pub enum InputSource {
    Vga1,
    Vga2,
    Dvi1,
    Dvi2,
    CompositeVideo1,
    CompositeVideo2,
    SVideo1,
    SVideo2,
    Tuner1,
    Tuner2,
    Tuner3,
    ComponentVideo1,
    ComponentVideo2,
    ComponentVideo3,
    DisplayPort1,
    DisplayPort2,
    Hdmi1,
    Hdmi2,
}

/// Why a raw value or a name does not denote an input.
#[derive(Clone, Copy, Debug, PartialEq, Eq, Structural)]
pub enum InputSourceError {
    /// The value is not the wire code of any input; it is carried along.
    UnknownInputCode(u16),
    /// The text is not the name of any input.
    UnrecognizedName,
}

impl InputSource {
    /// The wire code of each input: `0x01` to `0x12`.
    pub open spec fn wire(self) -> int {
        match self {
            InputSource::Vga1 => 0x01,
            InputSource::Vga2 => 0x02,
            InputSource::Dvi1 => 0x03,
            InputSource::Dvi2 => 0x04,
            InputSource::CompositeVideo1 => 0x05,
            InputSource::CompositeVideo2 => 0x06,
            InputSource::SVideo1 => 0x07,
            InputSource::SVideo2 => 0x08,
            InputSource::Tuner1 => 0x09,
            InputSource::Tuner2 => 0x0a,
            InputSource::Tuner3 => 0x0b,
            InputSource::ComponentVideo1 => 0x0c,
            InputSource::ComponentVideo2 => 0x0d,
            InputSource::ComponentVideo3 => 0x0e,
            InputSource::DisplayPort1 => 0x0f,
            InputSource::DisplayPort2 => 0x10,
            InputSource::Hdmi1 => 0x11,
            InputSource::Hdmi2 => 0x12,
        }
    }

    /// The input that a wire code selects, if any.
    pub open spec fn from_wire(value: int) -> Option<InputSource> {
        if value == 0x01 {
            Some(InputSource::Vga1)
        } else if value == 0x02 {
            Some(InputSource::Vga2)
        } else if value == 0x03 {
            Some(InputSource::Dvi1)
        } else if value == 0x04 {
            Some(InputSource::Dvi2)
        } else if value == 0x05 {
            Some(InputSource::CompositeVideo1)
        } else if value == 0x06 {
            Some(InputSource::CompositeVideo2)
        } else if value == 0x07 {
            Some(InputSource::SVideo1)
        } else if value == 0x08 {
            Some(InputSource::SVideo2)
        } else if value == 0x09 {
            Some(InputSource::Tuner1)
        } else if value == 0x0a {
            Some(InputSource::Tuner2)
        } else if value == 0x0b {
            Some(InputSource::Tuner3)
        } else if value == 0x0c {
            Some(InputSource::ComponentVideo1)
        } else if value == 0x0d {
            Some(InputSource::ComponentVideo2)
        } else if value == 0x0e {
            Some(InputSource::ComponentVideo3)
        } else if value == 0x0f {
            Some(InputSource::DisplayPort1)
        } else if value == 0x10 {
            Some(InputSource::DisplayPort2)
        } else if value == 0x11 {
            Some(InputSource::Hdmi1)
        } else if value == 0x12 {
            Some(InputSource::Hdmi2)
        } else {
            None
        }
    }

    /// The name of each input, as it is written in a configuration.
    pub open spec fn name(self) -> Seq<char> {
        match self {
            InputSource::Vga1 => "Vga1"@,
            InputSource::Vga2 => "Vga2"@,
            InputSource::Dvi1 => "Dvi1"@,
            InputSource::Dvi2 => "Dvi2"@,
            InputSource::CompositeVideo1 => "CompositeVideo1"@,
            InputSource::CompositeVideo2 => "CompositeVideo2"@,
            InputSource::SVideo1 => "SVideo1"@,
            InputSource::SVideo2 => "SVideo2"@,
            InputSource::Tuner1 => "Tuner1"@,
            InputSource::Tuner2 => "Tuner2"@,
            InputSource::Tuner3 => "Tuner3"@,
            InputSource::ComponentVideo1 => "ComponentVideo1"@,
            InputSource::ComponentVideo2 => "ComponentVideo2"@,
            InputSource::ComponentVideo3 => "ComponentVideo3"@,
            InputSource::DisplayPort1 => "DisplayPort1"@,
            InputSource::DisplayPort2 => "DisplayPort2"@,
            InputSource::Hdmi1 => "Hdmi1"@,
            InputSource::Hdmi2 => "Hdmi2"@,
        }
    }

    /// The input that a name denotes, if any. Names match in full and by case.
    pub open spec fn from_name(text: Seq<char>) -> Option<InputSource> {
        if text == "Vga1"@ {
            Some(InputSource::Vga1)
        } else if text == "Vga2"@ {
            Some(InputSource::Vga2)
        } else if text == "Dvi1"@ {
            Some(InputSource::Dvi1)
        } else if text == "Dvi2"@ {
            Some(InputSource::Dvi2)
        } else if text == "CompositeVideo1"@ {
            Some(InputSource::CompositeVideo1)
        } else if text == "CompositeVideo2"@ {
            Some(InputSource::CompositeVideo2)
        } else if text == "SVideo1"@ {
            Some(InputSource::SVideo1)
        } else if text == "SVideo2"@ {
            Some(InputSource::SVideo2)
        } else if text == "Tuner1"@ {
            Some(InputSource::Tuner1)
        } else if text == "Tuner2"@ {
            Some(InputSource::Tuner2)
        } else if text == "Tuner3"@ {
            Some(InputSource::Tuner3)
        } else if text == "ComponentVideo1"@ {
            Some(InputSource::ComponentVideo1)
        } else if text == "ComponentVideo2"@ {
            Some(InputSource::ComponentVideo2)
        } else if text == "ComponentVideo3"@ {
            Some(InputSource::ComponentVideo3)
        } else if text == "DisplayPort1"@ {
            Some(InputSource::DisplayPort1)
        } else if text == "DisplayPort2"@ {
            Some(InputSource::DisplayPort2)
        } else if text == "Hdmi1"@ {
            Some(InputSource::Hdmi1)
        } else if text == "Hdmi2"@ {
            Some(InputSource::Hdmi2)
        } else {
            None
        }
    }

    /// The byte sent to the monitor to select this input.
    pub fn to_wire_value(self) -> (code: u8)
        ensures
            code == self.wire(),
    {
        match self {
            InputSource::Vga1 => 0x01,
            InputSource::Vga2 => 0x02,
            InputSource::Dvi1 => 0x03,
            InputSource::Dvi2 => 0x04,
            InputSource::CompositeVideo1 => 0x05,
            InputSource::CompositeVideo2 => 0x06,
            InputSource::SVideo1 => 0x07,
            InputSource::SVideo2 => 0x08,
            InputSource::Tuner1 => 0x09,
            InputSource::Tuner2 => 0x0a,
            InputSource::Tuner3 => 0x0b,
            InputSource::ComponentVideo1 => 0x0c,
            InputSource::ComponentVideo2 => 0x0d,
            InputSource::ComponentVideo3 => 0x0e,
            InputSource::DisplayPort1 => 0x0f,
            InputSource::DisplayPort2 => 0x10,
            InputSource::Hdmi1 => 0x11,
            InputSource::Hdmi2 => 0x12,
        }
    }

    /// Reads a raw 16-bit value as an input. Fails with `UnknownInputCode`
    /// exactly when the value lies outside `0x01..=0x12`.
    pub fn from_wire_value(value: u16) -> (r: Result<InputSource, InputSourceError>)
        ensures
            r == match InputSource::from_wire(value as int) {
                Some(input) => Ok::<InputSource, InputSourceError>(input),
                None => Err(InputSourceError::UnknownInputCode(value)),
            },
    {
        match value {
            0x01 => Ok(InputSource::Vga1),
            0x02 => Ok(InputSource::Vga2),
            0x03 => Ok(InputSource::Dvi1),
            0x04 => Ok(InputSource::Dvi2),
            0x05 => Ok(InputSource::CompositeVideo1),
            0x06 => Ok(InputSource::CompositeVideo2),
            0x07 => Ok(InputSource::SVideo1),
            0x08 => Ok(InputSource::SVideo2),
            0x09 => Ok(InputSource::Tuner1),
            0x0a => Ok(InputSource::Tuner2),
            0x0b => Ok(InputSource::Tuner3),
            0x0c => Ok(InputSource::ComponentVideo1),
            0x0d => Ok(InputSource::ComponentVideo2),
            0x0e => Ok(InputSource::ComponentVideo3),
            0x0f => Ok(InputSource::DisplayPort1),
            0x10 => Ok(InputSource::DisplayPort2),
            0x11 => Ok(InputSource::Hdmi1),
            0x12 => Ok(InputSource::Hdmi2),
            _ => Err(InputSourceError::UnknownInputCode(value)),
        }
    }

    /// The input's name as text.
    pub fn format(self) -> (text: String)
        ensures
            text@ == self.name(),
    {
        match self {
            InputSource::Vga1 => String::from_str("Vga1"),
            InputSource::Vga2 => String::from_str("Vga2"),
            InputSource::Dvi1 => String::from_str("Dvi1"),
            InputSource::Dvi2 => String::from_str("Dvi2"),
            InputSource::CompositeVideo1 => String::from_str("CompositeVideo1"),
            InputSource::CompositeVideo2 => String::from_str("CompositeVideo2"),
            InputSource::SVideo1 => String::from_str("SVideo1"),
            InputSource::SVideo2 => String::from_str("SVideo2"),
            InputSource::Tuner1 => String::from_str("Tuner1"),
            InputSource::Tuner2 => String::from_str("Tuner2"),
            InputSource::Tuner3 => String::from_str("Tuner3"),
            InputSource::ComponentVideo1 => String::from_str("ComponentVideo1"),
            InputSource::ComponentVideo2 => String::from_str("ComponentVideo2"),
            InputSource::ComponentVideo3 => String::from_str("ComponentVideo3"),
            InputSource::DisplayPort1 => String::from_str("DisplayPort1"),
            InputSource::DisplayPort2 => String::from_str("DisplayPort2"),
            InputSource::Hdmi1 => String::from_str("Hdmi1"),
            InputSource::Hdmi2 => String::from_str("Hdmi2"),
        }
    }

    /// Reads a name as an input. Fails with `UnrecognizedName` exactly when
    /// no input has that name.
    pub fn parse(name: &str) -> (r: Result<InputSource, InputSourceError>)
        ensures
            r == match InputSource::from_name(name@) {
                Some(input) => Ok::<InputSource, InputSourceError>(input),
                None => Err(InputSourceError::UnrecognizedName),
            },
    {
        let text = String::from_str(name);
        if text == String::from_str("Vga1") {
            Ok(InputSource::Vga1)
        } else if text == String::from_str("Vga2") {
            Ok(InputSource::Vga2)
        } else if text == String::from_str("Dvi1") {
            Ok(InputSource::Dvi1)
        } else if text == String::from_str("Dvi2") {
            Ok(InputSource::Dvi2)
        } else if text == String::from_str("CompositeVideo1") {
            Ok(InputSource::CompositeVideo1)
        } else if text == String::from_str("CompositeVideo2") {
            Ok(InputSource::CompositeVideo2)
        } else if text == String::from_str("SVideo1") {
            Ok(InputSource::SVideo1)
        } else if text == String::from_str("SVideo2") {
            Ok(InputSource::SVideo2)
        } else if text == String::from_str("Tuner1") {
            Ok(InputSource::Tuner1)
        } else if text == String::from_str("Tuner2") {
            Ok(InputSource::Tuner2)
        } else if text == String::from_str("Tuner3") {
            Ok(InputSource::Tuner3)
        } else if text == String::from_str("ComponentVideo1") {
            Ok(InputSource::ComponentVideo1)
        } else if text == String::from_str("ComponentVideo2") {
            Ok(InputSource::ComponentVideo2)
        } else if text == String::from_str("ComponentVideo3") {
            Ok(InputSource::ComponentVideo3)
        } else if text == String::from_str("DisplayPort1") {
            Ok(InputSource::DisplayPort1)
        } else if text == String::from_str("DisplayPort2") {
            Ok(InputSource::DisplayPort2)
        } else if text == String::from_str("Hdmi1") {
            Ok(InputSource::Hdmi1)
        } else if text == String::from_str("Hdmi2") {
            Ok(InputSource::Hdmi2)
        } else {
            Err(InputSourceError::UnrecognizedName)
        }
    }
}

/// Reading back the wire code of an input gives that input.
pub proof fn lemma_wire_round_trip(input: InputSource)
    ensures
        InputSource::from_wire(input.wire()) == Some(input),
{
}

/// A raw value is the wire code of an input exactly when it lies in
/// `0x01..=0x12`, and the input read from it has that value as its code.
pub proof fn lemma_from_wire_domain(value: int)
    ensures
        InputSource::from_wire(value) is Some <==> 0x01 <= value <= 0x12,
        InputSource::from_wire(value) matches Some(input) ==> input.wire() == value,
{
}

/// Two inputs with the same wire code are the same input.
pub proof fn lemma_wire_is_identity(a: InputSource, b: InputSource)
    requires
        a.wire() == b.wire(),
    ensures
        a == b,
{
}

/// What tells the names of the inputs apart: the length of a text, its first
/// character, its sixth where it has more than six, and its last.
spec fn marks(text: Seq<char>) -> (nat, char, char, char) {
    (
        text.len(),
        text[0],
        if text.len() > 6 {
            text[5]
        } else {
            ' '
        },
        text[text.len() - 1],
    )
}

/// Reading back the name of an input gives that input.
pub proof fn lemma_name_round_trip(input: InputSource)
    ensures
        InputSource::from_name(input.name()) == Some(input),
{
    reveal_strlit("Vga1");
    assert(marks("Vga1"@) == (4nat, 'V', ' ', '1'));
    reveal_strlit("Vga2");
    assert(marks("Vga2"@) == (4nat, 'V', ' ', '2'));
    reveal_strlit("Dvi1");
    assert(marks("Dvi1"@) == (4nat, 'D', ' ', '1'));
    reveal_strlit("Dvi2");
    assert(marks("Dvi2"@) == (4nat, 'D', ' ', '2'));
    reveal_strlit("CompositeVideo1");
    assert(marks("CompositeVideo1"@) == (15nat, 'C', 's', '1'));
    reveal_strlit("CompositeVideo2");
    assert(marks("CompositeVideo2"@) == (15nat, 'C', 's', '2'));
    reveal_strlit("SVideo1");
    assert(marks("SVideo1"@) == (7nat, 'S', 'o', '1'));
    reveal_strlit("SVideo2");
    assert(marks("SVideo2"@) == (7nat, 'S', 'o', '2'));
    reveal_strlit("Tuner1");
    assert(marks("Tuner1"@) == (6nat, 'T', ' ', '1'));
    reveal_strlit("Tuner2");
    assert(marks("Tuner2"@) == (6nat, 'T', ' ', '2'));
    reveal_strlit("Tuner3");
    assert(marks("Tuner3"@) == (6nat, 'T', ' ', '3'));
    reveal_strlit("ComponentVideo1");
    assert(marks("ComponentVideo1"@) == (15nat, 'C', 'n', '1'));
    reveal_strlit("ComponentVideo2");
    assert(marks("ComponentVideo2"@) == (15nat, 'C', 'n', '2'));
    reveal_strlit("ComponentVideo3");
    assert(marks("ComponentVideo3"@) == (15nat, 'C', 'n', '3'));
    reveal_strlit("DisplayPort1");
    assert(marks("DisplayPort1"@) == (12nat, 'D', 'a', '1'));
    reveal_strlit("DisplayPort2");
    assert(marks("DisplayPort2"@) == (12nat, 'D', 'a', '2'));
    reveal_strlit("Hdmi1");
    assert(marks("Hdmi1"@) == (5nat, 'H', ' ', '1'));
    reveal_strlit("Hdmi2");
    assert(marks("Hdmi2"@) == (5nat, 'H', ' ', '2'));
}

/// A text that denotes an input is that input's name.
pub proof fn lemma_from_name_sound(text: Seq<char>)
    ensures
        InputSource::from_name(text) matches Some(input) ==> input.name() == text,
{
}

} // verus!
