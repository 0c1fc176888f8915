//! The theme: six colours, each in a named slot, and the handling of a
//! request to change one of them.

use crate::color::rgb565_to_rgb888;
use crate::color::widen;
use vstd::prelude::*;

verus! {

/// The six colours of the user interface, each a 16-bit RGB565 value.
#[derive(Clone, Copy, Debug, PartialEq, Eq, Structural)]
pub struct Theme {
    pub background: u16,
    pub background2: u16,
    pub background3: u16,
    pub foreground: u16,
    pub foreground2: u16,
    pub foreground3: u16,
}

/// The six colours of a theme as 24-bit RGB888 values.
#[derive(Clone, Copy, Debug, PartialEq, Eq, Structural)]
pub struct ThemeColors {
    pub background: u32,
    pub background2: u32,
    pub background3: u32,
    pub foreground: u32,
    pub foreground2: u32,
    pub foreground3: u32,
}

/// The name of one colour of a theme.
#[derive(Clone, Copy, Debug, PartialEq, Eq, Structural)]
pub enum ThemeSlot {
    Background,
    Background2,
    Background3,
    Foreground,
    Foreground2,
    Foreground3,
}

/// Why a request to change the theme was not carried out.
#[derive(Clone, Copy, Debug, PartialEq, Eq, Structural)]
pub enum PayloadError {
    /// The payload names no slot.
    MissingKey,
    /// The payload's key is not the name of a slot.
    UnknownKey,
    /// The payload's value is not a number.
    NotANumber,
}

impl ThemeSlot {
    /// The key under which a slot goes in a payload.
    pub open spec fn key_of(self) -> Seq<char> {
        match self {
            ThemeSlot::Background => "background"@,
            ThemeSlot::Background2 => "background2"@,
            ThemeSlot::Background3 => "background3"@,
            ThemeSlot::Foreground => "foreground"@,
            ThemeSlot::Foreground2 => "foreground2"@,
            ThemeSlot::Foreground3 => "foreground3"@,
        }
    }

    /// The slot that a key names, if it names one.
    pub open spec fn of_key(key: Seq<char>) -> Option<ThemeSlot> {
        if key == "background"@ {
            Some(ThemeSlot::Background)
        } else if key == "background2"@ {
            Some(ThemeSlot::Background2)
        } else if key == "background3"@ {
            Some(ThemeSlot::Background3)
        } else if key == "foreground"@ {
            Some(ThemeSlot::Foreground)
        } else if key == "foreground2"@ {
            Some(ThemeSlot::Foreground2)
        } else if key == "foreground3"@ {
            Some(ThemeSlot::Foreground3)
        } else {
            None
        }
    }

    /// The key of this slot.
    pub fn key(self) -> (name: &'static str)
        ensures
            name@ == self.key_of(),
    {
        match self {
            ThemeSlot::Background => "background",
            ThemeSlot::Background2 => "background2",
            ThemeSlot::Background3 => "background3",
            ThemeSlot::Foreground => "foreground",
            ThemeSlot::Foreground2 => "foreground2",
            ThemeSlot::Foreground3 => "foreground3",
        }
    }

    /// Looks a key up among the six slot names.
    pub fn from_key(key: &str) -> (slot: Option<ThemeSlot>)
        ensures
            slot == Self::of_key(key@),
    {
        let key = String::from_str(key);
        if key == String::from_str("background") {
            Some(ThemeSlot::Background)
        } else if key == String::from_str("background2") {
            Some(ThemeSlot::Background2)
        } else if key == String::from_str("background3") {
            Some(ThemeSlot::Background3)
        } else if key == String::from_str("foreground") {
            Some(ThemeSlot::Foreground)
        } else if key == String::from_str("foreground2") {
            Some(ThemeSlot::Foreground2)
        } else if key == String::from_str("foreground3") {
            Some(ThemeSlot::Foreground3)
        } else {
            None
        }
    }

    /// Every slot is found again under its own key, and under no other.
    pub proof fn lemma_key_names_slot(self, key: Seq<char>)
        ensures
            Self::of_key(key) == Some(self) <==> key == self.key_of(),
    {
        reveal_strlit("background");
        reveal_strlit("background2");
        reveal_strlit("background3");
        reveal_strlit("foreground");
        reveal_strlit("foreground2");
        reveal_strlit("foreground3");
        assert("background"@.len() == 10 && "background"@[0] == 'b');
        assert("background2"@.len() == 11 && "background2"@[0] == 'b' && "background2"@[10] == '2');
        assert("background3"@.len() == 11 && "background3"@[0] == 'b' && "background3"@[10] == '3');
        assert("foreground"@.len() == 10 && "foreground"@[0] == 'f');
        assert("foreground2"@.len() == 11 && "foreground2"@[0] == 'f' && "foreground2"@[10] == '2');
        assert("foreground3"@.len() == 11 && "foreground3"@[0] == 'f' && "foreground3"@[10] == '3');
    }
}

/// The 16-bit colour that a payload's number stands for: the number itself
/// where it is one, the nearest 16-bit value where it is not.
pub open spec fn decoded(value: int) -> u16 {
    if value < 0 {
        0
    } else if value > 0xffff {
        0xffff
    } else {
        value as u16
    }
}

/// Decodes the number of a payload into a 16-bit colour.
pub fn decode_color(value: i64) -> (color: u16)
    ensures
        color == decoded(value as int),
{
    if value < 0 {
        0
    } else if value > 0xffff {
        0xffff
    } else {
        value as u16
    }
}

/// What becomes of a payload: the slot it changes, or why it changes none.
pub open spec fn payload_outcome(key: Option<&str>, value: Option<i64>) -> Result<
    ThemeSlot,
    PayloadError,
> {
    match key {
        None => Err(PayloadError::MissingKey),
        Some(k) => match ThemeSlot::of_key(k@) {
            None => Err(PayloadError::UnknownKey),
            Some(slot) => match value {
                None => Err(PayloadError::NotANumber),
                Some(_) => Ok(slot),
            },
        },
    }
}

impl Theme {
    /// The colour in a slot.
    pub open spec fn color_at(self, slot: ThemeSlot) -> u16 {
        match slot {
            ThemeSlot::Background => self.background,
            ThemeSlot::Background2 => self.background2,
            ThemeSlot::Background3 => self.background3,
            ThemeSlot::Foreground => self.foreground,
            ThemeSlot::Foreground2 => self.foreground2,
            ThemeSlot::Foreground3 => self.foreground3,
        }
    }

    /// This theme with one slot overwritten.
    pub open spec fn with(self, slot: ThemeSlot, color: u16) -> Theme {
        match slot {
            ThemeSlot::Background => Theme { background: color, ..self },
            ThemeSlot::Background2 => Theme { background2: color, ..self },
            ThemeSlot::Background3 => Theme { background3: color, ..self },
            ThemeSlot::Foreground => Theme { foreground: color, ..self },
            ThemeSlot::Foreground2 => Theme { foreground2: color, ..self },
            ThemeSlot::Foreground3 => Theme { foreground3: color, ..self },
        }
    }

    /// This theme after a payload: one slot overwritten where the payload is
    /// sound, the theme as it was where it is not.
    pub open spec fn after_payload(self, key: Option<&str>, value: Option<i64>) -> Theme {
        match payload_outcome(key, value) {
            Ok(slot) => self.with(slot, decoded(value.unwrap() as int)),
            Err(_) => self,
        }
    }

    /// The six colours widened to 24 bits.
    pub open spec fn colors(self) -> ThemeColors {
        ThemeColors {
            background: widen(self.background),
            background2: widen(self.background2),
            background3: widen(self.background3),
            foreground: widen(self.foreground),
            foreground2: widen(self.foreground2),
            foreground3: widen(self.foreground3),
        }
    }

    /// Reads the colour in a slot.
    pub fn get(&self, slot: ThemeSlot) -> (color: u16)
        ensures
            color == self.color_at(slot),
    {
        match slot {
            ThemeSlot::Background => self.background,
            ThemeSlot::Background2 => self.background2,
            ThemeSlot::Background3 => self.background3,
            ThemeSlot::Foreground => self.foreground,
            ThemeSlot::Foreground2 => self.foreground2,
            ThemeSlot::Foreground3 => self.foreground3,
        }
    }

    /// Overwrites the colour in a slot and leaves the other five alone.
    pub fn set(&mut self, slot: ThemeSlot, color: u16)
        ensures
            *final(self) == old(self).with(slot, color),
    {
        match slot {
            ThemeSlot::Background => self.background = color,
            ThemeSlot::Background2 => self.background2 = color,
            ThemeSlot::Background3 => self.background3 = color,
            ThemeSlot::Foreground => self.foreground = color,
            ThemeSlot::Foreground2 => self.foreground2 = color,
            ThemeSlot::Foreground3 => self.foreground3 = color,
        }
    }

    /// Handles a request to change the theme. A payload with a known key and
    /// a number overwrites that slot with the decoded colour and returns the
    /// slot. Any other payload changes nothing and returns the reason, for
    /// the caller to log.
    pub fn apply_payload(&mut self, key: Option<&str>, value: Option<i64>) -> (outcome: Result<
        ThemeSlot,
        PayloadError,
    >)
        ensures
            outcome == payload_outcome(key, value),
            *final(self) == old(self).after_payload(key, value),
    {
        let key = match key {
            Some(key) => key,
            None => {
                return Err(PayloadError::MissingKey);
            },
        };
        let slot = match ThemeSlot::from_key(key) {
            Some(slot) => slot,
            None => {
                return Err(PayloadError::UnknownKey);
            },
        };
        let value = match value {
            Some(value) => value,
            None => {
                return Err(PayloadError::NotANumber);
            },
        };
        self.set(slot, decode_color(value));
        Ok(slot)
    }
}

/// The six colours of a theme as 24-bit values.
pub fn get_theme_colors(theme: &Theme) -> (colors: ThemeColors)
    ensures
        colors == theme.colors(),
{
    ThemeColors {
        background: rgb565_to_rgb888(theme.background),
        background2: rgb565_to_rgb888(theme.background2),
        background3: rgb565_to_rgb888(theme.background3),
        foreground: rgb565_to_rgb888(theme.foreground),
        foreground2: rgb565_to_rgb888(theme.foreground2),
        foreground3: rgb565_to_rgb888(theme.foreground3),
    }
}

/// Reading a slot after writing it gives what was written; reading any other
/// slot gives what it held before.
pub proof fn lemma_with_then_color_at(theme: Theme, slot: ThemeSlot, color: u16, other: ThemeSlot)
    ensures
        theme.with(slot, color).color_at(other) == if other == slot {
            color
        } else {
            theme.color_at(other)
        },
{
}

/// A payload whose key is none of the six slot names changes no colour.
pub proof fn lemma_unknown_key_changes_nothing(theme: Theme, key: &str, value: Option<i64>)
    requires
        ThemeSlot::of_key(key@) is None,
    ensures
        payload_outcome(Some(key), value) == Err::<ThemeSlot, PayloadError>(
            PayloadError::UnknownKey,
        ),
        theme.after_payload(Some(key), value) == theme,
{
}

} // verus!
