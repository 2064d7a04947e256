//! LED state model of the throttle: a bit-set over six named light
//! positions backed by a single raw byte.

use vstd::prelude::*;
use vstd::string::StringExecFns;

verus! {

/// Vendor identifier of this peripheral family.
pub const VID: u16 = 0x044f;

/// Product identifier of the throttle unit.
pub const THROTTLE_PID: u16 = 0x0404;

/// Bit of the panel backlight.
pub const BACKLIGHT: u8 = 0x08;

/// Bit of the first numbered LED.
pub const LED_1: u8 = 0x04;

/// Bit of the second numbered LED.
pub const LED_2: u8 = 0x02;

/// Bit of the third numbered LED.
pub const LED_3: u8 = 0x10;

/// Bit of the fourth numbered LED.
pub const LED_4: u8 = 0x01;

/// Bit of the fifth numbered LED.
pub const LED_5: u8 = 0x40;

/// The six named light positions of the throttle, as a set of bits in one
/// byte. Bits outside the named positions carry no LED meaning but are
/// preserved byte-for-byte by every conversion.
#[derive(Clone, Copy, PartialEq, Eq, Structural, Debug)]
pub struct ThrottleLEDState {
    pub bits: u8,
}

impl ThrottleLEDState {
    /// The set with no lights on.
    pub fn empty() -> (r: Self)
        ensures
            r.bits == 0,
    {
        ThrottleLEDState { bits: 0 }
    }

    /// The raw device byte of this set, bit-exact.
    pub fn raw(self) -> (r: u8)
        ensures
            r == self.bits,
    {
        self.bits
    }

    /// Membership test: every bit of `mask` is set.
    pub fn contains(self, mask: u8) -> (r: bool)
        ensures
            r == (self.bits & mask == mask),
    {
        self.bits & mask == mask
    }

    /// Union with a raw mask.
    pub fn union(self, rhs: u8) -> (r: u8)
        ensures
            r == (self.bits | rhs),
    {
        self.bits | rhs
    }

    /// Adds the lights of a raw mask to this set.
    pub fn insert(&mut self, rhs: u8)
        ensures
            final(self).bits == (old(self).bits | rhs),
    {
        self.bits = self.bits | rhs;
    }

    /// Intersection with a raw mask.
    pub fn intersect(self, rhs: u8) -> (r: u8)
        ensures
            r == (self.bits & rhs),
    {
        self.bits & rhs
    }

    /// Keeps only the lights of a raw mask.
    pub fn intersect_with(&mut self, rhs: u8)
        ensures
            final(self).bits == (old(self).bits & rhs),
    {
        self.bits = self.bits & rhs;
    }

    /// Symmetric difference with a raw mask.
    pub fn toggle(self, rhs: u8) -> (r: u8)
        ensures
            r == (self.bits ^ rhs),
    {
        self.bits ^ rhs
    }

    /// Toggles the lights of a raw mask.
    pub fn toggle_with(&mut self, rhs: u8)
        ensures
            final(self).bits == (old(self).bits ^ rhs),
    {
        self.bits = self.bits ^ rhs;
    }

    /// Set difference against a raw mask.
    pub fn difference(self, rhs: u8) -> (r: u8)
        ensures
            r == (self.bits & !rhs),
    {
        self.bits & !rhs
    }

    /// Removes the lights of a raw mask.
    pub fn remove(&mut self, rhs: u8)
        ensures
            final(self).bits == (old(self).bits & !rhs),
    {
        self.bits = self.bits & !rhs;
    }
}

/// One step of the rendering: appends a light's name to what is rendered
/// so far, preceded by the separator when something already stands there.
pub open spec fn render_piece(prefix: Seq<char>, present: bool, name: Seq<char>) -> Seq<char> {
    if present {
        if prefix.len() > 0 {
            prefix + ", "@ + name
        } else {
            name
        }
    } else {
        prefix
    }
}

/// The comma-joined names of the named lights that are on, in the fixed
/// canonical order: Backlight, 1, 2, 3, 4, 5. Bits outside the named
/// positions never render.
pub open spec fn named_parts(bits: u8) -> Seq<char> {
    render_piece(
        render_piece(
            render_piece(
                render_piece(
                    render_piece(
                        render_piece(Seq::empty(), bits & BACKLIGHT != 0, "Backlight"@),
                        bits & LED_1 != 0,
                        "1"@,
                    ),
                    bits & LED_2 != 0,
                    "2"@,
                ),
                bits & LED_3 != 0,
                "3"@,
            ),
            bits & LED_4 != 0,
            "4"@,
        ),
        bits & LED_5 != 0,
        "5"@,
    )
}

/// The human-readable rendering of a set: the joined names of its lights,
/// or the literal "None" when no named light is on.
pub open spec fn render_spec(bits: u8) -> Seq<char> {
    if named_parts(bits).len() == 0 {
        "None"@
    } else {
        named_parts(bits)
    }
}

impl ThrottleLEDState {
    /// Renders the set for people: the names of the lights that are on,
    /// comma-joined in the fixed canonical order (Backlight, 1, 2, 3, 4,
    /// 5), or "None" when no named light is on.
    pub fn render(&self) -> (r: String)
        ensures
            r@ == render_spec(self.bits),
    {
        proof {
            reveal_strlit("Backlight");
            reveal_strlit("1");
            reveal_strlit("2");
            reveal_strlit("3");
            reveal_strlit("4");
            reveal_strlit("5");
            reveal_strlit(", ");
            reveal_strlit("None");
        }
        let mut out = String::new();
        let mut first: bool = true;
        if self.bits & BACKLIGHT != 0 {
            out.append("Backlight");
            first = false;
        }
        proof {
            assert(out@ =~= render_piece(Seq::empty(), self.bits & BACKLIGHT != 0, "Backlight"@));
            assert(first == (out@.len() == 0));
        }
        let ghost s1 = out@;
        if self.bits & LED_1 != 0 {
            if !first {
                out.append(", ");
            }
            out.append("1");
            first = false;
        }
        proof {
            assert(out@ =~= render_piece(s1, self.bits & LED_1 != 0, "1"@));
            assert(first == (out@.len() == 0));
        }
        let ghost s2 = out@;
        if self.bits & LED_2 != 0 {
            if !first {
                out.append(", ");
            }
            out.append("2");
            first = false;
        }
        proof {
            assert(out@ =~= render_piece(s2, self.bits & LED_2 != 0, "2"@));
            assert(first == (out@.len() == 0));
        }
        let ghost s3 = out@;
        if self.bits & LED_3 != 0 {
            if !first {
                out.append(", ");
            }
            out.append("3");
            first = false;
        }
        proof {
            assert(out@ =~= render_piece(s3, self.bits & LED_3 != 0, "3"@));
            assert(first == (out@.len() == 0));
        }
        let ghost s4 = out@;
        if self.bits & LED_4 != 0 {
            if !first {
                out.append(", ");
            }
            out.append("4");
            first = false;
        }
        proof {
            assert(out@ =~= render_piece(s4, self.bits & LED_4 != 0, "4"@));
            assert(first == (out@.len() == 0));
        }
        let ghost s5 = out@;
        if self.bits & LED_5 != 0 {
            if !first {
                out.append(", ");
            }
            out.append("5");
            first = false;
        }
        proof {
            assert(out@ =~= render_piece(s5, self.bits & LED_5 != 0, "5"@));
            assert(first == (out@.len() == 0));
        }
        if first {
            let r = "None".to_owned();
            proof {
                assert(r@ =~= render_spec(self.bits));
            }
            r
        } else {
            proof {
                assert(out@ =~= render_spec(self.bits));
            }
            out
        }
    }
}

/// By default, only the backlight is turned on.
impl Default for ThrottleLEDState {
    fn default() -> (r: Self)
        ensures
            r.bits == BACKLIGHT,
    {
        ThrottleLEDState { bits: BACKLIGHT }
    }
}

/// The set denoted by a raw device byte.
pub open spec fn from_raw_spec(bits: u8) -> ThrottleLEDState {
    ThrottleLEDState { bits }
}

impl From<u8> for ThrottleLEDState {
    /// Reads a set out of a raw device byte, bit-exact.
    fn from(item: u8) -> (r: Self) {
        ThrottleLEDState { bits: item }
    }
}

impl vstd::std_specs::convert::FromSpecImpl<u8> for ThrottleLEDState {
    open spec fn obeys_from_spec() -> bool {
        true
    }

    open spec fn from_spec(item: u8) -> Self {
        from_raw_spec(item)
    }
}

impl From<ThrottleLEDState> for u8 {
    /// Writes a set back to its raw device byte, bit-exact.
    fn from(item: ThrottleLEDState) -> (r: Self) {
        item.bits
    }
}

impl vstd::std_specs::convert::FromSpecImpl<ThrottleLEDState> for u8 {
    open spec fn obeys_from_spec() -> bool {
        true
    }

    open spec fn from_spec(item: ThrottleLEDState) -> Self {
        item.bits
    }
}

/// Law: conversion between a set and its raw byte is lossless in both
/// directions, for every byte value, bits outside the named positions
/// included.
pub proof fn lemma_raw_round_trip(s: ThrottleLEDState, b: u8)
    ensures
        from_raw_spec(s.bits).bits == s.bits,
        from_raw_spec(s.bits) == s,
        from_raw_spec(b).bits == b,
{
}

} // verus!
