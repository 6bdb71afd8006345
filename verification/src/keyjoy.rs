//! Keys as joystick: which held keys pull which joystick line.
use vstd::prelude::*;

verus! {

/// The set of the key with code `code`, which is below 64.
pub open spec fn key_bit(code: u8) -> u64 {
    1u64 << (code as u64)
}

/// The held keys that pull each joystick line, as sets of key codes: bit `c` of a set
/// stands for the key with code `c`. A key keeps its line from its press to its
/// release, whatever is assigned meanwhile.
#[derive(Clone, Copy, Debug, PartialEq, Eq, Structural)]
pub struct Pulls {
    pub up: u64,
    pub down: u64,
    pub left: u64,
    pub right: u64,
    pub fire: u64,
}

/// A line's level: low while a key pulls it.
pub open spec fn level(keys: u64, value: int) -> int {
    if keys == 0 {
        value
    } else {
        0
    }
}

impl Pulls {
    /// No key is held.
    pub open spec fn idle() -> Pulls {
        Pulls { up: 0, down: 0, left: 0, right: 0, fire: 0 }
    }

    /// The keys that pull line `bit`: 0 up, 1 down, 2 left, 3 right, 4 fire.
    pub open spec fn on(self, bit: u8) -> u64 {
        if bit == 0 {
            self.up
        } else if bit == 1 {
            self.down
        } else if bit == 2 {
            self.left
        } else if bit == 3 {
            self.right
        } else if bit == 4 {
            self.fire
        } else {
            0
        }
    }

    /// Key `code` pulls line `bit` as well.
    pub open spec fn pressed(self, bit: u8, code: u8) -> Pulls {
        let k = key_bit(code);
        if bit == 0 {
            Pulls { up: self.up | k, ..self }
        } else if bit == 1 {
            Pulls { down: self.down | k, ..self }
        } else if bit == 2 {
            Pulls { left: self.left | k, ..self }
        } else if bit == 3 {
            Pulls { right: self.right | k, ..self }
        } else if bit == 4 {
            Pulls { fire: self.fire | k, ..self }
        } else {
            self
        }
    }

    /// Key `code` pulls nothing any more.
    pub open spec fn released(self, code: u8) -> Pulls {
        let k = key_bit(code);
        Pulls {
            up: self.up & !k,
            down: self.down & !k,
            left: self.left & !k,
            right: self.right & !k,
            fire: self.fire & !k,
        }
    }

    /// Key `code` pulls a line.
    pub open spec fn has(self, code: u8) -> bool {
        let k = key_bit(code);
        self.up & k != 0 || self.down & k != 0 || self.left & k != 0 || self.right & k != 0
            || self.fire & k != 0
    }

    /// The five lines, active low; the bits above them are high.
    pub open spec fn lines(self) -> u8 {
        (0xE0 + level(self.up, 1) + level(self.down, 2) + level(self.left, 4) + level(self.right, 8)
            + level(self.fire, 16)) as u8
    }

    pub fn none() -> (p: Pulls)
        ensures
            p == Pulls::idle(),
    {
        Pulls { up: 0, down: 0, left: 0, right: 0, fire: 0 }
    }

    /// Key `code` pulls line `bit` as well.
    pub fn press(self, bit: u8, code: u8) -> (p: Pulls)
        requires
            code < 64,
        ensures
            p == self.pressed(bit, code),
    {
        let k: u64 = 1u64 << (code as u64);
        match bit {
            0 => Pulls { up: self.up | k, ..self },
            1 => Pulls { down: self.down | k, ..self },
            2 => Pulls { left: self.left | k, ..self },
            3 => Pulls { right: self.right | k, ..self },
            4 => Pulls { fire: self.fire | k, ..self },
            _ => self,
        }
    }

    /// Key `code` pulls nothing any more.
    pub fn release(self, code: u8) -> (p: Pulls)
        requires
            code < 64,
        ensures
            p == self.released(code),
    {
        let k: u64 = 1u64 << (code as u64);
        Pulls {
            up: self.up & !k,
            down: self.down & !k,
            left: self.left & !k,
            right: self.right & !k,
            fire: self.fire & !k,
        }
    }

    /// Whether key `code` pulls a line.
    pub fn pulls(self, code: u8) -> (b: bool)
        requires
            code < 64,
        ensures
            b == self.has(code),
    {
        let k: u64 = 1u64 << (code as u64);
        self.up & k != 0 || self.down & k != 0 || self.left & k != 0 || self.right & k != 0
            || self.fire & k != 0
    }

    /// The five lines, active low; the bits above them are high.
    pub fn joystick(self) -> (lines: u8)
        ensures
            lines == self.lines(),
    {
        let mut lines: u8 = 0xE0;
        if self.up == 0 {
            lines = lines + 1;
        }
        if self.down == 0 {
            lines = lines + 2;
        }
        if self.left == 0 {
            lines = lines + 4;
        }
        if self.right == 0 {
            lines = lines + 8;
        }
        if self.fire == 0 {
            lines = lines + 16;
        }
        lines
    }
}

/// A line is low exactly while a held key pulls it; with none held all are high.
pub proof fn lines_follow_the_keys(p: Pulls, bit: u8)
    requires
        bit < 8,
    ensures
        (p.lines() & (1u8 << bit) != 0) == (p.on(bit) == 0),
        Pulls::idle().lines() == 0xFF,
{
    let (a, b, c, d, e) = (
        level(p.up, 1) as u8,
        level(p.down, 2) as u8,
        level(p.left, 4) as u8,
        level(p.right, 8) as u8,
        level(p.fire, 16) as u8,
    );
    let l = p.lines();
    assert((l & (1u8 << bit) != 0) == (bit == 0 && a != 0 || bit == 1 && b != 0 || bit == 2 && c != 0
        || bit == 3 && d != 0 || bit == 4 && e != 0 || bit > 4)) by (bit_vector)
        requires
            bit < 8,
            a == 0 || a == 1,
            b == 0 || b == 2,
            c == 0 || c == 4,
            d == 0 || d == 8,
            e == 0 || e == 16,
            l == 0xE0 + a + b + c + d + e,
    ;
}

/// One key in one set: pressing adds it, releasing takes it out again and nothing
/// else.
proof fn a_key_in_a_set(keys: u64, code: u8)
    by (bit_vector)
    requires
        code < 64,
    ensures
        (keys | (1u64 << (code as u64))) & (1u64 << (code as u64)) != 0,
        keys | (1u64 << (code as u64)) != 0,
        (keys & !(1u64 << (code as u64))) & (1u64 << (code as u64)) == 0,
        (keys | (1u64 << (code as u64))) & !(1u64 << (code as u64)) == keys & !(1u64 << (
        code as u64)),
        keys & (1u64 << (code as u64)) == 0 ==> keys & !(1u64 << (code as u64)) == keys,
{
}

/// A press pulls its line, and the release of the same key lets go of everything that
/// the key pulled: a key that pulled nothing before leaves no trace.
pub proof fn a_release_undoes_a_press(p: Pulls, bit: u8, code: u8)
    requires
        bit < 5,
        code < 64,
    ensures
        p.pressed(bit, code).has(code),
        p.pressed(bit, code).lines() & (1u8 << bit) == 0,
        !p.released(code).has(code),
        p.pressed(bit, code).released(code) == p.released(code),
        !p.has(code) ==> p.released(code) == p,
{
    a_key_in_a_set(p.up, code);
    a_key_in_a_set(p.down, code);
    a_key_in_a_set(p.left, code);
    a_key_in_a_set(p.right, code);
    a_key_in_a_set(p.fire, code);
    lines_follow_the_keys(p.pressed(bit, code), bit);
}

} // verus!
