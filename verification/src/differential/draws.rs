//! Choices that were made at random, one after another. Generators read them
//! from a tape; where the tape ends, they say what is to be drawn next.

use vstd::prelude::*;
use crate::text::chars_of;

verus! {

/// One random choice.
pub enum Draw {
    U8(u8),
    I32(i32),
    I64(i64),
    Text(String),
    Bytes(Vec<u8>),
}

/// What is to be drawn.
#[derive(Clone, Copy, Debug, PartialEq, Eq, Structural)]
pub enum DrawKind {
    U8,
    I32,
    I64,
    Text,
    Bytes,
}

/// The choices that were made, and how many of them were read.
pub struct Draws {
    pub tape: Vec<Draw>,
    pub at: usize,
}

/// The choices that were made, by what they hold, and how many were read.
pub struct Reading {
    pub tape: Seq<Draw>,
    pub at: nat,
}

impl View for Draws {
    type V = Reading;

    open spec fn view(&self) -> Reading {
        Reading { tape: self.tape@, at: self.at as nat }
    }
}

/// Whether a tape begins with all of another.
pub open spec fn begins_with(longer: Seq<Draw>, tape: Seq<Draw>) -> bool {
    &&& tape.len() <= longer.len()
    &&& forall|i: int| 0 <= i < tape.len() ==> #[trigger] longer[i] == tape[i]
}

impl Reading {
    /// As much read of another tape.
    pub open spec fn on(self, tape: Seq<Draw>) -> Reading {
        Reading { tape, at: self.at }
    }

    /// Whether as much was read of a tape that begins with the other's.
    pub open spec fn extends(self, other: Reading) -> bool {
        self.at == other.at && begins_with(self.tape, other.tape)
    }

    /// The reading behind one more choice.
    pub open spec fn next(self) -> Reading {
        Reading { at: self.at + 1, ..self }
    }

    pub open spec fn byte(self) -> Result<(u8, Reading), DrawKind> {
        if self.at < self.tape.len() && self.tape[self.at as int] is U8 {
            Ok((self.tape[self.at as int]->U8_0, self.next()))
        } else {
            Err(DrawKind::U8)
        }
    }

    pub open spec fn word(self) -> Result<(i32, Reading), DrawKind> {
        if self.at < self.tape.len() && self.tape[self.at as int] is I32 {
            Ok((self.tape[self.at as int]->I32_0, self.next()))
        } else {
            Err(DrawKind::I32)
        }
    }

    pub open spec fn long(self) -> Result<(i64, Reading), DrawKind> {
        if self.at < self.tape.len() && self.tape[self.at as int] is I64 {
            Ok((self.tape[self.at as int]->I64_0, self.next()))
        } else {
            Err(DrawKind::I64)
        }
    }

    pub open spec fn characters(self) -> Result<(Seq<char>, Reading), DrawKind> {
        if self.at < self.tape.len() && self.tape[self.at as int] is Text {
            Ok((self.tape[self.at as int]->Text_0@, self.next()))
        } else {
            Err(DrawKind::Text)
        }
    }

    pub open spec fn bytes(self) -> Result<(Seq<u8>, Reading), DrawKind> {
        if self.at < self.tape.len() && self.tape[self.at as int] is Bytes {
            Ok((self.tape[self.at as int]->Bytes_0@, self.next()))
        } else {
            Err(DrawKind::Bytes)
        }
    }
}

impl Draws {
    /// No choices yet.
    pub fn new() -> (r: Draws)
        ensures
            r@ == (Reading { tape: Seq::empty(), at: 0 }),
    {
        Draws { tape: Vec::new(), at: 0 }
    }

    /// Adds a choice, to be read when all before it were, and goes back to the
    /// first.
    pub fn add(&mut self, draw: Draw)
        ensures
            final(self)@ == (Reading { tape: old(self)@.tape.push(draw), at: 0 }),
    {
        self.tape.push(draw);
        self.at = 0;
    }

    pub fn draw_u8(&mut self) -> (r: Result<u8, DrawKind>)
        ensures
            match r {
                Ok(v) => old(self)@.byte() == Ok::<(u8, Reading), DrawKind>((v, final(self)@)),
                Err(k) => old(self)@.byte() == Err::<(u8, Reading), DrawKind>(k)
                    && *final(self) == *old(self),
            },
    {
        if self.at < self.tape.len() {
            if let Draw::U8(v) = &self.tape[self.at] {
                let v: u8 = *v;
                self.at = self.at + 1;
                return Ok(v);
            }
        }
        Err(DrawKind::U8)
    }

    pub fn draw_i32(&mut self) -> (r: Result<i32, DrawKind>)
        ensures
            match r {
                Ok(v) => old(self)@.word() == Ok::<(i32, Reading), DrawKind>((v, final(self)@)),
                Err(k) => old(self)@.word() == Err::<(i32, Reading), DrawKind>(k)
                    && *final(self) == *old(self),
            },
    {
        if self.at < self.tape.len() {
            if let Draw::I32(v) = &self.tape[self.at] {
                let v: i32 = *v;
                self.at = self.at + 1;
                return Ok(v);
            }
        }
        Err(DrawKind::I32)
    }

    pub fn draw_i64(&mut self) -> (r: Result<i64, DrawKind>)
        ensures
            match r {
                Ok(v) => old(self)@.long() == Ok::<(i64, Reading), DrawKind>((v, final(self)@)),
                Err(k) => old(self)@.long() == Err::<(i64, Reading), DrawKind>(k)
                    && *final(self) == *old(self),
            },
    {
        if self.at < self.tape.len() {
            if let Draw::I64(v) = &self.tape[self.at] {
                let v: i64 = *v;
                self.at = self.at + 1;
                return Ok(v);
            }
        }
        Err(DrawKind::I64)
    }

    pub fn draw_text(&mut self) -> (r: Result<Vec<char>, DrawKind>)
        ensures
            match r {
                Ok(v) => old(self)@.characters() == Ok::<(Seq<char>, Reading), DrawKind>(
                    (v@, final(self)@),
                ),
                Err(k) => old(self)@.characters() == Err::<(Seq<char>, Reading), DrawKind>(k)
                    && *final(self) == *old(self),
            },
    {
        if self.at < self.tape.len() {
            if let Draw::Text(v) = &self.tape[self.at] {
                let v = chars_of(v.as_str());
                self.at = self.at + 1;
                return Ok(v);
            }
        }
        Err(DrawKind::Text)
    }

    pub fn draw_bytes(&mut self) -> (r: Result<Vec<u8>, DrawKind>)
        ensures
            match r {
                Ok(v) => old(self)@.bytes() == Ok::<(Seq<u8>, Reading), DrawKind>(
                    (v@, final(self)@),
                ),
                Err(k) => old(self)@.bytes() == Err::<(Seq<u8>, Reading), DrawKind>(k)
                    && *final(self) == *old(self),
            },
    {
        if self.at < self.tape.len() {
            if let Draw::Bytes(v) = &self.tape[self.at] {
                let v = vstd::slice::slice_to_vec(v.as_slice());
                self.at = self.at + 1;
                return Ok(v);
            }
        }
        Err(DrawKind::Bytes)
    }
}

} // verus!
