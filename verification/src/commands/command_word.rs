//! Coprocessor command words, and the packing of byte data into them.

use crate::low_level::le32_value;
use vstd::prelude::*;
use vstd::std_specs::convert::FromSpecImpl;

verus! {

/// One 32-bit word of a coprocessor command.
#[derive(Clone, Copy, PartialEq, Eq, Debug)]
pub struct CommandWord(u32);

impl View for CommandWord {
    type V = u32;

    /// The raw word.
    closed spec fn view(&self) -> u32 {
        self.0
    }
}

impl CommandWord {
    pub fn to_raw(&self) -> (r: u32)
        ensures
            r == self@,
    {
        self.0
    }
}

impl From<u32> for CommandWord {
    fn from(v: u32) -> (r: Self) {
        CommandWord(v)
    }
}

impl FromSpecImpl<u32> for CommandWord {
    open spec fn obeys_from_spec() -> bool {
        true
    }

    open spec fn from_spec(v: u32) -> Self {
        CommandWord::spec_new(v)
    }
}

impl From<i32> for CommandWord {
    fn from(v: i32) -> (r: Self) {
        CommandWord(v as u32)
    }
}

impl FromSpecImpl<i32> for CommandWord {
    open spec fn obeys_from_spec() -> bool {
        true
    }

    /// The two's complement bits of the value.
    open spec fn from_spec(v: i32) -> Self {
        CommandWord::spec_new(v as u32)
    }
}

impl From<(u16, u16)> for CommandWord {
    fn from(v: (u16, u16)) -> (r: Self) {
        CommandWord((v.0 as u32) | (v.1 as u32) << 16)
    }
}

impl FromSpecImpl<(u16, u16)> for CommandWord {
    open spec fn obeys_from_spec() -> bool {
        true
    }

    /// The first value in the low half, the second in the high half.
    open spec fn from_spec(v: (u16, u16)) -> Self {
        CommandWord::spec_new((v.0 as u32) | (v.1 as u32) << 16)
    }
}

impl From<(i16, i16)> for CommandWord {
    fn from(v: (i16, i16)) -> (r: Self) {
        let a = v.0 as i32;
        let b = v.1 as i32;
        CommandWord((a as u32) | (b as u32) << 16)
    }
}

impl FromSpecImpl<(i16, i16)> for CommandWord {
    open spec fn obeys_from_spec() -> bool {
        true
    }

    /// The sign-extended first value, with the second one shifted into the
    /// high half.
    open spec fn from_spec(v: (i16, i16)) -> Self {
        CommandWord::spec_new(((v.0 as i32) as u32) | ((v.1 as i32) as u32) << 16)
    }
}

impl From<(u8, u8, u8, u8)> for CommandWord {
    fn from(v: (u8, u8, u8, u8)) -> (r: Self) {
        CommandWord((v.0 as u32) | (v.1 as u32) << 8 | (v.2 as u32) << 16 | (v.3 as u32) << 24)
    }
}

impl FromSpecImpl<(u8, u8, u8, u8)> for CommandWord {
    open spec fn obeys_from_spec() -> bool {
        true
    }

    /// The four bytes, least significant first.
    open spec fn from_spec(v: (u8, u8, u8, u8)) -> Self {
        CommandWord::spec_new(le32_value(seq![v.0, v.1, v.2, v.3]))
    }
}

impl CommandWord {
    /// The command word holding `v`.
    pub closed spec fn spec_new(v: u32) -> Self {
        CommandWord(v)
    }

    /// The word that `spec_new` makes holds the value it was given.
    pub proof fn lemma_spec_new(v: u32)
        ensures
            Self::spec_new(v)@ == v,
    {
    }
}

/// Byte `k` of `bytes`, or zero past their end, as the padding at the end of
/// the last command word.
pub open spec fn padded_byte(bytes: Seq<u8>, k: int) -> u8 {
    if 0 <= k < bytes.len() {
        bytes[k]
    } else {
        0
    }
}

/// Command word `i` of the packing of `bytes`: the four bytes from `4 * i`
/// on, least significant first, with zeros past the end of the bytes.
pub open spec fn word_at(bytes: Seq<u8>, i: int) -> u32 {
    le32_value(
        seq![
            padded_byte(bytes, 4 * i),
            padded_byte(bytes, 4 * i + 1),
            padded_byte(bytes, 4 * i + 2),
            padded_byte(bytes, 4 * i + 3),
        ],
    )
}

/// The number of command words that `n` bytes take: `n / 4`, rounded up.
pub open spec fn word_count(n: nat) -> nat {
    (n + 3) / 4
}

/// The command words that pack `bytes`, in order.
pub open spec fn words_for_bytes(bytes: Seq<u8>) -> Seq<u32> {
    Seq::new(word_count(bytes.len()), |i: int| word_at(bytes, i))
}

/// Produces the command words that carry a run of bytes, four bytes to a
/// word, least significant first, with the last word padded with zeros.
pub struct ByteToCommandIter<'a> {
    bytes: &'a [u8],
    pos: usize,
}

impl<'a> ByteToCommandIter<'a> {
    /// The bytes that are still to be packed.
    pub closed spec fn remaining(&self) -> Seq<u8> {
        self.bytes@.subrange(self.pos as int, self.bytes@.len() as int)
    }

    #[verifier::type_invariant]
    closed spec fn pos_in_range(self) -> bool {
        self.pos <= self.bytes@.len()
    }

    /// Returns the next command word, or `None` once all of the bytes are
    /// packed.
    pub fn next(&mut self) -> (r: Option<CommandWord>)
        ensures
            old(self).remaining().len() == 0 ==> r is None && final(self).remaining() == old(self).remaining(),
            old(self).remaining().len() > 0 ==> (r matches Some(w) && w@ == word_at(old(self).remaining(), 0)
                && final(self).remaining() == old(self).remaining().skip(
                    if old(self).remaining().len() < 4 {
                        old(self).remaining().len() as int
                    } else {
                        4
                    },
                )),
    {
        proof {
            use_type_invariant(&*self);
        }
        let len = self.bytes.len();
        let pos = self.pos;
        if pos >= len {
            return None;
        }
        let ghost rem = self.remaining();
        let n = len - pos;
        let b0: u8 = self.bytes[pos];
        let b1: u8 = if n > 1 { self.bytes[pos + 1] } else { 0 };
        let b2: u8 = if n > 2 { self.bytes[pos + 2] } else { 0 };
        let b3: u8 = if n > 3 { self.bytes[pos + 3] } else { 0 };
        let raw: u32 = (b0 as u32) | (b1 as u32) << 8 | (b2 as u32) << 16 | (b3 as u32) << 24;
        let step: usize = if n < 4 { n } else { 4 };
        self.pos = pos + step;
        proof {
            assert(seq![
                padded_byte(rem, 0),
                padded_byte(rem, 1),
                padded_byte(rem, 2),
                padded_byte(rem, 3),
            ] =~= seq![b0, b1, b2, b3]);
            assert(self.remaining() =~= rem.skip(step as int));
        }
        Some(CommandWord(raw))
    }

    /// The number of command words still to come: the remaining bytes
    /// divided by four, rounded up.
    pub fn len(&self) -> (r: usize)
        ensures
            r == word_count(self.remaining().len()),
    {
        proof {
            use_type_invariant(self);
        }
        let n = self.bytes.len() - self.pos;
        n / 4 + if n % 4 == 0 { 0 } else { 1 }
    }
}

/// Returns a producer of the command words that pack `bytes`.
pub fn command_words_for_bytes_iter<'a>(bytes: &'a [u8]) -> (r: ByteToCommandIter<'a>)
    ensures
        r.remaining() == bytes@,
{
    let r = ByteToCommandIter { bytes: bytes, pos: 0 };
    assert(r.remaining() =~= bytes@);
    r
}

/// Taking one word from the front of `bytes` leaves the words of the bytes
/// after it: the words of `bytes` are its first word followed by the words
/// of the rest.
pub proof fn lemma_words_for_bytes_step(bytes: Seq<u8>)
    requires
        bytes.len() > 0,
    ensures
        words_for_bytes(bytes) == seq![word_at(bytes, 0)] + words_for_bytes(
            bytes.skip(if bytes.len() < 4 { bytes.len() as int } else { 4 }),
        ),
{
    let step: int = if bytes.len() < 4 { bytes.len() as int } else { 4 };
    let rest = bytes.skip(step);
    let a = words_for_bytes(bytes);
    let b = seq![word_at(bytes, 0)] + words_for_bytes(rest);
    assert(word_count(bytes.len()) == word_count(rest.len()) + 1);
    assert forall|i: int| 0 < i < a.len() implies a[i] == b[i] by {
        assert(step == 4);
        assert(padded_byte(bytes, 4 * i) == padded_byte(rest, 4 * (i - 1)));
        assert(padded_byte(bytes, 4 * i + 1) == padded_byte(rest, 4 * (i - 1) + 1));
        assert(padded_byte(bytes, 4 * i + 2) == padded_byte(rest, 4 * (i - 1) + 2));
        assert(padded_byte(bytes, 4 * i + 3) == padded_byte(rest, 4 * (i - 1) + 3));
    }
    assert(a =~= b);
}


/// The bytes of command word `i` are the bytes it packs: the four bytes from
/// `4 * i` on, with zeros past the end.
pub proof fn lemma_word_at_bytes(bytes: Seq<u8>, i: int)
    ensures
        crate::low_level::le32_bytes(word_at(bytes, i)) == seq![
            padded_byte(bytes, 4 * i),
            padded_byte(bytes, 4 * i + 1),
            padded_byte(bytes, 4 * i + 2),
            padded_byte(bytes, 4 * i + 3),
        ],
{
    crate::low_level::lemma_le32_bytes_of_value(
        seq![
            padded_byte(bytes, 4 * i),
            padded_byte(bytes, 4 * i + 1),
            padded_byte(bytes, 4 * i + 2),
            padded_byte(bytes, 4 * i + 3),
        ],
    );
}

/// `n` bytes make `n / 4` words, rounded up: every byte lands in a word and
/// fewer than four padding bytes are added.
pub proof fn lemma_word_count(n: nat)
    ensures
        4 * word_count(n) >= n,
        4 * word_count(n) < n + 4,
{
}

} // verus!
