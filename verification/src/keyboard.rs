//! Interrupt-driven keyboard driver.
//!
//! Scancode bytes read from the keyboard data port are fed one at a time to
//! a decoder (pc_keyboard's state machine for scancode set 1 with the UK
//! 105-key layout); each byte completes at most one key event, and events
//! that map to a unicode character append it to a FIFO of characters waiting
//! to be consumed. The FIFO only grows from the interrupt side
//! (`process_scancode`) and only shrinks from the consumer side
//! (`last_key`); the port read itself and the lock both sides share live at
//! the edge, which hands the byte in.

use pc_keyboard::layouts::Uk105Key;
use pc_keyboard::{DecodedKey, HandleControl, PS2Keyboard, ScancodeSet1};
use std::collections::VecDeque;
use vstd::prelude::*;

verus! {

/// Holds pc_keyboard's decoder for scancode set 1 with the UK 105-key
/// layout. Verus cannot declare that type itself (its definition carries
/// bounds of pc_keyboard's own traits), so it sits opaque in this struct and
/// is reached only through the trusted functions below.
#[verifier::external_body]
pub struct ScanDecoder {
    inner: PS2Keyboard<Uk105Key, ScancodeSet1>,
}

/// The scancode bytes a decoder has consumed since its construction.
pub uninterp spec fn fed(kb: ScanDecoder) -> Seq<u8>;

/// The unicode characters that feeding `history` to a fresh decoder yields,
/// in order. The decoder is a deterministic state machine, so this is a
/// function of the byte sequence alone.
pub uninterp spec fn chars_of(history: Seq<u8>) -> Seq<char>;

/// Relies on pc_keyboard's `PS2Keyboard::new`: a fresh decoder has consumed
/// no bytes.
#[verifier::external_body]
fn new_decoder() -> (kb: ScanDecoder)
    ensures
        fed(kb) == Seq::<u8>::empty(),
{
    ScanDecoder { inner: PS2Keyboard::new(ScancodeSet1::new(), Uk105Key, HandleControl::Ignore) }
}

/// Relies on pc_keyboard's `PS2Keyboard::add_byte` and
/// `PS2Keyboard::process_keyevent`: one byte completes at most one key
/// event, a key event maps to at most one unicode character, and what is
/// decoded depends only on the bytes fed since construction. Bytes that
/// complete no event, malformed sequences (`add_byte` reports those as an
/// error), and events without a unicode meaning all decode to nothing.
#[verifier::external_body]
fn decode_scancode(kb: &mut ScanDecoder, scancode: u8) -> (decoded: Option<char>)
    ensures
        fed(*final(kb)) == fed(*old(kb)).push(scancode),
        match decoded {
            Some(c) => chars_of(fed(*final(kb))) == chars_of(fed(*old(kb))).push(c),
            None => chars_of(fed(*final(kb))) == chars_of(fed(*old(kb))),
        },
{
    if let Ok(Some(event)) = kb.inner.add_byte(scancode) {
        if let Some(DecodedKey::Unicode(c)) = kb.inner.process_keyevent(event) {
            return Some(c);
        }
    }
    None
}

/// The keyboard device state: the scancode decoder and the FIFO of decoded
/// characters awaiting consumption.
pub struct KeyBoard {
    kb: ScanDecoder,
    buffer: VecDeque<char>,
    bytes: Ghost<Seq<u8>>,
}

impl KeyBoard {
    /// Every scancode byte fed to this keyboard since construction.
    pub closed spec fn history(&self) -> Seq<u8> {
        self.bytes@
    }

    /// The decoded characters waiting to be consumed, oldest first.
    pub closed spec fn queue(&self) -> Seq<char> {
        self.buffer@
    }

    /// The decoder has consumed exactly the recorded history.
    pub closed spec fn wf(&self) -> bool {
        fed(self.kb) == self.bytes@
    }

    pub fn new() -> (kb: KeyBoard)
        ensures
            kb.wf(),
            kb.history() == Seq::<u8>::empty(),
            kb.queue() == Seq::<char>::empty(),
    {
        let decoder = new_decoder();
        let ghost h = fed(decoder);
        KeyBoard { kb: decoder, buffer: VecDeque::new(), bytes: Ghost(h) }
    }

    /// Consume one scancode byte read from the keyboard data port. Whatever
    /// character the byte completes — at most one — is appended to the FIFO;
    /// nothing is ever removed here.
    pub fn process_scancode(&mut self, scancode: u8)
        requires
            old(self).wf(),
        ensures
            final(self).wf(),
            final(self).history() == old(self).history().push(scancode),
            final(self).queue() == old(self).queue() + chars_of(final(self).history()).skip(
                chars_of(old(self).history()).len() as int,
            ),
            old(self).queue().len() <= final(self).queue().len() <= old(self).queue().len() + 1,
    {
        let decoded = decode_scancode(&mut self.kb, scancode);
        proof {
            self.bytes@ = fed(self.kb);
        }
        match decoded {
            Some(c) => {
                self.buffer.push_back(c);
                proof {
                    assert(chars_of(self.bytes@).skip(chars_of(old(self).bytes@).len() as int)
                        =~= seq![c]);
                    assert(self.buffer@ =~= old(self).buffer@ + seq![c]);
                }
            },
            None => {
                proof {
                    assert(chars_of(self.bytes@).skip(chars_of(old(self).bytes@).len() as int)
                        =~= Seq::<char>::empty());
                    assert(self.buffer@ =~= old(self).buffer@ + Seq::<char>::empty());
                }
            },
        }
    }

    /// Pop the oldest buffered character, or report that none is available.
    /// Only the consumer side removes characters; the history of fed bytes
    /// is untouched.
    pub fn last_key(&mut self) -> (key: Option<char>)
        requires
            old(self).wf(),
        ensures
            final(self).wf(),
            final(self).history() == old(self).history(),
            match key {
                Some(c) => old(self).queue().len() > 0 && c == old(self).queue()[0]
                    && final(self).queue() == old(self).queue().drop_first(),
                None => old(self).queue().len() == 0 && final(self).queue() == old(self).queue(),
            },
    {
        self.buffer.pop_front()
    }
}

/// The hardware IRQ line the keyboard interrupts on.
pub const KEYBOARD_IRQ: u8 = 1;

/// Wire the keyboard into the dispatch machinery: register `on_key` for the
/// keyboard's IRQ line and unmask that line. Lines start masked after the
/// controller's reset, so registration alone would never see an interrupt.
pub fn init<F>(table: &mut crate::idt::IrqTable<F>, masks: &mut crate::pic::PicMasks, on_key: F) where
    F: Fn(u8),

    requires
        old(table).wf(),
        forall|x: u8| call_requires(on_key, (x,)),
    ensures
        final(table).wf(),
        final(table)@ == old(table)@.update(KEYBOARD_IRQ as int, on_key),
        *final(masks) == crate::pic::spec_clear_mask(*old(masks), KEYBOARD_IRQ),
        !crate::pic::spec_masked(*final(masks), KEYBOARD_IRQ),
{
    crate::pic::clear_irq_mask(masks, KEYBOARD_IRQ);
    crate::idt::set_handler(table, KEYBOARD_IRQ, on_key);
}

/// Consumer-side read of the next decoded character. The edge wraps this in
/// the shared lock with interrupts disabled, so the interrupt handler cannot
/// re-enter the same lock on this core; the pop itself is here.
pub fn key(kb: &mut KeyBoard) -> (k: Option<char>)
    requires
        old(kb).wf(),
    ensures
        final(kb).wf(),
        final(kb).history() == old(kb).history(),
        match k {
            Some(c) => old(kb).queue().len() > 0 && c == old(kb).queue()[0] && final(kb).queue()
                == old(kb).queue().drop_first(),
            None => old(kb).queue().len() == 0 && final(kb).queue() == old(kb).queue(),
        },
{
    kb.last_key()
}

} // verus!
