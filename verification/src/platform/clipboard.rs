//! The windows clipboard.
//!
//! A write is driven step by step: the caller performs the step it is told, hands back what came of
//! it, and is told the next step until the write finishes.
use vstd::prelude::*;

#[allow(unused_imports)]
use vstd::utf8::{decode_utf8, encode_utf8, encode_utf8_decode_utf8, valid_utf8};

use crate::utf16::encode_wide_nul;
#[allow(unused_imports)]
use crate::utf16::{decode_lossy_spec, decode_undoes_encode, encode_utf16_spec};
use crate::win32::Handle;

verus! {

/// Clipboard format of NUL-terminated UTF-16 text.
pub const CF_UNICODETEXT: u32 = 13;

/// What the caller of a clipboard write does next.
#[derive(Clone, Copy, Debug, PartialEq, Eq, Structural)]
pub enum ClipboardStep {
    /// Open the clipboard.
    Open,
    /// Empty it; whether that works does not matter.
    Empty,
    /// Allocate a movable block for this many 16-bit units.
    Allocate { units: usize },
    /// Lock the block into memory.
    Lock { block: Handle },
    /// Copy the text into the locked block and unlock it.
    Fill { block: Handle },
    /// Hand the block to the clipboard.
    Publish { block: Handle, format: u32 },
    /// Close the clipboard.
    Close { ok: bool },
    /// The write is over.
    Finish { ok: bool },
}

/// What came of a step.
#[derive(Clone, Copy, Debug, PartialEq, Eq, Structural)]
pub enum ClipboardReply {
    Opened { ok: bool },
    Emptied,
    /// The block, null if there is none.
    Allocated { block: Handle },
    /// The block's address, null if it could not be locked.
    Locked { address: Handle },
    Filled,
    Published { ok: bool },
    Closed,
}

/// A clipboard write in progress.
#[derive(Debug)]
pub struct ClipboardWrite {
    /// NUL-terminated text to put on the clipboard.
    pub wide: Vec<u16>,
    pub step: ClipboardStep,
}

impl ClipboardStep {
    /// The reply is one to this step.
    pub open spec fn expects(self, reply: ClipboardReply) -> bool {
        match self {
            ClipboardStep::Open => reply is Opened,
            ClipboardStep::Empty => reply is Emptied,
            ClipboardStep::Allocate { .. } => reply is Allocated,
            ClipboardStep::Lock { .. } => reply is Locked,
            ClipboardStep::Fill { .. } => reply is Filled,
            ClipboardStep::Publish { .. } => reply is Published,
            ClipboardStep::Close { .. } => reply is Closed,
            ClipboardStep::Finish { .. } => false,
        }
    }

    /// The step that follows a reply, in a write of `units` units.
    pub open spec fn after(self, units: usize, reply: ClipboardReply) -> ClipboardStep {
        match (self, reply) {
            (ClipboardStep::Open, ClipboardReply::Opened { ok }) => if ok {
                ClipboardStep::Empty
            } else {
                ClipboardStep::Finish { ok: false }
            },
            (ClipboardStep::Empty, _) => ClipboardStep::Allocate { units },
            (ClipboardStep::Allocate { .. }, ClipboardReply::Allocated { block }) => if block.bits
                == 0 {
                ClipboardStep::Close { ok: false }
            } else {
                ClipboardStep::Lock { block }
            },
            (ClipboardStep::Lock { block }, ClipboardReply::Locked { address }) => if address.bits
                == 0 {
                ClipboardStep::Close { ok: false }
            } else {
                ClipboardStep::Fill { block }
            },
            (ClipboardStep::Fill { block }, _) => ClipboardStep::Publish {
                block,
                format: CF_UNICODETEXT,
            },
            (ClipboardStep::Publish { .. }, ClipboardReply::Published { ok }) => {
                ClipboardStep::Close { ok }
            },
            (ClipboardStep::Close { ok }, _) => ClipboardStep::Finish { ok },
            _ => self,
        }
    }
}

impl ClipboardWrite {
    /// Takes the reply to the current step and moves to the next one.
    pub fn advance(&mut self, reply: ClipboardReply)
        requires
            old(self).step.expects(reply),
        ensures
            final(self).wide == old(self).wide,
            final(self).step == old(self).step.after(old(self).wide.len(), reply),
    {
        let units: usize = self.wide.len();
        let next = match (self.step, reply) {
            (ClipboardStep::Open, ClipboardReply::Opened { ok }) => if ok {
                ClipboardStep::Empty
            } else {
                ClipboardStep::Finish { ok: false }
            },
            (ClipboardStep::Empty, _) => ClipboardStep::Allocate { units },
            (ClipboardStep::Allocate { .. }, ClipboardReply::Allocated { block }) => {
                if block.is_null() {
                    ClipboardStep::Close { ok: false }
                } else {
                    ClipboardStep::Lock { block }
                }
            },
            (ClipboardStep::Lock { block }, ClipboardReply::Locked { address }) => {
                if address.is_null() {
                    ClipboardStep::Close { ok: false }
                } else {
                    ClipboardStep::Fill { block }
                }
            },
            (ClipboardStep::Fill { block }, _) => ClipboardStep::Publish {
                block,
                format: CF_UNICODETEXT,
            },
            (ClipboardStep::Publish { .. }, ClipboardReply::Published { ok }) => {
                ClipboardStep::Close { ok }
            },
            (ClipboardStep::Close { ok }, _) => ClipboardStep::Finish { ok },
            (step, _) => step,
        };
        self.step = next;
    }
}

/// `std::str::from_utf8` takes exactly the valid UTF-8 byte sequences, and yields the text with
/// those bytes.
#[verifier::external_body]
fn text_of_utf8(bytes: &[u8]) -> (text: Option<&str>)
    ensures
        text is Some <==> valid_utf8(bytes@),
        text matches Some(t) ==> encode_utf8(t@) == bytes@,
{
    std::str::from_utf8(bytes).ok()
}

/// Begins to write a text to the clipboard.
pub fn write_clipboard_text(text: &str) -> (write: ClipboardWrite)
    ensures
        write.wide@ == encode_utf16_spec(text@).push(0),
        write.step == ClipboardStep::Open,
{
    // The clipboard expects NUL-terminated wide characters.
    ClipboardWrite { wide: encode_wide_nul(text), step: ClipboardStep::Open }
}

/// Begins to write bytes to the clipboard; only valid UTF-8 can be written.
pub fn write_clipboard(bytes: &[u8]) -> (write: Option<ClipboardWrite>)
    ensures
        write is Some <==> valid_utf8(bytes@),
        write matches Some(w) ==> {
            &&& w.wide@ == encode_utf16_spec(decode_utf8(bytes@)).push(0)
            &&& w.step == ClipboardStep::Open
        },
{
    match text_of_utf8(bytes) {
        Some(text) => {
            proof {
                encode_utf8_decode_utf8(text@);
            }
            Some(write_clipboard_text(text))
        },
        None => None,
    }
}

/// An image taken from the clipboard.
#[derive(Debug)]
pub struct ClipboardImage {
    pub bytes: Vec<u8>,
}

/// The image on the clipboard. Images are not read on windows, so there never is one.
pub fn read_clipboard_image() -> (image: Option<ClipboardImage>)
    ensures
        image is None,
{
    None
}

/// The answers that the system has ready for the calls of one clipboard write, made or not.
pub struct ClipboardAnswers {
    pub opened: bool,
    pub block: Handle,
    pub address: Handle,
    pub published: bool,
}

impl ClipboardAnswers {
    /// The reply to a step.
    pub open spec fn reply_to(self, step: ClipboardStep) -> ClipboardReply {
        match step {
            ClipboardStep::Open => ClipboardReply::Opened { ok: self.opened },
            ClipboardStep::Empty => ClipboardReply::Emptied,
            ClipboardStep::Allocate { .. } => ClipboardReply::Allocated { block: self.block },
            ClipboardStep::Lock { .. } => ClipboardReply::Locked { address: self.address },
            ClipboardStep::Fill { .. } => ClipboardReply::Filled,
            ClipboardStep::Publish { .. } => ClipboardReply::Published { ok: self.published },
            ClipboardStep::Close { .. } | ClipboardStep::Finish { .. } => ClipboardReply::Closed,
        }
    }

    /// Every call that matters succeeds.
    pub open spec fn all_succeed(self) -> bool {
        self.opened && self.block.bits != 0 && self.address.bits != 0 && self.published
    }
}

/// The step after at most `n` steps that meet `answers`.
pub open spec fn clipboard_run(
    step: ClipboardStep,
    units: usize,
    answers: ClipboardAnswers,
    n: nat,
) -> ClipboardStep
    decreases n,
{
    if n == 0 || step is Finish {
        step
    } else {
        clipboard_run(step.after(units, answers.reply_to(step)), units, answers, (n - 1) as nat)
    }
}

/// A clipboard write is over after at most seven steps, and reports success exactly when every call
/// succeeded.
pub proof fn clipboard_write_succeeds_as_a_whole(units: usize, answers: ClipboardAnswers)
    ensures
        clipboard_run(ClipboardStep::Open, units, answers, 7) == (ClipboardStep::Finish {
            ok: answers.all_succeed(),
        }),
{
    reveal_with_fuel(clipboard_run, 8);
}

/// A clipboard that was opened is closed before the write is over: only a failed open ends a write
/// without closing.
pub proof fn opened_clipboard_is_closed(step: ClipboardStep, units: usize, reply: ClipboardReply)
    requires
        step.expects(reply),
        step.after(units, reply) is Finish,
    ensures
        step is Close || (step is Open && reply == (ClipboardReply::Opened { ok: false })),
{
}

/// What is put on the clipboard reads back as the text of the bytes.
pub proof fn clipboard_text_reads_back(bytes: Seq<u8>)
    requires
        valid_utf8(bytes),
    ensures
        decode_lossy_spec(encode_utf16_spec(decode_utf8(bytes)).push(0).drop_last())
            == decode_utf8(bytes),
{
    let units = encode_utf16_spec(decode_utf8(bytes));
    assert(units.push(0).drop_last() =~= units);
    decode_undoes_encode(decode_utf8(bytes));
}

/// What a clipboard write asks of the system when all goes well, step by step: after opening and
/// emptying it, room for all units, its address, the text, and the block as Unicode text; then the
/// clipboard is closed.
pub proof fn clipboard_writes_take_their_steps(units: usize, answers: ClipboardAnswers)
    requires
        answers.opened,
        answers.block.bits != 0,
        answers.address.bits != 0,
        answers.published,
    ensures
        ({
            let open = ClipboardStep::Open;
            let block = answers.block;
            &&& clipboard_run(open, units, answers, 1) == ClipboardStep::Empty
            &&& clipboard_run(open, units, answers, 2) == (ClipboardStep::Allocate { units })
            &&& clipboard_run(open, units, answers, 3) == (ClipboardStep::Lock { block })
            &&& clipboard_run(open, units, answers, 4) == (ClipboardStep::Fill { block })
            &&& clipboard_run(open, units, answers, 5) == (ClipboardStep::Publish {
                block,
                format: 13,
            })
            &&& clipboard_run(open, units, answers, 6) == (ClipboardStep::Close { ok: true })
            &&& clipboard_run(open, units, answers, 7) == (ClipboardStep::Finish { ok: true })
        }),
{
    reveal_with_fuel(clipboard_run, 8);
}

/// A clipboard write with any call that fails reports failure, after closing the clipboard if it was
/// opened; nothing is done to a clipboard that was not.
pub proof fn failed_clipboard_writes_say_so(units: usize, answers: ClipboardAnswers)
    requires
        !answers.opened || answers.block.bits == 0 || answers.address.bits == 0
            || !answers.published,
    ensures
        ({
            let open = ClipboardStep::Open;
            let closing = ClipboardStep::Close { ok: false };
            let (b, l) = (answers.block.bits != 0, answers.address.bits != 0);
            &&& clipboard_run(open, units, answers, 7) == (ClipboardStep::Finish { ok: false })
            &&& !answers.opened ==> clipboard_run(open, units, answers, 1) == (
            ClipboardStep::Finish { ok: false })
            &&& answers.opened && !b ==> clipboard_run(open, units, answers, 3) == closing
            &&& answers.opened && b && !l ==> clipboard_run(open, units, answers, 4) == closing
            &&& answers.opened && b && l ==> clipboard_run(open, units, answers, 6) == closing
        }),
{
    reveal_with_fuel(clipboard_run, 8);
}

} // verus!
