//! The single-slot holder of a pending screenshot payload.
use vstd::prelude::*;
use crate::opt_text;

verus! {

/// Holds at most one screenshot payload (a `data:` URL) until it is taken.
///
/// A write replaces whatever was pending; a take hands the payload out and empties the
/// slot, so each payload is handed out at most once. Sharing between threads is the
/// owner's business (wrap it in a lock).
pub struct ScreenshotBuffer {
    slot: Option<String>,
}

/// The slot after a write of `data`: the last write wins.
pub open spec fn after_write(slot: Option<Seq<char>>, data: Seq<char>) -> Option<Seq<char>> {
    Some(data)
}

/// What a take hands out, and the slot it leaves behind.
pub open spec fn after_take(slot: Option<Seq<char>>) -> (Option<Seq<char>>, Option<Seq<char>>) {
    (slot, None)
}

impl View for ScreenshotBuffer {
    type V = Option<Seq<char>>;

    closed spec fn view(&self) -> Option<Seq<char>> {
        opt_text(self.slot)
    }
}

impl ScreenshotBuffer {
    /// An empty slot.
    pub fn new() -> (r: ScreenshotBuffer)
        ensures
            r@ is None,
    {
        ScreenshotBuffer { slot: None }
    }

    /// Stores `data`, replacing any payload not yet taken.
    pub fn set(&mut self, data: String)
        ensures
            final(self)@ == after_write(old(self)@, data@),
    {
        self.slot = Some(data);
    }

    /// Hands out the pending payload, if any, and leaves the slot empty.
    pub fn take(&mut self) -> (r: Option<String>)
        ensures
            (opt_text(r), final(self)@) == after_take(old(self)@),
    {
        let r = self.slot.take();
        r
    }
}

/// Stores a delivered screenshot payload in `buffer`, replacing any pending one.
pub fn set_screenshot_data(buffer: &mut ScreenshotBuffer, data: String)
    ensures
        final(buffer)@ == after_write(old(buffer)@, data@),
{
    buffer.set(data);
}

/// Takes the pending screenshot payload out of `buffer`, if there is one.
pub fn take_screenshot_data(buffer: &mut ScreenshotBuffer) -> (r: Option<String>)
    ensures
        (opt_text(r), final(buffer)@) == after_take(old(buffer)@),
{
    buffer.take()
}

/// Two writes with no take between them leave only the second payload: a take then
/// returns it, and a further take returns nothing.
pub proof fn lemma_last_write_wins(slot: Option<Seq<char>>, first: Seq<char>, second: Seq<char>)
    ensures
        after_take(after_write(after_write(slot, first), second)).0 == Some(second),
        after_take(after_take(after_write(after_write(slot, first), second)).1).0 is None,
{
}

} // verus!
