use vstd::prelude::*;

verus! {

/// The loop-prevention guard: the last text either broadcast from this
/// host or applied from a peer.
///
/// A text equal to the guard is already synchronized: it is neither
/// broadcast again nor written to the clipboard again. The guard does not
/// tell a received text from the same text copied again by hand; both are
/// deduplicated alike.
pub struct LoopGuard {
    last: String,
}

impl View for LoopGuard {
    type V = Seq<char>;

    closed spec fn view(&self) -> Seq<char> {
        self.last@
    }
}

/// The guard's value when it could be read, `None` when it was contended.
pub open spec fn guard_view(guard: Option<&LoopGuard>) -> Option<Seq<char>> {
    match guard {
        Some(g) => Some(g@),
        None => None,
    }
}

impl LoopGuard {
    /// A guard holding the empty text.
    pub fn new() -> (g: Self)
        ensures
            g@ == Seq::<char>::empty(),
    {
        LoopGuard { last: String::new() }
    }

    pub fn with_text(text: String) -> (g: Self)
        ensures
            g@ == text@,
    {
        LoopGuard { last: text }
    }

    pub fn text(&self) -> (r: &String)
        ensures
            r@ == self@,
    {
        &self.last
    }

    /// Whether `text` is the text the guard holds.
    pub fn holds(&self, text: &String) -> (r: bool)
        ensures
            r == (self@ == text@),
    {
        self.last == *text
    }

    /// Sets the guard to `text`.
    pub fn record(&mut self, text: String)
        ensures
            final(self)@ == text@,
    {
        self.last = text;
    }

    /// Records the outcome of writing a received `text` to the clipboard:
    /// the guard takes the text on success and is left alone on failure.
    pub fn after_apply(&mut self, text: String, applied: bool)
        ensures
            final(self)@ == (if applied { text@ } else { old(self)@ }),
    {
        if applied {
            self.last = text;
        }
    }
}

} // verus!
