//! Where the report goes.

use vstd::prelude::*;
use vstd::string::*;

verus! {

/// The place that report text is written to.
///
/// A sink hands every piece of text on to the host as soon as it arrives,
/// and keeps a copy of all of it. Handing on is best effort: whatever the
/// host does with the text, the run goes on.
pub struct Sink<W> {
    forward: W,
    colored: bool,
    text: String,
}

impl<W: Fn(&str)> Sink<W> {
    /// The host takes any text.
    pub closed spec fn wf(&self) -> bool {
        forall|piece: &str| call_requires(self.forward, (piece,))
    }

    /// Everything written so far.
    pub closed spec fn text(&self) -> Seq<char> {
        self.text@
    }

    /// Whether markers are wrapped in terminal colour codes.
    pub closed spec fn colored(&self) -> bool {
        self.colored
    }

    /// Whether the host has been handed `piece` and has returned.
    pub closed spec fn handed(&self, piece: &str) -> bool {
        call_ensures(self.forward, (piece,), ())
    }

    /// A sink with nothing written to it that hands text on to `forward`.
    pub fn new(forward: W, colored: bool) -> (sink: Self)
        requires
            forall|piece: &str| call_requires(forward, (piece,)),
        ensures
            sink.wf(),
            sink.text() == Seq::<char>::empty(),
            sink.colored() == colored,
    {
        Sink { forward, colored, text: String::new() }
    }

    /// Whether markers are wrapped in terminal colour codes.
    pub fn is_colored(&self) -> (b: bool)
        ensures
            b == self.colored(),
    {
        self.colored
    }

    /// Everything written so far.
    pub fn written(&self) -> (s: &str)
        ensures
            s@ == self.text(),
    {
        self.text.as_str()
    }

    /// Writes a piece of text: hands it to the host, then adds it to what is
    /// kept.
    pub fn write(&mut self, piece: &str)
        requires
            old(self).wf(),
        ensures
            final(self).wf(),
            final(self).colored() == old(self).colored(),
            final(self).text() == old(self).text() + piece@,
            final(self).handed(piece),
    {
        (self.forward)(piece);
        self.text.append(piece);
    }
}

} // verus!
