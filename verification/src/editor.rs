//! The content buffer and the tracking of unsaved changes.
//!
//! Changes are detected by comparing fingerprints of the buffer: its length
//! in bytes together with a checksum over those bytes.

use vstd::prelude::*;
use vstd::utf8::encode_utf8;

verus! {

/// Modulus of the checksum: the largest prime below 2^32.
pub const CHECKSUM_MODULUS: u64 = 4294967291;

/// Multiplier of the checksum.
pub const CHECKSUM_BASE: u64 = 257;

/// A summary of a text that changes when the text does, up to collisions of
/// the checksum among texts of one length.
#[derive(Clone, Copy, Debug, PartialEq, Eq, Structural)]
pub struct Fingerprint {
    /// Length of the text in bytes.
    pub length: u64,
    /// Checksum over the bytes of the text.
    pub checksum: u64,
}

/// The checksum of a sequence of bytes: a polynomial in the base, with each
/// byte raised by one so that leading zero bytes count, modulo the modulus.
pub open spec fn checksum(bytes: Seq<u8>) -> nat
    decreases bytes.len(),
{
    if bytes.len() == 0 {
        0
    } else {
        ((checksum(bytes.drop_last()) * CHECKSUM_BASE + bytes.last() + 1) % (
        CHECKSUM_MODULUS as int)) as nat
    }
}

/// The fingerprint of a text: the length and the checksum of its encoding.
pub open spec fn fingerprint_of(content: Seq<char>) -> Fingerprint {
    let bytes = encode_utf8(content);
    Fingerprint { length: bytes.len() as u64, checksum: checksum(bytes) as u64 }
}

impl Fingerprint {
    /// Whether this is the fingerprint of a text without bytes.
    pub open spec fn is_empty(self) -> bool {
        self.length == 0
    }

    /// Tests whether this is the fingerprint of a text without bytes.
    pub fn empty(&self) -> (r: bool)
        ensures
            r == self.is_empty(),
    {
        self.length == 0
    }
}

/// The empty text has the fingerprint with length and checksum zero; a text
/// that holds a character has a fingerprint that is not empty, as long as its
/// encoding is shorter than 2^64 bytes.
pub proof fn lemma_fingerprint_of_empty(content: Seq<char>)
    ensures
        content.len() == 0 ==> fingerprint_of(content) == (Fingerprint { length: 0, checksum: 0 }),
        content.len() > 0 && encode_utf8(content).len() <= u64::MAX ==> !fingerprint_of(
            content,
        ).is_empty(),
{
    if content.len() > 0 {
        let first = vstd::utf8::encode_scalar(content[0] as u32);
        assert(first.len() >= 1);
        assert(encode_utf8(content).len() == first.len() + encode_utf8(content.drop_first()).len());
    }
}

/// Computes the fingerprint of `content`.
pub fn fingerprint(content: &str) -> (f: Fingerprint)
    ensures
        f == fingerprint_of(content@),
{
    let bytes = content.as_bytes();
    let n = bytes.len();
    let mut sum: u64 = 0;
    let mut i: usize = 0;
    assert(bytes@.take(0) =~= Seq::<u8>::empty());
    while i < n
        invariant
            n == bytes@.len(),
            i <= n,
            sum == checksum(bytes@.take(i as int)),
            sum < CHECKSUM_MODULUS,
        decreases n - i,
    {
        proof {
            let next = bytes@.take(i + 1);
            assert(next.drop_last() =~= bytes@.take(i as int));
            assert(next.last() == bytes@[i as int]);
        }
        let byte: u64 = bytes[i] as u64;
        sum = (sum * CHECKSUM_BASE + byte + 1) % CHECKSUM_MODULUS;
        i += 1;
    }
    assert(bytes@.take(n as int) =~= bytes@);
    Fingerprint { length: n as u64, checksum: sum }
}

/// Decides whether the buffer holds changes that no write has taken in.
///
/// The tracker keeps the fingerprint of the buffer at the last save or load,
/// the fingerprint after the last edit, and whether an edit since then has
/// changed the fingerprint to one that is not empty.
#[derive(Clone, Copy, Debug, PartialEq, Eq, Structural)]
pub struct DirtyTracker {
    /// Fingerprint of the content that was last saved or loaded.
    pub baseline: Fingerprint,
    /// Fingerprint of the content after the last edit.
    pub current: Fingerprint,
    /// Whether an edit since the baseline changed the fingerprint to one
    /// that is not empty.
    pub touched: bool,
}

impl DirtyTracker {
    /// The tracker of a buffer that was just saved or loaded with
    /// fingerprint `f`.
    pub open spec fn at(f: Fingerprint) -> DirtyTracker {
        DirtyTracker { baseline: f, current: f, touched: false }
    }

    /// Whether the buffer holds unsaved changes: an edit has touched it, or
    /// its fingerprint differs from the baseline.
    pub open spec fn dirty(self) -> bool {
        self.touched || self.current != self.baseline
    }

    /// The tracker after an edit that leaves the buffer with fingerprint `f`.
    pub open spec fn recorded(self, f: Fingerprint) -> DirtyTracker {
        DirtyTracker {
            baseline: self.baseline,
            current: f,
            touched: self.touched || (f != self.current && !f.is_empty()),
        }
    }

    /// The tracker after a write has taken in content with fingerprint `f`.
    pub open spec fn rebased(self, f: Fingerprint) -> DirtyTracker {
        DirtyTracker { baseline: f, current: self.current, touched: false }
    }

    /// A tracker for a buffer whose content, with fingerprint `f`, counts as
    /// saved.
    pub fn new(f: Fingerprint) -> (t: DirtyTracker)
        ensures
            t == DirtyTracker::at(f),
            !t.dirty(),
    {
        DirtyTracker { baseline: f, current: f, touched: false }
    }

    /// Whether the buffer holds unsaved changes.
    pub fn is_dirty(&self) -> (r: bool)
        ensures
            r == self.dirty(),
    {
        self.touched || self.current != self.baseline
    }

    /// Takes note of an edit that leaves the buffer with fingerprint `f`.
    pub fn record(&mut self, f: Fingerprint)
        ensures
            *final(self) == old(self).recorded(f),
            f != old(self).current && !f.is_empty() ==> final(self).dirty(),
            old(self).dirty() && f != old(self).baseline ==> final(self).dirty(),
    {
        let changed = f != self.current && !f.empty();
        self.touched = self.touched || changed;
        self.current = f;
    }

    /// Makes `f`, the fingerprint of the content just written, the baseline.
    pub fn rebaseline(&mut self, f: Fingerprint)
        ensures
            *final(self) == old(self).rebased(f),
            final(self).dirty() == (old(self).current != f),
    {
        self.baseline = f;
        self.touched = false;
    }
}

/// The text panel's buffer together with its tracker.
pub struct Editor {
    content: String,
    tracker: DirtyTracker,
}

/// The mathematical value of an [`Editor`].
pub ghost struct EditorView {
    pub content: Seq<char>,
    pub tracker: DirtyTracker,
}

impl EditorView {
    /// The tracker follows the buffer: its current fingerprint is that of
    /// the content.
    pub open spec fn wf(self) -> bool {
        self.tracker.current == fingerprint_of(self.content)
    }

    /// An empty buffer that counts as saved.
    pub open spec fn empty() -> EditorView {
        EditorView {
            content: Seq::empty(),
            tracker: DirtyTracker::at(fingerprint_of(Seq::empty())),
        }
    }

    /// Whether the buffer holds unsaved changes.
    pub open spec fn dirty(self) -> bool {
        self.tracker.dirty()
    }

    /// The editor after the text panel reported `content` as the new text.
    pub open spec fn edited(self, content: Seq<char>) -> EditorView {
        EditorView { content, tracker: self.tracker.recorded(fingerprint_of(content)) }
    }

    /// The editor after `content` was loaded in place of the buffer.
    pub open spec fn replaced(self, content: Seq<char>) -> EditorView {
        EditorView { content, tracker: DirtyTracker::at(fingerprint_of(content)) }
    }

    /// The editor after a write of `written` succeeded.
    pub open spec fn saved(self, written: Seq<char>) -> EditorView {
        EditorView { content: self.content, tracker: self.tracker.rebased(fingerprint_of(written)) }
    }
}

impl View for Editor {
    type V = EditorView;

    closed spec fn view(&self) -> EditorView {
        EditorView { content: self.content@, tracker: self.tracker }
    }
}

impl Default for Editor {
    fn default() -> (e: Editor)
        ensures
            e@ == EditorView::empty(),
    {
        Editor::new()
    }
}

impl Editor {
    #[verifier::type_invariant]
    spec fn inv(self) -> bool {
        self@.wf()
    }

    /// An editor with an empty buffer and nothing to save.
    pub fn new() -> (e: Editor)
        ensures
            e@ == EditorView::empty(),
            e@.wf(),
            !e@.dirty(),
    {
        let content = String::new();
        let f = fingerprint(content.as_str());
        Editor { content, tracker: DirtyTracker::new(f) }
    }

    /// The text in the buffer.
    pub fn content(&self) -> (s: &str)
        ensures
            s@ == self@.content,
    {
        self.content.as_str()
    }

    /// The tracker of the buffer.
    pub fn tracker(&self) -> (t: DirtyTracker)
        ensures
            t == self@.tracker,
            self@.wf(),
    {
        proof {
            use_type_invariant(self);
        }
        self.tracker
    }

    /// Whether the buffer holds unsaved changes.
    pub fn is_dirty(&self) -> (r: bool)
        ensures
            r == self@.dirty(),
            self@.wf(),
    {
        proof {
            use_type_invariant(self);
        }
        self.tracker.is_dirty()
    }

    /// Takes the text that the panel reports after a change.
    ///
    /// The buffer becomes `content`. The edit counts as an unsaved change
    /// where it changes the fingerprint to one that is not empty.
    pub fn edit(&mut self, content: String)
        ensures
            final(self)@ == old(self)@.edited(content@),
            final(self)@.wf(),
            fingerprint_of(content@) != old(self)@.tracker.current && !fingerprint_of(
                content@,
            ).is_empty() ==> final(self)@.dirty(),
    {
        let f = fingerprint(content.as_str());
        let mut tracker = self.tracker;
        tracker.record(f);
        *self = Editor { content, tracker };
    }

    /// Puts `content` in place of the buffer, unless the buffer holds
    /// unsaved changes.
    ///
    /// Returns whether the buffer was replaced. A replaced buffer counts as
    /// saved; a refused replacement leaves the editor as it was.
    pub fn replace(&mut self, content: String) -> (done: bool)
        ensures
            done == !old(self)@.dirty(),
            done ==> final(self)@ == old(self)@.replaced(content@),
            done ==> !final(self)@.dirty(),
            !done ==> final(self)@ == old(self)@,
            final(self)@.wf(),
    {
        proof {
            use_type_invariant(&*self);
        }
        if self.tracker.is_dirty() {
            return false;
        }
        let f = fingerprint(content.as_str());
        *self = Editor { content, tracker: DirtyTracker::new(f) };
        true
    }

    /// Takes note that a write has taken in the buffer as it stands: the
    /// fingerprint of the buffer becomes the baseline, and nothing is
    /// unsaved.
    pub fn kept(&mut self)
        ensures
            final(self)@ == old(self)@.saved(old(self)@.content),
            final(self)@.wf(),
            !final(self)@.dirty(),
    {
        proof {
            use_type_invariant(&*self);
        }
        let mut tracker = self.tracker;
        tracker.rebaseline(self.tracker.current);
        self.tracker = tracker;
    }

    /// Takes note that a write of `written` succeeded: its fingerprint
    /// becomes the baseline.
    ///
    /// Afterwards the buffer is dirty only if it differs from what was
    /// written.
    pub fn saved(&mut self, written: &str)
        ensures
            final(self)@ == old(self)@.saved(written@),
            final(self)@.wf(),
            final(self)@.dirty() == (fingerprint_of(old(self)@.content) != fingerprint_of(
                written@,
            )),
            written@ == old(self)@.content ==> !final(self)@.dirty(),
    {
        proof {
            use_type_invariant(&*self);
        }
        let f = fingerprint(written);
        let mut tracker = self.tracker;
        tracker.rebaseline(f);
        self.tracker = tracker;
    }
}

} // verus!
