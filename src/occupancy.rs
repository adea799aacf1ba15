//! The window emptiness oracle: which windows count as occupying a desktop,
//! and the scan over the enumerated windows.
use vstd::prelude::*;
use vstd::string::StringSliceAdditionalSpecFns;

verus! {

broadcast use vstd::string::is_ascii_spec_bytes;

/// The end of the text in a NUL-terminated buffer, looking from `i` on: the
/// first NUL at or after `i`, or the buffer's length.
pub open spec fn text_end_from(buf: Seq<u8>, i: int) -> int
    decreases buf.len() - i,
{
    if i >= buf.len() || buf[i] == 0 {
        i
    } else {
        text_end_from(buf, i + 1)
    }
}

/// The text that a NUL-terminated buffer holds; a buffer without a NUL holds
/// text up to its end.
pub open spec fn text_of(buf: Seq<u8>) -> Seq<u8> {
    buf.take(text_end_from(buf, 0))
}

pub open spec fn occurs_at(hay: Seq<u8>, needle: Seq<u8>, i: int) -> bool {
    0 <= i && i + needle.len() <= hay.len() && hay.subrange(i, i + needle.len()) == needle
}

pub open spec fn contains(hay: Seq<u8>, needle: Seq<u8>) -> bool {
    exists|i: int| occurs_at(hay, needle, i)
}

/// Class names of shell surfaces that exist on every desktop: the taskbar,
/// the drag-and-drop visual host, the foreground-transition host and the
/// frame host of packaged applications.
pub open spec fn denied_classes() -> Seq<Seq<u8>> {
    seq![
        "Shell_TrayWnd".spec_bytes(),
        "DV2ControlHost".spec_bytes(),
        "ForegroundStaging".spec_bytes(),
        "ApplicationFrameHost".spec_bytes(),
    ]
}

pub open spec fn is_denied_class(class: Seq<u8>) -> bool {
    exists|k: int| 0 <= k < denied_classes().len() && contains(class, #[trigger] denied_classes()[k])
}

/// A window counts toward a desktop's occupancy only if it is visible, has a
/// title, and its class name holds none of the denied names.
pub open spec fn qualifies(visible: bool, class_buf: Seq<u8>, title_buf: Seq<u8>) -> bool {
    visible && text_of(title_buf).len() > 0 && !is_denied_class(text_of(class_buf))
}

proof fn lemma_text_end_bounds(buf: Seq<u8>, i: int)
    requires
        0 <= i <= buf.len(),
    ensures
        i <= text_end_from(buf, i) <= buf.len(),
    decreases buf.len() - i,
{
    if i < buf.len() && buf[i] != 0 {
        lemma_text_end_bounds(buf, i + 1);
    }
}

/// The length of the text in a NUL-terminated buffer.
pub fn text_len(buf: &[u8]) -> (n: usize)
    ensures
        n == text_end_from(buf@, 0),
        n <= buf@.len(),
{
    let mut i: usize = 0;
    proof {
        lemma_text_end_bounds(buf@, 0);
    }
    while i < buf.len() && buf[i] != 0
        invariant
            0 <= i <= buf@.len(),
            text_end_from(buf@, i as int) == text_end_from(buf@, 0),
        decreases buf@.len() - i,
    {
        i = i + 1;
    }
    i
}

/// Whether `needle` occurs in the first `len` bytes of `hay`.
pub fn contains_in_prefix(hay: &[u8], len: usize, needle: &[u8]) -> (r: bool)
    requires
        len <= hay@.len(),
    ensures
        r == contains(hay@.take(len as int), needle@),
{
    let ghost h = hay@.take(len as int);
    if needle.len() > len {
        assert forall|i: int| !occurs_at(h, needle@, i) by {}
        return false;
    }
    let last: usize = len - needle.len();
    let mut i: usize = 0;
    while i <= last
        invariant
            last == len - needle@.len(),
            len <= hay@.len(),
            h == hay@.take(len as int),
            i <= last + 1,
            forall|p: int| 0 <= p < i ==> !occurs_at(h, needle@, p),
        decreases last + 1 - i,
    {
        let mut j: usize = 0;
        while j < needle.len() && hay[i + j] == needle[j]
            invariant
                i <= last,
                last == len - needle@.len(),
                len <= hay@.len(),
                j <= needle@.len(),
                forall|q: int| 0 <= q < j ==> hay@[i + q] == needle@[q],
            decreases needle@.len() - j,
        {
            j = j + 1;
        }
        if j == needle.len() {
            assert(h.subrange(i as int, i + needle@.len()) =~= needle@);
            assert(occurs_at(h, needle@, i as int));
            return true;
        }
        assert(h[i + j] != needle@[j as int]);
        assert(!occurs_at(h, needle@, i as int)) by {
            if occurs_at(h, needle@, i as int) {
                assert(h.subrange(i as int, i + needle@.len())[j as int] == h[i + j]);
            }
        }
        i = i + 1;
    }
    assert forall|p: int| !occurs_at(h, needle@, p) by {
        if occurs_at(h, needle@, p) {
            assert(0 <= p < i);
        }
    }
    false
}

/// Whether the class name in a NUL-terminated buffer holds a denied name.
pub fn is_denied_class_name(class_buf: &[u8]) -> (r: bool)
    ensures
        r == is_denied_class(text_of(class_buf@)),
{
    let n = text_len(class_buf);
    let r = contains_in_prefix(class_buf, n, "Shell_TrayWnd".as_bytes())
        || contains_in_prefix(class_buf, n, "DV2ControlHost".as_bytes())
        || contains_in_prefix(class_buf, n, "ForegroundStaging".as_bytes())
        || contains_in_prefix(class_buf, n, "ApplicationFrameHost".as_bytes());
    let ghost c = text_of(class_buf@);
    assert(r == is_denied_class(c)) by {
        if is_denied_class(c) {
            let k = choose|k: int|
                0 <= k < denied_classes().len() && contains(c, #[trigger] denied_classes()[k]);
            assert(0 <= k < 4);
        }
        if r {
            if contains(c, "Shell_TrayWnd".spec_bytes()) {
                assert(contains(c, denied_classes()[0]));
            } else if contains(c, "DV2ControlHost".spec_bytes()) {
                assert(contains(c, denied_classes()[1]));
            } else if contains(c, "ForegroundStaging".spec_bytes()) {
                assert(contains(c, denied_classes()[2]));
            } else {
                assert(contains(c, denied_classes()[3]));
            }
        }
    }
    r
}

/// Whether a window counts toward a desktop's occupancy, from its visibility
/// and its NUL-terminated class-name and title buffers.
pub fn window_qualifies(visible: bool, class_buf: &[u8], title_buf: &[u8]) -> (r: bool)
    ensures
        r == qualifies(visible, class_buf@, title_buf@),
{
    if !visible {
        return false;
    }
    let title_len = text_len(title_buf);
    if title_len == 0 {
        return false;
    }
    !is_denied_class_name(class_buf)
}

/// What the oracle concluded about one desktop.
#[derive(Clone, Copy, Debug, PartialEq, Eq)]
pub enum Emptiness {
    /// No qualifying window is on the desktop.
    Empty,
    /// At least one qualifying window is on the desktop.
    Occupied,
    /// The backend cannot say which desktop a window is on.
    Unknown,
}

impl Emptiness {
    /// Only a desktop known to be empty may be removed; an unknown one is
    /// treated as occupied.
    pub fn allows_removal(&self) -> (r: bool)
        ensures
            r == (*self == Emptiness::Empty),
    {
        match self {
            Emptiness::Empty => true,
            _ => false,
        }
    }
}

/// One pass over the enumerated windows, looking for a qualifying window on
/// `desktop`. It stops at the first one found.
#[derive(Clone, Copy, Debug, PartialEq, Eq)]
pub struct OccupancyScan {
    pub desktop: i32,
    pub occupied: bool,
}

impl OccupancyScan {
    pub fn new(desktop: i32) -> (r: OccupancyScan)
        ensures
            r.desktop == desktop,
            !r.occupied,
    {
        OccupancyScan { desktop, occupied: false }
    }

    /// Whether the backend should be asked if this window is on the desktop:
    /// only for a qualifying window, and only while none has been found.
    pub fn wants_query(&self, visible: bool, class_buf: &[u8], title_buf: &[u8]) -> (r: bool)
        ensures
            r == (!self.occupied && qualifies(visible, class_buf@, title_buf@)),
    {
        !self.occupied && window_qualifies(visible, class_buf, title_buf)
    }

    /// Takes the association primitive's raw answer for a queried window (1
    /// when the window is on the desktop) and says whether the enumeration
    /// should go on.
    pub fn record(&mut self, answer: i32) -> (more: bool)
        ensures
            final(self).desktop == old(self).desktop,
            final(self).occupied == (old(self).occupied || answer == 1),
            more == !final(self).occupied,
    {
        if answer == 1 {
            self.occupied = true;
        }
        !self.occupied
    }

    pub fn verdict(&self) -> (r: Emptiness)
        ensures
            r == (if self.occupied {
                Emptiness::Occupied
            } else {
                Emptiness::Empty
            }),
    {
        if self.occupied {
            Emptiness::Occupied
        } else {
            Emptiness::Empty
        }
    }
}

/// A window whose class name holds a denied name never counts toward a
/// desktop's occupancy, whatever its visibility and title.
pub proof fn lemma_denied_window_never_counts(visible: bool, class_buf: Seq<u8>, title_buf: Seq<u8>)
    requires
        is_denied_class(text_of(class_buf)),
    ensures
        !qualifies(visible, class_buf, title_buf),
{
}

} // verus!
