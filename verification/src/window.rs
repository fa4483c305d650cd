//! The mathematical model of a view: a buffer's contents and the half-open
//! range of them that the view shows.

use vstd::prelude::*;

verus! {

/// What a view denotes: the elements of its backing buffer, and the range
/// `start..end` of them that is visible through it.
pub struct Window {
    pub buffer: Seq<u64>,
    pub start: int,
    pub end: int,
}

impl Window {
    /// The range lies inside the buffer.
    pub open spec fn wf(self) -> bool {
        0 <= self.start <= self.end <= self.buffer.len()
    }

    /// The elements that the view shows.
    pub open spec fn visible(self) -> Seq<u64> {
        self.buffer.subrange(self.start, self.end)
    }

    /// The number of visible elements.
    pub open spec fn len(self) -> int {
        self.end - self.start
    }

    /// The window over all of `items`.
    pub open spec fn whole(items: Seq<u64>) -> Window {
        Window { buffer: items, start: 0, end: items.len() as int }
    }

    /// The window spans its entire buffer.
    pub open spec fn is_whole(self) -> bool {
        self.start == 0 && self.end == self.buffer.len()
    }

    /// The same buffer seen through `lo..hi`, counted from the start of this
    /// window.
    pub open spec fn narrow(self, lo: int, hi: int) -> Window {
        Window { buffer: self.buffer, start: self.start + lo, end: self.start + hi }
    }

    /// The same buffer seen from the same start, `len` elements long.
    pub open spec fn resize(self, len: int) -> Window {
        Window { buffer: self.buffer, start: self.start, end: self.start + len }
    }

    /// A buffer of its own that holds the visible elements and nothing else.
    pub open spec fn detach(self) -> Window {
        Window::whole(self.visible())
    }

    /// The window that a write goes to: this one where its buffer is not
    /// shared, a detached copy where it is.
    pub open spec fn writable(self, exclusive: bool) -> Window {
        if exclusive {
            self
        } else {
            self.detach()
        }
    }

    /// Whether a change of length may be made in the buffer itself: the
    /// buffer is not shared and nothing of it is hidden.
    pub open spec fn resizable_in_place(self, exclusive: bool) -> bool {
        exclusive && self.is_whole()
    }

    /// The same range of a buffer in which `items` stand in place of the
    /// visible elements; what lies before and after the range is kept.
    pub open spec fn overwrite(self, items: Seq<u64>) -> Window {
        Window {
            buffer: self.buffer.subrange(0, self.start) + items + self.buffer.subrange(
                self.end,
                self.buffer.len() as int,
            ),
            start: self.start,
            end: self.end,
        }
    }
}

/// A sub-range of a window shows that sub-range of the visible elements, and
/// lies inside the buffer whenever it lies inside the window.
pub proof fn lemma_narrow(w: Window, lo: int, hi: int)
    requires
        w.wf(),
        0 <= lo <= hi <= w.len(),
    ensures
        w.narrow(lo, hi).wf(),
        w.narrow(lo, hi).visible() == w.visible().subrange(lo, hi),
{
    assert(w.narrow(lo, hi).visible() =~= w.visible().subrange(lo, hi));
}

/// Narrowing twice is narrowing once by the composed range.
pub proof fn lemma_narrow_narrow(w: Window, lo: int, hi: int, lo2: int, hi2: int)
    ensures
        w.narrow(lo, hi).narrow(lo2, hi2) == w.narrow(lo + lo2, lo + hi2),
{
}

/// Resizing to a length that stays inside the buffer shows the buffer's
/// elements from the window's start; a shorter length shows a prefix of the
/// visible elements.
pub proof fn lemma_resize(w: Window, len: int)
    requires
        w.wf(),
        0 <= len,
        w.start + len <= w.buffer.len(),
    ensures
        w.resize(len).wf(),
        w.resize(len).visible() == w.buffer.subrange(w.start, w.start + len),
        len <= w.len() ==> w.resize(len).visible() == w.visible().subrange(0, len),
{
    if len <= w.len() {
        assert(w.resize(len).visible() =~= w.visible().subrange(0, len));
    }
}

/// The whole window over a sequence shows exactly that sequence: a view made
/// from an owned sequence hands the same sequence back, be it empty, of one
/// element or of many.
pub proof fn lemma_whole(items: Seq<u64>)
    ensures
        Window::whole(items).wf(),
        Window::whole(items).is_whole(),
        Window::whole(items).visible() == items,
{
    assert(Window::whole(items).visible() =~= items);
}

/// A whole window shows its entire buffer.
pub proof fn lemma_is_whole(w: Window)
    requires
        w.is_whole(),
    ensures
        w.wf(),
        w.visible() == w.buffer,
        w == Window::whole(w.buffer),
{
    assert(w.visible() =~= w.buffer);
}

/// Detaching keeps what is visible and leaves nothing hidden.
pub proof fn lemma_detach(w: Window)
    requires
        w.wf(),
    ensures
        w.detach().wf(),
        w.detach().is_whole(),
        w.detach().visible() == w.visible(),
        w.detach().len() == w.len(),
{
    lemma_whole(w.visible());
}

/// Overwriting the visible elements with as many others shows those, keeps
/// the range, and keeps every hidden element of the buffer.
pub proof fn lemma_overwrite(w: Window, items: Seq<u64>)
    requires
        w.wf(),
        items.len() == w.len(),
    ensures
        w.overwrite(items).wf(),
        w.overwrite(items).visible() == items,
        w.overwrite(items).buffer.len() == w.buffer.len(),
        forall|k: int|
            0 <= k < w.buffer.len() && !(w.start <= k < w.end) ==> w.overwrite(items).buffer[k]
                == w.buffer[k],
        w.overwrite(w.visible()) == w,
{
    assert(w.overwrite(items).visible() =~= items);
    assert(w.overwrite(w.visible()).buffer =~= w.buffer);
}

} // verus!
