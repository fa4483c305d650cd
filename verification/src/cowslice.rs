//! The windowed view over a shared buffer.
//!
//! A [`CowSlice`] holds a handle to an `EcoVec<u64>` and two offsets into it.
//! What it means is its [`Window`]: the buffer's contents and the range
//! `start..end` of them that it shows. The contract of every operation says
//! how the window moves; what the view shows, `view()`, follows from that.
//!
//! The range always lies inside the buffer. This is a type invariant: no
//! operation asks its caller for it, and every operation keeps it.

use vstd::prelude::*;
use ecow::EcoVec;
use core::borrow::Borrow;
use core::ops::Deref;
use core::ops::DerefMut;
use crate::bounds::SliceBound;
use crate::bounds::range_fits;
use crate::buffer::buffer_as_slice;
use crate::buffer::buffer_extend;
use crate::buffer::buffer_from_array;
use crate::buffer::buffer_from_slice;
use crate::buffer::buffer_from_vec;
use crate::buffer::buffer_into_vec;
use crate::buffer::buffer_is_unique;
use crate::buffer::buffer_items;
use crate::buffer::buffer_len;
use crate::buffer::buffer_make_mut;
use crate::buffer::buffer_new;
use crate::buffer::buffer_share;
use crate::window::Window;
use crate::window::lemma_detach;
use crate::window::lemma_is_whole;
use crate::window::lemma_narrow;
use crate::window::lemma_overwrite;
use crate::window::lemma_resize;
use crate::window::lemma_whole;

verus! {

/// A sequence of `u64` seen through the range `start..end` of a shared
/// buffer.
///
/// Reading goes through `Deref` to `[u64]`, writing through `DerefMut`; both
/// reach the visible elements and nothing else.
pub struct CowSlice {
    data: EcoVec<u64>,
    start: usize,
    end: usize,
}

impl CowSlice {
    #[verifier::type_invariant]
    spec fn in_bounds(self) -> bool {
        self.start <= self.end <= buffer_items(self.data).len() <= usize::MAX
    }

    /// The handle to the buffer that this view points into.
    pub closed spec fn buffer(&self) -> EcoVec<u64> {
        self.data
    }

    /// The buffer's contents and the range of them that this view shows.
    pub closed spec fn window(&self) -> Window {
        Window { buffer: buffer_items(self.data), start: self.start as int, end: self.end as int }
    }

    /// The window is a window of the buffer's contents.
    pub proof fn lemma_window_of_buffer(&self)
        ensures
            self.window().buffer == buffer_items(self.buffer()),
    {
    }

    /// The visible elements.
    pub open spec fn view(&self) -> Seq<u64> {
        self.window().visible()
    }

    /// An empty view.
    pub fn new() -> (s: Self)
        ensures
            s.window() == Window::whole(Seq::<u64>::empty()),
            s@ == Seq::<u64>::empty(),
    {
        Self::default()
    }

    /// Whether `start` and `end` bound a range of the visible elements, which
    /// is what `slice` asks of them.
    pub fn can_slice(&self, start: SliceBound, end: SliceBound) -> (ok: bool)
        ensures
            ok == range_fits(start, end, self@.len() as int),
            self.window().wf(),
    {
        proof {
            use_type_invariant(self);
        }
        let len = self.end - self.start;
        let upper: Option<usize> = match end {
            SliceBound::Included(k) => if k < len {
                Some(k + 1)
            } else {
                None
            },
            SliceBound::Excluded(k) => if k <= len {
                Some(k)
            } else {
                None
            },
            SliceBound::Unbounded => Some(len),
        };
        match upper {
            None => false,
            Some(hi) => match start {
                SliceBound::Included(k) => k <= hi,
                SliceBound::Excluded(k) => k < hi,
                SliceBound::Unbounded => true,
            },
        }
    }

    /// The view over `lo..hi` of this one's visible elements, where `lo` and
    /// `hi` are what the two bounds stand for. It shares this view's buffer:
    /// no element is copied.
    pub fn slice(&self, start: SliceBound, end: SliceBound) -> (sub: Self)
        requires
            range_fits(start, end, self@.len() as int),
        ensures
            sub.buffer() == self.buffer(),
            sub.window() == self.window().narrow(start.lower(), end.upper(self@.len() as int)),
            sub.window().wf(),
            sub@ == self@.subrange(start.lower(), end.upper(self@.len() as int)),
    {
        proof {
            use_type_invariant(self);
            lemma_narrow(self.window(), start.lower(), end.upper(self@.len() as int));
        }
        let lo: usize = match start {
            SliceBound::Included(k) => self.start + k,
            SliceBound::Excluded(k) => self.start + k + 1,
            SliceBound::Unbounded => self.start,
        };
        let hi: usize = match end {
            SliceBound::Included(k) => self.start + k + 1,
            SliceBound::Excluded(k) => self.start + k,
            SliceBound::Unbounded => self.end,
        };
        CowSlice { data: buffer_share(&self.data), start: lo, end: hi }
    }

    /// Whether the buffer holds `len` elements from the start of the window
    /// on, which is what `truncate` asks of `len`.
    pub fn can_truncate(&self, len: usize) -> (ok: bool)
        ensures
            ok == (self.window().start + len <= self.window().buffer.len()),
            self.window().wf(),
    {
        proof {
            use_type_invariant(self);
        }
        len <= buffer_len(&self.data) - self.start
    }

    /// Sets the number of visible elements to `len`, keeping the start. The
    /// buffer is not touched: a shorter length hides a tail, a longer one
    /// shows elements of the buffer that follow the window.
    pub fn truncate(&mut self, len: usize)
        requires
            old(self).window().start + len <= old(self).window().buffer.len(),
        ensures
            final(self).buffer() == old(self).buffer(),
            final(self).window() == old(self).window().resize(len as int),
            final(self).window().wf(),
            len <= old(self)@.len() ==> final(self)@ == old(self)@.subrange(0, len as int),
    {
        proof {
            use_type_invariant(&*self);
            lemma_resize(self.window(), len as int);
        }
        self.end = self.start + len;
    }
}

impl CowSlice {
    /// Whether a change of length may be made in this view's own buffer,
    /// given whether that buffer is `exclusive` to it.
    fn resizable_in_place(&self, exclusive: bool) -> (yes: bool)
        ensures
            yes == self.window().resizable_in_place(exclusive),
    {
        exclusive && self.start == 0 && self.end == buffer_len(&self.data)
    }

    /// The visible elements for writing, given whether the buffer is
    /// `exclusive` to this view. An exclusive buffer is written in place: the
    /// range and every hidden element stay. Otherwise the view first moves to
    /// a buffer of its own that holds the visible elements only. Either way
    /// the view shows afterwards what the caller left in the slice.
    pub fn slice_mut_given(&mut self, exclusive: bool) -> (items: &mut [u64])
        ensures
            items@ == old(self)@,
            final(items)@.len() == items@.len(),
            final(self).window() == old(self).window().writable(exclusive).overwrite(
                final(items)@,
            ),
            final(self).window().wf(),
            final(self)@ == final(items)@,
    {
        proof {
            use_type_invariant(&*self);
            lemma_detach(self.window());
        }
        if !exclusive {
            let copy = buffer_from_slice(&**self);
            let len = self.end - self.start;
            *self = CowSlice { data: copy, start: 0, end: len };
        }
        let start = self.start;
        let end = self.end;
        let ghost target = self.window();
        let items = slice_range_mut(buffer_make_mut(&mut self.data), start, end);
        proof {
            lemma_overwrite(target, final(items)@);
        }
        items
    }

    /// Applies `f` to a buffer that holds the visible elements, given whether
    /// this view's buffer is `exclusive` to it. The buffer as `f` left it
    /// becomes the view's buffer, and the view shows all of it. The view's own
    /// buffer is handed to `f` where it is exclusive and nothing of it is
    /// hidden; otherwise `f` gets a fresh buffer with a copy of the visible
    /// elements.
    pub fn modify_given<F, R>(&mut self, exclusive: bool, f: F) -> (res: R) where
        F: FnOnce(&mut EcoVec<u64>) -> R,

        requires
            forall|buf: &mut EcoVec<u64>|
                buffer_items(*buf) == old(self)@ ==> #[trigger] call_requires(f, (buf,)),
        ensures
            (exists|buf: &mut EcoVec<u64>|
                {
                    &&& buffer_items(*buf) == old(self)@
                    &&& old(self).window().resizable_in_place(exclusive) ==> *buf
                        == old(self).buffer()
                    &&& #[trigger] call_ensures(f, (buf,), res)
                    &&& final(self).buffer() == *final(buf)
                    &&& final(self).window() == Window::whole(buffer_items(*final(buf)))
                }),
            final(self).window().wf(),
    {
        proof {
            use_type_invariant(&*self);
        }
        let mut data = if self.resizable_in_place(exclusive) {
            proof {
                lemma_is_whole(self.window());
            }
            let mut taken = CowSlice::new();
            core::mem::swap(self, &mut taken);
            taken.data
        } else {
            buffer_from_slice(&**self)
        };
        let res = f(&mut data);
        proof {
            lemma_whole(buffer_items(data));
        }
        *self = CowSlice::from(data);
        res
    }

    /// Applies `f` to a buffer that holds the visible elements. The buffer as
    /// `f` left it becomes the view's buffer, and the view shows all of it.
    /// Other views keep what they showed: `f` works on the view's own
    /// buffer only where no other view points into it and nothing of it is
    /// hidden, and on a copy of the visible elements otherwise.
    pub fn modify<F, R>(&mut self, f: F) -> (res: R) where F: FnOnce(&mut EcoVec<u64>) -> R
        requires
            forall|buf: &mut EcoVec<u64>|
                buffer_items(*buf) == old(self)@ ==> #[trigger] call_requires(f, (buf,)),
        ensures
            (exists|buf: &mut EcoVec<u64>|
                {
                    &&& buffer_items(*buf) == old(self)@
                    &&& #[trigger] call_ensures(f, (buf,), res)
                    &&& final(self).buffer() == *final(buf)
                    &&& final(self).window() == Window::whole(buffer_items(*final(buf)))
                }),
            final(self).window().wf(),
    {
        proof {
            use_type_invariant(&*self);
        }
        let exclusive = buffer_is_unique(&mut self.data);
        self.modify_given(exclusive, f)
    }
}

impl CowSlice {
    /// Appends `items` after the visible elements. Other views of the same
    /// buffer keep what they showed.
    pub fn extend(&mut self, items: Vec<u64>)
        ensures
            final(self).window() == Window::whole(old(self)@ + items@),
            final(self).window().wf(),
            final(self)@ == old(self)@ + items@,
    {
        let ghost extra = items@;
        let ghost shown = self@;
        let append = |buf: &mut EcoVec<u64>|
            ensures
                buffer_items(*final(buf)) == buffer_items(*old(buf)) + extra,
            {
                buffer_extend(buf, items)
            };
        self.modify(append);
        proof {
            lemma_whole(shown + extra);
        }
    }

    /// The visible elements as a vector of their own, first to last. Nothing
    /// that the window hides is handed out.
    pub fn into_vec(self) -> (items: Vec<u64>)
        ensures
            items@ == self@,
    {
        proof {
            use_type_invariant(&self);
        }
        let start = self.start;
        let end = self.end;
        let mut all = buffer_into_vec(self.data);
        all.truncate(end);
        all.split_off(start)
    }
}

impl Default for CowSlice {
    fn default() -> (s: Self)
        ensures
            s.window() == Window::whole(Seq::<u64>::empty()),
            s@ == Seq::<u64>::empty(),
    {
        proof {
            lemma_whole(Seq::<u64>::empty());
        }
        CowSlice { data: buffer_new(), start: 0, end: 0 }
    }
}

impl Clone for CowSlice {
    /// A second view of the same range of the same buffer.
    fn clone(&self) -> (other: Self)
        ensures
            other.buffer() == self.buffer(),
            other.window() == self.window(),
            other@ == self@,
    {
        proof {
            use_type_invariant(self);
        }
        CowSlice { data: buffer_share(&self.data), start: self.start, end: self.end }
    }
}

impl Deref for CowSlice {
    type Target = [u64];

    /// The visible elements.
    fn deref(&self) -> (items: &[u64])
        ensures
            items@ == self@,
            self.window().wf(),
    {
        proof {
            use_type_invariant(self);
        }
        let all = buffer_as_slice(&self.data);
        &all[self.start..self.end]
    }
}

impl DerefMut for CowSlice {
    /// The visible elements for writing. The view shows afterwards what the
    /// caller left in the slice, and no other view is changed: a shared buffer
    /// is left alone, and the view moves to a copy of what it shows.
    fn deref_mut(&mut self) -> (items: &mut [u64])
        ensures
            items@ == old(self)@,
            final(items)@.len() == items@.len(),
            final(self)@ == final(items)@,
            final(self).window().wf(),
            ({
                let kept = old(self).window().overwrite(final(items)@);
                let moved = old(self).window().detach().overwrite(final(items)@);
                final(self).window() == kept || final(self).window() == moved
            }),
    {
        proof {
            use_type_invariant(&*self);
        }
        let exclusive = buffer_is_unique(&mut self.data);
        self.slice_mut_given(exclusive)
    }
}

impl From<EcoVec<u64>> for CowSlice {
    /// The view of all of `data`, which becomes the view's buffer as it is.
    fn from(data: EcoVec<u64>) -> (s: Self)
        ensures
            s.buffer() == data,
            s.window() == Window::whole(buffer_items(data)),
            s@ == buffer_items(data),
    {
        proof {
            lemma_whole(buffer_items(data));
        }
        let end = buffer_len(&data);
        CowSlice { data, start: 0, end }
    }
}

/// A view is not a function of what it is made from alone: its buffer is an
/// allocation of its own. The four conversions therefore name no
/// `from_spec`; the contract of each `from` says what it returns.
impl vstd::std_specs::convert::FromSpecImpl<EcoVec<u64>> for CowSlice {
    open spec fn obeys_from_spec() -> bool {
        false
    }

    open spec fn from_spec(data: EcoVec<u64>) -> Self {
        arbitrary()
    }
}

impl From<Vec<u64>> for CowSlice {
    /// The view of all of a fresh buffer that holds the vector's elements.
    fn from(vec: Vec<u64>) -> (s: Self)
        ensures
            s.window() == Window::whole(vec@),
            s@ == vec@,
    {
        proof {
            lemma_whole(vec@);
        }
        let end = vec.len();
        CowSlice { data: buffer_from_vec(vec), start: 0, end }
    }
}

impl vstd::std_specs::convert::FromSpecImpl<Vec<u64>> for CowSlice {
    open spec fn obeys_from_spec() -> bool {
        false
    }

    open spec fn from_spec(vec: Vec<u64>) -> Self {
        arbitrary()
    }
}

impl<'a> From<&'a [u64]> for CowSlice {
    /// The view of all of a fresh buffer that holds a copy of the slice's
    /// elements.
    fn from(slice: &'a [u64]) -> (s: Self)
        ensures
            s.window() == Window::whole(slice@),
            s@ == slice@,
    {
        proof {
            lemma_whole(slice@);
        }
        let end = slice.len();
        CowSlice { data: buffer_from_slice(slice), start: 0, end }
    }
}

impl<'a> vstd::std_specs::convert::FromSpecImpl<&'a [u64]> for CowSlice {
    open spec fn obeys_from_spec() -> bool {
        false
    }

    open spec fn from_spec(slice: &'a [u64]) -> Self {
        arbitrary()
    }
}

impl<const N: usize> From<[u64; N]> for CowSlice {
    /// The view of all of a fresh buffer that holds the array's elements.
    fn from(array: [u64; N]) -> (s: Self)
        ensures
            s.window() == Window::whole(array@),
            s@ == array@,
    {
        proof {
            lemma_whole(array@);
        }
        CowSlice { data: buffer_from_array(array), start: 0, end: N }
    }
}

impl<const N: usize> vstd::std_specs::convert::FromSpecImpl<[u64; N]> for CowSlice {
    open spec fn obeys_from_spec() -> bool {
        false
    }

    open spec fn from_spec(array: [u64; N]) -> Self {
        arbitrary()
    }
}

impl AsRef<[u64]> for CowSlice {
    /// The visible elements.
    fn as_ref(&self) -> (items: &[u64])
        ensures
            items@ == self@,
    {
        &**self
    }
}

impl Borrow<[u64]> for CowSlice {
    /// The visible elements.
    fn borrow(&self) -> (items: &[u64])
        ensures
            ({
                let shown: &[u64] = items;
                shown@ == self@
            }),
    {
        &**self
    }
}

/// `IndexMut::index_mut` of a slice with a `Range<usize>`: the elements
/// `start..end` for writing. What the caller leaves there, as many elements
/// as before, replaces them in the slice; the elements before and after stay.
#[verifier::external_body]
fn slice_range_mut(items: &mut [u64], start: usize, end: usize) -> (range: &mut [u64])
    requires
        start <= end <= old(items)@.len(),
    ensures
        range@ == old(items)@.subrange(start as int, end as int),
        final(range)@.len() == range@.len(),
        final(items)@ == old(items)@.subrange(0, start as int) + final(range)@
            + old(items)@.subrange(end as int, old(items)@.len() as int),
{
    &mut items[start..end]
}

} // verus!
