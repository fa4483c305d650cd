//! Views that share buffers: the model in which copy-on-write is stated and
//! proved.
//!
//! A [`Window`] describes one view alone. Whether a write through one view
//! can be seen through another is a question about several views at once, so
//! this module models a store: every buffer with its contents, and every live
//! view with the buffer it points into.
//!
//! The steps of the store are the operations of
//! [`CowSlice`](crate::CowSlice). Each step moves the acting view's window by
//! the same function of [`Window`] that the contract of the executable
//! operation names: [`Store::slice`] as `CowSlice::slice`, [`Store::truncate`]
//! as `CowSlice::truncate`, [`Store::write`] as `CowSlice::slice_mut_given`,
//! and [`Store::modify`] as `CowSlice::modify_given`. The lemmas then show
//! that a step changes what the acting view shows and nothing else, provided
//! that a write goes to the view's own buffer only where
//! [`Store::exclusive`] holds. In the executable code that condition is the
//! answer of `EcoVec::is_unique`; that the two agree is the buffer's
//! documented behaviour, and is taken on trust.

use vstd::prelude::*;
use crate::window::Window;
use crate::window::lemma_detach;
use crate::window::lemma_narrow;
use crate::window::lemma_overwrite;
use crate::window::lemma_resize;
use crate::window::lemma_whole;

verus! {

/// A view as the store sees it: the buffer it points into and its range.
pub struct Handle {
    pub buffer: int,
    pub start: int,
    pub end: int,
}

/// The contents of every buffer, and every live view.
pub struct Store {
    pub buffers: Map<int, Seq<u64>>,
    pub views: Seq<Handle>,
}

impl Store {
    /// `v` is a live view.
    pub open spec fn has(self, v: int) -> bool {
        0 <= v < self.views.len()
    }

    /// The window of view `v`.
    pub open spec fn window(self, v: int) -> Window {
        Window {
            buffer: self.buffers[self.views[v].buffer],
            start: self.views[v].start,
            end: self.views[v].end,
        }
    }

    /// The elements that view `v` shows.
    pub open spec fn shows(self, v: int) -> Seq<u64> {
        self.window(v).visible()
    }

    /// Every view points into a buffer of the store, at a range inside it.
    pub open spec fn wf(self) -> bool {
        forall|v: int|
            self.has(v) ==> self.buffers.dom().contains(#[trigger] self.views[v].buffer)
                && self.window(v).wf()
    }

    /// No other view points into the buffer of view `v`: its share count is 1.
    pub open spec fn exclusive(self, v: int) -> bool {
        forall|u: int|
            self.has(u) && u != v ==> (#[trigger] self.views[u]).buffer != self.views[v].buffer
    }

    /// View `v` replaced by a view of `window` in buffer `buffer`, whose
    /// contents become those of `window`.
    pub open spec fn put(self, v: int, buffer: int, window: Window) -> Store {
        Store {
            buffers: self.buffers.insert(buffer, window.buffer),
            views: self.views.update(
                v,
                Handle { buffer: buffer, start: window.start, end: window.end },
            ),
        }
    }

    /// A new view, the last of the store, over `lo..hi` of what view `v`
    /// shows. It points into the buffer of `v`.
    pub open spec fn slice(self, v: int, lo: int, hi: int) -> Store {
        let w = self.window(v).narrow(lo, hi);
        Store {
            buffers: self.buffers,
            views: self.views.push(
                Handle { buffer: self.views[v].buffer, start: w.start, end: w.end },
            ),
        }
    }

    /// View `v` set to `len` visible elements. No buffer is touched.
    pub open spec fn truncate(self, v: int, len: int) -> Store {
        let w = self.window(v).resize(len);
        Store {
            buffers: self.buffers,
            views: self.views.update(
                v,
                Handle { buffer: self.views[v].buffer, start: w.start, end: w.end },
            ),
        }
    }

    /// The buffer that a write through view `v` goes to: its own where that
    /// is exclusive, else the unused buffer `fresh`.
    pub open spec fn write_target(self, v: int, fresh: int) -> int {
        if self.exclusive(v) {
            self.views[v].buffer
        } else {
            fresh
        }
    }

    /// Writing `items` over what view `v` shows.
    pub open spec fn write(self, v: int, items: Seq<u64>, fresh: int) -> Store {
        self.put(
            v,
            self.write_target(v, fresh),
            self.window(v).writable(self.exclusive(v)).overwrite(items),
        )
    }

    /// The buffer that a change of length of view `v` is made in: its own
    /// where that is exclusive and nothing of it is hidden, else the unused
    /// buffer `fresh`.
    pub open spec fn modify_target(self, v: int, fresh: int) -> int {
        if self.window(v).resizable_in_place(self.exclusive(v)) {
            self.views[v].buffer
        } else {
            fresh
        }
    }

    /// Turning what view `v` shows into `items`, of any length.
    pub open spec fn modify(self, v: int, items: Seq<u64>, fresh: int) -> Store {
        self.put(v, self.modify_target(v, fresh), Window::whole(items))
    }
}

/// Putting a view into a buffer that no other view points into leaves every
/// other view's window as it was.
pub proof fn lemma_put(st: Store, v: int, buffer: int, window: Window)
    requires
        st.wf(),
        st.has(v),
        window.wf(),
        forall|u: int| st.has(u) && u != v ==> (#[trigger] st.views[u]).buffer != buffer,
    ensures
        st.put(v, buffer, window).wf(),
        st.put(v, buffer, window).views.len() == st.views.len(),
        st.put(v, buffer, window).window(v) == window,
        forall|u: int|
            st.has(u) && u != v ==> #[trigger] st.put(v, buffer, window).window(u) == st.window(u),
{
    let next = st.put(v, buffer, window);
    assert forall|u: int| st.has(u) && u != v implies #[trigger] next.window(u) == st.window(
        u,
    ) by {
        assert(st.views[u].buffer != buffer);
        assert(next.views[u] == st.views[u]);
    }
    assert forall|u: int| next.has(u) implies next.buffers.dom().contains(
        #[trigger] next.views[u].buffer,
    ) && next.window(u).wf() by {
        if u != v {
            assert(st.buffers.dom().contains(st.views[u].buffer));
            assert(next.window(u) == st.window(u));
        }
    }
}

/// A write through one view shows its result there and changes
/// what no other view shows, whether or not they share a buffer.
pub proof fn lemma_write_isolated(st: Store, v: int, items: Seq<u64>, fresh: int)
    requires
        st.wf(),
        st.has(v),
        items.len() == st.window(v).len(),
        !st.buffers.dom().contains(fresh),
    ensures
        st.write(v, items, fresh).wf(),
        st.write(v, items, fresh).views.len() == st.views.len(),
        st.write(v, items, fresh).window(v) == st.window(v).writable(st.exclusive(v)).overwrite(
            items,
        ),
        st.write(v, items, fresh).shows(v) == items,
        forall|u: int|
            st.has(u) && u != v ==> #[trigger] st.write(v, items, fresh).shows(u) == st.shows(u),
{
    let target = st.write_target(v, fresh);
    let w = st.window(v).writable(st.exclusive(v));
    assert(st.buffers.dom().contains(st.views[v].buffer));
    lemma_detach(st.window(v));
    lemma_overwrite(w, items);
    assert forall|u: int| st.has(u) && u != v implies (#[trigger] st.views[u]).buffer
        != target by {
        assert(st.buffers.dom().contains(st.views[u].buffer));
    }
    lemma_put(st, v, target, w.overwrite(items));
    assert forall|u: int| st.has(u) && u != v implies #[trigger] st.write(v, items, fresh).shows(
        u,
    ) == st.shows(u) by {
        assert(st.write(v, items, fresh).window(u) == st.window(u));
    }
}

/// A change of length through one view shows its result there and changes
/// what no other view shows, whether or not they share a buffer.
pub proof fn lemma_modify_isolated(st: Store, v: int, items: Seq<u64>, fresh: int)
    requires
        st.wf(),
        st.has(v),
        !st.buffers.dom().contains(fresh),
    ensures
        st.modify(v, items, fresh).wf(),
        st.modify(v, items, fresh).views.len() == st.views.len(),
        st.modify(v, items, fresh).window(v) == Window::whole(items),
        st.modify(v, items, fresh).shows(v) == items,
        forall|u: int|
            st.has(u) && u != v ==> #[trigger] st.modify(v, items, fresh).shows(u) == st.shows(u),
{
    let target = st.modify_target(v, fresh);
    assert(st.buffers.dom().contains(st.views[v].buffer));
    lemma_whole(items);
    assert forall|u: int| st.has(u) && u != v implies (#[trigger] st.views[u]).buffer
        != target by {
        assert(st.buffers.dom().contains(st.views[u].buffer));
    }
    lemma_put(st, v, target, Window::whole(items));
    assert forall|u: int| st.has(u) && u != v implies #[trigger] st.modify(
        v,
        items,
        fresh,
    ).shows(u) == st.shows(u) by {
        assert(st.modify(v, items, fresh).window(u) == st.window(u));
    }
}

/// Slicing adds a view of the chosen sub-range, in the same buffer, and
/// changes no view that was there.
pub proof fn lemma_slice_shares(st: Store, v: int, lo: int, hi: int)
    requires
        st.wf(),
        st.has(v),
        0 <= lo <= hi <= st.window(v).len(),
    ensures
        st.slice(v, lo, hi).wf(),
        st.slice(v, lo, hi).views.len() == st.views.len() + 1,
        st.slice(v, lo, hi).buffers == st.buffers,
        st.slice(v, lo, hi).window(st.views.len() as int) == st.window(v).narrow(lo, hi),
        st.slice(v, lo, hi).shows(st.views.len() as int) == st.shows(v).subrange(lo, hi),
        forall|u: int| st.has(u) ==> #[trigger] st.slice(v, lo, hi).window(u) == st.window(u),
{
    let next = st.slice(v, lo, hi);
    lemma_narrow(st.window(v), lo, hi);
    assert(st.buffers.dom().contains(st.views[v].buffer));
    assert forall|u: int| st.has(u) implies #[trigger] next.window(u) == st.window(u) by {
        assert(next.views[u] == st.views[u]);
    }
    assert forall|u: int| next.has(u) implies next.buffers.dom().contains(
        #[trigger] next.views[u].buffer,
    ) && next.window(u).wf() by {
        if u < st.views.len() {
            assert(st.buffers.dom().contains(st.views[u].buffer));
            assert(next.window(u) == st.window(u));
        }
    }
}

/// Truncating one view touches no buffer and no other view.
pub proof fn lemma_truncate_isolated(st: Store, v: int, len: int)
    requires
        st.wf(),
        st.has(v),
        0 <= len,
        st.window(v).start + len <= st.window(v).buffer.len(),
    ensures
        st.truncate(v, len).wf(),
        st.truncate(v, len).buffers == st.buffers,
        st.truncate(v, len).window(v) == st.window(v).resize(len),
        forall|u: int|
            st.has(u) && u != v ==> #[trigger] st.truncate(v, len).window(u) == st.window(u),
{
    let next = st.truncate(v, len);
    lemma_resize(st.window(v), len);
    assert(st.buffers.dom().contains(st.views[v].buffer));
    assert forall|u: int| st.has(u) && u != v implies #[trigger] next.window(u) == st.window(
        u,
    ) by {
        assert(next.views[u] == st.views[u]);
    }
    assert forall|u: int| next.has(u) implies next.buffers.dom().contains(
        #[trigger] next.views[u].buffer,
    ) && next.window(u).wf() by {
        if u != v {
            assert(st.buffers.dom().contains(st.views[u].buffer));
            assert(next.window(u) == st.window(u));
        }
    }
}

/// Take a sub-slice of a view, then write through either of the two, or
/// change its length: the other shows what it showed before.
pub proof fn lemma_sharing_isolation(
    st: Store,
    parent: int,
    lo: int,
    hi: int,
    items: Seq<u64>,
    fresh: int,
)
    requires
        st.wf(),
        st.has(parent),
        0 <= lo <= hi <= st.window(parent).len(),
        !st.buffers.dom().contains(fresh),
    ensures
        ({
            let shared = st.slice(parent, lo, hi);
            let sub = st.views.len() as int;
            &&& shared.shows(sub) == st.shows(parent).subrange(lo, hi)
            &&& shared.shows(parent) == st.shows(parent)
            &&& items.len() == shared.window(parent).len() ==> shared.write(
                parent,
                items,
                fresh,
            ).shows(sub) == shared.shows(sub)
            &&& items.len() == shared.window(sub).len() ==> shared.write(sub, items, fresh).shows(
                parent,
            ) == shared.shows(parent)
            &&& shared.modify(parent, items, fresh).shows(sub) == shared.shows(sub)
            &&& shared.modify(sub, items, fresh).shows(parent) == shared.shows(parent)
        }),
{
    let shared = st.slice(parent, lo, hi);
    let sub = st.views.len() as int;
    lemma_slice_shares(st, parent, lo, hi);
    assert(shared.window(parent) == st.window(parent));
    if items.len() == shared.window(parent).len() {
        lemma_write_isolated(shared, parent, items, fresh);
    }
    if items.len() == shared.window(sub).len() {
        lemma_write_isolated(shared, sub, items, fresh);
    }
    lemma_modify_isolated(shared, parent, items, fresh);
    lemma_modify_isolated(shared, sub, items, fresh);
}

/// A write through a view whose buffer is exclusive stays in that buffer and
/// brings no new buffer into the store; so does a change of length where,
/// besides, nothing of the buffer is hidden.
pub proof fn lemma_exclusive_in_place(st: Store, v: int, items: Seq<u64>, fresh: int)
    requires
        st.wf(),
        st.has(v),
        st.exclusive(v),
        !st.buffers.dom().contains(fresh),
    ensures
        st.write(v, items, fresh).views[v].buffer == st.views[v].buffer,
        st.write(v, items, fresh).buffers.dom() == st.buffers.dom(),
        st.write(v, items, fresh).window(v) == st.window(v).overwrite(items),
        st.window(v).is_whole() ==> st.modify(v, items, fresh).views[v].buffer
            == st.views[v].buffer,
        st.window(v).is_whole() ==> st.modify(v, items, fresh).buffers.dom() == st.buffers.dom(),
{
    let b = st.views[v].buffer;
    assert(st.buffers.dom().contains(b));
    assert(st.buffers.insert(b, st.window(v).overwrite(items).buffer).dom() =~= st.buffers.dom());
    assert(st.buffers.insert(b, items).dom() =~= st.buffers.dom());
}

/// After a view is cut short and then grown by `extra`, it shows the kept
/// prefix followed by `extra`, and a sibling that shared its buffer shows
/// what it showed before.
pub proof fn lemma_truncate_then_extend(
    st: Store,
    v: int,
    sibling: int,
    len: int,
    extra: Seq<u64>,
    fresh: int,
)
    requires
        st.wf(),
        st.has(v),
        st.has(sibling),
        sibling != v,
        0 <= len <= st.window(v).len(),
        !st.buffers.dom().contains(fresh),
    ensures
        ({
            let cut = st.truncate(v, len);
            let grown = cut.modify(v, cut.shows(v) + extra, fresh);
            &&& grown.shows(v) == st.shows(v).subrange(0, len) + extra
            &&& grown.shows(sibling) == st.shows(sibling)
        }),
{
    let cut = st.truncate(v, len);
    lemma_truncate_isolated(st, v, len);
    lemma_resize(st.window(v), len);
    assert(cut.window(sibling) == st.window(sibling));
    lemma_modify_isolated(cut, v, cut.shows(v) + extra, fresh);
}

} // verus!
