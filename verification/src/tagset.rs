//! Tag sets: the virtual-desktop grouping with its bounded focus history
//! and its pluggable layout strategy.

use vstd::prelude::*;

use crate::client::Client;
use crate::client::Tag;

verus! {

/// Placement of one client on screen.
#[derive(Debug, PartialEq, Eq, Clone, Copy, Structural)]
pub struct Geometry {
    pub x: i16,
    pub y: i16,
    pub width: u16,
    pub height: u16,
}

/// A layout strategy: given the visible clients and the available screen
/// geometry, produce one placement per client. The core only owns and
/// invokes a strategy; the algorithm itself is a collaborator supplied by
/// the embedder.
pub trait Layout {
    fn arrange(&self, clients: &Vec<&Client>, screen: &Geometry) -> Vec<Geometry>;
}

/// The focus history never holds more entries than this.
pub const FOCUS_HISTORY_LIMIT: usize = 4;

/// The focus history after a window gains focus: a strict FIFO bound, the
/// oldest entry (index 0) is evicted first once the limit is reached.
pub open spec fn pushed_focus(h: Seq<u32>, window: u32) -> Seq<u32> {
    if h.len() >= FOCUS_HISTORY_LIMIT {
        h.subrange(1, h.len() as int).push(window)
    } else {
        h.push(window)
    }
}

/// The focus history after a window leaves: only the most recent entry is
/// removed, and only when it is the given window; anything else is a
/// no-op, so a stale destroy notification cannot disturb older entries.
pub open spec fn popped_focus(h: Seq<u32>, window: u32) -> Seq<u32> {
    if h.len() > 0 && h.last() == window {
        h.drop_last()
    } else {
        h
    }
}

/// A named grouping of clients shown together: the tags it stands for,
/// the bounded focus history (most recently focused last), and the layout
/// strategy that arbitrates geometry for it.
pub struct TagSet<L: Layout> {
    pub tags: Vec<Tag>,
    pub focused: Vec<u32>,
    pub layout: L,
}

impl<L: Layout> TagSet<L> {
    /// The focus history is bounded.
    pub open spec fn wf(self) -> bool {
        self.focused@.len() <= FOCUS_HISTORY_LIMIT
    }

    pub fn new(tags: Vec<Tag>, layout: L) -> (r: TagSet<L>)
        ensures
            r.tags == tags,
            r.focused@ == Seq::<u32>::empty(),
            r.layout == layout,
            r.wf(),
    {
        TagSet { tags, focused: Vec::new(), layout }
    }

    /// Record that a window gained focus, evicting the oldest entry when
    /// the history is full.
    pub fn push_focus(&mut self, window: u32)
        requires
            old(self).wf(),
        ensures
            final(self).wf(),
            final(self).focused@ == pushed_focus(old(self).focused@, window),
            final(self).tags == old(self).tags,
            final(self).layout == old(self).layout,
    {
        if self.focused.len() >= FOCUS_HISTORY_LIMIT {
            self.focused.remove(0);
        }
        self.focused.push(window);
    }

    /// Forget the most recent focus entry, but only when it is the given
    /// window; a mismatch is a no-op.
    pub fn pop_focus(&mut self, window: u32)
        ensures
            final(self).focused@ == popped_focus(old(self).focused@, window),
            final(self).tags == old(self).tags,
            final(self).layout == old(self).layout,
            old(self).wf() ==> final(self).wf(),
    {
        if self.focused.len() > 0 {
            let last: u32 = self.focused[self.focused.len() - 1];
            if last == window {
                self.focused.pop();
            }
        }
    }

    /// Reserved extension point: toggling a tag's membership is not yet
    /// specified, so the call leaves the tag set unchanged.
    pub fn toggle_tag(&mut self, tag: Tag)
        ensures
            *final(self) == *old(self),
    {
    }
}

} // verus!
