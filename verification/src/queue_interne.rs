//! The first local queue: a list of items and a cursor that designates one
//! of them or none; every operation is a structural change of memory.
use crate::error::ControlPointError;
use crate::queue::snapshot::{clone_items, PlaybackItem, QueueSnapshot};
use vstd::prelude::*;

verus! {

/// A list of items and an optional current index.
#[derive(Debug, Default)]
pub struct InternalQueue {
    items: Vec<PlaybackItem>,
    current_index: Option<usize>,
}

/// The index kept when it designates one of `len` items.
pub open spec fn valid_index(len: nat, idx: Option<usize>) -> Option<usize> {
    match idx {
        Some(i) => if i < len {
            Some(i)
        } else {
            None
        },
        None => None,
    }
}

impl InternalQueue {
    /// The items.
    pub closed spec fn items_view(&self) -> Seq<PlaybackItem> {
        self.items@
    }

    /// The current index.
    pub closed spec fn index_view(&self) -> Option<usize> {
        self.current_index
    }

    /// An empty queue.
    pub fn new() -> (r: Self)
        ensures
            r.items_view() == Seq::<PlaybackItem>::empty(),
            r.index_view() is None,
    {
        InternalQueue { items: Vec::new(), current_index: None }
    }

    /// A queue of the given items; the first is current when asked for and
    /// there is one.
    pub fn from_items(items: Vec<PlaybackItem>, set_current_to_first: bool) -> (r: Self)
        ensures
            r.items_view() == items@,
            r.index_view() == if set_current_to_first && items@.len() > 0 {
                Some(0usize)
            } else {
                None
            },
    {
        let current_index = if set_current_to_first && items.len() > 0 {
            Some(0)
        } else {
            None
        };
        InternalQueue { items, current_index }
    }

    /// The items.
    pub fn items(&self) -> (r: &[PlaybackItem])
        ensures
            r@ == self.items_view(),
    {
        self.items.as_slice()
    }

    /// The current index.
    pub fn current_index(&self) -> (r: Option<usize>)
        ensures
            r == self.index_view(),
    {
        self.current_index
    }

    /// Items and current index.
    pub fn queue_snapshot(&self) -> (r: Result<QueueSnapshot, ControlPointError>)
        ensures
            r matches Ok(s) && s.items@ == self.items_view() && s.current_index == self.index_view()
                && s.playlist_id is None,
    {
        Ok(QueueSnapshot { items: clone_items(self.items.as_slice()), current_index: self.current_index, playlist_id: None })
    }

    /// Moves the cursor; an index beyond the items removes it.
    pub fn set_index(&mut self, index: Option<usize>) -> (r: Result<(), ControlPointError>)
        ensures
            r is Ok,
            final(self).items_view() == old(self).items_view(),
            final(self).index_view() == valid_index(old(self).items_view().len(), index),
    {
        match index {
            None => {
                self.current_index = None;
            },
            Some(i) => {
                if i < self.items.len() {
                    self.current_index = Some(i);
                } else {
                    self.current_index = None;
                }
            },
        }
        Ok(())
    }

    /// Replaces the items; the index is kept only when it designates one.
    pub fn replace_queue(&mut self, items: Vec<PlaybackItem>, current_index: Option<usize>) -> (r: Result<(), ControlPointError>)
        ensures
            r is Ok,
            final(self).items_view() == items@,
            final(self).index_view() == valid_index(items@.len(), current_index),
    {
        self.items = items;
        self.current_index = match current_index {
            Some(i) => if i < self.items.len() {
                Some(i)
            } else {
                None
            },
            None => None,
        };
        Ok(())
    }

    /// The item at `index`, if there is one.
    pub fn get_item(&self, index: usize) -> (r: Result<Option<PlaybackItem>, ControlPointError>)
        ensures
            r == Ok::<Option<PlaybackItem>, ControlPointError>(
                if index < self.items_view().len() {
                    Some(self.items_view()[index as int])
                } else {
                    None
                },
            ),
    {
        if index < self.items.len() {
            Ok(Some(self.items[index].clone()))
        } else {
            Ok(None)
        }
    }

    /// Replaces the item at `index`; nothing happens beyond the items.
    pub fn replace_item(&mut self, index: usize, item: PlaybackItem) -> (r: Result<(), ControlPointError>)
        ensures
            r is Ok,
            final(self).index_view() == old(self).index_view(),
            final(self).items_view() == if index < old(self).items_view().len() {
                old(self).items_view().update(index as int, item)
            } else {
                old(self).items_view()
            },
    {
        if index < self.items.len() {
            self.items.set(index, item);
        }
        Ok(())
    }
}

} // verus!
