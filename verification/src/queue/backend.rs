//! Generic queue abstraction: the primitives a queue backend provides and
//! the helpers built on them. A queue never starts playback.
use crate::error::ControlPointError;
use crate::queue::snapshot::{PlaybackItem, QueueSnapshot};
use crate::queue::interne::settle_index;
use vstd::prelude::*;

verus! {

/// How new items are inserted relative to the existing queue.
#[derive(Clone, Copy, Debug)]
pub enum EnqueueMode {
    /// Append new items at the end of the queue.
    AppendToEnd,
    /// Insert new items right after the current item (or at the beginning
    /// when there is none).
    InsertAfterCurrent,
    /// Replace the whole queue with the new items.
    ReplaceAll,
}

/// An item with its backend id cleared: what a queue says of a track
/// whatever id the backend gives it.
pub open spec fn erase_id(item: PlaybackItem) -> PlaybackItem {
    PlaybackItem { backend_id: 0usize, ..item }
}

/// The items of a sequence with their backend ids cleared.
pub open spec fn erase_ids(s: Seq<PlaybackItem>) -> Seq<PlaybackItem> {
    Seq::new(s.len(), |i: int| erase_id(s[i]))
}

/// The index designates an item of a queue of `len` items (or is absent).
pub open spec fn index_within(len: nat, idx: Option<usize>) -> bool {
    match idx {
        Some(i) => i < len,
        None => true,
    }
}

/// Items after the current index (all of them without one).
pub open spec fn spec_upcoming<T>(items: Seq<T>, idx: Option<usize>) -> Seq<T> {
    match idx {
        None => items,
        Some(i) => if i < items.len() {
            items.skip(i + 1)
        } else {
            Seq::empty()
        },
    }
}

/// Number of items after the current index (all of them without one).
pub open spec fn spec_upcoming_len(len: nat, idx: Option<usize>) -> nat {
    match idx {
        None => len,
        Some(i) => if i < len {
            (len - i - 1) as nat
        } else {
            0
        },
    }
}

/// The index that follows the current one, if any.
pub open spec fn spec_next_index(len: nat, idx: Option<usize>) -> Option<usize> {
    if len == 0 {
        None
    } else {
        match idx {
            None => Some(0usize),
            Some(i) => if i + 1 < len {
                Some((i + 1) as usize)
            } else {
                None
            },
        }
    }
}

/// The index that precedes the current one, if any.
pub open spec fn spec_previous_index(idx: Option<usize>) -> Option<usize> {
    match idx {
        None => None,
        Some(i) => if i == 0 {
            None
        } else {
            Some((i - 1) as usize)
        },
    }
}

/// The position of the item that `dequeue_next` moves to, if any.
pub open spec fn spec_dequeue_position(len: nat, idx: Option<usize>) -> Option<usize> {
    if len == 0 {
        None
    } else {
        match idx {
            None => Some(0usize),
            Some(i) => if i + 1 >= len {
                None
            } else {
                Some((i + 1) as usize)
            },
        }
    }
}

/// Backend abstraction for a renderer queue: the primitives a backend
/// provides, and helpers built on them. A queue never starts playback.
///
/// A backend is seen through its items, its current index, and whether its
/// operations always succeed (a local queue) or may fail (a remote one).
pub trait QueueBackend {
    /// The items of the queue, as a snapshot lists them.
    spec fn queue_items(&self) -> Seq<PlaybackItem>;

    /// The current index of the queue.
    spec fn queue_index(&self) -> Option<usize>;

    /// Whether the operations of the backend cannot fail.
    spec fn reliable(&self) -> bool;

    /// Length of the queue.
    fn len(&self) -> (r: Result<usize, ControlPointError>)
        ensures
            r matches Ok(n) ==> n == self.queue_items().len(),
            self.reliable() ==> r is Ok,
    ;

    /// Ids of the items, in order.
    fn track_ids(&self) -> (r: Result<Vec<u32>, ControlPointError>)
        ensures
            r matches Ok(ids) ==> ids@.len() == self.queue_items().len(),
            self.reliable() ==> r is Ok,
    ;

    /// Position of the item with the given id.
    fn id_to_position(&self, id: u32) -> Result<usize, ControlPointError>;

    /// Id of the item at the given position.
    fn position_to_id(&self, id: usize) -> Result<u32, ControlPointError>;

    /// Id of the current item.
    fn current_track(&self) -> (r: Result<Option<u32>, ControlPointError>)
        ensures
            r matches Ok(t) ==> (t is Some <==> self.queue_index() is Some),
    ;

    /// Index of the current item.
    fn current_index(&self) -> (r: Result<Option<usize>, ControlPointError>)
        ensures
            r matches Ok(i) ==> i == self.queue_index(),
            self.reliable() ==> r is Ok,
    ;

    /// Items and current index.
    fn queue_snapshot(&self) -> (r: Result<QueueSnapshot, ControlPointError>)
        ensures
            r matches Ok(s) ==> s.items@ == self.queue_items() && s.current_index == self.queue_index(),
            self.reliable() ==> r is Ok,
    ;

    /// Moves the current index (never starts playback).
    fn set_index(&mut self, index: Option<usize>) -> (r: Result<(), ControlPointError>)
        ensures
            final(self).reliable() == old(self).reliable(),
            r is Ok ==> final(self).queue_index() == index && final(self).queue_items() == old(self).queue_items(),
            r is Err ==> final(self).queue_index() == old(self).queue_index() && final(self).queue_items() == old(self).queue_items(),
            old(self).reliable() ==> (r is Ok <==> match index {
                Some(i) => i < old(self).queue_items().len(),
                None => true,
            }),
    ;

    /// Replaces the whole queue and its current index (kept when it
    /// designates an item, the first item otherwise).
    fn replace_queue(&mut self, items: Vec<PlaybackItem>, current_index: Option<usize>) -> (r: Result<(), ControlPointError>)
        ensures
            final(self).reliable() == old(self).reliable(),
            r is Ok ==> erase_ids(final(self).queue_items()) == erase_ids(items@)
                && final(self).queue_index() == settle_index(items@.len(), current_index),
            old(self).reliable() ==> r is Ok,
    ;

    /// Replaces the queue, keeping the current track current.
    fn sync_queue(&mut self, items: Vec<PlaybackItem>) -> (r: Result<(), ControlPointError>)
        ensures
            final(self).reliable() == old(self).reliable(),
            old(self).reliable() ==> r is Ok,
    ;

    /// The item at `index`.
    fn get_item(&self, index: usize) -> (r: Result<Option<PlaybackItem>, ControlPointError>)
        ensures
            r matches Ok(o) ==> (index < self.queue_items().len() && (o matches Some(it)
                && erase_id(it) == erase_id(self.queue_items()[index as int]))),
            self.reliable() ==> (r is Ok <==> index < self.queue_items().len()),
    ;

    /// Replaces the item at `index`.
    fn replace_item(&mut self, index: usize, item: PlaybackItem) -> (r: Result<(), ControlPointError>)
        ensures
            final(self).reliable() == old(self).reliable(),
            r is Ok ==> index < old(self).queue_items().len() && final(self).queue_index() == old(self).queue_index()
                && erase_ids(final(self).queue_items()) == erase_ids(old(self).queue_items()).update(index as int, erase_id(item)),
            old(self).reliable() ==> (r is Ok <==> index < old(self).queue_items().len()),
    ;

    /// Enqueues items according to `mode`.
    fn enqueue_items(&mut self, items: Vec<PlaybackItem>, mode: EnqueueMode) -> (r: Result<(), ControlPointError>)
        ensures
            final(self).reliable() == old(self).reliable(),
            old(self).reliable() ==> r is Ok,
    ;

    /// Clears the queue.
    fn clear_queue(&mut self) -> (r: Result<(), ControlPointError>)
        ensures
            final(self).reliable() == old(self).reliable(),
            r is Ok ==> final(self).queue_items().len() == 0 && final(self).queue_index() is None,
            old(self).reliable() ==> r is Ok,
    {
        let r = self.replace_queue(Vec::new(), None);
        proof {
            if r is Ok {
                assert(erase_ids(final(self).queue_items()).len() == 0);
            }
        }
        r
    }

    /// Whether the queue is empty.
    fn is_empty(&self) -> (r: Result<bool, ControlPointError>)
        ensures
            r matches Ok(b) ==> b == (self.queue_items().len() == 0),
            self.reliable() ==> r is Ok,
    {
        let snapshot = self.queue_snapshot()?;
        Ok(snapshot.is_empty())
    }

    /// Items strictly after the current index (all of them without one).
    fn upcoming_items(&self) -> (r: Result<Vec<PlaybackItem>, ControlPointError>)
        ensures
            r matches Ok(v) ==> erase_ids(v@) == erase_ids(spec_upcoming(self.queue_items(), self.queue_index())),
            self.reliable() ==> r is Ok,
    {
        let snapshot = self.queue_snapshot()?;
        match snapshot.current_index {
            None => Ok(snapshot.items),
            Some(idx) => Ok(items_after(&snapshot.items, idx)),
        }
    }

    /// Number of items strictly after the current index.
    fn upcoming_len(&self) -> (r: Result<usize, ControlPointError>)
        ensures
            r matches Ok(n) ==> n == spec_upcoming_len(self.queue_items().len(), self.queue_index()),
            self.reliable() ==> r is Ok,
    {
        let snapshot = self.queue_snapshot()?;
        let len = snapshot.items.len();
        match snapshot.current_index {
            None => Ok(len),
            Some(idx) => Ok(remaining_after(len, idx)),
        }
    }

    /// The current item (the first one when no valid index is set) with the
    /// number of items after it.
    fn peek_current(&mut self) -> (r: Result<Option<(PlaybackItem, usize)>, ControlPointError>)
        ensures
            final(self).reliable() == old(self).reliable(),
            final(self).queue_items() == old(self).queue_items(),
            r matches Ok(o) ==> match o {
                None => old(self).queue_items().len() == 0,
                Some((it, n)) => {
                    let items = old(self).queue_items();
                    &&& items.len() > 0
                    &&& match old(self).queue_index() {
                        Some(i) if i < items.len() => erase_id(it) == erase_id(items[i as int]) && n == items.len() - i - 1,
                        _ => erase_id(it) == erase_id(items[0]),
                    }
                },
            },
            old(self).reliable() ==> r is Ok,
    {
        let snapshot = self.queue_snapshot()?;
        let len = snapshot.items.len();
        if len == 0 {
            return Ok(None);
        }
        match snapshot.current_index {
            Some(idx) => {
                if idx < len {
                    Ok(Some((snapshot.items[idx].clone(), remaining_after(len, idx))))
                } else {
                    Ok(Some((snapshot.items[0].clone(), len)))
                }
            },
            None => Ok(Some((snapshot.items[0].clone(), len))),
        }
    }

    /// Moves to the next item and returns it with the number of items after it.
    fn dequeue_next(&mut self) -> (r: Result<Option<(PlaybackItem, usize)>, ControlPointError>)
        ensures
            final(self).reliable() == old(self).reliable(),
            final(self).queue_items() == old(self).queue_items(),
            r matches Ok(o) ==> match spec_dequeue_position(old(self).queue_items().len(), old(self).queue_index()) {
                None => o is None && final(self).queue_index() == old(self).queue_index(),
                Some(p) => (o matches Some((it, n)) && erase_id(it) == erase_id(old(self).queue_items()[p as int])
                    && n == old(self).queue_items().len() - p - 1) && final(self).queue_index() == Some(p),
            },
            old(self).reliable() ==> r is Ok,
    {
        let snapshot = self.queue_snapshot()?;
        let len = snapshot.items.len();
        if len == 0 {
            return Ok(None);
        }
        let next_index = match snapshot.current_index {
            None => 0,
            Some(idx) => {
                if idx >= len - 1 {
                    return Ok(None);
                }
                idx + 1
            },
        };
        let item = snapshot.items[next_index].clone();
        self.set_index(Some(next_index))?;
        Ok(Some((item, remaining_after(len, next_index))))
    }

    /// Replaces the queue with `items`, the first one current.
    fn replace_all(&mut self, items: Vec<PlaybackItem>) -> (r: Result<(), ControlPointError>)
        ensures
            final(self).reliable() == old(self).reliable(),
            r is Ok ==> erase_ids(final(self).queue_items()) == erase_ids(items@)
                && final(self).queue_index() == (if items@.len() == 0 { None } else { Some(0usize) }),
            old(self).reliable() ==> r is Ok,
    {
        if items.len() == 0 {
            self.replace_queue(Vec::new(), None)
        } else {
            self.replace_queue(items, Some(0))
        }
    }

    /// Appends items; the first becomes current when the queue was empty.
    fn append_or_init_index(&mut self, items: Vec<PlaybackItem>) -> (r: Result<(), ControlPointError>)
        ensures
            final(self).reliable() == old(self).reliable(),
            r is Ok ==> final(self).queue_items().len() == old(self).queue_items().len() + items@.len()
                && erase_ids(final(self).queue_items()).take(old(self).queue_items().len() as int) == erase_ids(old(self).queue_items())
                && (index_within(old(self).queue_items().len(), old(self).queue_index()) ==> final(self).queue_index()
                == settle_index(final(self).queue_items().len(), old(self).queue_index())),
            old(self).reliable() ==> r is Ok,
    {
        let was_empty = self.is_empty()?;
        let snapshot = self.queue_snapshot()?;
        let ghost before = snapshot.items@;
        let mut all = snapshot.items;
        let mut more = items;
        all.append(&mut more);
        let new_index = if was_empty && all.len() > 0 {
            Some(0)
        } else {
            snapshot.current_index
        };
        let ghost all_v = all@;
        let r = self.replace_queue(all, new_index);
        proof {
            if r is Ok {
                assert(erase_ids(all_v).take(before.len() as int) =~= erase_ids(before));
                assert(erase_ids(final(self).queue_items()).len() == final(self).queue_items().len());
                assert(erase_ids(all_v).len() == all_v.len());
            }
        }
        r
    }

    /// The index after the current one, if any.
    fn next_index(&self) -> (r: Result<Option<usize>, ControlPointError>)
        ensures
            r matches Ok(n) ==> n == spec_next_index(self.queue_items().len(), self.queue_index()),
            self.reliable() ==> r is Ok,
    {
        let len = self.len()?;
        if len == 0 {
            return Ok(None);
        }
        match self.current_index()? {
            None => Ok(Some(0)),
            Some(i) => {
                if i < len - 1 {
                    Ok(Some(i + 1))
                } else {
                    Ok(None)
                }
            },
        }
    }

    /// The index before the current one, if any.
    fn previous_index(&self) -> (r: Result<Option<usize>, ControlPointError>)
        ensures
            r matches Ok(p) ==> p == spec_previous_index(self.queue_index()),
            self.reliable() ==> r is Ok,
    {
        match self.current_index()? {
            None => Ok(None),
            Some(i) => {
                if i == 0 {
                    Ok(None)
                } else {
                    Ok(Some(i - 1))
                }
            },
        }
    }

    /// Moves to the next item, if any.
    fn advance(&mut self) -> (r: Result<bool, ControlPointError>)
        ensures
            final(self).reliable() == old(self).reliable(),
            final(self).queue_items() == old(self).queue_items(),
            r matches Ok(b) ==> match spec_next_index(old(self).queue_items().len(), old(self).queue_index()) {
                Some(n) => b && final(self).queue_index() == Some(n),
                None => !b && final(self).queue_index() == old(self).queue_index(),
            },
            old(self).reliable() ==> r is Ok,
    {
        match self.next_index()? {
            Some(next) => {
                self.set_index(Some(next))?;
                Ok(true)
            },
            None => Ok(false),
        }
    }

    /// Moves to the previous item, if any.
    fn rewind(&mut self) -> (r: Result<bool, ControlPointError>)
        ensures
            final(self).reliable() == old(self).reliable(),
            final(self).queue_items() == old(self).queue_items(),
            r matches Ok(b) ==> match spec_previous_index(old(self).queue_index()) {
                Some(p) => b && final(self).queue_index() == Some(p),
                None => !b && final(self).queue_index() == old(self).queue_index(),
            },
            old(self).reliable() && index_within(old(self).queue_items().len(), old(self).queue_index()) ==> r is Ok,
    {
        match self.previous_index()? {
            Some(prev) => {
                self.set_index(Some(prev))?;
                Ok(true)
            },
            None => Ok(false),
        }
    }
}

/// Number of items after position `idx` in a queue of `len` items.
pub fn remaining_after(len: usize, idx: usize) -> (r: usize)
    ensures
        r == (if idx < len { len - idx - 1 } else { 0 }),
{
    if idx < len {
        len - idx - 1
    } else {
        0
    }
}

/// Copies of the items after position `idx`.
pub fn items_after(items: &Vec<PlaybackItem>, idx: usize) -> (r: Vec<PlaybackItem>)
    ensures
        r@ == (if idx < items@.len() { items@.skip(idx + 1) } else { Seq::empty() }),
{
    let mut out: Vec<PlaybackItem> = Vec::new();
    if idx >= items.len() {
        return out;
    }
    let mut i: usize = idx + 1;
    while i < items.len()
        invariant
            idx < items@.len(),
            idx + 1 <= i <= items@.len(),
            out@ == items@.subrange(idx + 1, i as int),
        decreases items@.len() - i,
    {
        out.push(items[i].clone());
        i = i + 1;
        assert(out@ =~= items@.subrange(idx + 1, i as int));
    }
    assert(out@ =~= items@.skip(idx + 1));
    out
}

} // verus!
