//! One save at a time.
//!
//! The reducer asks for a save after every event that leaves something
//! unsaved, so a second save can be asked for while the first is still
//! being written. The queue lets one save through at a time and keeps the
//! newest of those asked for meanwhile, to be written when the first has
//! ended.

use crate::app::Command;
use crate::persistence::{saved_list_views, SavedList, SavedListView};
use vstd::prelude::*;

verus! {

/// The saves that the event loop has in hand: whether one is being written,
/// and the lists that wait to be written after it.
#[derive(Debug)]
pub struct SaveQueue {
    in_flight: bool,
    waiting: Option<Vec<SavedList>>,
}

pub struct SaveQueueView {
    /// Whether a save is being written.
    pub in_flight: bool,
    /// The lists to write once the save that is being written has ended.
    pub waiting: Option<Seq<SavedListView>>,
}

/// What the queue is told after an event of the application: whether the
/// event was the end of the save that was being written, and the lists
/// that the reducer asked to save after it, if it asked.
pub struct QueueEvent {
    pub ended: bool,
    pub asked: Option<Seq<SavedListView>>,
}

impl SaveQueueView {
    /// Nothing waits unless a save is being written.
    pub open spec fn wf(self) -> bool {
        self.waiting is Some ==> self.in_flight
    }

    /// The queue with nothing in hand.
    pub open spec fn idle() -> SaveQueueView {
        SaveQueueView { in_flight: false, waiting: None }
    }

    /// Whether a save is still being written after the event has been
    /// taken note of.
    pub open spec fn busy(self, event: QueueEvent) -> bool {
        self.in_flight && !event.ended
    }

    /// The newest lists that are to be written: those asked for at the
    /// event, or else those that waited.
    pub open spec fn newest(self, event: QueueEvent) -> Option<Seq<SavedListView>> {
        if event.asked is Some {
            event.asked
        } else {
            self.waiting
        }
    }

    /// The lists to start writing at an event: the newest, unless a save is
    /// still being written.
    pub open spec fn started(self, event: QueueEvent) -> Option<Seq<SavedListView>> {
        if self.busy(event) {
            None
        } else {
            self.newest(event)
        }
    }

    /// The queue after an event: while a save is still being written the
    /// newest lists wait, otherwise they are the save being written.
    pub open spec fn after(self, event: QueueEvent) -> SaveQueueView {
        if self.busy(event) {
            SaveQueueView { in_flight: true, waiting: self.newest(event) }
        } else {
            SaveQueueView { in_flight: self.newest(event) is Some, waiting: None }
        }
    }

    /// The queue after a sequence of events, first to last.
    pub open spec fn run(self, events: Seq<QueueEvent>) -> SaveQueueView
        decreases events.len(),
    {
        if events.len() == 0 {
            self
        } else {
            self.run(events.drop_last()).after(events.last())
        }
    }

    /// The number of writes that have been started and have not ended,
    /// after a sequence of events met by a queue with nothing in hand.
    pub open spec fn outstanding(events: Seq<QueueEvent>) -> int
        decreases events.len(),
    {
        if events.len() == 0 {
            0
        } else {
            let before = Self::idle().run(events.drop_last());
            Self::outstanding(events.drop_last()) - (if events.last().ended {
                1int
            } else {
                0int
            }) + (if before.started(events.last()) is Some {
                1int
            } else {
                0int
            })
        }
    }

    /// Whether each end that the events report is the end of a write that
    /// was outstanding.
    pub open spec fn ends_follow_starts(events: Seq<QueueEvent>) -> bool
        decreases events.len(),
    {
        events.len() > 0 ==> Self::ends_follow_starts(events.drop_last()) && (events.last().ended
            ==> Self::outstanding(events.drop_last()) > 0)
    }
}

impl View for SaveQueue {
    type V = SaveQueueView;

    closed spec fn view(&self) -> SaveQueueView {
        SaveQueueView {
            in_flight: self.in_flight,
            waiting: match self.waiting {
                Some(lists) => Some(saved_list_views(lists@)),
                None => None,
            },
        }
    }
}

impl SaveQueue {
    /// A queue with nothing in hand.
    pub fn new() -> (queue: Self)
        ensures
            queue@ == SaveQueueView::idle(),
    {
        SaveQueue { in_flight: false, waiting: None }
    }

    /// Whether a save is being written.
    pub fn is_in_flight(&self) -> (in_flight: bool)
        ensures
            in_flight == self@.in_flight,
    {
        self.in_flight
    }

    /// Whether lists wait to be written.
    pub fn has_waiting(&self) -> (waiting: bool)
        ensures
            waiting == self@.waiting is Some,
    {
        self.waiting.is_some()
    }

    /// Takes note of an event of the application and says what to write
    /// now. `ended` tells that the event was the end of the save that was
    /// being written, however it ended; `asked` is what the reducer asked
    /// for after the event.
    ///
    /// While a save is still being written nothing is to be written now,
    /// and lists that are asked for wait, in place of lists that waited
    /// before them. Otherwise the newest lists, those asked for or else
    /// those that waited, are to be written now.
    pub fn advance(&mut self, ended: bool, asked: Command) -> (now: Command)
        ensures
            final(self)@ == old(self)@.after(QueueEvent { ended, asked: asked@ }),
            now@ == old(self)@.started(QueueEvent { ended, asked: asked@ }),
    {
        let busy = self.in_flight && !ended;
        let newest = match asked {
            Command::Save(lists) => Some(lists),
            Command::Nothing => self.waiting.take(),
        };
        if busy {
            self.waiting = newest;
            Command::Nothing
        } else {
            self.waiting = None;
            match newest {
                Some(lists) => {
                    self.in_flight = true;
                    Command::Save(lists)
                },
                None => {
                    self.in_flight = false;
                    Command::Nothing
                },
            }
        }
    }
}

/// After every event nothing waits unless a save is being written,
/// whatever the queue was before.
pub proof fn lemma_queue_is_well_formed(queue: SaveQueueView, event: QueueEvent)
    ensures
        queue.after(event).wf(),
{
}

/// Never two saves at once: from a queue with nothing in hand, and as long
/// as an end is only reported of a write that was outstanding, at most one
/// write is outstanding after every event, and one is outstanding exactly
/// when the queue says that a save is being written.
pub proof fn lemma_one_save_at_a_time(events: Seq<QueueEvent>)
    requires
        SaveQueueView::ends_follow_starts(events),
    ensures
        0 <= SaveQueueView::outstanding(events) <= 1,
        SaveQueueView::outstanding(events) == 1 <==> SaveQueueView::idle().run(events).in_flight,
    decreases events.len(),
{
    if events.len() > 0 {
        lemma_one_save_at_a_time(events.drop_last());
    }
}

/// The newest lists are not lost: lists that are asked for are either
/// started at once or the ones that wait; and lists that wait when the save
/// before them ends, with nothing newer asked for, are started then.
pub proof fn lemma_newest_lists_are_kept(
    queue: SaveQueueView,
    ended: bool,
    lists: Seq<SavedListView>,
)
    ensures
        queue.started(QueueEvent { ended, asked: Some(lists) }) == Some(lists) || queue.after(
            QueueEvent { ended, asked: Some(lists) },
        ).waiting == Some(lists),
        queue.in_flight ==> queue.started(QueueEvent { ended: true, asked: None })
            == queue.waiting,
        queue.after(QueueEvent { ended: true, asked: None }).waiting is None,
{
}

} // verus!
