//! The task queue: a bounded first-in-first-out queue of tasks with an
//! in-flight registry. A popped task stays in flight until it is
//! acknowledged; a task that failed goes back to the end of the queue with
//! one more attempt, and is dropped once it reaches five attempts.

use vstd::prelude::*;
use crate::agent::{Task, TaskView};
use crate::app_error::AppError;

verus! {

/// Attempts after which a failed task is given up.
pub const MAX_ATTEMPTS: u32 = 5;

/// An element of the dispatch queue.
#[derive(Debug)]
pub struct QueueItem {
    pub task: Task,
    pub attempts: u32,
}

/// A queue item as plain values: the task and its attempts so far.
pub type ItemView = (TaskView, u32);

impl View for QueueItem {
    type V = ItemView;

    open spec fn view(&self) -> ItemView {
        (self.task@, self.attempts)
    }
}

impl QueueItem {
    /// A fresh item for `task`, with no attempts yet.
    pub fn new(task: Task) -> (q: Self)
        ensures
            q.task == task,
            q.attempts == 0,
    {
        QueueItem { task, attempts: 0 }
    }

    /// A copy of the item.
    pub fn duplicate(&self) -> (q: Self)
        ensures
            q@ == self@,
    {
        QueueItem { task: self.task.duplicate(), attempts: self.attempts }
    }
}

/// The views of a list of items.
pub open spec fn item_views(s: Seq<QueueItem>) -> Seq<ItemView> {
    s.map_values(|q: QueueItem| q@)
}

/// The priority rank of an item's task.
pub open spec fn rank_of(it: ItemView) -> u8 {
    it.0.4.spec_rank()
}

/// Position `k` holds the item to take next: no item has a higher
/// priority, and every item before it has a lower one.
pub open spec fn is_next(s: Seq<ItemView>, k: int) -> bool {
    &&& 0 <= k < s.len()
    &&& forall|j: int| 0 <= j < s.len() ==> rank_of(#[trigger] s[j]) <= rank_of(s[k])
    &&& forall|j: int| 0 <= j < k ==> rank_of(#[trigger] s[j]) < rank_of(s[k])
}

/// The items of `s` whose task is not `id`.
pub open spec fn without_id(s: Seq<ItemView>, id: u128) -> Seq<ItemView> {
    s.filter(other_task(id))
}

/// The predicate "belongs to another task than `id`".
pub open spec fn other_task(id: u128) -> spec_fn(ItemView) -> bool {
    |x: ItemView| x.0.0 != id
}

/// The item of `s` for task `id`, the last one when there are several.
pub open spec fn lookup(s: Seq<ItemView>, id: u128) -> Option<ItemView>
    decreases s.len(),
{
    if s.len() == 0 {
        None
    } else if s.last().0.0 == id {
        Some(s.last())
    } else {
        lookup(s.drop_last(), id)
    }
}

/// What happened to a task reported as failed.
#[derive(Debug)]
pub enum NackOutcome {
    /// The task was not in flight.
    Unknown,
    /// The task reached the attempt limit and was dropped.
    Dropped(QueueItem),
    /// The task went back to the end of the queue, with its attempts
    /// counted.
    Requeued,
    /// The task must go back to the queue, with its attempts counted, but
    /// the queue is full.
    Retry(QueueItem),
}

/// The in-memory task queue.
pub struct MemoryQueue {
    pending: Vec<QueueItem>,
    in_flight: Vec<QueueItem>,
    capacity: usize,
}

impl MemoryQueue {
    /// The queued items, oldest first.
    pub closed spec fn pending(&self) -> Seq<ItemView> {
        item_views(self.pending@)
    }

    /// The items handed out and not yet acknowledged.
    pub closed spec fn in_flight(&self) -> Seq<ItemView> {
        item_views(self.in_flight@)
    }

    /// The number of items the queue holds at most.
    pub closed spec fn capacity(&self) -> nat {
        self.capacity as nat
    }

    /// The queue is within its capacity, and no item has reached the
    /// attempt limit.
    pub open spec fn wf(&self) -> bool {
        &&& self.capacity() > 0
        &&& self.pending().len() <= self.capacity()
        &&& forall|i: int| 0 <= i < self.pending().len() ==> #[trigger] self.pending()[i].1 < MAX_ATTEMPTS
        &&& forall|i: int| 0 <= i < self.in_flight().len() ==> #[trigger] self.in_flight()[i].1 < MAX_ATTEMPTS
    }

    /// An empty queue for at most `capacity` items.
    pub fn new(capacity: usize) -> (q: Self)
        requires
            0 < capacity <= usize::MAX / 8,
        ensures
            q.wf(),
            q.capacity() == capacity,
            q.pending() == Seq::<ItemView>::empty(),
            q.in_flight() == Seq::<ItemView>::empty(),
    {
        let q = MemoryQueue { pending: Vec::new(), in_flight: Vec::new(), capacity };
        assert(q.pending() =~= Seq::<ItemView>::empty());
        assert(q.in_flight() =~= Seq::<ItemView>::empty());
        q
    }

    /// Appends an item when there is room; hands it back when the queue is
    /// full.
    pub fn try_push_item(&mut self, item: QueueItem) -> (r: Result<(), QueueItem>)
        requires
            old(self).wf(),
            item.attempts < MAX_ATTEMPTS,
        ensures
            final(self).wf(),
            final(self).capacity() == old(self).capacity(),
            final(self).in_flight() == old(self).in_flight(),
            old(self).pending().len() < old(self).capacity() ==> r is Ok && final(self).pending()
                == old(self).pending().push(item@),
            old(self).pending().len() >= old(self).capacity() ==> (r matches Err(back) && back == item)
                && final(self).pending() == old(self).pending(),
    {
        if self.pending.len() < self.capacity {
            let ghost before = self.pending@;
            self.pending.push(item);
            assert(item_views(self.pending@) =~= item_views(before).push(item@));
            assert(self.in_flight() == old(self).in_flight());
            assert forall|i: int| 0 <= i < self.pending().len() implies #[trigger] self.pending()[i].1 < MAX_ATTEMPTS by {
                if i < item_views(before).len() {
                    assert(self.pending()[i] == item_views(before)[i]);
                }
            }
            Ok(())
        } else {
            Err(item)
        }
    }

    /// Enqueues a new task when there is room; hands the task back when the
    /// queue is full.
    pub fn push(&mut self, task: Task) -> (r: Result<(), Task>)
        requires
            old(self).wf(),
        ensures
            final(self).wf(),
            final(self).capacity() == old(self).capacity(),
            final(self).in_flight() == old(self).in_flight(),
            old(self).pending().len() < old(self).capacity() ==> r is Ok && final(self).pending()
                == old(self).pending().push((task@, 0u32)),
            old(self).pending().len() >= old(self).capacity() ==> (r matches Err(back) && back == task)
                && final(self).pending() == old(self).pending(),
    {
        match self.try_push_item(QueueItem::new(task)) {
            Ok(()) => Ok(()),
            Err(item) => Err(item.task),
        }
    }

    /// Takes the item of highest priority, the oldest among equals, if any,
    /// and keeps a copy of it in flight (replacing an earlier in-flight item
    /// of the same task).
    pub fn pop(&mut self) -> (r: Option<QueueItem>)
        requires
            old(self).wf(),
        ensures
            final(self).wf(),
            final(self).capacity() == old(self).capacity(),
            old(self).pending().len() == 0 ==> r is None && final(self).pending() == old(self).pending()
                && final(self).in_flight() == old(self).in_flight(),
            old(self).pending().len() > 0 ==> (r matches Some(item) && exists|k: int|
                #[trigger] is_next(old(self).pending(), k) && item@ == old(self).pending()[k]
                    && final(self).pending() == old(self).pending().remove(k) && final(self).in_flight()
                    == without_id(old(self).in_flight(), item@.0.0).push(item@)),
    {
        if self.pending.len() == 0 {
            return None;
        }
        let ghost old_pending = self.pending();
        let mut best: usize = 0;
        let mut i: usize = 1;
        while i < self.pending.len()
            invariant
                1 <= i <= self.pending@.len(),
                best < i,
                self.pending() == old_pending,
                forall|j: int| 0 <= j < i ==> rank_of(#[trigger] old_pending[j]) <= rank_of(old_pending[best as int]),
                forall|j: int| 0 <= j < best ==> rank_of(#[trigger] old_pending[j]) < rank_of(old_pending[best as int]),
            decreases self.pending@.len() - i,
        {
            assert(old_pending[i as int] == self.pending@[i as int]@);
            assert(old_pending[best as int] == self.pending@[best as int]@);
            if self.pending[i].task.priority.rank() > self.pending[best].task.priority.rank() {
                best = i;
            }
            i = i + 1;
        }
        assert(is_next(old_pending, best as int));
        let item = self.pending.remove(best);
        assert(item_views(self.pending@) =~= old_pending.remove(best as int));
        assert(item@ == old_pending[best as int]);
        assert forall|j: int| 0 <= j < self.pending().len() implies #[trigger] self.pending()[j].1 < MAX_ATTEMPTS by {
            if j < best {
                assert(self.pending()[j] == old_pending[j]);
            } else {
                assert(self.pending()[j] == old_pending[j + 1]);
            }
        }
        assert(self.in_flight() == old(self).in_flight());
        self.remove_in_flight(item.task.id);
        let ghost kept = self.in_flight@;
        self.in_flight.push(item.duplicate());
        assert(item_views(self.in_flight@) =~= item_views(kept).push(item@));
        Some(item)
    }

    /// Removes every in-flight item of task `id`, returning the last one.
    fn remove_in_flight(&mut self, id: u128) -> (r: Option<QueueItem>)
        requires
            old(self).wf(),
        ensures
            final(self).wf(),
            final(self).capacity() == old(self).capacity(),
            final(self).pending() == old(self).pending(),
            final(self).in_flight() == without_id(old(self).in_flight(), id),
            match r {
                Some(it) => lookup(old(self).in_flight(), id) == Some(it@),
                None => lookup(old(self).in_flight(), id) is None,
            },
    {
        let ghost old_items = item_views(self.in_flight@);
        let mut kept: Vec<QueueItem> = Vec::new();
        let mut found: Option<QueueItem> = None;
        let mut rest: Vec<QueueItem> = Vec::new();
        std::mem::swap(&mut rest, &mut self.in_flight);
        assert(item_views(rest@) == old_items);
        let mut items: Vec<QueueItem> = Vec::new();
        while rest.len() > 0
            invariant
                item_views(items@) + item_views(rest@) == old_items,
                item_views(kept@) == without_id(item_views(items@), id),
                match found {
                    Some(it) => lookup(item_views(items@), id) == Some(it@),
                    None => lookup(item_views(items@), id) is None,
                },
                forall|k: int| 0 <= k < old_items.len() ==> #[trigger] old_items[k].1 < MAX_ATTEMPTS,
            decreases rest.len(),
        {
            let ghost before_items = item_views(items@);
            let ghost before_rest = item_views(rest@);
            let ghost before_kept = item_views(kept@);
            let it = rest.remove(0);
            assert(item_views(rest@) =~= before_rest.drop_first());
            assert(it@ == before_rest[0]);
            proof {
                before_items.lemma_filter_push(it@, other_task(id));
                assert(before_items + before_rest =~= before_items.push(it@) + before_rest.drop_first());
            }
            items.push(it.duplicate());
            assert(item_views(items@) =~= before_items.push(it@));
            assert(item_views(items@).drop_last() =~= before_items);
            if it.task.id == id {
                found = Some(it);
            } else {
                kept.push(it);
                assert(item_views(kept@) =~= before_kept.push(it@));
            }
        }
        assert(item_views(rest@) =~= Seq::<ItemView>::empty());
        assert(item_views(items@) =~= old_items);
        proof {
            assert forall|k: int| 0 <= k < item_views(kept@).len() implies #[trigger] item_views(kept@)[k].1 < MAX_ATTEMPTS by {
                old_items.lemma_filter_pred(other_task(id), k);
                let x = item_views(kept@)[k];
                old_items.lemma_filter_contains_rev(other_task(id), x);
            }
        }
        self.in_flight = kept;
        found
    }

    /// Acknowledges task `id`: it leaves the in-flight registry.
    pub fn ack(&mut self, id: u128)
        requires
            old(self).wf(),
        ensures
            final(self).wf(),
            final(self).capacity() == old(self).capacity(),
            final(self).pending() == old(self).pending(),
            final(self).in_flight() == without_id(old(self).in_flight(), id),
    {
        let _ = self.remove_in_flight(id);
    }

    /// Reports task `id` as failed: it leaves the in-flight registry; with
    /// one more attempt it goes back to the end of the queue, or is dropped
    /// when it reaches the attempt limit. When the queue is full the item is
    /// handed back (`Retry`) for the caller to enqueue once there is room.
    pub fn nack(&mut self, id: u128) -> (r: NackOutcome)
        requires
            old(self).wf(),
        ensures
            final(self).wf(),
            final(self).capacity() == old(self).capacity(),
            final(self).in_flight() == without_id(old(self).in_flight(), id),
            lookup(old(self).in_flight(), id) is None ==> r is Unknown && final(self).pending() == old(self).pending(),
            lookup(old(self).in_flight(), id) matches Some(it) ==> (if it.1 + 1 >= MAX_ATTEMPTS {
                r matches NackOutcome::Dropped(q) && q@ == (it.0, (it.1 + 1) as u32)
                    && final(self).pending() == old(self).pending()
            } else if old(self).pending().len() < old(self).capacity() {
                r is Requeued && final(self).pending() == old(self).pending().push((it.0, (it.1 + 1) as u32))
            } else {
                r matches NackOutcome::Retry(q) && q@ == (it.0, (it.1 + 1) as u32)
                    && final(self).pending() == old(self).pending()
            }),
    {
        match self.remove_in_flight(id) {
            None => NackOutcome::Unknown,
            Some(mut item) => {
                proof {
                    lemma_lookup_in(old(self).in_flight(), id);
                    let k = choose|k: int| 0 <= k < old(self).in_flight().len() && old(self).in_flight()[k] == item@;
                    assert(old(self).in_flight()[k].1 < MAX_ATTEMPTS);
                }
                item.attempts = item.attempts + 1;
                if item.attempts < MAX_ATTEMPTS {
                    match self.try_push_item(item) {
                        Ok(()) => NackOutcome::Requeued,
                        Err(back) => NackOutcome::Retry(back),
                    }
                } else {
                    NackOutcome::Dropped(item)
                }
            },
        }
    }

    /// The number of queued items.
    pub fn depth(&self) -> (n: usize)
        ensures
            n == self.pending().len(),
    {
        self.pending.len()
    }
}

/// An item found by `lookup` is one of the sequence's items.
proof fn lemma_lookup_in(s: Seq<ItemView>, id: u128)
    ensures
        lookup(s, id) matches Some(it) ==> exists|k: int| 0 <= k < s.len() && s[k] == it,
    decreases s.len(),
{
    if s.len() > 0 && s.last().0.0 != id {
        lemma_lookup_in(s.drop_last(), id);
        if lookup(s, id) is Some {
            let k = choose|k: int| 0 <= k < s.drop_last().len() && s.drop_last()[k] == lookup(s, id)->0;
            assert(s[k] == s.drop_last()[k]);
        }
    } else if s.len() > 0 {
        assert(s[s.len() - 1] == s.last());
    }
}

/// A task is never handed out more than `MAX_ATTEMPTS` times: in a
/// well-formed queue every queued or in-flight item has fewer attempts than
/// the limit, and a failed task goes back only while its attempts stay
/// below it.
pub proof fn law_attempts_bounded(q: &MemoryQueue, it: ItemView)
    requires
        q.wf(),
    ensures
        q.pending().contains(it) ==> it.1 < MAX_ATTEMPTS,
        q.in_flight().contains(it) ==> it.1 < MAX_ATTEMPTS,
{
}

/// Decision for a failed task of the persistent queue: its attempts after
/// this failure, and whether it goes to the dead-letter list instead of
/// back to the queue.
pub fn redis_retry(attempts: u32) -> (r: (u32, bool))
    requires
        attempts < u32::MAX,
    ensures
        r.0 == attempts + 1,
        r.1 == (attempts + 1 >= MAX_ATTEMPTS),
{
    let next = attempts + 1;
    (next, next >= MAX_ATTEMPTS)
}

/// The Redis lists of the persistent queue.
#[derive(Debug, Clone, Copy, PartialEq, Eq, Structural)]
pub enum RedisList {
    /// The queued tasks, `devstudio:queue:tasks` (LPUSH, RPOP: oldest first).
    Tasks,
    /// The tasks given up after the attempt limit, `devstudio:queue:dead`.
    DeadLetters,
}

/// The key of a Redis list.
pub fn redis_list_key(l: RedisList) -> (k: &'static str)
    ensures
        l == RedisList::Tasks ==> k@ == "devstudio:queue:tasks"@,
        l == RedisList::DeadLetters ==> k@ == "devstudio:queue:dead"@,
{
    match l {
        RedisList::Tasks => "devstudio:queue:tasks",
        RedisList::DeadLetters => "devstudio:queue:dead",
    }
}

/// A failed item of the persistent queue: with one more attempt, pushed
/// (LPUSH) onto the task list so that it is taken after every older task,
/// or onto the dead-letter list once it reaches the attempt limit.
pub fn redis_nack_step(item: QueueItem) -> (r: (RedisList, QueueItem))
    requires
        item.attempts < u32::MAX,
    ensures
        r.1@ == (item.task@, (item.attempts + 1) as u32),
        r.0 == RedisList::DeadLetters <==> item.attempts + 1 >= MAX_ATTEMPTS,
{
    let (attempts, dead) = redis_retry(item.attempts);
    let next = QueueItem { task: item.task, attempts };
    if dead {
        (RedisList::DeadLetters, next)
    } else {
        (RedisList::Tasks, next)
    }
}

/// The depth of the persistent queue from the list length the store
/// reports: negative lengths count as zero.
pub fn depth_from_len(n: i64) -> (d: usize)
    ensures
        n <= 0 ==> d == 0,
        n > 0 ==> d == n as usize,
{
    if n <= 0 {
        0
    } else {
        n as usize
    }
}

#[verifier::external_type_specification]
#[verifier::external_body]
pub struct ExRedisClient(redis::Client);

/// What opening a client on a URL refuses with: `None` when
/// `redis::Client::open` parses the URL, else the text of its error.
pub uninterp spec fn redis_open_error(url: Seq<char>) -> Option<Seq<char>>;

/// `redis::Client::open`: parses the connection URL (no connection is
/// made, so the outcome depends on the URL alone); on failure the error's
/// text. Which URLs parse is named `redis_open_error`, not stated.
#[verifier::external_body]
fn open_redis_client(url: &str) -> (r: Result<redis::Client, String>)
    ensures
        r is Ok <==> redis_open_error(url@) is None,
        r matches Err(m) ==> redis_open_error(url@) == Some(m@),
{
    redis::Client::open(url).map_err(|e| e.to_string())
}

/// The persistent queue on a Redis server.
pub struct RedisQueue {
    pub client: redis::Client,
}

impl RedisQueue {
    /// The queue from the outcome of opening a client: the client, or an
    /// internal error whose text is "Redis-Client: " and the client's error.
    pub fn from_open_result(opened: Result<redis::Client, String>) -> (r: Result<Self, AppError>)
        ensures
            opened matches Ok(c) ==> (r matches Ok(q) && q.client == c),
            opened matches Err(m) ==> (r matches Err(AppError::Internal(t)) && t@ == "Redis-Client: "@ + m@),
    {
        match opened {
            Ok(client) => Ok(RedisQueue { client }),
            Err(m) => Err(AppError::Internal(crate::text::concat("Redis-Client: ", m.as_str()))),
        }
    }

    /// A queue on the server at `url`: a queue when the client accepts the
    /// URL, else an internal error "Redis-Client: " and the client's error.
    pub fn new(url: &str) -> (r: Result<Self, AppError>)
        ensures
            redis_open_error(url@) is None ==> r is Ok,
            redis_open_error(url@) matches Some(m) ==> (r matches Err(AppError::Internal(t)) && t@
                == "Redis-Client: "@ + m),
    {
        Self::from_open_result(open_redis_client(url))
    }
}

} // verus!
