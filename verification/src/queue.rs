//! The availability queue of the voice pool: a fixed-capacity FIFO of voice
//! indices, kept in `heapless::spsc::Queue`. Nothing in this file is proved;
//! it states what the rest of the library takes from that queue.

use vstd::prelude::*;

verus! {

/// The size of the voice pool.
pub const MAX_VOICES: usize = 6;

/// Slots of the queue's ring buffer. One slot always stays empty, so the
/// queue holds every voice of the pool at once and no more.
pub const QUEUE_SLOTS: usize = MAX_VOICES + 1;

/// `heapless::spsc::Queue`, opaque to the verifier.
#[verifier::external_type_specification]
#[verifier::external_body]
#[verifier::reject_recursive_types(T)]
pub struct ExQueue<T, const N: usize>(heapless::spsc::Queue<T, N>);

/// The items waiting in a queue, the next one to leave first.
pub uninterp spec fn queue_items(queue: heapless::spsc::Queue<usize, QUEUE_SLOTS>) -> Seq<usize>;

/// `heapless::spsc::Queue::new`: the queue starts with nothing in it.
#[verifier::external_body]
pub(crate) fn queue_new() -> (queue: heapless::spsc::Queue<usize, QUEUE_SLOTS>)
    ensures
        queue_items(queue) == Seq::<usize>::empty(),
{
    heapless::spsc::Queue::new()
}

/// `heapless::spsc::Queue::len`: the number of items waiting.
#[verifier::external_body]
pub(crate) fn queue_len(queue: &heapless::spsc::Queue<usize, QUEUE_SLOTS>) -> (len: usize)
    ensures
        len == queue_items(*queue).len(),
{
    queue.len()
}

/// `heapless::spsc::Queue::enqueue`: while fewer than `QUEUE_SLOTS - 1`
/// items wait, the item joins at the back; a full queue hands the item back
/// and stays as it was.
#[verifier::external_body]
pub(crate) fn queue_enqueue(
    queue: &mut heapless::spsc::Queue<usize, QUEUE_SLOTS>,
    item: usize,
) -> (result: Result<(), usize>)
    ensures
        result == (if queue_items(*old(queue)).len() + 1 < QUEUE_SLOTS {
            Ok(())
        } else {
            Err(item)
        }),
        queue_items(*final(queue)) == (if queue_items(*old(queue)).len() + 1 < QUEUE_SLOTS {
            queue_items(*old(queue)).push(item)
        } else {
            queue_items(*old(queue))
        }),
{
    queue.enqueue(item)
}

/// `heapless::spsc::Queue::dequeue`: the item at the front leaves and is
/// returned; an empty queue returns nothing and stays empty.
#[verifier::external_body]
pub(crate) fn queue_dequeue(queue: &mut heapless::spsc::Queue<usize, QUEUE_SLOTS>) -> (item: Option<
    usize,
>)
    ensures
        item == (if queue_items(*old(queue)).len() > 0 {
            Some(queue_items(*old(queue))[0])
        } else {
            None
        }),
        queue_items(*final(queue)) == (if queue_items(*old(queue)).len() > 0 {
            queue_items(*old(queue)).drop_first()
        } else {
            queue_items(*old(queue))
        }),
{
    queue.dequeue()
}

} // verus!
