use vstd::prelude::*;

verus! {

/// The abstract content of an `Option<String>`: the string it holds, if any.
pub open spec fn opt_view(v: Option<String>) -> Option<Seq<char>> {
    match v {
        Some(s) => Some(s@),
        None => None,
    }
}

/// A publish overwrites the slot with the published value, whatever the
/// slot held before: last writer wins, no queueing.
pub open spec fn publish_step(slot: Option<Seq<char>>, value: Option<Seq<char>>) -> Option<
    Seq<char>,
> {
    value
}

/// The slot left behind by a run of publishes, applied in order.
pub open spec fn slot_after_publishes(
    init: Option<Seq<char>>,
    values: Seq<Option<Seq<char>>>,
) -> Option<Seq<char>>
    decreases values.len(),
{
    if values.len() == 0 {
        init
    } else {
        publish_step(slot_after_publishes(init, values.drop_last()), values.last())
    }
}

/// The single-slot hand-off between the background fetch tasks and the
/// render thread. A fetch task publishes the path of a downloaded file, or
/// no value on failure; the render thread takes the slot once per frame.
/// The slot holds at most one value, and a new publish unconditionally
/// overwrites whatever is present.
///
/// The mailbox itself is a sequential cell; the program shares it across
/// execution contexts behind a mutual-exclusion lock held only for the
/// duration of one `publish` or `take`, so each call acts atomically.
pub struct Mailbox {
    slot: Option<String>,
}

impl View for Mailbox {
    type V = Option<Seq<char>>;

    closed spec fn view(&self) -> Option<Seq<char>> {
        opt_view(self.slot)
    }
}

impl Mailbox {
    /// A mailbox whose slot is empty.
    pub fn empty() -> (m: Mailbox)
        ensures
            m@ is None,
    {
        Mailbox { slot: None }
    }

    /// Overwrites the slot with `value`, discarding whatever was present:
    /// publishing no value leaves the slot holding no value.
    pub fn publish(&mut self, value: Option<String>)
        ensures
            final(self)@ == publish_step(old(self)@, opt_view(value)),
    {
        self.slot = value;
    }

    /// Reads and clears the slot: returns the current value and leaves the
    /// slot empty. On an empty slot it returns no value and changes nothing.
    pub fn take(&mut self) -> (r: Option<String>)
        ensures
            opt_view(r) == old(self)@,
            final(self)@ is None,
    {
        self.slot.take()
    }
}

/// Law: after any run of publishes, a take returns the most recently
/// published value — earlier publishes, and whatever the slot held before
/// the run, are gone. With no publish at all the slot is as it was.
pub proof fn lemma_take_sees_last_publish(
    init: Option<Seq<char>>,
    values: Seq<Option<Seq<char>>>,
)
    ensures
        values.len() > 0 ==> slot_after_publishes(init, values) == values.last(),
        values.len() == 0 ==> slot_after_publishes(init, values) == init,
{
}

} // verus!
