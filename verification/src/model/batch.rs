//! The tokens submitted together for one decode step.
use vstd::prelude::*;

verus! {

/// The largest capacity a batch, and so a context, can be made with: token
/// counts and positions are signed 32-bit numbers.
pub const MAX_CAPACITY: u32 = 0x7fff_ffff;

/// One token of a batch.
#[derive(Clone, Copy, Debug, PartialEq, Eq, Structural)]
pub struct BatchEntry {
    /// The token's identifier in the vocabulary.
    pub token: i32,
    /// Its position in the sequence.
    pub position: i32,
    /// The sequence that it belongs to.
    pub sequence: i32,
    /// Whether decoding computes logits at this token.
    pub emit_logits: bool,
}

/// Why a token could not be added to a batch.
#[derive(Clone, Copy, Debug, PartialEq, Eq, Structural)]
pub enum BatchError {
    /// The batch already holds as many tokens as it was made for.
    InsufficientSpace { capacity: usize },
}

/// The mathematical value of a [`TokenBatch`].
pub struct BatchView {
    /// The tokens, in the order in which they were added.
    pub entries: Seq<BatchEntry>,
    /// How many tokens the batch was made for.
    pub capacity: nat,
}

impl BatchView {
    /// A batch never holds more tokens than it was made for.
    pub open spec fn wf(self) -> bool {
        self.entries.len() <= self.capacity <= MAX_CAPACITY
    }
}

/// An ordered sequence of tokens with room for a fixed number of them.
#[derive(Debug)]
pub struct TokenBatch {
    entries: Vec<BatchEntry>,
    capacity: usize,
}

impl View for TokenBatch {
    type V = BatchView;

    closed spec fn view(&self) -> BatchView {
        BatchView { entries: self.entries@, capacity: self.capacity as nat }
    }
}

impl TokenBatch {
    /// What every batch made by [`TokenBatch::new`] satisfies, and every
    /// method keeps.
    pub open spec fn wf(&self) -> bool {
        self@.wf()
    }

    /// An empty batch with room for `capacity` tokens.
    pub fn new(capacity: usize) -> (batch: TokenBatch)
        requires
            capacity <= MAX_CAPACITY,
        ensures
            batch.wf(),
            batch@ == (BatchView { entries: Seq::empty(), capacity: capacity as nat }),
    {
        TokenBatch { entries: Vec::new(), capacity }
    }

    /// Appends one token. Fails, and leaves the batch as it was, when the
    /// batch is full.
    pub fn add(&mut self, token: i32, position: i32, sequence: i32, emit_logits: bool) -> (added: Result<
        (),
        BatchError,
    >)
        requires
            old(self).wf(),
        ensures
            final(self).wf(),
            final(self)@.capacity == old(self)@.capacity,
            old(self)@.entries.len() < old(self)@.capacity ==> added.is_ok() && final(self)@.entries
                == old(self)@.entries.push(BatchEntry { token, position, sequence, emit_logits }),
            old(self)@.entries.len() >= old(self)@.capacity ==> final(self)@ == old(self)@ && added
                == Err::<(), BatchError>(
                BatchError::InsufficientSpace { capacity: old(self)@.capacity as usize },
            ),
    {
        if self.entries.len() >= self.capacity {
            return Err(BatchError::InsufficientSpace { capacity: self.capacity });
        }
        self.entries.push(BatchEntry { token, position, sequence, emit_logits });
        Ok(())
    }

    /// Removes every token. The capacity stays.
    pub fn clear(&mut self)
        requires
            old(self).wf(),
        ensures
            final(self).wf(),
            final(self)@ == (BatchView { entries: Seq::empty(), capacity: old(self)@.capacity }),
    {
        self.entries.clear();
    }

    /// The number of tokens in the batch.
    pub fn n_tokens(&self) -> (count: i32)
        requires
            self.wf(),
        ensures
            count == self@.entries.len(),
    {
        self.entries.len() as i32
    }

    /// The number of tokens the batch was made for.
    pub fn capacity(&self) -> (capacity: usize)
        ensures
            capacity == self@.capacity,
    {
        self.capacity
    }

    /// The tokens, in the order in which they were added.
    pub fn entries(&self) -> (entries: &Vec<BatchEntry>)
        ensures
            entries@ == self@.entries,
    {
        &self.entries
    }
}

} // verus!
