//! What comes of reading from connections and from HTTP bodies.

use vstd::prelude::*;

verus! {

/// What came of asking an HTTP body for more.
pub enum Polled {
    Chunk(Vec<u8>),
    Failed,
    End,
}

/// What came of asking an HTTP body for more, over the bytes that came.
#[verifier::ext_equal]
pub enum PolledView {
    Chunk(Seq<u8>),
    Failed,
    End,
}

impl View for Polled {
    type V = PolledView;

    open spec fn view(&self) -> PolledView {
        match self {
            Polled::Chunk(bytes) => PolledView::Chunk(bytes@),
            Polled::Failed => PolledView::Failed,
            Polled::End => PolledView::End,
        }
    }
}

/// How to read from a connection: at most so many bytes, for at most so many seconds.
pub struct ReadPlan {
    pub limit: usize,
    pub wait: u64,
}

/// What came of a read on a connection.
pub enum ReadOutcome {
    /// Nothing came in time.
    TimedOut,
    /// The read failed.
    Failed,
    /// These bytes came; none, if the other end has closed the connection.
    Read(Vec<u8>),
}

/// What came of a read, over the bytes.
#[verifier::ext_equal]
pub enum ReadView {
    TimedOut,
    Failed,
    Read(Seq<u8>),
}

impl View for ReadOutcome {
    type V = ReadView;

    open spec fn view(&self) -> ReadView {
        match self {
            ReadOutcome::TimedOut => ReadView::TimedOut,
            ReadOutcome::Failed => ReadView::Failed,
            ReadOutcome::Read(bytes) => ReadView::Read(bytes@),
        }
    }
}

} // verus!
