use vstd::prelude::*;

verus! {

/// One record of the lock inspector: what a session waits on, its state
/// and the query it runs.
#[derive(Clone, Debug)]
pub struct LockRow {
    pub wait_event: String,
    pub state: String,
    pub query: String,
}

/// A lock record as plain text.
pub struct LockRowView {
    pub wait_event: Seq<char>,
    pub state: Seq<char>,
    pub query: Seq<char>,
}

impl View for LockRow {
    type V = LockRowView;

    open spec fn view(&self) -> LockRowView {
        LockRowView { wait_event: self.wait_event@, state: self.state@, query: self.query@ }
    }
}

/// The views of a sequence of rows.
pub open spec fn rows_view(rows: Seq<LockRow>) -> Seq<LockRowView> {
    Seq::new(rows.len(), |i: int| rows[i]@)
}

/// The row that stands for a failed poll: it names the failure in its first
/// two cells and carries the inspector's message in the third.
pub open spec fn sentinel_row(message: Seq<char>) -> LockRowView {
    LockRowView { wait_event: "error"@, state: "error"@, query: message }
}

/// What one poll of the lock inspector gave: its rows, or a failure with the
/// inspector's message.
pub enum PollView {
    Rows(Seq<LockRowView>),
    Failure(Seq<char>),
}

/// The plain value of a poll result.
pub open spec fn poll_view(poll: Result<Vec<LockRow>, String>) -> PollView {
    match poll {
        Ok(rows) => PollView::Rows(rows_view(rows@)),
        Err(message) => PollView::Failure(message@),
    }
}

impl PollView {
    /// The table that the database panel shows for this poll: all of its
    /// rows, or the one sentinel row.
    pub open spec fn table(self) -> Seq<LockRowView> {
        match self {
            PollView::Rows(rows) => rows,
            PollView::Failure(message) => seq![sentinel_row(message)],
        }
    }
}

/// The most recent poll of the lock inspector, whole: either the rows of a
/// poll that succeeded or the message of one that failed.
pub struct LockSnapshot {
    poll: Result<Vec<LockRow>, String>,
}

impl View for LockSnapshot {
    type V = PollView;

    closed spec fn view(&self) -> PollView {
        poll_view(self.poll)
    }
}

impl LockSnapshot {
    /// The snapshot before the first poll: a success without rows.
    pub fn new() -> (r: LockSnapshot)
        ensures
            r@ == PollView::Rows(Seq::empty()),
    {
        let r = LockSnapshot { poll: Ok(Vec::new()) };
        assert(rows_view(Seq::<LockRow>::empty()) =~= Seq::empty());
        r
    }

    /// The snapshot of one poll.
    pub fn from_poll(poll: Result<Vec<LockRow>, String>) -> (r: LockSnapshot)
        ensures
            r@ == poll_view(poll),
    {
        LockSnapshot { poll }
    }

    /// Replaces the snapshot with that of `poll`; nothing of the previous
    /// one stays.
    pub fn replace(&mut self, poll: Result<Vec<LockRow>, String>)
        ensures
            final(self)@ == poll_view(poll),
    {
        self.poll = poll;
    }

    /// Whether the snapshot is that of a failed poll.
    pub fn is_failure(&self) -> (r: bool)
        ensures
            r == (self@ is Failure),
    {
        self.poll.is_err()
    }

    /// The inspector's message, where the poll failed.
    pub fn error_message(&self) -> (r: Option<&String>)
        ensures
            match self@ {
                PollView::Failure(message) => r matches Some(m) && m@ == message,
                PollView::Rows(_) => r is None,
            },
    {
        match &self.poll {
            Ok(_) => None,
            Err(message) => Some(message),
        }
    }

    /// The number of rows of the table.
    pub fn len(&self) -> (r: usize)
        ensures
            r == self@.table().len(),
    {
        match &self.poll {
            Ok(rows) => rows.len(),
            Err(_) => 1,
        }
    }

    /// The table that the database panel shows: the rows of the poll, or
    /// the one sentinel row where it failed.
    pub fn table(&self) -> (r: Vec<LockRow>)
        ensures
            rows_view(r@) == self@.table(),
    {
        match &self.poll {
            Ok(rows) => {
                let mut out: Vec<LockRow> = Vec::new();
                let mut i: usize = 0;
                while i < rows.len()
                    invariant
                        i <= rows@.len(),
                        out@.len() == i,
                        forall|k: int| 0 <= k < i ==> (#[trigger] out@[k])@ == rows@[k]@,
                    decreases rows@.len() - i,
                {
                    let row = &rows[i];
                    out.push(
                        LockRow {
                            wait_event: row.wait_event.clone(),
                            state: row.state.clone(),
                            query: row.query.clone(),
                        },
                    );
                    i = i + 1;
                }
                out
            },
            Err(message) => {
                let mut out: Vec<LockRow> = Vec::new();
                out.push(
                    LockRow {
                        wait_event: "error".to_owned(),
                        state: "error".to_owned(),
                        query: message.clone(),
                    },
                );
                out
            },
        }
    }
}

} // verus!
