use vstd::prelude::*;

verus! {

/// How many trailing lines the log panel shows.
pub const LOG_WINDOW: usize = 10;

/// The text of each line of `lines`, in order.
pub open spec fn texts(lines: Seq<String>) -> Seq<Seq<char>> {
    Seq::new(lines.len(), |i: int| lines[i]@)
}

/// Mathematical model of the scrollback: every line appended so far, oldest
/// first, and the size of the viewport that trails the newest line.
pub struct LogView {
    pub lines: Seq<Seq<char>>,
    pub window_size: nat,
}

impl LogView {
    /// No line yet.
    pub open spec fn empty(window_size: nat) -> LogView {
        LogView { lines: Seq::empty(), window_size }
    }

    /// One more line at the end, whatever it holds.
    pub open spec fn append(self, line: Seq<char>) -> LogView {
        LogView { lines: self.lines.push(line), window_size: self.window_size }
    }

    /// The count of lines appended so far.
    pub open spec fn scroll_position(self) -> nat {
        self.lines.len()
    }

    /// How many lines the viewport shows: all of them until they outnumber
    /// the window, the window's size from then on.
    pub open spec fn visible_len(self) -> nat {
        if self.lines.len() < self.window_size {
            self.lines.len()
        } else {
            self.window_size
        }
    }

    /// The index of the first line that the viewport shows.
    pub open spec fn visible_start(self) -> nat {
        (self.lines.len() - self.visible_len()) as nat
    }

    /// The lines that the viewport shows: the last `visible_len()`.
    pub open spec fn visible(self) -> Seq<Seq<char>> {
        self.lines.subrange(self.visible_start() as int, self.lines.len() as int)
    }
}

/// The scrollback of the supervised process's output: append-only, with a
/// viewport of fixed size that follows the newest line.
pub struct LogBuffer {
    lines: Vec<String>,
    window_size: usize,
}

impl View for LogBuffer {
    type V = LogView;

    closed spec fn view(&self) -> LogView {
        LogView { lines: texts(self.lines@), window_size: self.window_size as nat }
    }
}

impl LogBuffer {
    /// An empty scrollback whose viewport shows `window_size` lines.
    pub fn new(window_size: usize) -> (r: LogBuffer)
        ensures
            r@ == LogView::empty(window_size as nat),
    {
        let r = LogBuffer { lines: Vec::new(), window_size };
        assert(r@.lines =~= Seq::empty());
        r
    }

    /// Appends one line. An empty line counts like any other.
    pub fn append(&mut self, line: String)
        ensures
            final(self)@ == old(self)@.append(line@),
    {
        self.lines.push(line);
        assert(texts(self.lines@) =~= texts(old(self).lines@).push(line@));
    }

    /// The number of lines held.
    pub fn len(&self) -> (r: usize)
        ensures
            r == self@.lines.len(),
    {
        self.lines.len()
    }

    /// The scroll position: the count of lines appended so far.
    pub fn scroll_position(&self) -> (r: usize)
        ensures
            r == self@.scroll_position(),
    {
        self.lines.len()
    }

    /// The size of the viewport.
    pub fn window_size(&self) -> (r: usize)
        ensures
            r == self@.window_size,
    {
        self.window_size
    }

    /// The index of the first visible line.
    pub fn visible_start(&self) -> (r: usize)
        ensures
            r == self@.visible_start(),
    {
        let n: usize = self.lines.len();
        if n < self.window_size {
            0
        } else {
            n - self.window_size
        }
    }

    /// The line at index `i`, where there is one.
    pub fn line(&self, i: usize) -> (r: Option<&String>)
        ensures
            r is Some <==> i < self@.lines.len(),
            r matches Some(s) ==> s@ == self@.lines[i as int],
    {
        if i < self.lines.len() {
            Some(&self.lines[i])
        } else {
            None
        }
    }

    /// The newest line, where there is one.
    pub fn last(&self) -> (r: Option<&String>)
        ensures
            r is Some <==> self@.lines.len() > 0,
            r matches Some(s) ==> s@ == self@.lines.last(),
    {
        let n: usize = self.lines.len();
        if n > 0 {
            Some(&self.lines[n - 1])
        } else {
            None
        }
    }

    /// The lines that the viewport shows, oldest first.
    pub fn visible(&self) -> (r: Vec<String>)
        ensures
            texts(r@) == self@.visible(),
    {
        let n: usize = self.lines.len();
        let start: usize = self.visible_start();
        let mut out: Vec<String> = Vec::new();
        let mut i: usize = start;
        while i < n
            invariant
                start <= i <= n,
                n == self.lines@.len(),
                out@.len() == i - start,
                forall|k: int| 0 <= k < out@.len() ==> (#[trigger] out@[k])@ == self.lines@[start + k]@,
            decreases n - i,
        {
            out.push(self.lines[i].clone());
            i = i + 1;
        }
        out
    }
}

} // verus!
