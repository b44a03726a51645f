//! The in-memory content of one file: an ordered sequence of text lines,
//! viewed as a `Seq<Seq<char>>`, together with the rendering that puts it
//! back on disk (each line followed by a newline).

use vstd::prelude::*;

verus! {

/// The lines of one file, index 0 first. The only mutations the pipeline
/// performs are tail truncation and targeted line replacement.
pub struct LineBuffer {
    pub lines: Vec<String>,
}

impl View for LineBuffer {
    type V = Seq<Seq<char>>;

    open spec fn view(&self) -> Seq<Seq<char>> {
        self.lines.deep_view()
    }
}

impl LineBuffer {
    /// Wraps a vector of lines.
    pub fn from_lines(lines: Vec<String>) -> (r: LineBuffer)
        ensures
            r@ == lines.deep_view(),
    {
        LineBuffer { lines }
    }

    /// Number of lines.
    pub fn len(&self) -> (n: usize)
        ensures
            n == self@.len(),
    {
        self.lines.len()
    }

    /// The line at index `i`.
    pub fn line(&self, i: usize) -> (r: &String)
        requires
            i < self@.len(),
        ensures
            r@ == self@[i as int],
    {
        proof {
            assert(self@[i as int] == self.lines@[i as int]@);
        }
        &self.lines[i]
    }

    /// Removes the last line.
    pub fn pop_last(&mut self)
        requires
            old(self)@.len() > 0,
        ensures
            final(self)@ == old(self)@.drop_last(),
    {
        self.lines.pop();
        proof {
            assert(final(self)@ =~= old(self)@.drop_last());
        }
    }

    /// Replaces the line at index `i`.
    pub fn set_line(&mut self, i: usize, line: String)
        requires
            i < old(self)@.len(),
        ensures
            final(self)@ == old(self)@.update(i as int, line@),
    {
        self.lines[i] = line;
        proof {
            assert(final(self)@ =~= old(self)@.update(i as int, line@));
        }
    }

    /// An independent copy with the same lines.
    pub fn duplicate(&self) -> (r: LineBuffer)
        ensures
            r@ == self@,
    {
        let mut lines: Vec<String> = Vec::new();
        let n = self.lines.len();
        let mut i: usize = 0;
        while i < n
            invariant
                0 <= i <= n,
                n == self.lines@.len(),
                lines@.len() == i,
                forall|j: int| 0 <= j < i ==> lines@[j] == self.lines@[j],
            decreases n - i,
        {
            lines.push(self.lines[i].clone());
            i = i + 1;
        }
        let r = LineBuffer { lines };
        proof {
            assert(r@ =~= self@);
        }
        r
    }
}

/// The on-disk shape of a buffer: every line followed by a newline.
pub open spec fn rendered(lines: Seq<Seq<char>>) -> Seq<char>
    decreases lines.len(),
{
    if lines.len() == 0 {
        Seq::empty()
    } else {
        rendered(lines.drop_last()) + lines.last() + "\n"@
    }
}

/// Renders the buffer to the text that a writer persists.
pub fn render_lines(buf: &LineBuffer) -> (r: String)
    ensures
        r@ == rendered(buf@),
{
    let mut out = String::new();
    let n = buf.len();
    let mut i: usize = 0;
    while i < n
        invariant
            0 <= i <= n,
            n == buf@.len(),
            out@ == rendered(buf@.subrange(0, i as int)),
        decreases n - i,
    {
        out.append(buf.line(i).as_str());
        out.append("\n");
        proof {
            let prev = buf@.subrange(0, i as int);
            let next = buf@.subrange(0, i as int + 1);
            assert(next.drop_last() =~= prev);
            assert(next.last() == buf@[i as int]);
        }
        i = i + 1;
    }
    proof {
        assert(buf@.subrange(0, n as int) =~= buf@);
    }
    out
}

} // verus!
