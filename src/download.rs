use vstd::prelude::*;

use crate::action::Action;

verus! {

/// The viewer of an external operation's output: the lines received so far.
pub struct Download {
    pub output: Vec<String>,
}

/// The last `rows` lines of `lines`, or all of them when fewer.
pub open spec fn last_lines(lines: Seq<String>, rows: nat) -> Seq<String> {
    if lines.len() > rows {
        lines.subrange(lines.len() - rows, lines.len() as int)
    } else {
        lines
    }
}

impl Download {
    /// A viewer with no output.
    pub fn new() -> (r: Download)
        ensures
            r.output@.len() == 0,
    {
        Download { output: Vec::new() }
    }

    /// Forgets all output.
    pub fn reset(&mut self)
        ensures
            final(self).output@.len() == 0,
    {
        self.output.clear();
    }

    /// How the viewer reacts to `action`: an output line is kept, going back
    /// home forgets them all.
    pub open spec fn updated(pre: Download, action: Action, post: Download) -> bool {
        match action {
            Action::Downloading(line) => post.output@ == pre.output@.push(line),
            Action::BackHome => post.output@.len() == 0,
            _ => post == pre,
        }
    }

    /// Applies `action`.
    pub fn update(&mut self, action: &Action)
        ensures
            Download::updated(*old(self), *action, *final(self)),
    {
        match action {
            Action::Downloading(line) => self.output.push(line.clone()),
            Action::BackHome => self.reset(),
            _ => {},
        }
    }

    /// The lines that fit in `rows` rows: the most recent ones.
    pub fn visible_lines(&self, rows: usize) -> (r: Vec<String>)
        ensures
            r@ == last_lines(self.output@, rows as nat),
    {
        let n = self.output.len();
        let start: usize = if n > rows {
            n - rows
        } else {
            0
        };
        let mut r: Vec<String> = Vec::new();
        let mut i: usize = start;
        while i < n
            invariant
                n == self.output@.len(),
                start <= i <= n,
                r@ == self.output@.subrange(start as int, i as int),
            decreases n - i,
        {
            r.push(self.output[i].clone());
            i = i + 1;
        }
        assert(start == 0 ==> self.output@.subrange(0, n as int) =~= self.output@);
        r
    }
}

} // verus!
