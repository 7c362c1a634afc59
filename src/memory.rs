//! The audit log: an append-only, ordered record of labelled entries.

use vstd::prelude::*;

verus! {

pub open spec fn entry_views(e: Seq<(String, String)>) -> Seq<(Seq<char>, Seq<char>)> {
    e.map_values(|p: (String, String)| (p.0@, p.1@))
}

/// A store of labelled entries.
pub trait Memory {
    spec fn history(&self) -> Seq<(Seq<char>, Seq<char>)>;

    /// Appends one entry.
    fn log(&mut self, label: &str, content: &str)
        ensures
            final(self).history() == old(self).history().push((label@, content@)),
    ;

    /// Every entry, oldest first.
    fn read_all(&self) -> (r: Vec<(String, String)>)
        ensures
            entry_views(r@) == self.history(),
    ;
}

/// The audit log, held in memory.
#[derive(Debug, Default)]
pub struct InMemoryLog {
    pub entries: Vec<(String, String)>,
}

impl View for InMemoryLog {
    type V = Seq<(Seq<char>, Seq<char>)>;

    open spec fn view(&self) -> Seq<(Seq<char>, Seq<char>)> {
        entry_views(self.entries@)
    }
}

impl InMemoryLog {
    pub fn new() -> (r: Self)
        ensures
            r@ == Seq::<(Seq<char>, Seq<char>)>::empty(),
    {
        let r = Self { entries: Vec::new() };
        assert(r@ =~= Seq::<(Seq<char>, Seq<char>)>::empty());
        r
    }

    /// The entries written as lines `[label] content`.
    pub fn dump(&self) -> (r: String)
        ensures
            r@ == crate::text::join(dump_lines(self@), "\n"@),
    {
        let mut lines: Vec<String> = Vec::new();
        let mut i: usize = 0;
        while i < self.entries.len()
            invariant
                i <= self.entries.len(),
                crate::text::views(lines@) == dump_lines(self@.take(i as int)),
            decreases self.entries.len() - i,
        {
            let mut line = String::from_str("[");
            line.append(self.entries[i].0.as_str());
            line.append("] ");
            line.append(self.entries[i].1.as_str());
            let ghost prev = lines@;
            lines.push(line);
            proof {
                let t = self@.take(i + 1);
                assert(t.drop_last() =~= self@.take(i as int));
                assert(crate::text::views(lines@) =~= crate::text::views(prev).push(line@));
                assert(dump_lines(t) =~= dump_lines(t.drop_last()).push(dump_line(t.last())));
            }
            i = i + 1;
        }
        assert(self@.take(self.entries.len() as int) =~= self@);
        crate::text::join_strs(&lines, "\n")
    }
}

/// One entry as a line of a dump.
pub open spec fn dump_line(e: (Seq<char>, Seq<char>)) -> Seq<char> {
    "["@ + e.0 + "] "@ + e.1
}

pub open spec fn dump_lines(e: Seq<(Seq<char>, Seq<char>)>) -> Seq<Seq<char>> {
    e.map_values(|p: (Seq<char>, Seq<char>)| dump_line(p))
}

impl Memory for InMemoryLog {
    open spec fn history(&self) -> Seq<(Seq<char>, Seq<char>)> {
        self@
    }

    fn log(&mut self, label: &str, content: &str) {
        self.entries.push((String::from_str(label), String::from_str(content)));
        assert(self@ =~= old(self)@.push((label@, content@)));
    }

    fn read_all(&self) -> (r: Vec<(String, String)>) {
        let mut r: Vec<(String, String)> = Vec::new();
        let mut i: usize = 0;
        while i < self.entries.len()
            invariant
                i <= self.entries.len(),
                entry_views(r@) == self@.take(i as int),
            decreases self.entries.len() - i,
        {
            let ghost prev = r@;
            r.push((self.entries[i].0.clone(), self.entries[i].1.clone()));
            assert(entry_views(r@) =~= entry_views(prev).push(self@[i as int]));
            assert(self@.take(i + 1) =~= self@.take(i as int).push(self@[i as int]));
            i = i + 1;
        }
        assert(self@.take(self.entries.len() as int) =~= self@);
        r
    }
}

} // verus!
