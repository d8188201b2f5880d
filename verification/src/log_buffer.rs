//! The last lines that each component wrote, kept in memory.

use vstd::prelude::*;
use crate::text::texts;

verus! {

/// The lines of one component, oldest first.
struct ComponentLog {
    component: String,
    lines: Vec<String>,
}

/// For each component the lines it wrote, oldest first, the newest
/// `max_lines` of them at most.
pub struct LogBuffer {
    max_lines: usize,
    logs: Vec<ComponentLog>,
}

/// Whether some log of `logs` is that of `component`.
spec fn has_log(logs: Seq<ComponentLog>, component: Seq<char>) -> bool {
    exists|i: int| 0 <= i < logs.len() && (#[trigger] logs[i]).component@ == component
}

/// The place of the log of `component`, where there is one.
spec fn log_index(logs: Seq<ComponentLog>, component: Seq<char>) -> int {
    choose|i: int| 0 <= i < logs.len() && (#[trigger] logs[i]).component@ == component
}

/// No component has two logs.
spec fn one_log_each(logs: Seq<ComponentLog>) -> bool {
    forall|i: int, j: int|
        0 <= i < j < logs.len() ==> (#[trigger] logs[i]).component@ != (
        #[trigger] logs[j]).component@
}

/// `lines` with `line` added, and the oldest line dropped where that makes
/// more than `max_lines`.
pub open spec fn appended(lines: Seq<Seq<char>>, line: Seq<char>, max_lines: nat) -> Seq<
    Seq<char>,
> {
    if lines.len() + 1 > max_lines {
        lines.push(line).drop_first()
    } else {
        lines.push(line)
    }
}

/// The newest `n` of `lines`, oldest first; all of them where there are
/// fewer.
pub open spec fn newest(lines: Seq<Seq<char>>, n: nat) -> Seq<Seq<char>> {
    if n >= lines.len() {
        lines
    } else {
        lines.subrange(lines.len() - n, lines.len() as int)
    }
}

/// How many lines a buffer keeps of each component.
pub const DEFAULT_MAX_LINES: usize = 1000;

impl View for LogBuffer {
    type V = Map<Seq<char>, Seq<Seq<char>>>;

    closed spec fn view(&self) -> Map<Seq<char>, Seq<Seq<char>>> {
        Map::new(
            |component: Seq<char>| has_log(self.logs@, component),
            |component: Seq<char>| texts(self.logs@[log_index(self.logs@, component)].lines@),
        )
    }
}

impl LogBuffer {
    /// What holds of every buffer.
    pub closed spec fn wf(&self) -> bool {
        one_log_each(self.logs@)
    }

    /// How many lines the buffer keeps of each component.
    pub closed spec fn limit(&self) -> nat {
        self.max_lines as nat
    }

    /// A buffer without lines that keeps a thousand lines of each component.
    pub fn new() -> (buffer: Self)
        ensures
            buffer.wf(),
            buffer.limit() == DEFAULT_MAX_LINES,
            buffer@ == Map::<Seq<char>, Seq<Seq<char>>>::empty(),
    {
        let buffer = LogBuffer { max_lines: DEFAULT_MAX_LINES, logs: Vec::new() };
        assert(buffer@ =~= Map::<Seq<char>, Seq<Seq<char>>>::empty());
        buffer
    }

    /// The place of the log of `component`.
    fn find(&self, component: &str) -> (place: Option<usize>)
        requires
            self.wf(),
        ensures
            match place {
                Some(i) => {
                    &&& has_log(self.logs@, component@)
                    &&& i == log_index(self.logs@, component@)
                    &&& i < self.logs@.len()
                },
                None => !has_log(self.logs@, component@),
            },
    {
        let key = String::from_str(component);
        let mut i: usize = 0;
        while i < self.logs.len()
            invariant
                self.wf(),
                i <= self.logs.len(),
                key@ == component@,
                forall|j: int| 0 <= j < i ==> (#[trigger] self.logs@[j]).component@ != component@,
            decreases self.logs.len() - i,
        {
            if self.logs[i].component == key {
                proof {
                    let k = log_index(self.logs@, component@);
                    assert(self.logs@[i as int].component@ == component@);
                    if k < i {
                        assert(self.logs@[k].component@ != self.logs@[i as int].component@);
                    }
                    if i < k {
                        assert(self.logs@[i as int].component@ != self.logs@[k].component@);
                    }
                }
                return Some(i);
            }
            i += 1;
        }
        None
    }

    /// Adds `line` to the lines of `component`. Where that makes more lines
    /// than the buffer keeps, the oldest goes. The other components keep
    /// their lines.
    pub fn append(&mut self, component: String, line: String)
        requires
            old(self).wf(),
        ensures
            final(self).wf(),
            final(self).limit() == old(self).limit(),
            final(self)@ == old(self)@.insert(
                component@,
                appended(
                    if old(self)@.contains_key(component@) {
                        old(self)@[component@]
                    } else {
                        Seq::empty()
                    },
                    line@,
                    old(self).limit(),
                ),
            ),
    {
        let ghost before = self.logs@;
        let ghost name = component@;
        match self.find(component.as_str()) {
            Some(i) => {
                let mut log = self.logs.remove(i);
                let ghost lines_before = texts(log.lines@);
                log.lines.push(line);
                assert(texts(log.lines@) =~= lines_before.push(line@));
                if log.lines.len() > self.max_lines {
                    let ghost full = texts(log.lines@);
                    log.lines.remove(0);
                    assert(texts(log.lines@) =~= full.drop_first());
                }
                let ghost lines_after = texts(log.lines@);
                self.logs.insert(i, log);
                proof {
                    let after = self.logs@;
                    assert(after.len() == before.len());
                    assert forall|j: int| 0 <= j < after.len() implies (#[trigger] after[j]).component@
                        == before[j].component@ by {}
                    assert forall|a: int, b: int| 0 <= a < b < after.len() implies (
                    #[trigger] after[a]).component@ != (#[trigger] after[b]).component@ by {
                        assert(before[a].component@ != before[b].component@);
                    }
                    assert forall|c: Seq<char>| has_log(after, c) == has_log(before, c) by {
                        if has_log(after, c) {
                            let k = log_index(after, c);
                            assert(before[k].component@ == c);
                        }
                        if has_log(before, c) {
                            let k = log_index(before, c);
                            assert(after[k].component@ == c);
                        }
                    }
                    assert forall|c: Seq<char>| has_log(before, c) implies log_index(after, c)
                        == log_index(before, c) by {
                        let a = log_index(before, c);
                        assert(after[a].component@ == c);
                        let b = log_index(after, c);
                        assert(before[b].component@ == c);
                        if a < b {
                            assert(before[a].component@ != before[b].component@);
                        }
                        if b < a {
                            assert(before[b].component@ != before[a].component@);
                        }
                    }
                    assert(old(self)@.contains_key(name));
                    assert(old(self)@[name] == lines_before);
                    assert forall|c: Seq<char>| has_log(before, c) && c != name implies texts(
                        after[log_index(after, c)].lines@,
                    ) == texts(before[log_index(before, c)].lines@) by {
                        let a = log_index(before, c);
                        assert(after[a] == before[a]);
                    }
                    assert(self@ =~= old(self)@.insert(
                        name,
                        appended(lines_before, line@, old(self).limit()),
                    ));
                }
            },
            None => {
                let mut lines: Vec<String> = Vec::new();
                assert(texts(lines@) =~= Seq::<Seq<char>>::empty());
                lines.push(line);
                assert(texts(lines@) =~= Seq::<Seq<char>>::empty().push(line@));
                if lines.len() > self.max_lines {
                    let ghost full = texts(lines@);
                    lines.remove(0);
                    assert(texts(lines@) =~= full.drop_first());
                }
                self.logs.push(ComponentLog { component, lines });
                proof {
                    let after = self.logs@;
                    let last = before.len() as int;
                    assert(after[last].component@ == name);
                    assert forall|a: int, b: int| 0 <= a < b < after.len() implies (
                    #[trigger] after[a]).component@ != (#[trigger] after[b]).component@ by {
                        if b < last {
                            assert(before[a].component@ != before[b].component@);
                        } else {
                            assert(before[a].component@ != name);
                        }
                    }
                    assert forall|c: Seq<char>| has_log(after, c) == (has_log(before, c) || c
                        == name) by {
                        if has_log(after, c) {
                            let k = log_index(after, c);
                            if k < last {
                                assert(before[k].component@ == c);
                            }
                        }
                        if has_log(before, c) {
                            let k = log_index(before, c);
                            assert(after[k].component@ == c);
                        }
                    }
                    assert forall|c: Seq<char>| has_log(before, c) implies log_index(after, c)
                        == log_index(before, c) by {
                        let a = log_index(before, c);
                        assert(after[a].component@ == c);
                        let b = log_index(after, c);
                        if a < b {
                            assert(after[a].component@ != after[b].component@);
                        }
                        if b < a {
                            assert(after[b].component@ != after[a].component@);
                        }
                    }
                    assert(has_log(after, name));
                    let k = log_index(after, name);
                    if k < last {
                        assert(before[k].component@ == name);
                    }
                    assert(k == last);
                    assert(!old(self)@.contains_key(name));
                    assert forall|c: Seq<char>| has_log(before, c) implies texts(
                        after[log_index(after, c)].lines@,
                    ) == texts(before[log_index(before, c)].lines@) by {
                        let a = log_index(before, c);
                        assert(after[a] == before[a]);
                    }
                    assert(self@ =~= old(self)@.insert(
                        name,
                        appended(Seq::empty(), line@, old(self).limit()),
                    ));
                }
            },
        }
    }

    /// The lines of `component`, if it ever wrote one.
    pub fn get(&self, component: &str) -> (lines: Option<&Vec<String>>)
        requires
            self.wf(),
        ensures
            match lines {
                Some(found) => self@.contains_key(component@) && texts(found@)
                    == self@[component@],
                None => !self@.contains_key(component@),
            },
    {
        match self.find(component) {
            Some(i) => Some(&self.logs[i].lines),
            None => None,
        }
    }

    /// The newest `n` lines of `component`, oldest first; none for a
    /// component that never wrote one.
    pub fn get_last(&self, component: &str, n: usize) -> (lines: Vec<String>)
        requires
            self.wf(),
        ensures
            texts(lines@) == newest(
                if self@.contains_key(component@) {
                    self@[component@]
                } else {
                    Seq::empty()
                },
                n as nat,
            ),
    {
        let mut lines: Vec<String> = Vec::new();
        assert(texts(lines@) =~= Seq::<Seq<char>>::empty());
        match self.get(component) {
            Some(all) => {
                let start: usize = if n >= all.len() {
                    0
                } else {
                    all.len() - n
                };
                let mut i: usize = start;
                while i < all.len()
                    invariant
                        start <= i <= all.len(),
                        texts(lines@) == texts(all@).subrange(start as int, i as int),
                    decreases all.len() - i,
                {
                    let ghost so_far = texts(lines@);
                    lines.push(all[i].clone());
                    assert(texts(lines@) =~= so_far.push(all@[i as int]@));
                    assert(texts(lines@) =~= texts(all@).subrange(start as int, i + 1));
                    i += 1;
                }
                assert(texts(all@).subrange(0, all@.len() as int) =~= texts(all@));
                lines
            },
            None => lines,
        }
    }
}

} // verus!
