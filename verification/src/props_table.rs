//! The task manager's table of agreement properties, keyed by agreement id.
use vstd::prelude::*;
use crate::task_manager::TaskInfo;

verus! {

/// The map that a list of entries stands for: a later entry wins over an
/// earlier one with the same key.
pub open spec fn entries_map(s: Seq<(String, TaskInfo)>) -> Map<Seq<char>, TaskInfo>
    decreases s.len(),
{
    if s.len() == 0 {
        Map::empty()
    } else {
        entries_map(s.drop_last()).insert(s.last().0@, s.last().1)
    }
}

/// No key occurs twice.
pub open spec fn keys_unique(s: Seq<(String, TaskInfo)>) -> bool {
    forall|i: int, j: int| 0 <= i < j < s.len() ==> s[i].0@ != s[j].0@
}

proof fn lemma_absent(s: Seq<(String, TaskInfo)>, k: Seq<char>)
    requires
        forall|i: int| 0 <= i < s.len() ==> s[i].0@ != k,
    ensures
        !entries_map(s).contains_key(k),
    decreases s.len(),
{
    if s.len() > 0 {
        lemma_absent(s.drop_last(), k);
    }
}

proof fn lemma_present(s: Seq<(String, TaskInfo)>, i: int)
    requires
        keys_unique(s),
        0 <= i < s.len(),
    ensures
        entries_map(s).contains_key(s[i].0@),
        entries_map(s)[s[i].0@] == s[i].1,
    decreases s.len(),
{
    if i < s.len() - 1 {
        lemma_present(s.drop_last(), i);
    }
}

proof fn lemma_replace(s: Seq<(String, TaskInfo)>, i: int, e: (String, TaskInfo))
    requires
        keys_unique(s),
        0 <= i < s.len(),
        e.0@ == s[i].0@,
    ensures
        entries_map(s.update(i, e)) == entries_map(s).insert(e.0@, e.1),
    decreases s.len(),
{
    let t = s.update(i, e);
    if i == s.len() - 1 {
        assert(t.drop_last() =~= s.drop_last());
    } else {
        assert(t.drop_last() =~= s.drop_last().update(i, e));
        lemma_replace(s.drop_last(), i, e);
        assert(entries_map(t) =~= entries_map(s).insert(e.0@, e.1));
    }
}

/// Agreement properties by agreement id.
pub struct TaskPropsTable {
    entries: Vec<(String, TaskInfo)>,
}

impl View for TaskPropsTable {
    type V = Map<Seq<char>, TaskInfo>;

    closed spec fn view(&self) -> Map<Seq<char>, TaskInfo> {
        entries_map(self.entries@)
    }
}

impl TaskPropsTable {
    /// Each agreement id has one entry.
    pub closed spec fn wf(&self) -> bool {
        keys_unique(self.entries@)
    }

    /// An empty table.
    pub fn new() -> (t: Self)
        ensures
            t.wf(),
            t@ == Map::<Seq<char>, TaskInfo>::empty(),
    {
        TaskPropsTable { entries: Vec::new() }
    }

    /// The properties stored for `key`, if any.
    pub fn get(&self, key: &String) -> (r: Option<&TaskInfo>)
        requires
            self.wf(),
        ensures
            r == (if self@.contains_key(key@) { Some(&self@[key@]) } else { None }),
    {
        let n = self.entries.len();
        for i in 0..n
            invariant
                n == self.entries@.len(),
                keys_unique(self.entries@),
                forall|j: int| 0 <= j < i ==> self.entries@[j].0@ != key@,
        {
            if self.entries[i].0 == *key {
                proof {
                    lemma_present(self.entries@, i as int);
                }
                return Some(&self.entries[i].1);
            }
        }
        proof {
            lemma_absent(self.entries@, key@);
        }
        None
    }

    /// Stores `info` under `key`, replacing what was stored there.
    pub fn insert(&mut self, key: String, info: TaskInfo)
        requires
            old(self).wf(),
        ensures
            final(self).wf(),
            final(self)@ == old(self)@.insert(key@, info),
    {
        let n = self.entries.len();
        let mut i: usize = 0;
        while i < n
            invariant
                n == self.entries@.len(),
                self.entries@ == old(self).entries@,
                keys_unique(self.entries@),
                i <= n,
                forall|j: int| 0 <= j < i ==> self.entries@[j].0@ != key@,
            decreases n - i,
        {
            if self.entries[i].0 == key {
                proof {
                    lemma_replace(self.entries@, i as int, (key, info));
                }
                self.entries.set(i, (key, info));
                return;
            }
            i = i + 1;
        }
        self.entries.push((key, info));
        proof {
            assert(self.entries@.drop_last() =~= old(self).entries@);
        }
    }
}

} // verus!
