use vstd::prelude::*;

verus! {

/// A value that a caller placed under a key of an option table.
#[derive(Debug, Clone, PartialEq, Eq)]
pub enum OptionValue {
    Boolean(bool),
    Integer(i64),
    Text(String),
    /// A value that is neither a boolean, an integer nor text.
    Other,
}

/// The mathematical content of an [`OptionValue`].
pub enum OptionValueView {
    Boolean(bool),
    Integer(int),
    Text(Seq<char>),
    Other,
}

impl View for OptionValue {
    type V = OptionValueView;

    open spec fn view(&self) -> OptionValueView {
        match self {
            OptionValue::Boolean(b) => OptionValueView::Boolean(*b),
            OptionValue::Integer(n) => OptionValueView::Integer(*n as int),
            OptionValue::Text(text) => OptionValueView::Text(text@),
            OptionValue::Other => OptionValueView::Other,
        }
    }
}

/// The mapping that a caller hands over: from a key to its value.
pub type Options = Map<Seq<char>, OptionValueView>;

/// The mapping that a sequence of assignments leaves behind: a later assignment of a
/// key replaces an earlier one.
pub open spec fn assigned(entries: Seq<(Seq<char>, OptionValueView)>) -> Options
    decreases entries.len(),
{
    if entries.len() == 0 {
        Map::empty()
    } else {
        assigned(entries.drop_last()).insert(entries.last().0, entries.last().1)
    }
}

/// The value that the assignments up to `end` leave under `key`, if any.
pub open spec fn latest(
    entries: Seq<(Seq<char>, OptionValueView)>,
    key: Seq<char>,
    end: int,
) -> Option<OptionValueView>
    decreases end,
{
    if end <= 0 || end > entries.len() {
        None
    } else if entries[end - 1].0 == key {
        Some(entries[end - 1].1)
    } else {
        latest(entries, key, end - 1)
    }
}

/// `latest` over all the assignments reads the mapping that they leave behind.
pub proof fn lemma_latest_reads_assigned(entries: Seq<(Seq<char>, OptionValueView)>, key: Seq<char>)
    ensures
        match latest(entries, key, entries.len() as int) {
            Some(value) => assigned(entries).contains_key(key) && assigned(entries)[key] == value,
            None => !assigned(entries).contains_key(key),
        },
    decreases entries.len(),
{
    if entries.len() > 0 {
        let front = entries.drop_last();
        lemma_latest_reads_assigned(front, key);
        lemma_latest_ignores_tail(entries, front, key, front.len() as int);
    }
}

/// `latest` up to `end` reads only the assignments before `end`.
proof fn lemma_latest_ignores_tail(
    a: Seq<(Seq<char>, OptionValueView)>,
    b: Seq<(Seq<char>, OptionValueView)>,
    key: Seq<char>,
    end: int,
)
    requires
        0 <= end <= a.len(),
        end <= b.len(),
        forall|i: int| 0 <= i < end ==> a[i] == b[i],
    ensures
        latest(a, key, end) == latest(b, key, end),
    decreases end,
{
    if end > 0 {
        lemma_latest_ignores_tail(a, b, key, end - 1);
    }
}

/// An option table: the keys that a caller set, each with its value.
#[derive(Debug, Clone)]
pub struct OptionTable {
    entries: Vec<(String, OptionValue)>,
}

impl OptionTable {
    /// The assignments made so far, oldest first.
    pub closed spec fn assignments(&self) -> Seq<(Seq<char>, OptionValueView)> {
        self.entries@.map_values(|entry: (String, OptionValue)| (entry.0@, entry.1@))
    }
}

impl View for OptionTable {
    type V = Options;

    closed spec fn view(&self) -> Options {
        assigned(self.assignments())
    }
}

impl OptionTable {
    /// A table with no key set.
    pub fn new() -> (table: Self)
        ensures
            table@ == Map::<Seq<char>, OptionValueView>::empty(),
    {
        OptionTable { entries: Vec::new() }
    }

    /// Sets `key` to `value`, in place of any value that the key had.
    pub fn set(&mut self, key: &str, value: OptionValue)
        ensures
            final(self)@ == old(self)@.insert(key@, value@),
    {
        let ghost before = self.assignments();
        self.entries.push((key.to_owned(), value));
        proof {
            assert(self.assignments().drop_last() =~= before);
        }
    }

    /// The value under `key`, or `None` where the key is not set.
    pub fn get(&self, key: &str) -> (value: Option<&OptionValue>)
        ensures
            match value {
                Some(found) => self@.contains_key(key@) && self@[key@] == found@,
                None => !self@.contains_key(key@),
            },
    {
        let wanted = key.to_owned();
        let mut end: usize = self.entries.len();
        while end > 0
            invariant
                end <= self.entries.len(),
                wanted@ == key@,
                latest(self.assignments(), key@, end as int) == latest(
                    self.assignments(),
                    key@,
                    self.entries.len() as int,
                ),
            decreases end,
        {
            proof {
                let entry = self.entries@[end - 1];
                assert(self.assignments()[end - 1] == (entry.0@, entry.1@));
                lemma_latest_reads_assigned(self.assignments(), key@);
            }
            if self.entries[end - 1].0 == wanted {
                return Some(&self.entries[end - 1].1);
            }
            end = end - 1;
        }
        proof {
            lemma_latest_reads_assigned(self.assignments(), key@);
        }
        None
    }
}

} // verus!
