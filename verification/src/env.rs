//! The global environment: `KEY=VALUE` lines, kept as one row of the store
//! and offered to templates.
//!
//! The text is read line by line. An empty line and a line that begins with
//! `#` say nothing. Any other line that holds a `=` sets the key before its
//! first `=` to what follows it; a later line wins over an earlier one.

use vstd::prelude::*;
use vstd::string::*;
use crate::text::string_pairs;
use crate::kvs::KvsForDb;
use crate::text::{lines, lines_of, split_once, split_once_spec, str_eq};

verus! {

/// What one line sets, if anything.
pub open spec fn env_entry(line: Seq<char>) -> Option<(Seq<char>, Seq<char>)> {
    if line.len() == 0 || line[0] == '#' {
        None
    } else {
        split_once_spec(line, '=')
    }
}

/// The environment `acc` after one more line.
pub open spec fn env_apply(acc: Map<Seq<char>, Seq<char>>, line: Seq<char>) -> Map<
    Seq<char>,
    Seq<char>,
> {
    match env_entry(line) {
        Some(e) => acc.insert(e.0, e.1),
        None => acc,
    }
}

/// The environment `acc` after the given lines, first to last.
pub open spec fn env_fold(lines: Seq<Seq<char>>, acc: Map<Seq<char>, Seq<char>>) -> Map<
    Seq<char>,
    Seq<char>,
>
    decreases lines.len(),
{
    if lines.len() == 0 {
        acc
    } else {
        env_fold(lines.drop_first(), env_apply(acc, lines[0]))
    }
}

/// The environment that a text defines.
pub open spec fn env_values(text: Seq<char>) -> Map<Seq<char>, Seq<char>> {
    env_fold(lines_of(text), Map::empty())
}

/// The environment that a list of entries stands for: a later entry wins.
pub open spec fn entries_map(v: Seq<(Seq<char>, Seq<char>)>) -> Map<Seq<char>, Seq<char>>
    decreases v.len(),
{
    if v.len() == 0 {
        Map::empty()
    } else {
        entries_map(v.drop_last()).insert(v.last().0, v.last().1)
    }
}

/// The environment that a list of entries stands for: a later entry wins.
pub open spec fn pairs_map(v: Seq<(String, String)>) -> Map<Seq<char>, Seq<char>> {
    entries_map(string_pairs(v))
}

/// What an environment holds under a key.
pub open spec fn env_get(m: Map<Seq<char>, Seq<char>>, key: Seq<char>) -> Option<Seq<char>> {
    if m.dom().contains(key) {
        Some(m[key])
    } else {
        None
    }
}

/// What the line sets, if anything.
pub fn parse_line(line: &str) -> (r: Option<(String, String)>)
    ensures
        match r {
            Some(p) => env_entry(line@) == Some((p.0@, p.1@)),
            None => env_entry(line@) is None,
        },
{
    if line.unicode_len() == 0 {
        return None;
    }
    if line.get_char(0) == '#' {
        return None;
    }
    split_once(line, '=')
}

/// Reads the text of an environment into its entries, in the order of their
/// lines.
pub fn parse(txt: &str) -> (r: Vec<(String, String)>)
    ensures
        pairs_map(r@) == env_values(txt@),
{
    let all = lines(txt);
    let ghost ls = lines_of(txt@);
    let mut out: Vec<(String, String)> = Vec::new();
    let mut i: usize = 0;
    proof {
        assert(ls.skip(0) =~= ls);
        assert(string_pairs(out@) =~= Seq::<(Seq<char>, Seq<char>)>::empty());
    }
    while i < all.len()
        invariant
            i <= all.len(),
            ls == lines_of(txt@),
            crate::text::strs(all@) == ls,
            env_fold(ls.skip(i as int), pairs_map(out@)) == env_values(txt@),
        decreases all.len() - i,
    {
        proof {
            assert(ls.skip(i as int).drop_first() =~= ls.skip(i as int + 1));
            assert(ls.skip(i as int)[0] == ls[i as int]);
            assert(ls[i as int] == all@[i as int]@);
        }
        match parse_line(all[i].as_str()) {
            Some(entry) => {
                let ghost before = string_pairs(out@);
                out.push(entry);
                proof {
                    assert(string_pairs(out@).drop_last() =~= before);
                    assert(string_pairs(out@).last() == (entry.0@, entry.1@));
                }
            },
            None => {},
        }
        i += 1;
    }
    out
}

/// Where the last entry is of another key, it does not matter to the lookup.
proof fn lemma_last_entry_of_other_key(v: Seq<(Seq<char>, Seq<char>)>, key: Seq<char>)
    requires
        v.len() > 0,
        v.last().0 != key,
    ensures
        env_get(entries_map(v), key) == env_get(entries_map(v.drop_last()), key),
{
}

/// What the entries hold under `key`.
pub fn lookup(entries: &Vec<(String, String)>, key: &str) -> (r: Option<String>)
    ensures
        match r {
            Some(v) => env_get(pairs_map(entries@), key@) == Some(v@),
            None => env_get(pairs_map(entries@), key@) is None,
        },
{
    let ghost all = string_pairs(entries@);
    let mut i: usize = entries.len();
    proof {
        assert(all.take(i as int) =~= all);
    }
    while i > 0
        invariant
            i <= entries.len(),
            all == string_pairs(entries@),
            env_get(entries_map(all), key@) == env_get(entries_map(all.take(i as int)), key@),
        decreases i,
    {
        i -= 1;
        proof {
            assert(all.take(i as int + 1).drop_last() =~= all.take(i as int));
            assert(all.take(i as int + 1).last() == all[i as int]);
            assert(all[i as int] == (entries@[i as int].0@, entries@[i as int].1@));
        }
        if str_eq(entries[i].0.as_str(), key) {
            return Some(entries[i].1.clone());
        }
        proof {
            lemma_last_entry_of_other_key(all.take(i as int + 1), key@);
        }
    }
    proof {
        assert(all.take(0) =~= Seq::<(Seq<char>, Seq<char>)>::empty());
    }
    None
}

/// A copy of the entries.
pub fn clone_entries(v: &Vec<(String, String)>) -> (r: Vec<(String, String)>)
    ensures
        string_pairs(r@) == string_pairs(v@),
{
    let mut r: Vec<(String, String)> = Vec::new();
    let mut i: usize = 0;
    while i < v.len()
        invariant
            i <= v.len(),
            r@.len() == i,
            forall|j: int| 0 <= j < i ==> r@[j].0@ == v@[j].0@ && r@[j].1@ == v@[j].1@,
        decreases v.len() - i,
    {
        r.push((v[i].0.clone(), v[i].1.clone()));
        i += 1;
    }
    proof {
        assert(string_pairs(r@) =~= string_pairs(v@));
    }
    r
}

/// The environment as the server caches it: nothing until it is first read
/// from the store, then what the stored text defines.
pub struct EnvManager {
    values: Option<Vec<(String, String)>>,
}

impl View for EnvManager {
    type V = Option<Map<Seq<char>, Seq<char>>>;

    closed spec fn view(&self) -> Option<Map<Seq<char>, Seq<char>>> {
        match self.values {
            Some(v) => Some(pairs_map(v@)),
            None => None,
        }
    }
}

impl EnvManager {
    /// A cache that holds nothing yet.
    pub fn new() -> (m: EnvManager)
        ensures
            m@ is None,
    {
        EnvManager { values: None }
    }

    /// Whether the environment has been read.
    pub fn is_loaded(&self) -> (r: bool)
        ensures
            r == (self@ is Some),
    {
        self.values.is_some()
    }

    /// Takes `txt` as the environment.
    pub fn set(&mut self, txt: &str)
        ensures
            final(self)@ == Some(env_values(txt@)),
    {
        self.values = Some(parse(txt));
    }

    /// Forgets the environment, so that it is read from the store again. This
    /// is what a write to the stored text is followed by.
    pub fn invalidate(&mut self)
        ensures
            final(self)@ is None,
    {
        self.values = None;
    }

    /// The environment that the store holds: what the text of its row
    /// defines, and nothing where there is no row.
    pub fn get_from_db(row: Option<&KvsForDb>) -> (r: Vec<(String, String)>)
        ensures
            pairs_map(r@) == env_values(
                match row {
                    Some(kv) => kv@.value,
                    None => Seq::empty(),
                },
            ),
    {
        match row {
            Some(kv) => parse(kv.value.as_str()),
            None => {
                let r = parse("");
                proof {
                    reveal_strlit("");
                    assert(""@ =~= Seq::<char>::empty());
                }
                r
            },
        }
    }

    /// Fills an empty cache from the row that the store holds; a cache that
    /// holds an environment keeps it.
    pub fn load(&mut self, row: Option<&KvsForDb>)
        ensures
            final(self)@ == (match old(self)@ {
                Some(m) => Some(m),
                None => Some(
                    env_values(
                        match row {
                            Some(kv) => kv@.value,
                            None => Seq::empty(),
                        },
                    ),
                ),
            }),
    {
        if self.values.is_none() {
            self.values = Some(Self::get_from_db(row));
        }
    }

    /// What the environment holds under `key`. None where the key is not
    /// set, and where the environment has not been read.
    pub fn get(&self, key: &str) -> (r: Option<String>)
        ensures
            crate::text::opt_string_view(r) == (match self@ {
                Some(m) => env_get(m, key@),
                None => None,
            }),
    {
        match &self.values {
            Some(v) => lookup(v, key),
            None => None,
        }
    }

    /// The whole environment as entries, a later entry winning over an
    /// earlier one of the same key. None where it has not been read.
    pub fn get_all(&self) -> (r: Option<Vec<(String, String)>>)
        ensures
            match r {
                Some(v) => self@ == Some(pairs_map(v@)),
                None => self@ is None,
            },
    {
        match &self.values {
            Some(v) => Some(clone_entries(v)),
            None => None,
        }
    }
}

} // verus!
