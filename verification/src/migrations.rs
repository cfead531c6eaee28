//! The migrations of the store's schema.
//!
//! A migration is a text file named `<version>_<description>.sql`. The
//! version is a decimal number; the description has `_` where the title
//! has a blank. Files of other names are passed over. Migrations are
//! applied in the order of their versions.

use vstd::prelude::*;
use vstd::string::*;
use vstd::seq_lib::*;
use crate::text::{chars_of, ends_with, split_once, split_once_spec, substring};

verus! {

/// Whether a character is a decimal digit.
pub open spec fn is_digit(c: char) -> bool {
    '0' <= c && c <= '9'
}

/// The value of a decimal digit.
pub open spec fn digit_value(c: char) -> int {
    (c as u32) as int - 48
}

/// The number that a sequence of decimal digits writes.
pub open spec fn digits_value(s: Seq<char>) -> int
    decreases s.len(),
{
    if s.len() == 0 {
        0
    } else {
        10 * digits_value(s.drop_last()) + digit_value(s.last())
    }
}

/// Whether every character is a decimal digit.
pub open spec fn all_digits(s: Seq<char>) -> bool {
    forall|i: int| 0 <= i < s.len() ==> is_digit(#[trigger] s[i])
}

/// The digits of a numeral: what follows its sign, or all of it where it
/// has none.
pub open spec fn numeral_body(s: Seq<char>) -> Seq<char> {
    if s.len() > 0 && (s[0] == '-' || s[0] == '+') {
        s.skip(1)
    } else {
        s
    }
}

/// The number that a numeral writes: an optional sign and at least one
/// decimal digit, nothing else, and a value that a version can hold.
pub open spec fn parsed_i64(s: Seq<char>) -> Option<i64> {
    let body = numeral_body(s);
    if body.len() == 0 || !all_digits(body) {
        None
    } else {
        let v = if s[0] == '-' {
            -digits_value(body)
        } else {
            digits_value(body)
        };
        if i64::MIN <= v <= i64::MAX {
            Some(v as i64)
        } else {
            None
        }
    }
}

/// The value of digits is not negative.
pub proof fn lemma_digits_value_bounds(s: Seq<char>)
    requires
        all_digits(s),
    ensures
        0 <= digits_value(s),
    decreases s.len(),
{
    if s.len() > 0 {
        assert(is_digit(s[s.len() - 1]));
        assert forall|i: int| 0 <= i < s.drop_last().len() implies is_digit(
            #[trigger] s.drop_last()[i],
        ) by {
            assert(s.drop_last()[i] == s[i]);
        }
        lemma_digits_value_bounds(s.drop_last());
    }
}

/// The first digits of a numeral write no more than all of them.
pub proof fn lemma_digits_value_grows(s: Seq<char>, k: int)
    requires
        all_digits(s),
        0 <= k <= s.len(),
    ensures
        digits_value(s.take(k)) <= digits_value(s),
    decreases s.len() - k,
{
    if k == s.len() {
        assert(s.take(k) =~= s);
    } else {
        assert(s.take(k + 1).drop_last() =~= s.take(k));
        assert(s.take(k + 1).last() == s[k]);
        assert(is_digit(s[k]));
        assert forall|i: int| 0 <= i < s.take(k).len() implies is_digit(#[trigger] s.take(k)[i]) by {
            assert(s.take(k)[i] == s[i]);
        }
        lemma_digits_value_bounds(s.take(k));
        lemma_digits_value_grows(s, k + 1);
    }
}

/// Reads a numeral.
pub fn parse_i64(s: &str) -> (r: Option<i64>)
    ensures
        r == parsed_i64(s@),
{
    let chars = chars_of(s);
    let n = chars.len();
    if n == 0 {
        return None;
    }
    let negative = chars[0] == '-';
    let start: usize = if chars[0] == '-' || chars[0] == '+' {
        1
    } else {
        0
    };
    let ghost body = numeral_body(s@);
    proof {
        assert(body =~= s@.skip(start as int));
    }
    if start == n {
        return None;
    }
    let limit: u128 = 9223372036854775808;
    let mut acc: u128 = 0;
    let mut i: usize = start;
    proof {
        assert(body.take(0) =~= Seq::<char>::empty());
    }
    while i < n
        invariant
            start <= i <= n,
            n == chars@.len(),
            chars@ == s@,
            body == s@.skip(start as int),
            body == numeral_body(s@),
            body.len() > 0,
            limit == 9223372036854775808,
            acc <= limit,
            acc == digits_value(body.take(i - start)),
            forall|j: int| 0 <= j < i - start ==> is_digit(#[trigger] body[j]),
        decreases n - i,
    {
        let c = chars[i];
        proof {
            assert(body[i - start] == c);
        }
        if !('0' <= c && c <= '9') {
            proof {
                assert(!is_digit(body[i - start]));
                assert(!all_digits(body));
            }
            return None;
        }
        let d = (c as u32 - 48) as u128;
        let next = acc * 10 + d;
        proof {
            assert(body.take(i - start + 1).drop_last() =~= body.take(i - start));
            assert(body.take(i - start + 1).last() == c);
            assert(next == digits_value(body.take(i - start + 1)));
        }
        if next > limit {
            proof {
                if all_digits(body) {
                    lemma_digits_value_grows(body, i - start + 1);
                    assert(digits_value(body) > 9223372036854775808);
                }
                assert(parsed_i64(s@) is None);
            }
            return None;
        }
        acc = next;
        i += 1;
    }
    proof {
        assert(body.take(n - start) =~= body);
        assert(all_digits(body));
    }
    if negative {
        if acc == limit {
            Some(i64::MIN)
        } else {
            Some(-(acc as i64))
        }
    } else if acc == limit {
        None
    } else {
        Some(acc as i64)
    }
}

/// How a migration is applied.
#[derive(Debug, Clone, Copy, PartialEq, Eq, Structural)]
pub enum MigrationType {
    /// On its own: `.sql`.
    Simple,
    /// As the forward half of a pair: `.up.sql`.
    ReversibleUp,
    /// As the backward half of a pair: `.down.sql`.
    ReversibleDown,
}

/// How the migration of a file name is applied.
pub open spec fn migration_type_of(rest: Seq<char>) -> MigrationType {
    if ".up.sql"@.is_suffix_of(rest) {
        MigrationType::ReversibleUp
    } else if ".down.sql"@.is_suffix_of(rest) {
        MigrationType::ReversibleDown
    } else {
        MigrationType::Simple
    }
}

impl MigrationType {
    /// The ending of the file names of this kind.
    pub open spec fn suffix_spec(self) -> Seq<char> {
        match self {
            MigrationType::Simple => ".sql"@,
            MigrationType::ReversibleUp => ".up.sql"@,
            MigrationType::ReversibleDown => ".down.sql"@,
        }
    }

    /// The ending of the file names of this kind.
    pub fn suffix(&self) -> (r: &'static str)
        ensures
            r@ == self.suffix_spec(),
    {
        match self {
            MigrationType::Simple => ".sql",
            MigrationType::ReversibleUp => ".up.sql",
            MigrationType::ReversibleDown => ".down.sql",
        }
    }

    /// The kind of the migration in a file whose name ends like `rest`.
    pub fn from_filename(rest: &str) -> (r: MigrationType)
        ensures
            r == migration_type_of(rest@),
    {
        let chars = chars_of(rest);
        let up = chars_of(".up.sql");
        let down = chars_of(".down.sql");
        if ends_with(&chars, &up) {
            MigrationType::ReversibleUp
        } else if ends_with(&chars, &down) {
            MigrationType::ReversibleDown
        } else {
            MigrationType::Simple
        }
    }
}

/// `s` without `suffix` at its end, as often as it stands there.
pub open spec fn trimmed_end(s: Seq<char>, suffix: Seq<char>) -> Seq<char>
    decreases s.len(),
{
    if suffix.len() > 0 && suffix.is_suffix_of(s) {
        trimmed_end(s.subrange(0, s.len() - suffix.len()), suffix)
    } else {
        s
    }
}

/// `s` with a blank for each `_`.
pub open spec fn spaced(s: Seq<char>) -> Seq<char> {
    s.map_values(
        |c: char|
            if c == '_' {
                ' '
            } else {
                c
            },
    )
}

/// The title of a migration: the name behind the version, without the
/// ending of its kind and with blanks for `_`.
pub open spec fn description_of(rest: Seq<char>) -> Seq<char> {
    spaced(trimmed_end(rest, migration_type_of(rest).suffix_spec()))
}

/// The title of a migration.
pub fn describe(rest: &str) -> (r: String)
    ensures
        r@ == description_of(rest@),
{
    let kind = MigrationType::from_filename(rest);
    let suffix = chars_of(kind.suffix());
    let chars = chars_of(rest);
    let mut end: usize = chars.len();
    proof {
        assert(rest@.subrange(0, end as int) =~= rest@);
        reveal_strlit(".sql");
        reveal_strlit(".up.sql");
        reveal_strlit(".down.sql");
    }
    loop
        invariant
            end <= chars.len(),
            chars@ == rest@,
            suffix@ == kind.suffix_spec(),
            suffix@.len() > 0,
            trimmed_end(rest@, suffix@) == trimmed_end(rest@.subrange(0, end as int), suffix@),
        ensures
            !suffix@.is_suffix_of(rest@.subrange(0, end as int)),
        decreases end,
    {
        if suffix.len() > end {
            proof {
                assert(!suffix@.is_suffix_of(rest@.subrange(0, end as int)));
            }
            break ;
        }
        let at = end - suffix.len();
        if !crate::text::matches_at(&chars, &suffix, at) {
            proof {
                let head = rest@.subrange(0, end as int);
                if suffix@.is_suffix_of(head) {
                    assert(head.subrange(head.len() - suffix@.len(), head.len() as int)
                        =~= chars@.subrange(at as int, at + suffix@.len()));
                }
            }
            break ;
        }
        proof {
            let head = rest@.subrange(0, end as int);
            assert(head.subrange(head.len() - suffix@.len(), head.len() as int) =~= chars@.subrange(
                at as int,
                at + suffix@.len(),
            ));
            assert(suffix@.is_suffix_of(head));
            assert(head.subrange(0, head.len() - suffix@.len()) =~= rest@.subrange(0, at as int));
        }
        end = at;
    }
    let mut out = String::new();
    let mut i: usize = 0;
    let ghost kept = rest@.subrange(0, end as int);
    proof {
        assert(kept == trimmed_end(rest@, suffix@)) by {
            assert(!suffix@.is_suffix_of(kept) || suffix@.len() == 0);
        }
        assert(out@ =~= spaced(kept.take(0)));
    }
    while i < end
        invariant
            i <= end <= chars.len(),
            chars@ == rest@,
            kept == rest@.subrange(0, end as int),
            out@ == spaced(kept.take(i as int)),
        decreases end - i,
    {
        let ghost before = out@;
        if chars[i] == '_' {
            proof {
                reveal_strlit(" ");
            }
            out.append(" ");
            proof {
                assert(out@ =~= before.push(' '));
            }
        } else {
            let piece = substring(rest, i, i + 1);
            out.append(piece.as_str());
            proof {
                assert(piece@ =~= seq![chars@[i as int]]);
                assert(out@ =~= before.push(chars@[i as int]));
            }
        }
        proof {
            assert(kept.take(i as int + 1) =~= kept.take(i as int).push(kept[i as int]));
            assert(spaced(kept.take(i as int + 1)) =~= spaced(kept.take(i as int)).push(
                spaced(kept)[i as int],
            ));
        }
        i += 1;
    }
    proof {
        assert(kept.take(end as int) =~= kept);
    }
    out
}

/// What the name of a file says of a migration.
#[derive(Debug)]
pub struct MigrationName {
    pub version: i64,
    pub description: String,
    pub migration_type: MigrationType,
}

/// What the name of a file says, as a mathematical value.
pub struct MigrationNameView {
    pub version: i64,
    pub description: Seq<char>,
    pub migration_type: MigrationType,
}

impl View for MigrationName {
    type V = MigrationNameView;

    open spec fn view(&self) -> MigrationNameView {
        MigrationNameView {
            version: self.version,
            description: self.description@,
            migration_type: self.migration_type,
        }
    }
}

/// Why the migrations could not be resolved.
#[derive(Debug)]
pub enum MigrationError {
    /// The file of this name has the shape of a migration, but what stands
    /// before its first `_` is not a version.
    InvalidVersion(String),
}

/// How a file name reads.
pub enum NameReading {
    /// Not a migration: the file is passed over.
    Other,
    /// A migration without a proper version.
    BadVersion,
    Migration(MigrationNameView),
}

/// Reads a file name: `<version>_<rest>`, where `rest` ends with `.sql`.
pub open spec fn read_name(file_name: Seq<char>) -> NameReading {
    match split_once_spec(file_name, '_') {
        None => NameReading::Other,
        Some(parts) => if !".sql"@.is_suffix_of(parts.1) {
            NameReading::Other
        } else {
            match parsed_i64(parts.0) {
                None => NameReading::BadVersion,
                Some(version) => NameReading::Migration(
                    MigrationNameView {
                        version,
                        description: description_of(parts.1),
                        migration_type: migration_type_of(parts.1),
                    },
                ),
            }
        },
    }
}

/// Reads the name of a file. A file that is no migration gives nothing; a
/// migration without a proper version is an error.
pub fn parse_migration_name(file_name: &str) -> (r: Result<Option<MigrationName>, MigrationError>)
    ensures
        match read_name(file_name@) {
            NameReading::Other => r is Ok && r->Ok_0 is None,
            NameReading::BadVersion => r is Err && (r->Err_0 matches MigrationError::InvalidVersion(
                n,
            ) && n@ == file_name@),
            NameReading::Migration(m) => r is Ok && r->Ok_0 is Some && r->Ok_0->Some_0@ == m,
        },
{
    let parts = match split_once(file_name, '_') {
        Some(p) => p,
        None => return Ok(None),
    };
    let rest = chars_of(parts.1.as_str());
    let sql = chars_of(".sql");
    if !ends_with(&rest, &sql) {
        return Ok(None);
    }
    let version = match parse_i64(parts.0.as_str()) {
        Some(v) => v,
        None => return Err(MigrationError::InvalidVersion(file_name.to_owned())),
    };
    let migration_type = MigrationType::from_filename(parts.1.as_str());
    let description = describe(parts.1.as_str());
    Ok(Some(MigrationName { version, description, migration_type }))
}

/// A migration: what its file's name says, and the file's text.
#[derive(Debug)]
pub struct Migration {
    pub version: i64,
    pub description: String,
    pub migration_type: MigrationType,
    pub sql: String,
}

/// A migration as a mathematical value.
pub struct MigrationView {
    pub version: i64,
    pub description: Seq<char>,
    pub migration_type: MigrationType,
    pub sql: Seq<char>,
}

impl View for Migration {
    type V = MigrationView;

    open spec fn view(&self) -> MigrationView {
        MigrationView {
            version: self.version,
            description: self.description@,
            migration_type: self.migration_type,
            sql: self.sql@,
        }
    }
}

/// The views of a sequence of migrations.
pub open spec fn migration_views(v: Seq<Migration>) -> Seq<MigrationView> {
    v.map_values(|m: Migration| m@)
}

/// The views of files: name and text.
pub open spec fn file_views(v: Seq<(String, String)>) -> Seq<(Seq<char>, Seq<char>)> {
    v.map_values(|f: (String, String)| (f.0@, f.1@))
}

/// The migrations among the files, in the order of the files.
pub open spec fn migrations_in(files: Seq<(Seq<char>, Seq<char>)>) -> Seq<MigrationView>
    decreases files.len(),
{
    if files.len() == 0 {
        Seq::empty()
    } else {
        let rest = migrations_in(files.drop_last());
        match read_name(files.last().0) {
            NameReading::Migration(m) => rest.push(
                MigrationView {
                    version: m.version,
                    description: m.description,
                    migration_type: m.migration_type,
                    sql: files.last().1,
                },
            ),
            _ => rest,
        }
    }
}

/// Whether file `i` is the first migration without a proper version.
pub open spec fn first_bad_version(files: Seq<(Seq<char>, Seq<char>)>, i: int) -> bool {
    &&& 0 <= i < files.len()
    &&& read_name(files[i].0) is BadVersion
    &&& forall|j: int| 0 <= j < i ==> !(read_name((#[trigger] files[j]).0) is BadVersion)
}

/// Whether every migration among the files has a proper version.
pub open spec fn versions_proper(files: Seq<(Seq<char>, Seq<char>)>) -> bool {
    forall|j: int| 0 <= j < files.len() ==> !(read_name((#[trigger] files[j]).0) is BadVersion)
}

/// Whether the versions do not fall along the sequence.
pub open spec fn ascending(ms: Seq<MigrationView>) -> bool {
    forall|i: int, j: int| 0 <= i < j < ms.len() ==> ms[i].version <= ms[j].version
}

/// Resolves the migrations among the files, each given by name and text:
/// those whose names read as migrations, in the order of their versions.
/// The first name that has the shape of a migration and no proper version
/// ends the resolve with an error.
pub fn resolve(files: &Vec<(String, String)>) -> (r: Result<Vec<Migration>, MigrationError>)
    ensures
        match r {
            Ok(ms) => {
                &&& versions_proper(file_views(files@))
                &&& ascending(migration_views(ms@))
                &&& migration_views(ms@).to_multiset() == migrations_in(
                    file_views(files@),
                ).to_multiset()
            },
            Err(MigrationError::InvalidVersion(name)) => exists|i: int|
                first_bad_version(file_views(files@), i) && name@ == files@[i].0@,
        },
{
    broadcast use {to_multiset_insert, to_multiset_build};

    let ghost all = file_views(files@);
    let mut out: Vec<Migration> = Vec::new();
    let mut i: usize = 0;
    proof {
        assert(all.take(0) =~= Seq::<(Seq<char>, Seq<char>)>::empty());
        assert(migration_views(out@) =~= Seq::<MigrationView>::empty());
    }
    while i < files.len()
        invariant
            i <= files.len(),
            all == file_views(files@),
            ascending(migration_views(out@)),
            migration_views(out@).to_multiset() == migrations_in(all.take(i as int)).to_multiset(),
            forall|j: int| 0 <= j < i ==> !(read_name((#[trigger] all[j]).0) is BadVersion),
        decreases files.len() - i,
    {
        proof {
            assert(all.take(i as int + 1).drop_last() =~= all.take(i as int));
            assert(all.take(i as int + 1).last() == all[i as int]);
            assert(all[i as int] == (files@[i as int].0@, files@[i as int].1@));
        }
        match parse_migration_name(files[i].0.as_str()) {
            Err(e) => {
                proof {
                    assert(first_bad_version(all, i as int));
                }
                return Err(e);
            },
            Ok(None) => {
                proof {
                    assert(read_name(all[i as int].0) is Other);
                    assert(migrations_in(all.take(i as int + 1)) == migrations_in(
                        all.take(i as int),
                    ));
                }
            },
            Ok(Some(name)) => {
                let m = Migration {
                    version: name.version,
                    description: name.description,
                    migration_type: name.migration_type,
                    sql: files[i].1.clone(),
                };
                let ghost mv = m@;
                let ghost before = migration_views(out@);
                // behind every migration of a version that is not higher
                let mut at: usize = out.len();
                while at > 0 && out[at - 1].version > m.version
                    invariant
                        at <= out.len(),
                        before == migration_views(out@),
                        forall|k: int| at <= k < out@.len() ==> before[k].version > m.version,
                    decreases at,
                {
                    at -= 1;
                }
                out.insert(at, m);
                proof {
                    assert(migration_views(out@) =~= before.insert(at as int, mv));
                    to_multiset_insert(before, at as int, mv);
                    to_multiset_build(migrations_in(all.take(i as int)), mv);
                    assert(read_name(all[i as int].0) is Migration);
                    assert forall|a: int, b: int|
                        0 <= a < b < out@.len() implies migration_views(out@)[a].version
                        <= migration_views(out@)[b].version by {
                        let va = migration_views(out@);
                        if a < at && b < at {
                            assert(va[a] == before[a] && va[b] == before[b]);
                        } else if a < at && b == at {
                            assert(va[a] == before[a]);
                            assert(before[a].version <= before[at - 1].version) by {
                                if a < at - 1 {
                                }
                            }
                        } else if a < at && b > at {
                            assert(va[a] == before[a] && va[b] == before[b - 1]);
                        } else if a == at {
                            assert(va[b] == before[b - 1]);
                        } else {
                            assert(va[a] == before[a - 1] && va[b] == before[b - 1]);
                        }
                    }
                    assert(migrations_in(all.take(i as int + 1)) == migrations_in(
                        all.take(i as int),
                    ).push(mv));
                    assert(migration_views(out@).to_multiset() =~= migrations_in(
                        all.take(i as int + 1),
                    ).to_multiset());
                }
            },
        }
        i += 1;
    }
    proof {
        assert(all.take(i as int) =~= all);
    }
    Ok(out)
}

} // verus!
