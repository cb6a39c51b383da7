//! Storage records: the rows in which flags and flag changes are persisted,
//! and the conversions between rows and values.
use vstd::prelude::*;

use crate::error::FlagError;
use crate::eval::flag_view_opt;
use crate::flag::{
    is_percentage_rejection, is_valid_flag_name, Flag, FlagChange, FlagChangeView, FlagName,
    FlagView,
};

verus! {

/// The abstract content of a [`FlagRow`].
pub struct FlagRowView {
    pub name: Seq<char>,
    pub enabled: i64,
    pub percentage: i64,
    pub created_at: Option<i64>,
}

/// A persisted flag: name, enabled as `0`/`1`, percentage and creation time
/// as integers.
#[derive(Debug, Clone, PartialEq, Eq)]
pub struct FlagRow {
    /// Flag name.
    pub name: String,
    /// `1` for enabled, `0` for disabled (any non-zero value reads as enabled).
    pub enabled: i64,
    /// Rollout percentage.
    pub percentage: i64,
    /// Creation time in unix seconds.
    pub created_at: Option<i64>,
}

impl View for FlagRow {
    type V = FlagRowView;

    open spec fn view(&self) -> FlagRowView {
        FlagRowView {
            name: self.name@,
            enabled: self.enabled,
            percentage: self.percentage,
            created_at: self.created_at,
        }
    }
}

/// The flag that a row holds: present only when its name is valid and its
/// percentage is in `0..=100`.
pub open spec fn flag_of_row(row: FlagRowView) -> Option<FlagView> {
    if is_valid_flag_name(row.name) && 0 <= row.percentage <= 100 {
        Some(
            FlagView {
                name: row.name,
                enabled: row.enabled != 0,
                percentage: row.percentage as u8,
                created_at: row.created_at,
            },
        )
    } else {
        None
    }
}

/// The row in which a flag is persisted.
pub open spec fn row_of_flag(f: FlagView) -> FlagRowView {
    FlagRowView {
        name: f.name,
        enabled: if f.enabled {
            1
        } else {
            0
        },
        percentage: f.percentage as i64,
        created_at: f.created_at,
    }
}

/// The flags that a sequence of rows holds, in row order, skipping rows that
/// hold none.
pub open spec fn flags_of_rows(rows: Seq<FlagRowView>) -> Seq<FlagView>
    decreases rows.len(),
{
    if rows.len() == 0 {
        Seq::empty()
    } else {
        let init = flags_of_rows(rows.drop_last());
        match flag_of_row(rows.last()) {
            Some(f) => init.push(f),
            None => init,
        }
    }
}

/// The row holds a flag: its name is valid and its percentage is in `0..=100`.
pub open spec fn holds_flag(row: FlagRowView) -> bool {
    flag_of_row(row) is Some
}

/// The rows that hold a flag, in order, read as flags.
pub open spec fn flags_of_valid_rows(rows: Seq<FlagRowView>) -> Seq<FlagView> {
    rows.filter(|row: FlagRowView| holds_flag(row)).map_values(
        |row: FlagRowView| flag_of_row(row)->0,
    )
}

/// A row holds a flag exactly when its name is valid and its percentage is
/// in `0..=100`, and that flag carries the row's name, creation time and
/// percentage, and is enabled exactly when the stored state is non-zero.
pub proof fn lemma_flag_of_row_fields(row: FlagRowView)
    ensures
        flag_of_row(row) is Some <==> (is_valid_flag_name(row.name) && 0 <= row.percentage
            <= 100),
        flag_of_row(row) matches Some(f) ==> {
            &&& f.name == row.name
            &&& f.enabled == (row.enabled != 0)
            &&& f.percentage == row.percentage
            &&& f.created_at == row.created_at
        },
{
}

/// Reading rows keeps every row that holds a flag and drops every other
/// row: the result is the flags of the rows that hold one, in row order.
pub proof fn lemma_flags_of_rows_keeps_every_flag(rows: Seq<FlagRowView>)
    ensures
        flags_of_rows(rows) == flags_of_valid_rows(rows),
        flags_of_rows(rows).len() == rows.filter(|row: FlagRowView| holds_flag(row)).len(),
    decreases rows.len(),
{
    reveal(Seq::filter);
    if rows.len() > 0 {
        lemma_flags_of_rows_keeps_every_flag(rows.drop_last());
        let p = |row: FlagRowView| holds_flag(row);
        let g = |row: FlagRowView| flag_of_row(row)->0;
        let sub = rows.drop_last().filter(p);
        assert(rows.filter(p) == (if p(rows.last()) {
            sub.push(rows.last())
        } else {
            sub
        }));
        if p(rows.last()) {
            assert(sub.push(rows.last()).map_values(g) =~= sub.map_values(g).push(g(rows.last())));
        }
    }
}

/// A valid flag stored alone reads back as exactly that flag.
pub proof fn lemma_single_valid_row(f: FlagView)
    requires
        is_valid_flag_name(f.name),
        f.percentage <= 100,
    ensures
        flags_of_rows(seq![row_of_flag(f)]) == seq![f],
{
    assert(seq![row_of_flag(f)].drop_last() =~= Seq::<FlagRowView>::empty());
    assert(flags_of_rows(Seq::<FlagRowView>::empty()).push(f) =~= seq![f]);
}

impl Flag {
    /// Reads a flag back from its row; `None` if the name is invalid or the
    /// percentage is outside `0..=100`.
    pub fn from_row(row: &FlagRow) -> (r: Option<Flag>)
        ensures
            flag_view_opt(r) == flag_of_row(row@),
    {
        let name = match FlagName::new(row.name.clone()) {
            Ok(n) => n,
            Err(_) => {
                return None;
            },
        };
        if row.percentage < 0 || row.percentage > 100 {
            return None;
        }
        let percentage = row.percentage as u8;
        Some(
            Flag {
                name,
                enabled: row.enabled != 0,
                percentage,
                created_at: row.created_at,
            },
        )
    }

    /// The row in which this flag is persisted.
    ///
    /// # Errors
    /// Returns `FlagError::Storage` if the percentage is above `100`.
    pub fn to_row(&self) -> (r: Result<FlagRow, FlagError>)
        ensures
            r is Ok <==> self.percentage <= 100,
            r matches Ok(row) ==> row@ == row_of_flag(self@),
            r matches Err(e) ==> is_percentage_rejection(e, self.percentage),
    {
        if self.percentage > 100 {
            return Err(crate::flag::percentage_error(self.percentage));
        }
        Ok(
            FlagRow {
                name: self.name.to_string(),
                enabled: if self.enabled {
                    1
                } else {
                    0
                },
                percentage: self.percentage as i64,
                created_at: self.created_at,
            },
        )
    }
}

/// The flags held by `rows`, in order, skipping rows with an invalid name or
/// an out-of-range percentage.
pub fn flags_from_rows(rows: &Vec<FlagRow>) -> (r: Vec<Flag>)
    ensures
        r@.map_values(|f: Flag| f@) == flags_of_rows(rows@.map_values(|row: FlagRow| row@)),
        r@.map_values(|f: Flag| f@) == flags_of_valid_rows(rows@.map_values(|row: FlagRow| row@)),
{
    let mut out: Vec<Flag> = Vec::new();
    let n = rows.len();
    let mut i: usize = 0;
    while i < n
        invariant
            n == rows.len(),
            i <= n,
            out@.map_values(|f: Flag| f@) == flags_of_rows(
                rows@.take(i as int).map_values(|row: FlagRow| row@),
            ),
        decreases n - i,
    {
        let ghost before = out@;
        assert(rows@.take(i + 1).map_values(|row: FlagRow| row@).drop_last() =~= rows@.take(
            i as int,
        ).map_values(|row: FlagRow| row@));
        match Flag::from_row(&rows[i]) {
            Some(f) => {
                out.push(f);
                assert(out@.map_values(|f: Flag| f@) =~= before.map_values(|f: Flag| f@).push(
                    out@[before.len() as int]@,
                )) by {
                    assert(out@ =~= before.push(out@[before.len() as int]));
                };
            },
            None => {},
        }
        i = i + 1;
    }
    assert(rows@.take(n as int) =~= rows@);
    proof {
        lemma_flags_of_rows_keeps_every_flag(rows@.map_values(|row: FlagRow| row@));
    }
    out
}

/// A flag with a valid name and a percentage in `0..=100` reads back from
/// its row unchanged.
pub proof fn lemma_flag_row_roundtrip(f: FlagView)
    requires
        is_valid_flag_name(f.name),
        f.percentage <= 100,
    ensures
        flag_of_row(row_of_flag(f)) == Some(f),
{
}

/// The abstract content of a [`ChangeRow`].
pub struct ChangeRowView {
    pub name: Seq<char>,
    pub old: i64,
    pub new: i64,
    pub who: Seq<char>,
    pub when: i64,
}

/// A persisted audit record, with the states as `0`/`1`.
#[derive(Debug, Clone, PartialEq, Eq)]
pub struct ChangeRow {
    /// Flag name.
    pub name: String,
    /// Previous enabled state (`0` or `1`; non-zero reads as enabled).
    pub old: i64,
    /// New enabled state (`0` or `1`; non-zero reads as enabled).
    pub new: i64,
    /// Who made the change.
    pub who: String,
    /// When, in unix seconds.
    pub when: i64,
}

impl View for ChangeRow {
    type V = ChangeRowView;

    open spec fn view(&self) -> ChangeRowView {
        ChangeRowView {
            name: self.name@,
            old: self.old,
            new: self.new,
            who: self.who@,
            when: self.when,
        }
    }
}

/// The change that a row holds (the name is taken as stored).
pub open spec fn change_of_row(row: ChangeRowView) -> FlagChangeView {
    FlagChangeView {
        name: row.name,
        old: row.old != 0,
        new: row.new != 0,
        who: row.who,
        when: row.when,
    }
}

/// The row in which a change is persisted.
pub open spec fn row_of_change(c: FlagChangeView) -> ChangeRowView {
    ChangeRowView {
        name: c.name,
        old: if c.old {
            1
        } else {
            0
        },
        new: if c.new {
            1
        } else {
            0
        },
        who: c.who,
        when: c.when,
    }
}

impl FlagChange {
    /// Reads a change back from its row.
    pub fn from_row(row: &ChangeRow) -> (c: FlagChange)
        ensures
            c@ == change_of_row(row@),
    {
        FlagChange {
            name: FlagName::new_unchecked(&row.name),
            old: row.old != 0,
            new: row.new != 0,
            who: row.who.clone(),
            when: row.when,
        }
    }

    /// The row in which this change is persisted.
    pub fn to_row(&self) -> (row: ChangeRow)
        ensures
            row@ == row_of_change(self@),
    {
        ChangeRow {
            name: self.name.to_string(),
            old: if self.old {
                1
            } else {
                0
            },
            new: if self.new {
                1
            } else {
                0
            },
            who: self.who.clone(),
            when: self.when,
        }
    }
}

/// Every change reads back from its row unchanged.
pub proof fn lemma_change_row_roundtrip(c: FlagChangeView)
    ensures
        change_of_row(row_of_change(c)) == c,
{
}

} // verus!
