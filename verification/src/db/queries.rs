//! The rules between a command and the store: which row a new repository
//! becomes, when a statement that touched nothing counts as a failure, and
//! how the system settings are looked up.

use crate::db::models::SystemSetting;
use crate::text::{parse_i32, signed_value};
use vstd::prelude::*;
use vstd::string::*;

verus! {

/// Why a store operation failed.
#[derive(Debug, Clone, Copy, PartialEq, Eq, Structural)]
pub enum StoreError {
    /// The row that the operation names is not there.
    NotFound,
    /// The store could not be reached or refused the statement.
    Failed,
}

/// The row to insert for a new repository.
#[derive(Debug, Clone)]
pub struct NewRepository {
    pub owner: String,
    pub name: String,
    pub poll_interval_seconds: i32,
}

/// The system settings, each key with its value. Where a key occurs twice,
/// the later row counts.
#[derive(Debug, Clone)]
pub struct Settings {
    pub rows: Vec<SystemSetting>,
}

/// The key of the setting that holds the default poll interval of a
/// repository, in seconds.
pub open spec fn poll_interval_key() -> Seq<char> {
    "github_api_poll_interval"@
}

/// The poll interval of a repository that is added without one.
pub open spec fn fallback_poll_interval() -> int {
    300
}

/// The mapping that `rows` stand for.
pub open spec fn settings_map(rows: Seq<SystemSetting>) -> Map<Seq<char>, Seq<char>>
    decreases rows.len(),
{
    if rows.len() == 0 {
        Map::empty()
    } else {
        settings_map(rows.drop_last()).insert(rows.last().key@, rows.last().value@)
    }
}

/// A key is set exactly when some row has it, and its value is that of the
/// last such row.
pub proof fn lemma_settings_map(rows: Seq<SystemSetting>, key: Seq<char>)
    ensures
        settings_map(rows).contains_key(key) <==> exists|j: int|
            0 <= j < rows.len() && (#[trigger] rows[j]).key@ == key,
        forall|i: int|
            0 <= i < rows.len() && (#[trigger] rows[i]).key@ == key && (forall|j: int|
                i < j < rows.len() ==> (#[trigger] rows[j]).key@ != key) ==> settings_map(
                rows,
            )[key] == rows[i].value@,
    decreases rows.len(),
{
    if rows.len() > 0 {
        let init = rows.drop_last();
        lemma_settings_map(init, key);
        if rows.last().key@ == key {
            assert(rows[rows.len() - 1].key@ == key);
        } else {
            if settings_map(rows).contains_key(key) {
                let j = choose|j: int| 0 <= j < init.len() && (#[trigger] init[j]).key@ == key;
                assert(rows[j] == init[j]);
            }
            if exists|j: int| 0 <= j < rows.len() && (#[trigger] rows[j]).key@ == key {
                let j = choose|j: int| 0 <= j < rows.len() && (#[trigger] rows[j]).key@ == key;
                assert(init[j] == rows[j]);
            }
        }
        assert forall|i: int|
            0 <= i < rows.len() && (#[trigger] rows[i]).key@ == key && (forall|j: int|
                i < j < rows.len() ==> (#[trigger] rows[j]).key@ != key) implies settings_map(
            rows,
        )[key] == rows[i].value@ by {
            if i < init.len() {
                assert(rows[rows.len() - 1].key@ != key);
                assert(init[i] == rows[i]);
                assert forall|j: int| i < j < init.len() implies (#[trigger] init[j]).key@
                    != key by {
                    assert(rows[j] == init[j]);
                }
            }
        }
    }
}

impl View for Settings {
    type V = Map<Seq<char>, Seq<char>>;

    open spec fn view(&self) -> Map<Seq<char>, Seq<char>> {
        settings_map(self.rows@)
    }
}

impl Settings {
    /// The value of `key`, if it is set.
    pub fn get(&self, key: &str) -> (r: Option<&String>)
        ensures
            match r {
                Some(value) => self@.contains_key(key@) && self@[key@] == value@,
                None => !self@.contains_key(key@),
            },
    {
        let wanted = String::from_str(key);
        let mut i: usize = self.rows.len();
        while i > 0
            invariant
                i <= self.rows.len(),
                wanted@ == key@,
                forall|j: int| i <= j < self.rows.len() ==> (#[trigger] self.rows@[j]).key@ != key@,
            decreases i,
        {
            i = i - 1;
            if self.rows[i].key == wanted {
                proof {
                    lemma_settings_map(self.rows@, key@);
                    assert(self.rows@[i as int].key@ == key@);
                }
                return Some(&self.rows[i].value);
            }
        }
        proof {
            lemma_settings_map(self.rows@, key@);
        }
        None
    }
}

/// The poll interval that a repository gets where its command names none:
/// the setting read as a number, and the fallback where the setting is not
/// there or is no number.
pub open spec fn default_poll_interval(setting: Option<Seq<char>>) -> int {
    match setting {
        Some(text) => match signed_value(text) {
            Some(seconds) => seconds,
            None => fallback_poll_interval(),
        },
        None => fallback_poll_interval(),
    }
}

/// What a statement that names one repository came to, by the number of rows
/// it touched: with no row touched, the repository is not there.
pub open spec fn rows_outcome(rows_affected: u64) -> Result<(), StoreError> {
    if rows_affected == 0 {
        Err(StoreError::NotFound)
    } else {
        Ok(())
    }
}

/// The store's operations on repositories, as far as they are rules and not
/// statements.
pub struct Queries {}

impl Queries {
    /// The row for a new repository. `setting` is the value of the default
    /// poll interval among the system settings, where it is set; it counts
    /// only where the command names no interval.
    pub fn create_repository(
        owner: String,
        name: String,
        poll_interval_seconds: Option<i32>,
        setting: Option<&str>,
    ) -> (r: NewRepository)
        ensures
            r.owner == owner,
            r.name == name,
            r.poll_interval_seconds == match poll_interval_seconds {
                Some(seconds) => seconds as int,
                None => default_poll_interval(
                    match setting {
                        Some(text) => Some(text@),
                        None => None,
                    },
                ),
            },
    {
        let seconds = match poll_interval_seconds {
            Some(seconds) => seconds,
            None => match setting {
                Some(text) => match parse_i32(text) {
                    Some(seconds) => seconds,
                    None => 300,
                },
                None => 300,
            },
        };
        NewRepository { owner, name, poll_interval_seconds: seconds }
    }

    /// Whether an update went through: one that touched no row names a
    /// repository that is not there.
    pub fn update_repository(rows_affected: u64) -> (r: Result<(), StoreError>)
        ensures
            r == rows_outcome(rows_affected),
    {
        if rows_affected == 0 {
            Err(StoreError::NotFound)
        } else {
            Ok(())
        }
    }

    /// Whether a deletion went through: one that touched no row names a
    /// repository that is not there.
    pub fn delete_repository(rows_affected: u64) -> (r: Result<(), StoreError>)
        ensures
            r == rows_outcome(rows_affected),
    {
        if rows_affected == 0 {
            Err(StoreError::NotFound)
        } else {
            Ok(())
        }
    }

    /// The system settings that the rows of the settings table stand for.
    pub fn get_system_settings(rows: Vec<SystemSetting>) -> (r: Settings)
        ensures
            r.rows == rows,
            r@ == settings_map(rows@),
    {
        Settings { rows }
    }
}

} // verus!
