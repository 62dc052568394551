//! The panel's records, the options that create and update them, their
//! checks, and the objects that the API hands out for them.

use vstd::prelude::*;

use crate::text::{push_char, push_str};

pub mod database_host;
pub mod egg_configuration;
pub mod egg_repository;
pub mod location;
pub mod mount;
pub mod nest_egg;
pub mod node;
pub mod oauth_provider;
pub mod role;
pub mod server;

verus! {

/// Why the panel refuses to create or update a record: fields that break
/// their limits (named in field order), or a related record that the
/// options name and that does not exist (named by its kind).
#[derive(Debug, PartialEq, Eq)]
pub enum ModelError {
    Validation(Vec<String>),
    InvalidRelation(String),
}

/// The new value of a field that an update may set.
pub open spec fn pick<T>(o: Option<T>, current: T) -> T {
    match o {
        Some(v) => v,
        None => current,
    }
}

/// A field an update sets takes the given value; one it leaves out keeps
/// its current value.
pub proof fn law_pick<T>(o: Option<T>, current: T)
    ensures
        o matches Some(v) ==> pick(o, current) == v,
        o is None ==> pick(o, current) == current,
{
}

/// Puts the value that an update carries into `slot`, if it carries one.
pub fn set_if<T>(slot: &mut T, o: Option<T>)
    ensures
        *final(slot) == pick(o, *old(slot)),
{
    if let Some(v) = o {
        *slot = v;
    }
}

/// One page of records.
pub struct Pagination<T> {
    pub total: i64,
    pub per_page: i64,
    pub page: i64,
    pub data: Vec<T>,
}

/// The number of records that come before page `page`.
pub open spec fn spec_offset(page: int, per_page: int) -> int {
    (page - 1) * per_page
}

/// The offset that a page query skips: `(page - 1) * per_page`.
pub fn pagination_offset(page: i64, per_page: i64) -> (r: i64)
    requires
        i64::MIN <= spec_offset(page as int, per_page as int) <= i64::MAX,
        page >= i64::MIN + 1,
    ensures
        r == spec_offset(page as int, per_page as int),
{
    (page - 1) * per_page
}

impl<T> Pagination<T> {
    /// A page of `data`; its total is the count that the first row carries,
    /// or 0 when the page is empty.
    pub fn from_rows(first_total: Option<i64>, per_page: i64, page: i64, data: Vec<T>) -> (p: Self)
        ensures
            p.total == (match first_total {
                Some(t) => t,
                None => 0,
            }),
            p.per_page == per_page,
            p.page == page,
            p.data == data,
    {
        Pagination {
            total: match first_total {
                Some(t) => t,
                None => 0,
            },
            per_page,
            page,
            data,
        }
    }
}

/// The text of an optional query prefix: empty where there is none.
pub open spec fn prefix_text(prefix: Option<&str>) -> Seq<char> {
    match prefix {
        Some(p) => p@,
        None => Seq::empty(),
    }
}

/// A model's columns as a query selects them: each `(column, alias)` of
/// `table` gives the column written `table.column` and the name it is read
/// back by, `prefix` followed by the alias.
pub open spec fn column_pairs(table: Seq<char>, columns: Seq<(Seq<char>, Seq<char>)>, prefix: Seq<char>) -> Seq<
    (Seq<char>, Seq<char>),
> {
    Seq::new(columns.len(), |i: int| (table + seq!['.'] + columns[i].0, prefix + columns[i].1))
}

/// The texts of `(column, name)` pairs.
pub open spec fn pair_views(v: Seq<(String, String)>) -> Seq<(Seq<char>, Seq<char>)> {
    Seq::new(v.len(), |i: int| (v[i].0@, v[i].1@))
}

/// The texts of a model's `(column, alias)` list.
pub open spec fn column_list(columns: Seq<(&str, &str)>) -> Seq<(Seq<char>, Seq<char>)> {
    Seq::new(columns.len(), |i: int| (columns[i].0@, columns[i].1@))
}

/// Writes out the columns of `table` that `columns` lists, under `prefix`.
pub fn prefixed_columns(table: &str, columns: &[(&str, &str)], prefix: Option<&str>) -> (r: Vec<(String, String)>)
    ensures
        pair_views(r@) == column_pairs(table@, column_list(columns@), prefix_text(prefix)),
{
    let mut r: Vec<(String, String)> = Vec::new();
    let mut i: usize = 0;
    while i < columns.len()
        invariant
            i <= columns@.len(),
            pair_views(r@) == column_pairs(table@, column_list(columns@), prefix_text(prefix)).subrange(0, i as int),
        decreases columns@.len() - i,
    {
        let (column, alias) = columns[i];
        let mut key = table.to_owned();
        push_char(&mut key, '.');
        push_str(&mut key, column);
        let mut name = match prefix {
            Some(p) => p.to_owned(),
            None => String::new(),
        };
        push_str(&mut name, alias);
        assert(key@ == table@ + seq!['.'] + column_list(columns@)[i as int].0);
        assert(name@ == prefix_text(prefix) + column_list(columns@)[i as int].1);
        let ghost before = r@;
        r.push((key, name));
        assert(pair_views(r@) =~= pair_views(before).push(column_pairs(table@, column_list(columns@), prefix_text(prefix))[i as int]));
        i = i + 1;
        assert(pair_views(r@) =~= column_pairs(table@, column_list(columns@), prefix_text(prefix)).subrange(0, i as int));
    }
    assert(column_pairs(table@, column_list(columns@), prefix_text(prefix)).subrange(0, i as int) =~= column_pairs(
        table@,
        column_list(columns@),
        prefix_text(prefix),
    ));
    r
}

/// `a` followed by `b`.
pub fn append_columns(a: Vec<(String, String)>, b: Vec<(String, String)>) -> (r: Vec<(String, String)>)
    ensures
        pair_views(r@) == pair_views(a@) + pair_views(b@),
{
    let mut r = a;
    let mut b = b;
    let ghost a0 = r@;
    let ghost b0 = b@;
    r.append(&mut b);
    assert(r@ == a0 + b0);
    assert(pair_views(r@) =~= pair_views(a0) + pair_views(b0));
    r
}

} // verus!
