//! D-Bus values as plain data, and how the typed readers of the protocols
//! see them.
use crate::error::Error;
use crate::text::str_eq;
use vstd::prelude::*;

verus! {

/// A D-Bus value.
#[derive(Debug)]
pub enum DbusValue {
    /// `y`
    U8(u8),
    /// `b`
    Bool(bool),
    /// `n`
    I16(i16),
    /// `q`
    U16(u16),
    /// `i`
    I32(i32),
    /// `u`
    U32(u32),
    /// `x`
    I64(i64),
    /// `t`
    U64(u64),
    /// `s`
    Str(String),
    /// `g`
    Signature(String),
    /// `o`
    ObjectPath(String),
    /// `v`: a value wrapped in a variant.
    Variant(Box<DbusValue>),
    /// `a*`, except dictionaries.
    Array(Vec<DbusValue>),
    /// `a{**}`, as its entries in order.
    Dict(Vec<(DbusValue, DbusValue)>),
    /// `(*)`
    Structure(Vec<DbusValue>),
    /// A value of a kind that the protocols here never read (a double, a
    /// file descriptor).
    Other,
}

/// `v` with one level of variant wrapping removed: what a typed read looks
/// at.
pub open spec fn unwrapped(v: DbusValue) -> DbusValue {
    match v {
        DbusValue::Variant(inner) => *inner,
        _ => v,
    }
}

/// The value that an optional reference refers to.
pub open spec fn deref_opt(o: Option<&DbusValue>) -> Option<DbusValue> {
    match o {
        Some(v) => Some(*v),
        None => None,
    }
}

/// The value a typed read looks at.
pub fn unwrap_variant(v: &DbusValue) -> (r: &DbusValue)
    ensures
        *r == unwrapped(*v),
{
    match v {
        DbusValue::Variant(inner) => &**inner,
        _ => v,
    }
}

/// The value stored under the string key `key` in dictionary entries: the
/// first entry whose key is that string.
pub open spec fn dict_lookup(entries: Seq<(DbusValue, DbusValue)>, key: Seq<char>) -> Option<
    DbusValue,
>
    decreases entries.len(),
{
    if entries.len() == 0 {
        None
    } else if entries[0].0 matches DbusValue::Str(s) && s@ == key {
        Some(entries[0].1)
    } else {
        dict_lookup(entries.drop_first(), key)
    }
}

/// Looks up the string key `key` in dictionary entries.
pub fn dict_get<'a>(entries: &'a Vec<(DbusValue, DbusValue)>, key: &str) -> (r: Option<&'a DbusValue>)
    ensures
        r is Some <==> dict_lookup(entries@, key@) is Some,
        r is Some ==> *r->0 == dict_lookup(entries@, key@)->0,
{
    let mut i: usize = 0;
    assert(entries@.subrange(0, entries@.len() as int) =~= entries@);
    while i < entries.len()
        invariant
            i <= entries@.len(),
            dict_lookup(entries@, key@) == dict_lookup(entries@.subrange(i as int, entries@.len() as int), key@),
        decreases entries@.len() - i,
    {
        assert(entries@.subrange(i as int, entries@.len() as int).drop_first() =~= entries@.subrange(
            i + 1,
            entries@.len() as int,
        ));
        if let DbusValue::Str(s) = &entries[i].0 {
            if str_eq(s.as_str(), key) {
                return Some(&entries[i].1);
            }
        }
        i = i + 1;
    }
    None
}

/// The value of the property named `key`: the first one of that name.
pub open spec fn prop_lookup(props: Seq<(String, DbusValue)>, key: Seq<char>) -> Option<DbusValue>
    decreases props.len(),
{
    if props.len() == 0 {
        None
    } else if props[0].0@ == key {
        Some(props[0].1)
    } else {
        prop_lookup(props.drop_first(), key)
    }
}

/// Looks up the property named `key`.
pub fn prop_get<'a>(props: &'a Vec<(String, DbusValue)>, key: &str) -> (r: Option<&'a DbusValue>)
    ensures
        r is Some <==> prop_lookup(props@, key@) is Some,
        r is Some ==> *r->0 == prop_lookup(props@, key@)->0,
{
    let mut i: usize = 0;
    assert(props@.subrange(0, props@.len() as int) =~= props@);
    while i < props.len()
        invariant
            i <= props@.len(),
            prop_lookup(props@, key@) == prop_lookup(props@.subrange(i as int, props@.len() as int), key@),
        decreases props@.len() - i,
    {
        assert(props@.subrange(i as int, props@.len() as int).drop_first() =~= props@.subrange(
            i + 1,
            props@.len() as int,
        ));
        if str_eq(props[i].0.as_str(), key) {
            return Some(&props[i].1);
        }
        i = i + 1;
    }
    None
}

/// Reading an optional value as a string: absent is `None`, a string is
/// itself, anything else is the wrong type.
pub open spec fn str_field(o: Option<DbusValue>) -> Result<Option<String>, Error> {
    match o {
        None => Ok(None),
        Some(v) => match unwrapped(v) {
            DbusValue::Str(s) => Ok(Some(s)),
            _ => Err(Error::IncorrectType),
        },
    }
}

/// Reads an optional value as a string.
pub fn read_str(o: Option<&DbusValue>) -> (r: Result<Option<String>, Error>)
    ensures
        r == str_field(deref_opt(o)),
{
    match o {
        None => Ok(None),
        Some(v) => match unwrap_variant(v) {
            DbusValue::Str(s) => Ok(Some(s.clone())),
            _ => Err(Error::IncorrectType),
        },
    }
}

/// Reading an optional value as an object path.
pub open spec fn path_field(o: Option<DbusValue>) -> Result<Option<String>, Error> {
    match o {
        None => Ok(None),
        Some(v) => match unwrapped(v) {
            DbusValue::ObjectPath(s) => Ok(Some(s)),
            _ => Err(Error::IncorrectType),
        },
    }
}

/// Reads an optional value as an object path.
pub fn read_path(o: Option<&DbusValue>) -> (r: Result<Option<String>, Error>)
    ensures
        r == path_field(deref_opt(o)),
{
    match o {
        None => Ok(None),
        Some(v) => match unwrap_variant(v) {
            DbusValue::ObjectPath(s) => Ok(Some(s.clone())),
            _ => Err(Error::IncorrectType),
        },
    }
}

/// Reading an optional value as an `i32`.
pub open spec fn i32_field(o: Option<DbusValue>) -> Result<Option<i32>, Error> {
    match o {
        None => Ok(None),
        Some(v) => match unwrapped(v) {
            DbusValue::I32(n) => Ok(Some(n)),
            _ => Err(Error::IncorrectType),
        },
    }
}

/// Reads an optional value as an `i32`.
pub fn read_i32(o: Option<&DbusValue>) -> (r: Result<Option<i32>, Error>)
    ensures
        r == i32_field(deref_opt(o)),
{
    match o {
        None => Ok(None),
        Some(v) => match unwrap_variant(v) {
            DbusValue::I32(n) => Ok(Some(*n)),
            _ => Err(Error::IncorrectType),
        },
    }
}

/// Reading an optional value as a `bool`.
pub open spec fn bool_field(o: Option<DbusValue>) -> Result<Option<bool>, Error> {
    match o {
        None => Ok(None),
        Some(v) => match unwrapped(v) {
            DbusValue::Bool(b) => Ok(Some(b)),
            _ => Err(Error::IncorrectType),
        },
    }
}

/// Reads an optional value as a `bool`.
pub fn read_bool(o: Option<&DbusValue>) -> (r: Result<Option<bool>, Error>)
    ensures
        r == bool_field(deref_opt(o)),
{
    match o {
        None => Ok(None),
        Some(v) => match unwrap_variant(v) {
            DbusValue::Bool(b) => Ok(Some(*b)),
            _ => Err(Error::IncorrectType),
        },
    }
}

/// Reading the elements of an array as bytes: the first element that is
/// not a byte makes it the wrong type.
pub open spec fn bytes_of(vals: Seq<DbusValue>) -> Result<Seq<u8>, Error>
    decreases vals.len(),
{
    if vals.len() == 0 {
        Ok(Seq::empty())
    } else {
        match unwrapped(vals[0]) {
            DbusValue::U8(b) => match bytes_of(vals.drop_first()) {
                Ok(rest) => Ok(seq![b] + rest),
                Err(e) => Err(e),
            },
            _ => Err(Error::IncorrectType),
        }
    }
}

/// `r`, with the bytes seen through their values, is `spec`.
pub open spec fn bytes_match(r: Result<Vec<u8>, Error>, spec: Result<Seq<u8>, Error>) -> bool {
    match r {
        Ok(v) => spec == Ok::<Seq<u8>, Error>(v@),
        Err(e) => spec == Err::<Seq<u8>, Error>(e),
    }
}

/// Reads the elements of an array as bytes.
pub fn read_bytes(vals: &Vec<DbusValue>) -> (r: Result<Vec<u8>, Error>)
    ensures
        bytes_match(r, bytes_of(vals@)),
{
    let mut out: Vec<u8> = Vec::new();
    let mut i: usize = 0;
    assert(vals@.subrange(0, vals@.len() as int) =~= vals@);
    proof {
        match bytes_of(vals@) {
            Ok(rest) => assert(out@ + rest =~= rest),
            Err(_) => {},
        }
    }
    while i < vals.len()
        invariant
            i <= vals@.len(),
            bytes_of(vals@) == (match bytes_of(vals@.subrange(i as int, vals@.len() as int)) {
                Ok(rest) => Ok(out@ + rest),
                Err(e) => Err(e),
            }),
        decreases vals@.len() - i,
    {
        let ghost tail = vals@.subrange(i as int, vals@.len() as int);
        assert(tail.drop_first() =~= vals@.subrange(i + 1, vals@.len() as int));
        match unwrap_variant(&vals[i]) {
            DbusValue::U8(b) => {
                let ghost before = out@;
                out.push(*b);
                proof {
                    match bytes_of(tail.drop_first()) {
                        Ok(rest) => {
                            assert(before + (seq![*b] + rest) =~= out@ + rest);
                        },
                        Err(_) => {},
                    }
                }
            },
            _ => {
                return Err(Error::IncorrectType);
            },
        }
        i = i + 1;
    }
    assert(vals@.subrange(i as int, vals@.len() as int) =~= Seq::<DbusValue>::empty());
    assert(out@ + Seq::<u8>::empty() =~= out@);
    Ok(out)
}

} // verus!
