use vstd::prelude::*;

use crate::text::{parsed_u32, parsed_u64, parse_u32, parse_u64, same_text};

verus! {

/// A JSON number as the normalisation reads it: a value that fits in `u64`, a
/// negative integer, or any other number kept in its written form.
#[derive(Debug)]
pub enum JsonNumber {
    Unsigned(u64),
    Negative(i64),
    Written(String),
}

/// A JSON document. An object keeps its members in order; where a key repeats,
/// the last member with that key is the one read.
#[derive(Debug)]
pub enum Json {
    Null,
    Bool(bool),
    Number(JsonNumber),
    Str(String),
    Array(Vec<Json>),
    Object(Vec<(String, Json)>),
}

/// The position of the last member named `k`.
pub open spec fn last_key_index(entries: Seq<(String, Json)>, k: Seq<char>) -> Option<int>
    decreases entries.len(),
{
    if entries.len() == 0 {
        None
    } else if entries.last().0@ == k {
        Some(entries.len() - 1)
    } else {
        last_key_index(entries.drop_last(), k)
    }
}

/// The member `k` of `j`, or `Null` where `j` is no object or has no such member.
pub open spec fn member(j: Json, k: Seq<char>) -> Json {
    match j {
        Json::Object(entries) => match last_key_index(entries@, k) {
            Some(i) => entries@[i].1,
            None => Json::Null,
        },
        _ => Json::Null,
    }
}

/// A JSON value read as an unsigned integer, 0 where it is none.
pub open spec fn u64_or_zero(j: Json) -> u64 {
    match j {
        Json::Number(JsonNumber::Unsigned(n)) => n,
        _ => 0,
    }
}

/// A JSON value read as an unsigned integer and cut to its low 32 bits, 0 where it is none.
pub open spec fn u32_or_zero(j: Json) -> u32 {
    (u64_or_zero(j) % 0x1_0000_0000) as u32
}

/// A JSON value read as a boolean, `false` where it is none.
pub open spec fn bool_or_false(j: Json) -> bool {
    match j {
        Json::Bool(b) => b,
        _ => false,
    }
}

/// A JSON value read as a string, `default` where it is none.
pub open spec fn str_or(j: Json, default: Seq<char>) -> Seq<char> {
    match j {
        Json::Str(s) => s@,
        _ => default,
    }
}

/// A string member read as an unsigned decimal, 0 where it is missing or unreadable.
pub open spec fn text_u64_or_zero(j: Json) -> u64 {
    match j {
        Json::Str(s) => match parsed_u64(s@) {
            Some(v) => v,
            None => 0,
        },
        _ => 0,
    }
}

/// A string member read as a 32-bit unsigned decimal, 0 where it is missing or unreadable.
pub open spec fn text_u32_or_zero(j: Json) -> u32 {
    match j {
        Json::Str(s) => match parsed_u32(s@) {
            Some(v) => v,
            None => 0,
        },
        _ => 0,
    }
}

/// What an optional reference stands for: its target, or `Null`.
pub open spec fn or_null(j: Option<&Json>) -> Json {
    match j {
        Some(v) => *v,
        None => Json::Null,
    }
}

/// Finds the last member named `k`.
pub fn find_key(entries: &Vec<(String, Json)>, k: &str) -> (r: Option<usize>)
    ensures
        match r {
            Some(i) => i < entries@.len() && last_key_index(entries@, k@) == Some(i as int),
            None => last_key_index(entries@, k@) is None,
        },
{
    let mut found: Option<usize> = None;
    let mut i: usize = 0;
    while i < entries.len()
        invariant
            i <= entries@.len(),
            match found {
                Some(f) => f < i && last_key_index(entries@.subrange(0, i as int), k@) == Some(
                    f as int,
                ),
                None => last_key_index(entries@.subrange(0, i as int), k@) is None,
            },
        decreases entries@.len() - i,
    {
        assert(entries@.subrange(0, i + 1).drop_last() =~= entries@.subrange(0, i as int));
        if same_text(entries[i].0.as_str(), k) {
            found = Some(i);
        }
        i = i + 1;
    }
    assert(entries@.subrange(0, i as int) =~= entries@);
    found
}

/// The member `k` of `j`, if `j` is an object that has it.
pub fn get_member<'a>(j: &'a Json, k: &str) -> (r: Option<&'a Json>)
    ensures
        or_null(r) == member(*j, k@),
{
    match j {
        Json::Object(entries) => match find_key(entries, k) {
            Some(i) => Some(&entries[i].1),
            None => None,
        },
        _ => None,
    }
}

/// The member `k` of what `j` stands for.
pub fn step<'a>(j: Option<&'a Json>, k: &str) -> (r: Option<&'a Json>)
    ensures
        or_null(r) == member(or_null(j), k@),
{
    match j {
        Some(v) => get_member(v, k),
        None => None,
    }
}

/// Takes the member `k` out of `j`, or `Null`.
pub fn into_member(j: Json, k: &str) -> (r: Json)
    ensures
        r == member(j, k@),
{
    match j {
        Json::Object(mut entries) => match find_key(&entries, k) {
            Some(i) => {
                let (_, v) = entries.remove(i);
                v
            },
            None => Json::Null,
        },
        _ => Json::Null,
    }
}

/// Reads an unsigned integer, 0 where there is none.
pub fn read_u64(j: Option<&Json>) -> (r: u64)
    ensures
        r == u64_or_zero(or_null(j)),
{
    match j {
        Some(Json::Number(JsonNumber::Unsigned(n))) => *n,
        _ => 0,
    }
}

/// Reads an unsigned integer and keeps its low 32 bits, 0 where there is none.
pub fn read_u32(j: Option<&Json>) -> (r: u32)
    ensures
        r == u32_or_zero(or_null(j)),
{
    (read_u64(j) % 0x1_0000_0000) as u32
}

/// Reads a boolean, `false` where there is none.
pub fn read_bool(j: Option<&Json>) -> (r: bool)
    ensures
        r == bool_or_false(or_null(j)),
{
    match j {
        Some(Json::Bool(b)) => *b,
        _ => false,
    }
}

/// Reads a string, `default` where there is none.
pub fn read_str(j: Option<&Json>, default: &str) -> (r: String)
    ensures
        r@ == str_or(or_null(j), default@),
{
    match j {
        Some(Json::Str(s)) => s.clone(),
        _ => String::from_str(default),
    }
}

/// Reads a string that writes an unsigned decimal, 0 where there is none.
pub fn read_text_u64(j: Option<&Json>) -> (r: u64)
    ensures
        r == text_u64_or_zero(or_null(j)),
{
    match j {
        Some(Json::Str(s)) => match parse_u64(s.as_str()) {
            Some(v) => v,
            None => 0,
        },
        _ => 0,
    }
}

/// Reads a string that writes a 32-bit unsigned decimal, 0 where there is none.
pub fn read_text_u32(j: Option<&Json>) -> (r: u32)
    ensures
        r == text_u32_or_zero(or_null(j)),
{
    match j {
        Some(Json::Str(s)) => match parse_u32(s.as_str()) {
            Some(v) => v,
            None => 0,
        },
        _ => 0,
    }
}

} // verus!
