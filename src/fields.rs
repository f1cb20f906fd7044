//! Typed readers for the members of a JSON object: each either yields the
//! member's value, or a format error naming the member.
use vstd::prelude::*;

use crate::error::{ImportError, ImportErrorType};
use crate::json::{
    as_array, as_bits, as_bool, as_u64, get, member, opt_bits, opt_text, opt_u64, opt_view, to_array,
    to_bits, to_bool, to_text, to_u64, JsonValue,
};

verus! {

/// Member `k` is absent or an unsigned integer.
pub open spec fn u64_ok(v: JsonValue, k: Seq<char>) -> bool {
    member(v, k) is None || opt_u64(v, k) is Some
}

/// Member `k` is absent or a number.
pub open spec fn bits_ok(v: JsonValue, k: Seq<char>) -> bool {
    member(v, k) is None || opt_bits(v, k) is Some
}

/// Member `k` is absent or a string.
pub open spec fn text_ok(v: JsonValue, k: Seq<char>) -> bool {
    member(v, k) is None || opt_text(v, k) is Some
}

/// Member `k` is absent or a boolean.
pub open spec fn bool_ok(v: JsonValue, k: Seq<char>) -> bool {
    match member(v, k) {
        Some(x) => as_bool(x) is Some,
        None => true,
    }
}

/// Member `k` read as a boolean, `d` where it is absent.
pub open spec fn bool_or(v: JsonValue, k: Seq<char>, d: bool) -> bool {
    match member(v, k) {
        Some(x) => as_bool(x).unwrap(),
        None => d,
    }
}

/// Member `k` read as an unsigned integer, `d` where it is absent.
pub open spec fn u64_or(v: JsonValue, k: Seq<char>, d: u64) -> u64 {
    match opt_u64(v, k) {
        Some(x) => x,
        None => d,
    }
}

/// Member `k` read as a double's bits, `d` where it is absent.
pub open spec fn bits_or(v: JsonValue, k: Seq<char>, d: u64) -> u64 {
    match opt_bits(v, k) {
        Some(x) => x,
        None => d,
    }
}

/// Every item of `a` is an unsigned integer.
pub open spec fn all_u64(a: Seq<JsonValue>) -> bool {
    forall|i: int| 0 <= i < a.len() ==> #[trigger] as_u64(a[i]) is Some
}

/// Every item of `a` is a number.
pub open spec fn all_numbers(a: Seq<JsonValue>) -> bool {
    forall|i: int| 0 <= i < a.len() ==> #[trigger] as_bits(a[i]) is Some
}

/// Member `k` is absent or an array of unsigned integers.
pub open spec fn u64_list_ok(v: JsonValue, k: Seq<char>) -> bool {
    match member(v, k) {
        Some(x) => as_array(x) is Some && all_u64(as_array(x).unwrap()),
        None => true,
    }
}

/// Member `k` is absent or an array of numbers.
pub open spec fn bits_list_ok(v: JsonValue, k: Seq<char>) -> bool {
    match member(v, k) {
        Some(x) => as_array(x) is Some && all_numbers(as_array(x).unwrap()),
        None => true,
    }
}

/// Member `k` is absent or an array of exactly `n` numbers.
pub open spec fn bits_array_ok(v: JsonValue, k: Seq<char>, n: nat) -> bool {
    bits_list_ok(v, k) && match member(v, k) {
        Some(x) => as_array(x).unwrap().len() == n,
        None => true,
    }
}

/// The integers of an array whose items are all unsigned integers.
pub open spec fn u64_items(a: Seq<JsonValue>) -> Seq<u64> {
    a.map_values(|x: JsonValue| as_u64(x).unwrap())
}

/// The bit patterns of an array whose items are all numbers.
pub open spec fn bits_items(a: Seq<JsonValue>) -> Seq<u64> {
    a.map_values(|x: JsonValue| as_bits(x).unwrap())
}

/// Member `k` read as a list of unsigned integers, `None` where it is absent.
pub open spec fn opt_u64_list(v: JsonValue, k: Seq<char>) -> Option<Seq<u64>> {
    match member(v, k) {
        Some(x) => Some(u64_items(as_array(x).unwrap())),
        None => None,
    }
}

/// Member `k` read as a list of double bit patterns, `None` where it is absent.
pub open spec fn opt_bits_list(v: JsonValue, k: Seq<char>) -> Option<Seq<u64>> {
    match member(v, k) {
        Some(x) => Some(bits_items(as_array(x).unwrap())),
        None => None,
    }
}

/// The view of an optional list.
pub open spec fn opt_seq(l: Option<Vec<u64>>) -> Option<Seq<u64>> {
    match l {
        Some(l) => Some(l@),
        None => None,
    }
}

/// The parts of an error that say what failed: its kind, its message and
/// the code it carries.
pub type Fault = (ImportErrorType, Seq<char>, Option<u64>);

pub open spec fn fault(e: ImportError) -> Fault {
    (e.e_type, e.message@, e.code)
}

/// `f` is a format fault naming `k`.
pub open spec fn is_named(f: Fault, k: Seq<char>) -> bool {
    f.0 == ImportErrorType::Format && f.1 == k
}

/// `f` names member `k`, which is present and not an unsigned integer.
pub open spec fn bad_u64(v: JsonValue, k: Seq<char>, f: Fault) -> bool {
    is_named(f, k) && !u64_ok(v, k)
}

/// `f` names the required member `k`, which is absent or not an unsigned
/// integer.
pub open spec fn bad_req_u64(v: JsonValue, k: Seq<char>, f: Fault) -> bool {
    is_named(f, k) && opt_u64(v, k) is None
}

/// `f` names member `k`, which is present and not a number.
pub open spec fn bad_bits(v: JsonValue, k: Seq<char>, f: Fault) -> bool {
    is_named(f, k) && !bits_ok(v, k)
}

/// `f` names member `k`, which is present and not a string.
pub open spec fn bad_text(v: JsonValue, k: Seq<char>, f: Fault) -> bool {
    is_named(f, k) && !text_ok(v, k)
}

/// `f` names the required member `k`, which is absent or not a string.
pub open spec fn bad_req_text(v: JsonValue, k: Seq<char>, f: Fault) -> bool {
    is_named(f, k) && opt_text(v, k) is None
}

/// `f` names member `k`, which is present and not a boolean.
pub open spec fn bad_bool(v: JsonValue, k: Seq<char>, f: Fault) -> bool {
    is_named(f, k) && !bool_ok(v, k)
}

/// `f` names member `k`, which is present and not a list of unsigned
/// integers.
pub open spec fn bad_u64_list(v: JsonValue, k: Seq<char>, f: Fault) -> bool {
    is_named(f, k) && !u64_list_ok(v, k)
}

/// `f` names member `k`, which is present and not a list of numbers.
pub open spec fn bad_bits_list(v: JsonValue, k: Seq<char>, f: Fault) -> bool {
    is_named(f, k) && !bits_list_ok(v, k)
}

/// `f` names member `k`, which is present and not a list of `n` numbers.
pub open spec fn bad_bits_array(v: JsonValue, k: Seq<char>, n: nat, f: Fault) -> bool {
    is_named(f, k) && !bits_array_ok(v, k, n)
}

/// A format error that names `key`.
pub open spec fn names(e: ImportError, key: Seq<char>) -> bool {
    e.e_type == ImportErrorType::Format && e.message@ == key
}

/// Reads the optional unsigned integer member `key`.
pub fn field_u64(v: &JsonValue, key: &str) -> (r: Result<Option<u64>, ImportError>)
    ensures
        r is Ok <==> u64_ok(*v, key@),
        r is Ok ==> r->Ok_0 == opt_u64(*v, key@),
        r is Err ==> names(r->Err_0, key@),
{
    match get(v, key) {
        Some(x) => match to_u64(x) {
            Some(n) => Ok(Some(n)),
            None => Err(ImportError::format(key)),
        },
        None => Ok(None),
    }
}

/// Reads the required unsigned integer member `key`.
pub fn require_u64(v: &JsonValue, key: &str) -> (r: Result<u64, ImportError>)
    ensures
        r is Ok <==> opt_u64(*v, key@) is Some,
        r is Ok ==> r->Ok_0 == opt_u64(*v, key@).unwrap(),
        r is Err ==> names(r->Err_0, key@),
{
    match get(v, key) {
        Some(x) => match to_u64(x) {
            Some(n) => Ok(n),
            None => Err(ImportError::format(key)),
        },
        None => Err(ImportError::format(key)),
    }
}

/// Reads the unsigned integer member `key`, `default` where it is absent.
pub fn u64_or_default(v: &JsonValue, key: &str, default: u64) -> (r: Result<u64, ImportError>)
    ensures
        r is Ok <==> u64_ok(*v, key@),
        r is Ok ==> r->Ok_0 == u64_or(*v, key@, default),
        r is Err ==> names(r->Err_0, key@),
{
    match field_u64(v, key) {
        Ok(Some(n)) => Ok(n),
        Ok(None) => Ok(default),
        Err(e) => Err(e),
    }
}

/// Reads the numeric member `key` as a double's bits, `default` where it is
/// absent.
pub fn bits_or_default(v: &JsonValue, key: &str, default: u64) -> (r: Result<u64, ImportError>)
    ensures
        r is Ok <==> bits_ok(*v, key@),
        r is Ok ==> r->Ok_0 == bits_or(*v, key@, default),
        r is Err ==> names(r->Err_0, key@),
{
    match get(v, key) {
        Some(x) => match to_bits(x) {
            Some(n) => Ok(n),
            None => Err(ImportError::format(key)),
        },
        None => Ok(default),
    }
}

/// Reads the optional numeric member `key` as a double's bits.
pub fn field_bits(v: &JsonValue, key: &str) -> (r: Result<Option<u64>, ImportError>)
    ensures
        r is Ok <==> bits_ok(*v, key@),
        r is Ok ==> r->Ok_0 == opt_bits(*v, key@),
        r is Err ==> names(r->Err_0, key@),
{
    match get(v, key) {
        Some(x) => match to_bits(x) {
            Some(n) => Ok(Some(n)),
            None => Err(ImportError::format(key)),
        },
        None => Ok(None),
    }
}

/// Reads the boolean member `key`, `default` where it is absent.
pub fn bool_or_default(v: &JsonValue, key: &str, default: bool) -> (r: Result<bool, ImportError>)
    ensures
        r is Ok <==> bool_ok(*v, key@),
        r is Ok ==> r->Ok_0 == bool_or(*v, key@, default),
        r is Err ==> names(r->Err_0, key@),
{
    match get(v, key) {
        Some(x) => match to_bool(x) {
            Some(b) => Ok(b),
            None => Err(ImportError::format(key)),
        },
        None => Ok(default),
    }
}

/// Reads the optional string member `key`.
pub fn field_text(v: &JsonValue, key: &str) -> (r: Result<Option<String>, ImportError>)
    ensures
        r is Ok <==> text_ok(*v, key@),
        r is Ok ==> opt_view(r->Ok_0) == opt_text(*v, key@),
        r is Err ==> names(r->Err_0, key@),
{
    match get(v, key) {
        Some(x) => match to_text(x) {
            Some(s) => Ok(Some(s)),
            None => Err(ImportError::format(key)),
        },
        None => Ok(None),
    }
}

/// Reads the required string member `key`.
pub fn require_text(v: &JsonValue, key: &str) -> (r: Result<String, ImportError>)
    ensures
        r is Ok <==> opt_text(*v, key@) is Some,
        r is Ok ==> r->Ok_0@ == opt_text(*v, key@).unwrap(),
        r is Err ==> names(r->Err_0, key@),
{
    match field_text(v, key) {
        Ok(Some(s)) => Ok(s),
        Ok(None) => Err(ImportError::format(key)),
        Err(e) => Err(e),
    }
}

/// Reads the optional member `key`, an array of unsigned integers.
pub fn field_u64_list(v: &JsonValue, key: &str) -> (r: Result<Option<Vec<u64>>, ImportError>)
    ensures
        r is Ok <==> u64_list_ok(*v, key@),
        r is Ok ==> opt_seq(r->Ok_0) == opt_u64_list(*v, key@),
        r is Err ==> names(r->Err_0, key@),
{
    let x = match get(v, key) {
        Some(x) => x,
        None => return Ok(None),
    };
    let a = match to_array(x) {
        Some(a) => a,
        None => return Err(ImportError::format(key)),
    };
    let mut out: Vec<u64> = Vec::new();
    let mut i: usize = 0;
    while i < a.len()
        invariant
            0 <= i <= a@.len(),
            member(*v, key@) == Some(*x),
            as_array(*x) == Some(a@),
            out@ == u64_items(a@.subrange(0, i as int)),
            all_u64(a@.subrange(0, i as int)),
        decreases a.len() - i,
    {
        match to_u64(&a[i]) {
            Some(n) => {
                out.push(n);
            },
            None => {
                assert(as_u64(a@[i as int]) is None);
                return Err(ImportError::format(key));
            },
        }
        i = i + 1;
        assert(a@.subrange(0, i as int) =~= a@.subrange(0, i - 1).push(a@[i - 1]));
        assert(out@ =~= u64_items(a@.subrange(0, i as int)));
    }
    assert(a@.subrange(0, i as int) =~= a@);
    Ok(Some(out))
}

/// Reads the optional member `key`, an array of numbers, as double bits.
pub fn field_bits_list(v: &JsonValue, key: &str) -> (r: Result<Option<Vec<u64>>, ImportError>)
    ensures
        r is Ok <==> bits_list_ok(*v, key@),
        r is Ok ==> opt_seq(r->Ok_0) == opt_bits_list(*v, key@),
        r is Err ==> names(r->Err_0, key@),
{
    let x = match get(v, key) {
        Some(x) => x,
        None => return Ok(None),
    };
    let a = match to_array(x) {
        Some(a) => a,
        None => return Err(ImportError::format(key)),
    };
    let mut out: Vec<u64> = Vec::new();
    let mut i: usize = 0;
    while i < a.len()
        invariant
            0 <= i <= a@.len(),
            member(*v, key@) == Some(*x),
            as_array(*x) == Some(a@),
            out@ == bits_items(a@.subrange(0, i as int)),
            all_numbers(a@.subrange(0, i as int)),
        decreases a.len() - i,
    {
        match to_bits(&a[i]) {
            Some(n) => {
                out.push(n);
            },
            None => {
                assert(as_bits(a@[i as int]) is None);
                return Err(ImportError::format(key));
            },
        }
        i = i + 1;
        assert(a@.subrange(0, i as int) =~= a@.subrange(0, i - 1).push(a@[i - 1]));
        assert(out@ =~= bits_items(a@.subrange(0, i as int)));
    }
    assert(a@.subrange(0, i as int) =~= a@);
    Ok(Some(out))
}

/// Reads the optional member `key`, an array of exactly `n` numbers, as
/// double bits.
pub fn field_bits_array(v: &JsonValue, key: &str, n: usize) -> (r: Result<Option<Vec<u64>>, ImportError>)
    ensures
        r is Ok <==> bits_array_ok(*v, key@, n as nat),
        r is Ok ==> opt_seq(r->Ok_0) == opt_bits_list(*v, key@),
        r is Err ==> names(r->Err_0, key@),
{
    match field_bits_list(v, key) {
        Ok(Some(l)) => {
            if l.len() == n {
                Ok(Some(l))
            } else {
                Err(ImportError::format(key))
            }
        },
        other => other,
    }
}

} // verus!
