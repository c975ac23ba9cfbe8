//! JSON documents as the library reads them.
use vstd::prelude::*;

use crate::text::str_eq;

verus! {

/// A JSON value. An object keeps its members in the order they were read.
#[derive(Debug)]
pub enum JsonValue {
    Null,
    Bool(bool),
    /// A number, by its text.
    Number(String),
    Str(String),
    Array(Vec<JsonValue>),
    Object(Vec<(String, JsonValue)>),
}

/// The value of the first member of `entries` named `key`.
pub open spec fn member(entries: Seq<(String, JsonValue)>, key: Seq<char>) -> Option<JsonValue>
    decreases entries.len(),
{
    if entries.len() == 0 {
        None
    } else if entries[0].0@ == key {
        Some(entries[0].1)
    } else {
        member(entries.skip(1), key)
    }
}

/// The member `key` of `v`, if `v` is an object that has one.
pub open spec fn json_get(v: JsonValue, key: Seq<char>) -> Option<JsonValue> {
    match v {
        JsonValue::Object(entries) => member(entries@, key),
        _ => None,
    }
}

/// `v[key]`: the member `key` of `v`, or null when there is none.
pub open spec fn json_at(v: JsonValue, key: Seq<char>) -> JsonValue {
    match json_get(v, key) {
        Some(x) => x,
        None => JsonValue::Null,
    }
}

/// The text of `v` if it is a string.
pub open spec fn json_text(v: JsonValue) -> Option<Seq<char>> {
    match v {
        JsonValue::Str(s) => Some(s@),
        _ => None,
    }
}

/// The text of member `key` of `v`, if it is a string.
pub open spec fn text_at(v: JsonValue, key: Seq<char>) -> Option<Seq<char>> {
    json_text(json_at(v, key))
}

impl JsonValue {
    /// The member `key`, if this is an object that has one.
    pub fn get(&self, key: &str) -> (r: Option<&JsonValue>)
        ensures
            match r {
                Some(x) => json_get(*self, key@) == Some(*x),
                None => json_get(*self, key@) is None,
            },
    {
        match self {
            JsonValue::Object(entries) => {
                assert(entries@.skip(0) =~= entries@);
                for i in 0..entries.len()
                    invariant
                        *self == JsonValue::Object(*entries),
                        member(entries@, key@) == member(entries@.skip(i as int), key@),
                {
                    proof {
                        assert(entries@.skip(i as int).skip(1) =~= entries@.skip(i + 1));
                        assert(entries@.skip(i as int)[0] == entries@[i as int]);
                    }
                    if str_eq(entries[i].0.as_str(), key) {
                        assert(member(entries@.skip(i as int), key@) == Some(entries@[i as int].1));
                        return Some(&entries[i].1);
                    }
                }
                assert(entries@.skip(entries.len() as int) =~= Seq::<(String, JsonValue)>::empty());
                None
            },
            _ => None,
        }
    }

    /// The text of this value, if it is a string.
    pub fn as_str(&self) -> (r: Option<&str>)
        ensures
            match r {
                Some(s) => json_text(*self) == Some(s@),
                None => json_text(*self) is None,
            },
    {
        match self {
            JsonValue::Str(s) => Some(s.as_str()),
            _ => None,
        }
    }

    /// The text of member `key`, if it is a string.
    pub fn str_at(&self, key: &str) -> (r: Option<&str>)
        ensures
            match r {
                Some(s) => text_at(*self, key@) == Some(s@),
                None => text_at(*self, key@) is None,
            },
    {
        match self.get(key) {
            Some(v) => v.as_str(),
            None => None,
        }
    }

    /// The items of this value, if it is an array.
    pub fn as_array(&self) -> (r: Option<&Vec<JsonValue>>)
        ensures
            match r {
                Some(items) => *self == JsonValue::Array(*items),
                None => !(*self is Array),
            },
    {
        match self {
            JsonValue::Array(items) => Some(items),
            _ => None,
        }
    }

    /// The value of this value, if it is a boolean.
    pub fn as_bool(&self) -> (r: Option<bool>)
        ensures
            match r {
                Some(b) => *self == JsonValue::Bool(b),
                None => !(*self is Bool),
            },
    {
        match self {
            JsonValue::Bool(b) => Some(*b),
            _ => None,
        }
    }
}

/// `s` is a non-empty run of ASCII digits.
pub open spec fn all_digits(s: Seq<char>) -> bool {
    s.len() > 0 && forall|i: int| 0 <= i < s.len() ==> '0' <= #[trigger] s[i] && s[i] <= '9'
}

/// The number that the digits `s` write.
pub open spec fn digits_value(s: Seq<char>) -> int
    decreases s.len(),
{
    if s.len() == 0 {
        0
    } else {
        10 * digits_value(s.drop_last()) + (s.last() as int - '0' as int)
    }
}

/// The integer a number text writes: digits, with a `-` before them for a
/// negative one.
pub open spec fn integer_text(s: Seq<char>) -> Option<int> {
    if s.len() > 1 && s[0] == '-' && all_digits(s.skip(1)) {
        Some(-digits_value(s.skip(1)))
    } else if all_digits(s) {
        Some(digits_value(s))
    } else {
        None
    }
}

/// `v` as a 64-bit integer, if it is a number written as one that fits.
pub open spec fn json_i64(v: JsonValue) -> Option<i64> {
    match v {
        JsonValue::Number(t) => match integer_text(t@) {
            Some(n) => if i64::MIN <= n <= i64::MAX {
                Some(n as i64)
            } else {
                None
            },
            None => None,
        },
        _ => None,
    }
}

/// More digits never write a smaller number.
pub proof fn lemma_digits_value_grows(s: Seq<char>, k: int)
    requires
        all_digits(s),
        0 <= k <= s.len(),
    ensures
        0 <= digits_value(s.take(k)) <= digits_value(s),
    decreases s.len(),
{
    if k < s.len() {
        assert(all_digits(s.drop_last()) || s.len() == 1);
        if s.len() > 1 {
            lemma_digits_value_grows(s.drop_last(), k);
            assert(s.drop_last().take(k) =~= s.take(k));
            lemma_digits_value_nonnegative(s.drop_last());
        } else {
            assert(s.take(k) =~= Seq::<char>::empty());
        }
    } else {
        assert(s.take(k) =~= s);
        lemma_digits_value_nonnegative(s);
    }
}

/// Digits write a number that is not negative.
pub proof fn lemma_digits_value_nonnegative(s: Seq<char>)
    requires
        forall|i: int| 0 <= i < s.len() ==> '0' <= #[trigger] s[i] && s[i] <= '9',
    ensures
        digits_value(s) >= 0,
    decreases s.len(),
{
    if s.len() > 0 {
        lemma_digits_value_nonnegative(s.drop_last());
    }
}

/// The value of a digit run, or `None` when it is longer than `limit`.
fn digits_up_to(c: &Vec<char>, start: usize, limit: u64) -> (r: Option<u64>)
    requires
        start <= c.len(),
        9 <= limit <= 0x8000_0000_0000_0000,
    ensures
        r matches Some(v) ==> v <= limit,
        all_digits(c@.skip(start as int)) && digits_value(c@.skip(start as int)) <= limit ==> r
            == Some(digits_value(c@.skip(start as int)) as u64),
        r matches Some(v) ==> all_digits(c@.skip(start as int)) && v == digits_value(
            c@.skip(start as int),
        ),
{
    if start == c.len() {
        return None;
    }
    let ghost s = c@.skip(start as int);
    let mut acc: u64 = 0;
    let mut i = start;
    while i < c.len()
        invariant
            start <= i <= c.len(),
            s == c@.skip(start as int),
            start < c.len(),
            9 <= limit <= 0x8000_0000_0000_0000,
            forall|j: int| 0 <= j < i - start ==> '0' <= #[trigger] s[j] && s[j] <= '9',
            acc == digits_value(s.take(i - start)),
            acc <= limit,
        decreases c.len() - i,
    {
        let d = c[i];
        if d < '0' || d > '9' {
            assert(s[i - start] == d);
            return None;
        }
        let dv = (d as u64) - ('0' as u64);
        proof {
            assert(s.take(i - start + 1).drop_last() =~= s.take(i - start));
            assert(s.take(i - start + 1).last() == d);
        }
        if acc > (limit - dv) / 10 {
            proof {
                assert forall|j: int| 0 <= j < i - start + 1 implies '0' <= #[trigger] s[j] && s[j] <= '9' by {
                    if j == i - start {
                        assert(s[j] == d);
                    }
                }
                assert(acc * 10 + dv > limit) by (nonlinear_arith)
                    requires
                        acc > (limit - dv) / 10,
                        dv <= limit,
                ;
                if all_digits(s) {
                    lemma_digits_value_grows(s, i - start + 1);
                }
            }
            return None;
        }
        assert(acc * 10 + dv <= limit) by (nonlinear_arith)
            requires
                acc <= (limit - dv) / 10,
                dv <= 9,
        ;
        acc = acc * 10 + dv;
        i = i + 1;
        proof {
            assert forall|j: int| 0 <= j < i - start implies '0' <= #[trigger] s[j] && s[j] <= '9' by {
                if j == i - start - 1 {
                    assert(s[j] == d);
                }
            }
        }
    }
    assert(s.take(c.len() - start) =~= s);
    Some(acc)
}

impl JsonValue {
    /// This value as a 64-bit integer (see [`json_i64`]).
    pub fn as_i64(&self) -> (r: Option<i64>)
        ensures
            r == json_i64(*self),
    {
        match self {
            JsonValue::Number(t) => {
                let c = crate::text::chars_of(t.as_str());
                if c.len() > 1 && c[0] == '-' {
                    assert(!all_digits(c@)) by {
                        assert(c@[0] == '-');
                    }
                    match digits_up_to(&c, 1, 0x8000_0000_0000_0000) {
                        Some(v) => {
                            if v == 0x8000_0000_0000_0000 {
                                Some(i64::MIN)
                            } else {
                                Some(-(v as i64))
                            }
                        },
                        None => None,
                    }
                } else {
                    match digits_up_to(&c, 0, 0x7fff_ffff_ffff_ffff) {
                        Some(v) => {
                            assert(c@.skip(0) =~= c@);
                            Some(v as i64)
                        },
                        None => {
                            assert(c@.skip(0) =~= c@);
                            None
                        },
                    }
                }
            },
            _ => None,
        }
    }
}

/// `v` is an object whose members have the names `keys`, in that order.
pub open spec fn is_object_of(v: JsonValue, keys: Seq<Seq<char>>) -> bool {
    v matches JsonValue::Object(e) && e@.map_values(|p: (String, JsonValue)| p.0@) == keys
}

/// The value of the `i`-th member of object `v`.
pub open spec fn member_at(v: JsonValue, i: int) -> JsonValue {
    match v {
        JsonValue::Object(e) => e@[i].1,
        _ => JsonValue::Null,
    }
}

/// `v` is an array of `n` items.
pub open spec fn is_array_of_len(v: JsonValue, n: nat) -> bool {
    v matches JsonValue::Array(items) && items@.len() == n
}

/// The `i`-th item of array `v`.
pub open spec fn item_at(v: JsonValue, i: int) -> JsonValue {
    match v {
        JsonValue::Array(items) => items@[i],
        _ => JsonValue::Null,
    }
}

/// `v` is the string `t`.
pub open spec fn is_text(v: JsonValue, t: Seq<char>) -> bool {
    v matches JsonValue::Str(s) && s@ == t
}

/// `v` is the number written `t`.
pub open spec fn is_number(v: JsonValue, t: Seq<char>) -> bool {
    v matches JsonValue::Number(s) && s@ == t
}

} // verus!
