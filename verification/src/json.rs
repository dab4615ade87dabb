//! A plain model of the JSON values the API exchanges.
//!
//! The library never parses raw JSON itself: the caller hands it a
//! [`JsonValue`] tree (built from whatever JSON parser it uses) and the
//! library reads and builds such trees with verified code. Numbers are
//! kept as integers; the API's envelopes and identifiers never carry
//! fractions.

use vstd::prelude::*;

verus! {

/// One JSON value, held as plain data.
#[derive(Debug)]
pub enum JsonValue {
    Null,
    Bool(bool),
    /// A non-negative integer.
    UInt(u64),
    /// A negative integer.
    Int(i64),
    Str(String),
    Arr(Vec<JsonValue>),
    /// An object, as its fields in order; a well-formed object repeats no key.
    Obj(Vec<(String, JsonValue)>),
}

/// The first value bound to `key` among `fields`, if any.
pub open spec fn spec_obj_get(fields: Seq<(String, JsonValue)>, key: Seq<char>) -> Option<JsonValue>
    decreases fields.len(),
{
    if fields.len() == 0 {
        None
    } else if fields[0].0@ == key {
        Some(fields[0].1)
    } else {
        spec_obj_get(fields.drop_first(), key)
    }
}

/// The field `key` of `v`, when `v` is an object that has it.
pub open spec fn spec_get(v: JsonValue, key: Seq<char>) -> Option<JsonValue> {
    match v {
        JsonValue::Obj(fields) => spec_obj_get(fields@, key),
        _ => None,
    }
}

proof fn lemma_obj_get_step(fields: Seq<(String, JsonValue)>, key: Seq<char>, i: int)
    requires
        0 <= i <= fields.len(),
        forall|j: int| 0 <= j < i ==> #[trigger] fields[j].0@ != key,
    ensures
        spec_obj_get(fields, key) == spec_obj_get(fields.skip(i), key),
    decreases i,
{
    if i > 0 {
        lemma_obj_get_step(fields, key, i - 1);
        assert(fields.skip(i - 1).drop_first() =~= fields.skip(i));
        assert(fields.skip(i - 1)[0] == fields[i - 1]);
    } else {
        assert(fields.skip(0) =~= fields);
    }
}

impl JsonValue {
    /// Looks a field up when this value is an object; `None` on any other
    /// kind of value or when the key is absent.
    pub fn get<'a>(&'a self, key: &str) -> (r: Option<&'a JsonValue>)
        ensures
            match r {
                Some(inner) => spec_get(*self, key@) == Some(*inner),
                None => spec_get(*self, key@) is None,
            },
    {
        match self {
            JsonValue::Obj(fields) => {
                let key_owned = key.to_owned();
                let n = fields.len();
                let mut i: usize = 0;
                while i < n
                    invariant
                        n == fields@.len(),
                        0 <= i <= n,
                        forall|j: int| 0 <= j < i ==> #[trigger] fields@[j].0@ != key@,
                        key_owned@ == key@,
                        spec_get(*self, key@) == spec_obj_get(fields@, key@),
                    decreases n - i,
                {
                    if fields[i].0 == key_owned {
                        proof {
                            lemma_obj_get_step(fields@, key@, i as int);
                            assert(fields@.skip(i as int)[0] == fields@[i as int]);
                            assert(fields@.skip(i as int)[0].0@ == key@);
                            assert(spec_obj_get(fields@.skip(i as int), key@) == Some(
                                fields@[i as int].1,
                            ));
                        }
                        return Some(&fields[i].1);
                    }
                    i += 1;
                }
                proof {
                    lemma_obj_get_step(fields@, key@, n as int);
                    assert(fields@.skip(n as int) =~= Seq::<(String, JsonValue)>::empty());
                }
                None
            },
            _ => None,
        }
    }

    /// The number this value holds, when it is a non-negative integer.
    pub open spec fn spec_as_u64(self) -> Option<u64> {
        match self {
            JsonValue::UInt(n) => Some(n),
            _ => None,
        }
    }

    /// Reads this value as a non-negative integer.
    pub fn as_u64(&self) -> (r: Option<u64>)
        ensures
            r == self.spec_as_u64(),
    {
        match self {
            JsonValue::UInt(n) => Some(*n),
            _ => None,
        }
    }

    /// The text this value holds, when it is a string.
    pub open spec fn spec_as_str(self) -> Option<Seq<char>> {
        match self {
            JsonValue::Str(s) => Some(s@),
            _ => None,
        }
    }

    /// Reads this value as a string, cloned out of the tree.
    pub fn as_string(&self) -> (r: Option<String>)
        ensures
            match r {
                Some(s) => self.spec_as_str() == Some(s@),
                None => self.spec_as_str() is None,
            },
    {
        match self {
            JsonValue::Str(s) => Some(s.clone()),
            _ => None,
        }
    }

    /// Whether this value is `null`.
    pub fn is_null(&self) -> (r: bool)
        ensures
            r == (*self is Null),
    {
        match self {
            JsonValue::Null => true,
            _ => false,
        }
    }
}

/// The decimal digits of `n`, most significant first.
pub open spec fn spec_u64_digits(n: u64) -> Seq<char>
    decreases n,
{
    if n < 10 {
        seq![spec_digit_char((n % 10) as u64)]
    } else {
        spec_u64_digits(n / 10).push(spec_digit_char((n % 10) as u64))
    }
}

/// The character for one decimal digit.
pub open spec fn spec_digit_char(d: u64) -> char {
    if d == 0 {
        '0'
    } else if d == 1 {
        '1'
    } else if d == 2 {
        '2'
    } else if d == 3 {
        '3'
    } else if d == 4 {
        '4'
    } else if d == 5 {
        '5'
    } else if d == 6 {
        '6'
    } else if d == 7 {
        '7'
    } else if d == 8 {
        '8'
    } else {
        '9'
    }
}

/// Appends the character for one decimal digit to `out`.
fn push_digit(out: &mut String, d: u64)
    requires
        d < 10,
    ensures
        final(out)@ == old(out)@.push(spec_digit_char(d)),
{
    let s: &str = if d == 0 {
        "0"
    } else if d == 1 {
        "1"
    } else if d == 2 {
        "2"
    } else if d == 3 {
        "3"
    } else if d == 4 {
        "4"
    } else if d == 5 {
        "5"
    } else if d == 6 {
        "6"
    } else if d == 7 {
        "7"
    } else if d == 8 {
        "8"
    } else {
        "9"
    };
    proof {
        reveal_strlit("0");
        reveal_strlit("1");
        reveal_strlit("2");
        reveal_strlit("3");
        reveal_strlit("4");
        reveal_strlit("5");
        reveal_strlit("6");
        reveal_strlit("7");
        reveal_strlit("8");
        reveal_strlit("9");
        assert(s@ =~= seq![spec_digit_char(d)]);
    }
    out.append(s);
    proof {
        assert(old(out)@ + s@ =~= old(out)@.push(spec_digit_char(d)));
    }
}

fn append_u64_digits(out: &mut String, n: u64)
    ensures
        final(out)@ == old(out)@ + spec_u64_digits(n),
    decreases n,
{
    if n < 10 {
        push_digit(out, n % 10);
        proof {
            assert(old(out)@.push(spec_digit_char((n % 10) as u64)) =~= old(out)@
                + spec_u64_digits(n));
        }
    } else {
        append_u64_digits(out, n / 10);
        push_digit(out, n % 10);
        proof {
            assert((old(out)@ + spec_u64_digits(n / 10)).push(spec_digit_char((n % 10) as u64))
                =~= old(out)@ + spec_u64_digits(n));
        }
    }
}

/// Renders `n` in decimal.
pub fn u64_to_string(n: u64) -> (r: String)
    ensures
        r@ == spec_u64_digits(n),
{
    let mut out = String::new();
    append_u64_digits(&mut out, n);
    proof {
        assert(Seq::<char>::empty() + spec_u64_digits(n) =~= spec_u64_digits(n));
    }
    out
}

} // verus!

verus! {

/// Compares two string slices by their text.
pub fn str_eq(a: &str, b: &str) -> (r: bool)
    ensures
        r == (a@ == b@),
{
    let a_owned = a.to_owned();
    let b_owned = b.to_owned();
    a_owned == b_owned
}

} // verus!

verus! {

/// The field at `i` is what the lookup finds, when no earlier field
/// carries the same key.
pub proof fn lemma_obj_get_at(fields: Seq<(String, JsonValue)>, i: int)
    requires
        0 <= i < fields.len(),
        forall|j: int| 0 <= j < i ==> #[trigger] fields[j].0@ != fields[i].0@,
    ensures
        spec_obj_get(fields, fields[i].0@) == Some(fields[i].1),
{
    lemma_obj_get_step(fields, fields[i].0@, i);
    assert(fields.skip(i)[0] == fields[i]);
}

/// Whether `v` is the JSON array of exactly the given texts, in order.
pub open spec fn spec_is_string_array(v: JsonValue, items: Seq<String>) -> bool {
    &&& v matches JsonValue::Arr(a)
    &&& v->Arr_0@.len() == items.len()
    &&& forall|i: int|
        0 <= i < items.len() ==> (#[trigger] v->Arr_0@[i]).spec_as_str() == Some(items[i]@)
}

/// Builds the JSON array of the given texts.
pub fn strings_to_json_array(items: &Vec<String>) -> (r: JsonValue)
    ensures
        spec_is_string_array(r, items@),
{
    let mut out: Vec<JsonValue> = Vec::new();
    let n = items.len();
    let mut i: usize = 0;
    while i < n
        invariant
            n == items@.len(),
            0 <= i <= n,
            out@.len() == i,
            forall|j: int| 0 <= j < i ==> (#[trigger] out@[j]).spec_as_str() == Some(items@[j]@),
        decreases n - i,
    {
        out.push(JsonValue::Str(items[i].clone()));
        i += 1;
    }
    JsonValue::Arr(out)
}

/// Whether `v` is the JSON object of exactly the given key-value texts,
/// in order.
pub open spec fn spec_is_string_object(v: JsonValue, pairs: Seq<(String, String)>) -> bool {
    &&& v matches JsonValue::Obj(f)
    &&& v->Obj_0@.len() == pairs.len()
    &&& forall|i: int|
        0 <= i < pairs.len() ==> (#[trigger] v->Obj_0@[i]).0@ == pairs[i].0@
            && v->Obj_0@[i].1.spec_as_str() == Some(pairs[i].1@)
}

/// Builds the JSON object of the given key-value texts.
pub fn pairs_to_json_object(pairs: &Vec<(String, String)>) -> (r: JsonValue)
    ensures
        spec_is_string_object(r, pairs@),
{
    let mut out: Vec<(String, JsonValue)> = Vec::new();
    let n = pairs.len();
    let mut i: usize = 0;
    while i < n
        invariant
            n == pairs@.len(),
            0 <= i <= n,
            out@.len() == i,
            forall|j: int| 0 <= j < i ==> (#[trigger] out@[j]).0@ == pairs@[j].0@
                && out@[j].1.spec_as_str() == Some(pairs@[j].1@),
        decreases n - i,
    {
        out.push((pairs[i].0.clone(), JsonValue::Str(pairs[i].1.clone())));
        i += 1;
    }
    JsonValue::Obj(out)
}

} // verus!

verus! {

/// The number field `key` of `v`, when it is there and non-negative.
pub open spec fn spec_u64_field(v: JsonValue, key: Seq<char>) -> Option<u64> {
    match spec_get(v, key) {
        Some(f) => f.spec_as_u64(),
        None => None,
    }
}

/// The text field `key` of `v`, when it is there and a string.
pub open spec fn spec_text_field(v: JsonValue, key: Seq<char>) -> Option<Seq<char>> {
    match spec_get(v, key) {
        Some(f) => f.spec_as_str(),
        None => None,
    }
}

/// Reads the number field `key` of `v`.
pub fn u64_field(v: &JsonValue, key: &str) -> (r: Option<u64>)
    ensures
        r == spec_u64_field(*v, key@),
{
    match v.get(key) {
        Some(f) => f.as_u64(),
        None => None,
    }
}

/// Reads the text field `key` of `v`, cloned out of the tree.
pub fn text_field(v: &JsonValue, key: &str) -> (r: Option<String>)
    ensures
        match r {
            Some(s) => spec_text_field(*v, key@) == Some(s@),
            None => spec_text_field(*v, key@) is None,
        },
{
    match v.get(key) {
        Some(f) => f.as_string(),
        None => None,
    }
}

} // verus!
