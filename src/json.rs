use vstd::prelude::*;

verus! {

/// A JSON number as the wire carried it.
#[derive(Debug, Clone)]
pub enum JsonNumber {
    /// A non-negative integer that fits in 64 bits.
    UInt(u64),
    /// A negative integer that fits in 64 bits.
    NegInt(i64),
    /// Any other number, kept as its literal text.
    Other(String),
}

/// A JSON document tree. Object members keep their order.
#[derive(Debug)]
pub enum JsonValue {
    Null,
    Bool(bool),
    Number(JsonNumber),
    Str(String),
    Array(Vec<JsonValue>),
    Object(Vec<(String, JsonValue)>),
}

/// The members of a JSON object, in order.
pub type Fields = Vec<(String, JsonValue)>;

/// The value of the first member named `k`, if any.
pub open spec fn lookup(s: Seq<(String, JsonValue)>, k: Seq<char>) -> Option<JsonValue>
    decreases s.len(),
{
    if s.len() == 0 {
        None
    } else {
        let earlier = lookup(s.drop_last(), k);
        if earlier is Some {
            earlier
        } else if s.last().0@ == k {
            Some(s.last().1)
        } else {
            None
        }
    }
}

/// The members whose name is none of `k1`, `k2`, `k3`, in order.
pub open spec fn others(s: Seq<(String, JsonValue)>, k1: Seq<char>, k2: Seq<char>, k3: Seq<char>) -> Seq<
    (String, JsonValue),
>
    decreases s.len(),
{
    if s.len() == 0 {
        Seq::empty()
    } else {
        let rest = others(s.drop_last(), k1, k2, k3);
        let n = s.last().0@;
        if n == k1 || n == k2 || n == k3 {
            rest
        } else {
            rest.push(s.last())
        }
    }
}

/// What a member read as a string field gives: absent is the empty string,
/// a string is itself, anything else is no string at all.
pub open spec fn text_field(v: Option<JsonValue>) -> Option<Seq<char>> {
    match v {
        None => Some(Seq::empty()),
        Some(JsonValue::Str(s)) => Some(s@),
        Some(_) => None,
    }
}

/// What a member read as an unsigned integer field gives: absent is zero.
pub open spec fn uint_field(v: Option<JsonValue>) -> Option<u64> {
    match v {
        None => Some(0),
        Some(JsonValue::Number(JsonNumber::UInt(n))) => Some(n),
        Some(_) => None,
    }
}

/// A required string member: present and a string.
pub open spec fn required_text(v: Option<JsonValue>) -> Option<Seq<char>> {
    match v {
        Some(JsonValue::Str(s)) => Some(s@),
        _ => None,
    }
}

/// Whether every item of an array is a string.
pub open spec fn all_text(items: Seq<JsonValue>) -> bool {
    forall|i: int| 0 <= i < items.len() ==> (#[trigger] items[i]) is Str
}

/// A required member holding an array of strings: the strings, in order.
pub open spec fn required_text_list(v: Option<JsonValue>) -> Option<Seq<Seq<char>>> {
    match v {
        Some(JsonValue::Array(items)) => if all_text(items@) {
            Some(items@.map_values(|x: JsonValue| x->Str_0@))
        } else {
            None
        },
        _ => None,
    }
}

/// Compares a name with a literal.
pub fn name_is(name: &String, lit: &str) -> (r: bool)
    ensures
        r == (name@ == lit@),
{
    let l = String::from_str(lit);
    *name == l
}

/// Finds the first member named `k`.
pub fn get_field<'a>(fields: &'a Fields, k: &str) -> (r: Option<&'a JsonValue>)
    ensures
        r is Some == lookup(fields@, k@) is Some,
        r is Some ==> *r->0 == lookup(fields@, k@)->0,
{
    let mut i: usize = 0;
    while i < fields.len()
        invariant
            i <= fields.len(),
            lookup(fields@.take(i as int), k@) is None,
        decreases fields.len() - i,
    {
        assert(fields@.take(i + 1).drop_last() =~= fields@.take(i as int));
        if name_is(&fields[i].0, k) {
            proof {
                lemma_lookup_prefix(fields@, i + 1, k@);
            }
            return Some(&fields[i].1);
        }
        i = i + 1;
    }
    assert(fields@.take(i as int) =~= fields@);
    None
}

/// A lookup that finds its name in a prefix finds the same member in the whole.
pub proof fn lemma_lookup_prefix(s: Seq<(String, JsonValue)>, n: int, k: Seq<char>)
    requires
        0 <= n <= s.len(),
        lookup(s.take(n), k) is Some,
    ensures
        lookup(s, k) == lookup(s.take(n), k),
    decreases s.len() - n,
{
    if n < s.len() {
        assert(s.take(n + 1).drop_last() =~= s.take(n));
        lemma_lookup_prefix(s, n + 1, k);
    } else {
        assert(s.take(n) =~= s);
    }
}

/// Takes an object's members apart: the first member named each of `k1`,
/// `k2`, `k3`, and all members named otherwise, in order.
pub fn split_fields(fields: Fields, k1: &str, k2: &str, k3: &str) -> (r: (
    Option<JsonValue>,
    Option<JsonValue>,
    Option<JsonValue>,
    Fields,
))
    requires
        k1@ != k2@,
        k1@ != k3@,
        k2@ != k3@,
    ensures
        r.0 == lookup(fields@, k1@),
        r.1 == lookup(fields@, k2@),
        r.2 == lookup(fields@, k3@),
        r.3@ == others(fields@, k1@, k2@, k3@),
{
    let ghost orig = fields@;
    let ghost mut n: int = 0;
    let mut rest = fields;
    let mut a: Option<JsonValue> = None;
    let mut b: Option<JsonValue> = None;
    let mut c: Option<JsonValue> = None;
    let mut out: Fields = Vec::new();
    while rest.len() > 0
        invariant
            k1@ != k2@,
            k1@ != k3@,
            k2@ != k3@,
            0 <= n <= orig.len(),
            rest@ == orig.skip(n),
            a == lookup(orig.take(n), k1@),
            b == lookup(orig.take(n), k2@),
            c == lookup(orig.take(n), k3@),
            out@ == others(orig.take(n), k1@, k2@, k3@),
        decreases rest.len(),
    {
        let ghost before = rest@;
        let (name, value) = rest.remove(0);
        proof {
            assert(before[0] == orig[n]);
            assert(name == orig[n].0 && value == orig[n].1);
            assert(orig.take(n + 1).drop_last() =~= orig.take(n));
            assert(orig.take(n + 1).last() == orig[n]);
            n = n + 1;
            assert(rest@ =~= orig.skip(n));
        }
        if name_is(&name, k1) {
            if a.is_none() {
                a = Some(value);
            }
        } else if name_is(&name, k2) {
            if b.is_none() {
                b = Some(value);
            }
        } else if name_is(&name, k3) {
            if c.is_none() {
                c = Some(value);
            }
        } else {
            out.push((name, value));
        }
    }
    assert(orig.take(n) =~= orig);
    (a, b, c, out)
}

/// A lookup finds the first member when it has the name.
pub proof fn lemma_lookup_head(s: Seq<(String, JsonValue)>, k: Seq<char>)
    requires
        s.len() > 0,
        s[0].0@ == k,
    ensures
        lookup(s, k) == Some(s[0].1),
    decreases s.len(),
{
    reveal_with_fuel(lookup, 2);
    if s.len() > 1 {
        lemma_lookup_head(s.drop_last(), k);
    }
}

/// A lookup passes over a first member of another name.
pub proof fn lemma_lookup_tail(s: Seq<(String, JsonValue)>, k: Seq<char>)
    requires
        s.len() > 0,
        s[0].0@ != k,
    ensures
        lookup(s, k) == lookup(s.drop_first(), k),
    decreases s.len(),
{
    reveal_with_fuel(lookup, 2);
    if s.len() > 1 {
        lemma_lookup_tail(s.drop_last(), k);
        assert(s.drop_first().drop_last() =~= s.drop_last().drop_first());
        assert(s.drop_first().last() == s.last());
    } else {
        assert(s.drop_first() =~= Seq::<(String, JsonValue)>::empty());
    }
}

/// A first member with one of the three names is left out.
pub proof fn lemma_others_tail(s: Seq<(String, JsonValue)>, k1: Seq<char>, k2: Seq<char>, k3: Seq<char>)
    requires
        s.len() > 0,
        s[0].0@ == k1 || s[0].0@ == k2 || s[0].0@ == k3,
    ensures
        others(s, k1, k2, k3) == others(s.drop_first(), k1, k2, k3),
    decreases s.len(),
{
    reveal_with_fuel(others, 2);
    if s.len() > 1 {
        lemma_others_tail(s.drop_last(), k1, k2, k3);
        assert(s.drop_first().drop_last() =~= s.drop_last().drop_first());
        assert(s.drop_first().last() == s.last());
    } else {
        assert(s.drop_first() =~= Seq::<(String, JsonValue)>::empty());
    }
}

/// Where no member has one of the three names, all members are kept.
pub proof fn lemma_others_all(s: Seq<(String, JsonValue)>, k1: Seq<char>, k2: Seq<char>, k3: Seq<char>)
    requires
        forall|i: int|
            0 <= i < s.len() ==> {
                let n = (#[trigger] s[i]).0@;
                n != k1 && n != k2 && n != k3
            },
    ensures
        others(s, k1, k2, k3) == s,
    decreases s.len(),
{
    if s.len() > 0 {
        lemma_others_all(s.drop_last(), k1, k2, k3);
        assert(s.drop_last().push(s.last()) =~= s);
    } else {
        assert(s =~= Seq::<(String, JsonValue)>::empty());
    }
}

/// Sets member `k` to `v`: the first member named `k` takes the new value,
/// or, where there is none, the member is added at the end.
pub fn set_field(fields: &mut Fields, k: String, v: JsonValue)
    ensures
        lookup(old(fields)@, k@) is Some ==> exists|i: int|
            0 <= i < old(fields)@.len() && old(fields)@[i].0@ == k@ && (forall|j: int|
                0 <= j < i ==> (#[trigger] old(fields)@[j]).0@ != k@) && final(fields)@
                == old(fields)@.update(i, (old(fields)@[i].0, v)),
        lookup(old(fields)@, k@) is None ==> final(fields)@ == old(fields)@.push((k, v)),
        lookup(final(fields)@, k@) == Some(v),
        forall|k2: Seq<char>|
            k2 != k@ ==> #[trigger] lookup(final(fields)@, k2) == lookup(old(fields)@, k2),
{
    let mut i: usize = 0;
    while i < fields.len()
        invariant
            fields@ == old(fields)@,
            i <= fields.len(),
            lookup(fields@.take(i as int), k@) is None,
            forall|j: int| 0 <= j < i ==> (#[trigger] fields@[j]).0@ != k@,
        decreases fields.len() - i,
    {
        assert(fields@.take(i + 1).drop_last() =~= fields@.take(i as int));
        if fields[i].0 == k {
            proof {
                lemma_lookup_prefix(fields@, i + 1, k@);
            }
            let name = fields[i].0.clone();
            let ghost before = fields@;
            fields.set(i, (name, v));
            proof {
                lemma_lookup_update(before, i as int, k@, v);
            }
            return;
        }
        i = i + 1;
    }
    assert(fields@.take(i as int) =~= fields@);
    let ghost before = fields@;
    fields.push((k, v));
    assert(fields@.drop_last() =~= before);
}

/// No member named `k`: the lookup finds nothing.
pub proof fn lemma_lookup_absent(s: Seq<(String, JsonValue)>, k: Seq<char>)
    requires
        forall|j: int| 0 <= j < s.len() ==> (#[trigger] s[j]).0@ != k,
    ensures
        lookup(s, k) is None,
    decreases s.len(),
{
    if s.len() > 0 {
        lemma_lookup_absent(s.drop_last(), k);
    }
}

/// Giving the first member named `k` a new value changes what `k` looks up
/// to and nothing else.
pub proof fn lemma_lookup_update(s: Seq<(String, JsonValue)>, i: int, k: Seq<char>, v: JsonValue)
    requires
        0 <= i < s.len(),
        s[i].0@ == k,
        forall|j: int| 0 <= j < i ==> (#[trigger] s[j]).0@ != k,
    ensures
        lookup(s.update(i, (s[i].0, v)), k) == Some(v),
        forall|k2: Seq<char>|
            k2 != k ==> #[trigger] lookup(s.update(i, (s[i].0, v)), k2) == lookup(s, k2),
    decreases s.len(),
{
    let t = s.update(i, (s[i].0, v));
    if i == s.len() - 1 {
        assert(t.drop_last() =~= s.drop_last());
        lemma_lookup_absent(s.drop_last(), k);
    } else {
        lemma_lookup_update(s.drop_last(), i, k, v);
        assert(t.drop_last() =~= s.drop_last().update(i, (s[i].0, v)));
    }
    assert forall|k2: Seq<char>| k2 != k implies #[trigger] lookup(t, k2) == lookup(s, k2) by {
        assert(t.last().0@ == s.last().0@);
        if i < s.len() - 1 {
            assert(lookup(t.drop_last(), k2) == lookup(s.drop_last(), k2));
        }
    }
}

} // verus!
