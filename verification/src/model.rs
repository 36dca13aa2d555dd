use vstd::prelude::*;

verus! {

/// The mathematical shape of a JSON value, as far as the envelope layer reads
/// it: numbers are integers or, for non-integral numbers, their decimal text;
/// an object keeps its fields as a sequence of named values, in order.
pub enum JsonModel {
    Null,
    Bool(bool),
    Int(int),
    Dec(Seq<char>),
    Str(Seq<char>),
    Arr(Seq<JsonModel>),
    Obj(Seq<(Seq<char>, JsonModel)>),
}

/// The value of the first field named `key`, if any.
pub open spec fn lookup(fs: Seq<(Seq<char>, JsonModel)>, key: Seq<char>) -> Option<JsonModel>
    decreases fs.len(),
{
    if fs.len() == 0 {
        None
    } else if fs[0].0 == key {
        Some(fs[0].1)
    } else {
        lookup(fs.drop_first(), key)
    }
}

/// No two fields share a name.
pub open spec fn keys_distinct(fs: Seq<(Seq<char>, JsonModel)>) -> bool {
    forall|i: int, j: int| 0 <= i < j < fs.len() ==> fs[i].0 != fs[j].0
}

/// The fields with every field named `key` removed, order otherwise kept.
pub open spec fn strip_key(fs: Seq<(Seq<char>, JsonModel)>, key: Seq<char>) -> Seq<
    (Seq<char>, JsonModel),
>
    decreases fs.len(),
{
    if fs.len() == 0 {
        Seq::empty()
    } else {
        let rest = strip_key(fs.drop_first(), key);
        if fs[0].0 == key {
            rest
        } else {
            seq![fs[0]] + rest
        }
    }
}

/// Stripping commutes with appending one field at the end.
pub proof fn lemma_strip_key_push(fs: Seq<(Seq<char>, JsonModel)>, key: Seq<char>, p: (Seq<char>, JsonModel))
    ensures
        strip_key(fs.push(p), key) == if p.0 == key {
            strip_key(fs, key)
        } else {
            (strip_key(fs, key) + seq![p])
        },
    decreases fs.len(),
{
    reveal_with_fuel(strip_key, 3);
    assert(fs.push(p)[fs.len() as int] == p);
    if fs.len() == 0 {
        assert(fs.push(p).drop_first() =~= Seq::<(Seq<char>, JsonModel)>::empty());
        assert(strip_key(fs, key) =~= Seq::<(Seq<char>, JsonModel)>::empty());
        if p.0 != key {
            assert(strip_key(fs.push(p), key) =~= strip_key(fs, key) + seq![p]);
        } else {
            assert(strip_key(fs.push(p), key) =~= strip_key(fs, key));
        }
    } else {
        assert(fs.push(p).drop_first() =~= fs.drop_first().push(p));
        lemma_strip_key_push(fs.drop_first(), key, p);
        if fs[0].0 != key {
            if p.0 == key {
                assert(strip_key(fs.push(p), key) =~= strip_key(fs, key));
            } else {
                assert(strip_key(fs.push(p), key) =~= strip_key(fs, key) + seq![p]);
            }
        }
    }
}

/// Stripping a name keeps the remaining names distinct, removes every field
/// of that name, and invents no field.
pub proof fn lemma_strip_key_props(fs: Seq<(Seq<char>, JsonModel)>, key: Seq<char>)
    requires
        keys_distinct(fs),
    ensures
        keys_distinct(strip_key(fs, key)),
        forall|i: int| 0 <= i < strip_key(fs, key).len() ==> (#[trigger] strip_key(fs, key)[i]).0
            != key,
        forall|i: int|
            0 <= i < strip_key(fs, key).len() ==> exists|j: int|
                0 <= j < fs.len() && #[trigger] strip_key(fs, key)[i] == fs[j],
    decreases fs.len(),
{
    if fs.len() > 0 {
        let rest = fs.drop_first();
        assert(keys_distinct(rest)) by {
            assert(forall|i: int, j: int|
                0 <= i < j < rest.len() ==> (#[trigger] rest[i]).0 != (#[trigger] rest[j]).0) by {
                assert(forall|i: int| 0 <= i < rest.len() ==> #[trigger] rest[i] == fs[i + 1]);
            }
        }
        lemma_strip_key_props(rest, key);
        let stripped = strip_key(fs, key);
        if fs[0].0 != key {
            assert(forall|i: int|
                1 <= i < stripped.len() ==> stripped[i] == strip_key(rest, key)[i - 1]);
            assert(forall|i: int|
                0 <= i < strip_key(rest, key).len() ==> exists|j: int|
                    0 <= j < rest.len() && #[trigger] strip_key(rest, key)[i] == rest[j]);
            assert(forall|i: int|
                0 <= i < strip_key(rest, key).len() ==> (#[trigger] strip_key(rest, key)[i]).0
                    != fs[0].0) by {
                assert(forall|j: int| 0 <= j < rest.len() ==> (#[trigger] rest[j]).0 != fs[0].0);
            }
        }
    }
}

} // verus!
