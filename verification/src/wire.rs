//! The wire format's document model: the tree of a self-describing,
//! JSON-equivalent structured text encoding. A wire value is an object of
//! named fields, an ordered list, a text atom or an unsigned number.

use vstd::prelude::*;

verus! {

/// A value of the wire format.
#[derive(Debug, PartialEq, Eq)]
pub enum WireValue {
    Str(String),
    Num(u64),
    Arr(Vec<WireValue>),
    Obj(Vec<(String, WireValue)>),
}

/// The model of a wire value, over mathematical sequences.
#[verifier::ext_equal]
pub enum WireModel {
    Str(Seq<char>),
    Num(u64),
    Arr(Seq<WireModel>),
    Obj(Seq<(Seq<char>, WireModel)>),
}

/// The model of a wire value.
pub open spec fn wire_model(w: WireValue) -> WireModel
    decreases w,
{
    match w {
        WireValue::Str(s) => WireModel::Str(s@),
        WireValue::Num(n) => WireModel::Num(n),
        WireValue::Arr(v) => WireModel::Arr(items_view(v@)),
        WireValue::Obj(v) => WireModel::Obj(entries_view(v@)),
    }
}

/// The model of a list of wire values.
pub open spec fn items_view(v: Seq<WireValue>) -> Seq<WireModel>
    decreases v,
{
    if v.len() == 0 {
        Seq::empty()
    } else {
        items_view(v.subrange(0, v.len() - 1)).push(wire_model(v[v.len() - 1]))
    }
}

/// The model of an object's field list.
pub open spec fn entries_view(v: Seq<(String, WireValue)>) -> Seq<(Seq<char>, WireModel)>
    decreases v,
{
    if v.len() == 0 {
        Seq::empty()
    } else {
        entries_view(v.subrange(0, v.len() - 1)).push(
            (v[v.len() - 1].0@, wire_model(v[v.len() - 1].1)),
        )
    }
}

/// A list's model is element-wise: position by position.
pub proof fn lemma_items_view(v: Seq<WireValue>)
    ensures
        items_view(v).len() == v.len(),
        forall|i: int| 0 <= i < v.len() ==> #[trigger] items_view(v)[i] == wire_model(v[i]),
    decreases v.len(),
{
    if v.len() > 0 {
        let pre = v.subrange(0, v.len() - 1);
        lemma_items_view(pre);
        assert forall|i: int| 0 <= i < v.len() implies #[trigger] items_view(v)[i]
            == wire_model(v[i]) by {
            if i < v.len() - 1 {
                assert(pre[i] == v[i]);
                assert(items_view(v)[i] == items_view(pre)[i]);
            }
        }
    }
}

/// A field list's model is field-wise: position by position.
pub proof fn lemma_entries_view(v: Seq<(String, WireValue)>)
    ensures
        entries_view(v).len() == v.len(),
        forall|i: int|
            0 <= i < v.len() ==> #[trigger] entries_view(v)[i] == (v[i].0@, wire_model(v[i].1)),
    decreases v.len(),
{
    if v.len() > 0 {
        let pre = v.subrange(0, v.len() - 1);
        lemma_entries_view(pre);
        assert forall|i: int| 0 <= i < v.len() implies #[trigger] entries_view(v)[i] == (
            v[i].0@,
            wire_model(v[i].1),
        ) by {
            if i < v.len() - 1 {
                assert(pre[i] == v[i]);
                assert(entries_view(v)[i] == entries_view(pre)[i]);
            }
        }
    }
}

impl View for WireValue {
    type V = WireModel;

    open spec fn view(&self) -> WireModel {
        wire_model(*self)
    }
}

/// Looks a key up in an object's field list: the value of the first field
/// carrying the key, if any. Later fields under the same key are shadowed.
pub open spec fn lookup(fields: Seq<(Seq<char>, WireModel)>, key: Seq<char>) -> Option<WireModel>
    decreases fields.len(),
{
    if fields.len() == 0 {
        None
    } else if fields[0].0 == key {
        Some(fields[0].1)
    } else {
        lookup(fields.drop_first(), key)
    }
}

/// Exec lookup of a key in an object's field list, the mirror of `lookup`.
pub fn obj_get<'a>(fields: &'a Vec<(String, WireValue)>, key: &String) -> (r: Option<
    &'a WireValue,
>)
    ensures
        match lookup(entries_view(fields@), key@) {
            Option::None => r is None,
            Option::Some(m) => r matches Some(v) && v@ == m,
        },
{
    let ghost all = entries_view(fields@);
    proof {
        lemma_entries_view(fields@);
        assert(all.skip(0) =~= all);
    }
    let mut i: usize = 0;
    while i < fields.len()
        invariant
            i <= fields.len(),
            all == entries_view(fields@),
            all.len() == fields@.len(),
            lookup(all, key@) == lookup(all.skip(i as int), key@),
        decreases fields.len() - i,
    {
        proof {
            lemma_entries_view(fields@);
            assert(all.skip(i as int)[0] == all[i as int]);
        }
        if fields[i].0.eq(key) {
            return Some(&fields[i].1);
        }
        proof {
            assert(all.skip(i as int).drop_first() =~= all.skip(i + 1));
        }
        i += 1;
    }
    proof {
        assert(all.skip(i as int).len() == 0);
    }
    None
}

} // verus!
