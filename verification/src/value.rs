//! The encoded form of everything that crosses the plugin bridge.
//!
//! The host runtime exchanges structured values (null, booleans, numbers,
//! strings, arrays and objects with string keys).  This module models that
//! representation as a plain datatype, so that encoding and decoding of the
//! typed request and response structs can be specified and verified.  Turning
//! a `Value` into the host runtime's own representation (and back) is a
//! boundary conversion that lives outside the verified library.

use vstd::prelude::*;

verus! {

broadcast use vstd::std_specs::vec::group_vec_axioms, vstd::seq::group_seq_axioms;

/// An encoded bridge value: the wire form of every request and response.
///
/// Object fields keep their order; the canonical encoding of a struct lists
/// its fields in declaration order, with absent optional fields omitted
/// entirely (never encoded as `Null`).
#[derive(Debug, PartialEq, Eq)]
pub enum Value {
    Null,
    Bool(bool),
    Int(i64),
    Str(String),
    List(Vec<Value>),
    Obj(Vec<(String, Value)>),
}

/// The mathematical shape of a [`Value`]: strings as character sequences,
/// collections as sequences.  All contracts about encoded values are stated
/// over this type.
pub enum ValueView {
    Null,
    Bool(bool),
    Int(int),
    Str(Seq<char>),
    List(Seq<ValueView>),
    Obj(Seq<(Seq<char>, ValueView)>),
}

/// The views of the elements of a list value.
pub open spec fn list_views(items: Seq<Value>) -> Seq<ValueView>
    decreases items,
{
    if items.len() == 0 {
        Seq::empty()
    } else {
        proof {
            assert(decreases_to!(items => items[0]));
            assert(decreases_to!(items => items.drop_first()));
        }
        seq![items[0]@] + list_views(items.drop_first())
    }
}

/// The views of the fields of an object value.
pub open spec fn field_views(fields: Seq<(String, Value)>) -> Seq<(Seq<char>, ValueView)>
    decreases fields,
{
    if fields.len() == 0 {
        Seq::empty()
    } else {
        proof {
            assert(decreases_to!(fields => fields[0]));
            assert(decreases_to!(fields => fields.drop_first()));
        }
        seq![(fields[0].0@, fields[0].1@)] + field_views(fields.drop_first())
    }
}

impl View for Value {
    type V = ValueView;

    open spec fn view(&self) -> ValueView
        decreases self,
    {
        match self {
            Value::Null => ValueView::Null,
            Value::Bool(b) => ValueView::Bool(*b),
            Value::Int(n) => ValueView::Int(*n as int),
            Value::Str(s) => ValueView::Str(s@),
            Value::List(items) => {
                proof {
                    assert(decreases_to!(*items => items@));
                }
                ValueView::List(list_views(items@))
            },
            Value::Obj(fields) => {
                proof {
                    assert(decreases_to!(*fields => fields@));
                }
                ValueView::Obj(field_views(fields@))
            },
        }
    }
}

/// `list_views` is the pointwise view of the sequence.
pub proof fn lemma_list_views(items: Seq<Value>)
    ensures
        list_views(items).len() == items.len(),
        forall|i: int| 0 <= i < items.len() ==> list_views(items)[i] == #[trigger] items[i]@,
    decreases items.len(),
{
    if items.len() > 0 {
        lemma_list_views(items.drop_first());
        assert(list_views(items) == seq![items[0]@] + list_views(items.drop_first()));
        assert forall|i: int| 0 <= i < items.len()
            implies list_views(items)[i] == #[trigger] items[i]@ by {
            if i > 0 {
                assert(items.drop_first()[i - 1] == items[i]);
                assert(list_views(items)[i] == list_views(items.drop_first())[i - 1]);
            }
        }
    }
}

/// `field_views` is the pointwise view of the field sequence.
pub proof fn lemma_field_views(fields: Seq<(String, Value)>)
    ensures
        field_views(fields).len() == fields.len(),
        forall|i: int| 0 <= i < fields.len()
            ==> field_views(fields)[i] == (#[trigger] fields[i].0@, fields[i].1@),
    decreases fields.len(),
{
    if fields.len() > 0 {
        lemma_field_views(fields.drop_first());
        assert(field_views(fields)
            == seq![(fields[0].0@, fields[0].1@)] + field_views(fields.drop_first()));
        assert forall|i: int| 0 <= i < fields.len()
            implies field_views(fields)[i] == (#[trigger] fields[i].0@, fields[i].1@) by {
            if i > 0 {
                assert(fields.drop_first()[i - 1] == fields[i]);
                assert(field_views(fields)[i] == field_views(fields.drop_first())[i - 1]);
            }
        }
    }
}

impl Value {
    /// True for the encoding of an absent value.
    pub fn is_null(&self) -> (r: bool)
        ensures
            r == (self@ is Null),
    {
        matches!(self, Value::Null)
    }

    /// A structurally equal copy of this value.
    #[verifier::loop_isolation(false)]
    pub fn deep_clone(&self) -> (r: Value)
        ensures
            r@ == self@,
        decreases self,
    {
        match self {
            Value::Null => Value::Null,
            Value::Bool(b) => Value::Bool(*b),
            Value::Int(n) => Value::Int(*n),
            Value::Str(s) => Value::Str(s.clone()),
            Value::List(items) => {
                let mut out: Vec<Value> = Vec::new();
                let mut i: usize = 0;
                while i < items.len()
                    invariant
                        i <= items.len(),
                        out@.len() == i as int,
                        forall|k: int| 0 <= k < i as int ==> #[trigger] out@[k]@ == items@[k]@,
                    decreases items.len() - i,
                {
                    proof {
                        assert(decreases_to!(*self => *items));
                        assert(decreases_to!(*items => items@));
                        assert(decreases_to!(*self => items@));
                        assert(decreases_to!(items@ => items@[i as int]));
                        assert(decreases_to!(*self => items@[i as int]));
                    }
                    let c = items[i].deep_clone();
                    out.push(c);
                    i += 1;
                }
                proof {
                    lemma_list_views(out@);
                    lemma_list_views(items@);
                    assert forall|k: int| 0 <= k < items@.len()
                        implies list_views(out@)[k] == list_views(items@)[k] by {
                        assert(out@[k]@ == items@[k]@);
                    }
                    assert(list_views(out@) =~= list_views(items@));
                }
                Value::List(out)
            },
            Value::Obj(fields) => {
                let mut out: Vec<(String, Value)> = Vec::new();
                let mut i: usize = 0;
                while i < fields.len()
                    invariant
                        i <= fields.len(),
                        out@.len() == i as int,
                        forall|k: int| 0 <= k < i as int
                            ==> (#[trigger] out@[k]).0@ == fields@[k].0@
                                && out@[k].1@ == fields@[k].1@,
                    decreases fields.len() - i,
                {
                    proof {
                        assert(decreases_to!(*self => *fields));
                        assert(decreases_to!(*fields => fields@));
                        assert(decreases_to!(*self => fields@));
                        assert(decreases_to!(fields@ => fields@[i as int]));
                        assert(decreases_to!(*self => fields@[i as int]));
                    }
                    let name = fields[i].0.clone();
                    let v = fields[i].1.deep_clone();
                    out.push((name, v));
                    i += 1;
                }
                proof {
                    lemma_field_views(out@);
                    lemma_field_views(fields@);
                    assert forall|k: int| 0 <= k < fields@.len()
                        implies field_views(out@)[k] == field_views(fields@)[k] by {
                        assert((out@[k]).0@ == fields@[k].0@ && out@[k].1@ == fields@[k].1@);
                        assert(field_views(out@)[k] == (out@[k].0@, out@[k].1@));
                        assert(field_views(fields@)[k] == (fields@[k].0@, fields@[k].1@));
                    }
                    assert(field_views(out@) =~= field_views(fields@));
                }
                Value::Obj(out)
            },
        }
    }
}

/// Equality of two string slices, stated over their character sequences.
pub fn str_eq(a: &str, b: &str) -> (r: bool)
    ensures
        r == (a@ == b@),
{
    let sa: String = a.to_owned();
    let sb: String = b.to_owned();
    sa == sb
}

} // verus!
