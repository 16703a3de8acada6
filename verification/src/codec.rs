//! Encoding and decoding of typed values to and from bridge [`Value`]s.
//!
//! Every request or response struct implements [`BridgeDto`]: its canonical
//! encoding is a spec function, decoding recognises exactly the canonical
//! encodings, and each implementation carries the proof that encoding a value
//! always yields something its decoder accepts.  [`round_trip`] turns those
//! obligations into the round-trip law for every such type at once.
//!
//! The wire convention mirrors the host runtime's plugins: object fields are
//! written in declaration order under their lower-camel-case names, and absent
//! optional fields are omitted entirely rather than encoded as null.

use vstd::prelude::*;
use crate::value::{Value, ValueView, field_views, list_views, lemma_field_views,
    lemma_list_views, str_eq};

verus! {

broadcast use vstd::std_specs::vec::group_vec_axioms, vstd::seq::group_seq_axioms;

/// A typed value that crosses the bridge in encoded form.
pub trait BridgeDto: Sized {
    /// The canonical encoding of this value.
    spec fn spec_encode(self) -> ValueView;

    /// Recognises exactly the canonical encodings of values of this type.
    spec fn spec_accepts(m: ValueView) -> bool;

    /// The name used in decode diagnostics.
    spec fn spec_typename() -> Seq<char>;

    /// Encoding a value always produces something the decoder accepts.
    proof fn lemma_encode_accepted(&self)
        ensures
            Self::spec_accepts(self.spec_encode()),
    ;

    /// The name used in decode diagnostics.
    fn typename() -> (r: &'static str)
        ensures
            r@ == Self::spec_typename(),
    ;

    /// Encode this value for the bridge.
    fn to_bridge(&self) -> (r: Value)
        ensures
            r@ == self.spec_encode(),
    ;

    /// Decode a bridge value; `None` exactly when `v` is not a canonical
    /// encoding of a value of this type.
    fn from_bridge(v: &Value) -> (r: Option<Self>)
        ensures
            r is Some <==> Self::spec_accepts(v@),
            r matches Some(x) ==> x.spec_encode() == v@,
    ;
}

/// Round-trip law: decoding the encoding of any value succeeds, and the
/// decoded value encodes back to exactly the same bridge value — nothing is
/// lost or invented on the way through the wire format.
pub fn round_trip<T: BridgeDto>(x: &T) -> (r: Option<T>)
    ensures
        r is Some,
        r matches Some(y) ==> y.spec_encode() == x.spec_encode(),
{
    proof {
        x.lemma_encode_accepted();
    }
    T::from_bridge(&x.to_bridge())
}

/// A required field `name` sitting at position `i` of an encoded object.
pub open spec fn req_field(fs: Seq<(Seq<char>, ValueView)>, i: int, name: Seq<char>) -> Option<
    (ValueView, int),
> {
    if 0 <= i < fs.len() && fs[i].0 == name {
        Some((fs[i].1, i + 1))
    } else {
        None
    }
}

/// An optional field `name` at position `i`: present fields advance the
/// cursor, absent ones leave it unchanged.
pub open spec fn opt_field(fs: Seq<(Seq<char>, ValueView)>, i: int, name: Seq<char>) -> (
    Option<ValueView>,
    int,
) {
    if 0 <= i < fs.len() && fs[i].0 == name {
        (Some(fs[i].1), i + 1)
    } else {
        (None, i)
    }
}

/// Reads the required field `name` at position `i`, if it is there.
pub fn req_at<'a>(fields: &'a Vec<(String, Value)>, i: usize, name: &str) -> (r: Option<
    &'a Value,
>)
    ensures
        match r {
            Some(v) => req_field(field_views(fields@), i as int, name@) == Some((
                v@,
                i as int + 1,
            )),
            None => req_field(field_views(fields@), i as int, name@) is None,
        },
{
    proof {
        lemma_field_views(fields@);
    }
    if i < fields.len() && str_eq(fields[i].0.as_str(), name) {
        Some(&fields[i].1)
    } else {
        None
    }
}

/// Reads the optional field `name` at position `i`.
pub fn opt_at<'a>(fields: &'a Vec<(String, Value)>, i: usize, name: &str) -> (r: Option<
    &'a Value,
>)
    ensures
        match r {
            Some(v) => opt_field(field_views(fields@), i as int, name@) == (
                Some(v@),
                i as int + 1,
            ),
            None => opt_field(field_views(fields@), i as int, name@) == (
                None::<ValueView>,
                i as int,
            ),
        },
{
    proof {
        lemma_field_views(fields@);
    }
    if i < fields.len() && str_eq(fields[i].0.as_str(), name) {
        Some(&fields[i].1)
    } else {
        None
    }
}

/// Builds an encoded object field by field.
///
/// Its view is the sequence of encoded fields written so far, so the value
/// handed back by [`ObjBuilder::finish`] is exactly the pairs that were
/// [`ObjBuilder::put`] in order.
pub struct ObjBuilder {
    fields: Vec<(String, Value)>,
}

impl View for ObjBuilder {
    type V = Seq<(Seq<char>, ValueView)>;

    closed spec fn view(&self) -> Seq<(Seq<char>, ValueView)> {
        field_views(self.fields@)
    }
}

impl ObjBuilder {
    /// An object with no fields yet.
    pub fn new() -> (b: Self)
        ensures
            b@ == Seq::<(Seq<char>, ValueView)>::empty(),
    {
        let b = ObjBuilder { fields: Vec::new() };
        proof {
            lemma_field_views(b.fields@);
            assert(field_views(b.fields@) =~= Seq::<(Seq<char>, ValueView)>::empty());
        }
        b
    }

    /// Append one field.
    pub fn put(&mut self, name: &str, v: Value)
        ensures
            final(self)@ == old(self)@.push((name@, v@)),
    {
        let ghost pre = self.fields@;
        let ghost w = v@;
        self.fields.push((name.to_owned(), v));
        proof {
            lemma_field_views(self.fields@);
            lemma_field_views(pre);
            assert forall|k: int| 0 <= k < self.fields@.len()
                implies field_views(self.fields@)[k] == field_views(pre).push((name@, w))[k] by {
                if k < pre.len() {
                    assert(self.fields@[k] == pre[k]);
                    assert(field_views(self.fields@)[k] == (pre[k].0@, pre[k].1@));
                    assert(field_views(pre).push((name@, w))[k] == field_views(pre)[k]);
                    assert(field_views(pre)[k] == (pre[k].0@, pre[k].1@));
                } else {
                    assert(k == pre.len());
                    assert(self.fields@[k].0@ == name@);
                    assert(self.fields@[k].1@ == w);
                    assert(field_views(self.fields@)[k] == (name@, w));
                    assert(field_views(pre).len() == pre.len());
                    assert(field_views(pre).push((name@, w))[k] == (name@, w));
                }
            }
            assert(field_views(self.fields@) =~= field_views(pre).push((name@, w)));
        }
    }

    /// Append one optional string field: present values are written under
    /// the name, absent ones leave the object unchanged.
    pub fn put_opt_str(&mut self, name: &str, v: &Option<String>)
        ensures
            final(self)@ == (if v is Some {
                old(self)@.push((name@, ValueView::Str((v->0)@)))
            } else {
                old(self)@
            }),
    {
        match v {
            Some(x) => {
                self.put(name, Value::Str(x.clone()));
            },
            None => {},
        }
    }

    /// Append one optional 64-bit integer field: present values are written
    /// under the name, absent ones leave the object unchanged.
    pub fn put_opt_i64(&mut self, name: &str, v: &Option<i64>)
        ensures
            final(self)@ == (if v is Some {
                old(self)@.push((name@, ValueView::Int((v->0) as int)))
            } else {
                old(self)@
            }),
    {
        match v {
            Some(x) => {
                self.put(name, Value::Int(*x));
            },
            None => {},
        }
    }

    /// The finished object.
    pub fn finish(self) -> (r: Value)
        ensures
            r@ == ValueView::Obj(self@),
    {
        Value::Obj(self.fields)
    }
}

/// Reads the fields of an encoded object in order.
///
/// The reader keeps the fields it has consumed so far (as their views); once
/// [`ObjReader::done`] reports that nothing is left, the whole object is
/// exactly the consumed fields in order, which ties a decoded value back to
/// its canonical encoding.
pub struct ObjReader<'a> {
    fields: &'a Vec<(String, Value)>,
    i: usize,
    consumed: Ghost<Seq<(Seq<char>, ValueView)>>,
}

impl<'a> ObjReader<'a> {
    /// The encoded fields being read.
    pub closed spec fn fs(&self) -> Seq<(Seq<char>, ValueView)> {
        field_views(self.fields@)
    }

    /// How many fields have been consumed.
    pub closed spec fn cursor(&self) -> int {
        self.i as int
    }

    /// The consumed fields, in order.
    pub closed spec fn consumed(&self) -> Seq<(Seq<char>, ValueView)> {
        self.consumed@
    }

    /// The consumed fields are exactly the prefix up to the cursor.
    pub closed spec fn wf(&self) -> bool {
        &&& 0 <= self.i <= self.fields@.len()
        &&& self.fields@.len() == self.fs().len()
        &&& self.consumed@ == self.fs().take(self.i as int)
    }

    /// Start reading an object; `None` when the value is not an object.
    pub fn start(v: &'a Value) -> (r: Option<ObjReader<'a>>)
        ensures
            match r {
                Some(rd) => rd.wf() && v@ == ValueView::Obj(rd.fs()) && rd.cursor() == 0
                    && rd.consumed() == Seq::<(Seq<char>, ValueView)>::empty(),
                None => !(v@ is Obj),
            },
    {
        match v {
            Value::Obj(fields) => {
                proof {
                    lemma_field_views(fields@);
                    assert(field_views(fields@).take(0)
                        =~= Seq::<(Seq<char>, ValueView)>::empty());
                }
                Some(ObjReader { fields, i: 0, consumed: Ghost(Seq::empty()) })
            },
            _ => None,
        }
    }

    /// Read the required field `name` at the cursor.
    pub fn req(&mut self, name: &str) -> (r: Option<&'a Value>)
        requires
            old(self).wf(),
        ensures
            final(self).wf(),
            final(self).fs() == old(self).fs(),
            match r {
                Some(v) => req_field(old(self).fs(), old(self).cursor(), name@) == Some((
                    v@,
                    final(self).cursor(),
                )) && final(self).cursor() == old(self).cursor() + 1
                    && final(self).consumed() == old(self).consumed().push((name@, v@)),
                None => req_field(old(self).fs(), old(self).cursor(), name@) is None
                    && final(self).cursor() == old(self).cursor()
                    && final(self).consumed() == old(self).consumed(),
            },
    {
        proof {
            lemma_field_views(self.fields@);
        }
        let n = self.fields.len();
        match req_at(self.fields, self.i, name) {
            Some(v) => {
                proof {
                    assert(self.i < n);
                    assert(self.fs().take(self.i as int + 1)
                        =~= self.fs().take(self.i as int).push((name@, v@)));
                }
                self.i += 1;
                proof {
                    self.consumed@ = self.consumed@.push((name@, v@));
                }
                Some(v)
            },
            None => None,
        }
    }

    /// Read the optional field `name` at the cursor; an absent field leaves
    /// the cursor (and the consumed prefix) unchanged.
    pub fn opt(&mut self, name: &str) -> (r: Option<&'a Value>)
        requires
            old(self).wf(),
        ensures
            final(self).wf(),
            final(self).fs() == old(self).fs(),
            match r {
                Some(v) => opt_field(old(self).fs(), old(self).cursor(), name@) == (
                    Some(v@),
                    final(self).cursor(),
                ) && final(self).cursor() == old(self).cursor() + 1
                    && final(self).consumed() == old(self).consumed().push((name@, v@)),
                None => opt_field(old(self).fs(), old(self).cursor(), name@) == (
                    None::<ValueView>,
                    old(self).cursor(),
                ) && final(self).cursor() == old(self).cursor()
                    && final(self).consumed() == old(self).consumed(),
            },
    {
        proof {
            lemma_field_views(self.fields@);
        }
        let n = self.fields.len();
        match opt_at(self.fields, self.i, name) {
            Some(v) => {
                proof {
                    assert(self.i < n);
                    assert(self.fs().take(self.i as int + 1)
                        =~= self.fs().take(self.i as int).push((name@, v@)));
                }
                self.i += 1;
                proof {
                    self.consumed@ = self.consumed@.push((name@, v@));
                }
                Some(v)
            },
            None => None,
        }
    }

    /// Whether every field has been consumed; when it has, the object's
    /// fields are exactly what was consumed, in order.
    pub fn done(&self) -> (r: bool)
        requires
            self.wf(),
        ensures
            r == (self.cursor() == self.fs().len()),
            r ==> self.fs() == self.consumed(),
    {
        let r = self.i == self.fields.len();
        proof {
            lemma_field_views(self.fields@);
            if r {
                assert(self.fs().take(self.fs().len() as int) =~= self.fs());
            }
        }
        r
    }
}

/// The encoding of a list of typed values.
pub open spec fn spec_encode_seq<T: BridgeDto>(xs: Seq<T>) -> ValueView {
    ValueView::List(Seq::new(xs.len(), |i: int| xs[i].spec_encode()))
}

/// Whether every element of an encoded list is acceptable.
pub open spec fn seq_elems_accepted<T: BridgeDto>(vs: Seq<ValueView>) -> bool {
    forall|i: int| 0 <= i < vs.len() ==> T::spec_accepts(#[trigger] vs[i])
}

/// Recognises canonical encodings of lists of `T`.
pub open spec fn spec_accepts_seq<T: BridgeDto>(m: ValueView) -> bool {
    m matches ValueView::List(vs) && seq_elems_accepted::<T>(vs)
}

/// Encode a vector of typed values as a bridge list.
pub fn encode_seq<T: BridgeDto>(xs: &Vec<T>) -> (r: Value)
    ensures
        r@ == spec_encode_seq(xs@),
{
    let mut out: Vec<Value> = Vec::new();
    let mut i: usize = 0;
    while i < xs.len()
        invariant
            i <= xs.len(),
            out@.len() == i as int,
            forall|k: int| 0 <= k < i as int ==> (#[trigger] out@[k])@ == xs@[k].spec_encode(),
        decreases xs.len() - i,
    {
        let v = xs[i].to_bridge();
        out.push(v);
        i += 1;
    }
    let r = Value::List(out);
    proof {
        lemma_list_views(out@);
        assert forall|k: int| 0 <= k < out@.len()
            implies list_views(out@)[k] == xs@[k].spec_encode() by {
            assert(out@[k]@ == xs@[k].spec_encode());
        }
        assert(list_views(out@) =~= Seq::new(xs@.len(), |k: int| xs@[k].spec_encode()));
    }
    r
}

/// Decode a bridge list into a vector of typed values; `None` exactly when
/// the value is not a list of canonical element encodings.
pub fn decode_seq<T: BridgeDto>(v: &Value) -> (r: Option<Vec<T>>)
    ensures
        r is Some <==> spec_accepts_seq::<T>(v@),
        r matches Some(ys) ==> spec_encode_seq(ys@) == v@,
{
    match v {
        Value::List(items) => {
            proof {
                lemma_list_views(items@);
            }
            let mut out: Vec<T> = Vec::new();
            let mut i: usize = 0;
            while i < items.len()
                invariant
                    i <= items.len(),
                    out@.len() == i as int,
                    forall|k: int| 0 <= k < i as int
                        ==> (#[trigger] out@[k]).spec_encode() == items@[k]@,
                    forall|k: int| 0 <= k < i as int
                        ==> T::spec_accepts(#[trigger] list_views(items@)[k]),
                    list_views(items@).len() == items@.len(),
                    forall|k: int| 0 <= k < items@.len()
                        ==> list_views(items@)[k] == (#[trigger] items@[k])@,
                    v@ == ValueView::List(list_views(items@)),
                decreases items.len() - i,
            {
                match T::from_bridge(&items[i]) {
                    Some(x) => {
                        out.push(x);
                    },
                    None => {
                        proof {
                            assert(!T::spec_accepts(list_views(items@)[i as int]));
                        }
                        return None;
                    },
                }
                i += 1;
            }
            proof {
                assert(Seq::new(out@.len(), |k: int| out@[k].spec_encode())
                    =~= list_views(items@));
            }
            Some(out)
        },
        _ => None,
    }
}

/// [`BridgeDto::spec_accepts`] behind an opaque boundary.
///
/// The recognisers of nested types refer to their field types through this
/// function, so a containing type's recogniser stays a shallow formula; the
/// two sides are connected only where needed, through
/// [`lemma_accepts_of`].
#[verifier::opaque]
pub open spec fn accepts_of<T: BridgeDto>(v: ValueView) -> bool {
    T::spec_accepts(v)
}

/// Connects [`accepts_of`] with the recogniser it hides.
pub proof fn lemma_accepts_of<T: BridgeDto>(v: ValueView)
    ensures
        accepts_of::<T>(v) <==> T::spec_accepts(v),
{
    reveal(accepts_of);
}

/// [`BridgeDto::spec_encode`] behind the same opaque boundary, used for
/// nested fields of a containing type's encoding.
#[verifier::opaque]
pub open spec fn encode_of<T: BridgeDto>(x: T) -> ValueView {
    x.spec_encode()
}

/// Connects [`encode_of`] with the encoding it hides.
pub proof fn lemma_encode_of<T: BridgeDto>(x: T)
    ensures
        encode_of::<T>(x) == x.spec_encode(),
{
    reveal(encode_of);
}

/// A nested value's encoding is acceptable, stated entirely behind the
/// opaque boundary.
#[verifier::rlimit(100)]
#[verifier::spinoff_prover]
pub proof fn lemma_encode_of_accepted<T: BridgeDto>(x: T)
    ensures
        accepts_of::<T>(encode_of::<T>(x)),
{
    reveal(encode_of);
    reveal(accepts_of);
    x.lemma_encode_accepted();
}

/// Encoding a whole list produces a list every element of which is
/// acceptable.
pub proof fn lemma_seq_encode_accepted<T: BridgeDto>(xs: Seq<T>)
    ensures
        spec_accepts_seq::<T>(spec_encode_seq(xs)),
{
    let vs = Seq::new(xs.len(), |k: int| xs[k].spec_encode());
    assert forall|i: int| 0 <= i < vs.len() implies T::spec_accepts(#[trigger] vs[i]) by {
        xs[i].lemma_encode_accepted();
    }
}

/// Encoding a list of strings produces a list of strings.
pub proof fn lemma_strs_encode_accepted(xs: Seq<String>)
    ensures
        spec_accepts_strs(spec_encode_strs(xs)),
{
    let vs = Seq::new(xs.len(), |k: int| ValueView::Str(xs[k]@));
    assert forall|i: int| 0 <= i < vs.len() implies (#[trigger] vs[i]) is Str by {
    }
}

/// The encoding of a list of strings.
pub open spec fn spec_encode_strs(xs: Seq<String>) -> ValueView {
    ValueView::List(Seq::new(xs.len(), |i: int| ValueView::Str(xs[i]@)))
}

/// Recognises lists whose elements are all strings.
pub open spec fn spec_accepts_strs(m: ValueView) -> bool {
    m matches ValueView::List(vs) && forall|i: int|
        0 <= i < vs.len() ==> (#[trigger] vs[i]) is Str
}

/// Encode a vector of strings as a bridge list.
pub fn encode_strs(xs: &Vec<String>) -> (r: Value)
    ensures
        r@ == spec_encode_strs(xs@),
{
    let mut out: Vec<Value> = Vec::new();
    let mut i: usize = 0;
    while i < xs.len()
        invariant
            i <= xs.len(),
            out@.len() == i as int,
            forall|k: int| 0 <= k < i as int
                ==> (#[trigger] out@[k])@ == ValueView::Str(xs@[k]@),
        decreases xs.len() - i,
    {
        let v = Value::Str(xs[i].clone());
        out.push(v);
        i += 1;
    }
    let r = Value::List(out);
    proof {
        lemma_list_views(out@);
        assert forall|k: int| 0 <= k < out@.len()
            implies list_views(out@)[k] == ValueView::Str(xs@[k]@) by {
            assert(out@[k]@ == ValueView::Str(xs@[k]@));
        }
        assert(list_views(out@) =~= Seq::new(xs@.len(), |k: int| ValueView::Str(xs@[k]@)));
    }
    r
}

/// Decode a bridge list of strings; `None` exactly when the value is not a
/// list of strings.
pub fn decode_strs(v: &Value) -> (r: Option<Vec<String>>)
    ensures
        r is Some <==> spec_accepts_strs(v@),
        r matches Some(ys) ==> spec_encode_strs(ys@) == v@,
{
    match v {
        Value::List(items) => {
            proof {
                lemma_list_views(items@);
            }
            let mut out: Vec<String> = Vec::new();
            let mut i: usize = 0;
            while i < items.len()
                invariant
                    i <= items.len(),
                    out@.len() == i as int,
                    forall|k: int| 0 <= k < i as int
                        ==> ValueView::Str((#[trigger] out@[k])@) == items@[k]@,
                    list_views(items@).len() == items@.len(),
                    forall|k: int| 0 <= k < items@.len()
                        ==> list_views(items@)[k] == (#[trigger] items@[k])@,
                    v@ == ValueView::List(list_views(items@)),
                decreases items.len() - i,
            {
                match &items[i] {
                    Value::Str(s) => {
                        let c = s.clone();
                        out.push(c);
                    },
                    _ => {
                        proof {
                            assert(!(list_views(items@)[i as int] is Str));
                        }
                        return None;
                    },
                }
                i += 1;
            }
            proof {
                assert(Seq::new(out@.len(), |k: int| ValueView::Str(out@[k]@))
                    =~= list_views(items@));
            }
            Some(out)
        },
        _ => None,
    }
}

} // verus!
