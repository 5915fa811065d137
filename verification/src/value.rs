//! The document values that scripts produce and scopes carry: null,
//! booleans, decimal numbers, strings, ordered arrays, and string-keyed
//! maps, with a mathematical view for contracts.
use vstd::prelude::*;

use crate::text::str_eq;

verus! {

broadcast use
    vstd::std_specs::vec::axiom_vec_decreases_to_view,
    vstd::std_specs::vec::axiom_vec_index_decreases,
    vstd::seq::axiom_seq_index_decreases,
    vstd::seq::axiom_seq_subrange_decreases;

/// A decimal number: `mantissa / 10^scale`. Integers have scale zero.
#[derive(Debug, Clone, Copy, PartialEq, Eq, Structural)]
pub struct NumVal {
    pub mantissa: i64,
    pub scale: u32,
}

impl NumVal {
    /// The numbers this crate renders: the scale fits a 64-bit power of ten.
    pub open spec fn wf(self) -> bool {
        self.scale <= 18
    }

    pub fn from_i64(n: i64) -> (r: NumVal)
        ensures
            r == (NumVal { mantissa: n, scale: 0u32 }),
    {
        NumVal { mantissa: n, scale: 0 }
    }
}

/// A script/document value.
#[derive(Debug, PartialEq)]
pub enum DataValue {
    Null,
    Bool(bool),
    Num(NumVal),
    Str(String),
    List(Vec<DataValue>),
    Obj(Vec<(String, DataValue)>),
}

/// The mathematical shape of a [`DataValue`].
pub enum ValView {
    Null,
    Bool(bool),
    Num(NumVal),
    Str(Seq<char>),
    List(Seq<ValView>),
    Obj(Seq<(Seq<char>, ValView)>),
}

impl DataValue {
    /// The mathematical view of this value.
    pub open spec fn dv(self) -> ValView
        decreases self,
    {
        match self {
            DataValue::Null => ValView::Null,
            DataValue::Bool(b) => ValView::Bool(b),
            DataValue::Num(n) => ValView::Num(n),
            DataValue::Str(s) => ValView::Str(s@),
            DataValue::List(items) => ValView::List(seq_dv(items@)),
            DataValue::Obj(fields) => ValView::Obj(kv_dv(fields@)),
        }
    }
}

/// The views of a sequence of values, in order.
pub open spec fn seq_dv(s: Seq<DataValue>) -> Seq<ValView>
    decreases s,
{
    if s.len() == 0 {
        Seq::empty()
    } else {
        seq_dv(s.drop_last()).push(s.last().dv())
    }
}

/// The views of a sequence of key/value bindings, in order.
pub open spec fn kv_dv(s: Seq<(String, DataValue)>) -> Seq<(Seq<char>, ValView)>
    decreases s,
{
    if s.len() == 0 {
        Seq::empty()
    } else {
        kv_dv(s.drop_last()).push((s.last().0@, s.last().1.dv()))
    }
}

pub proof fn lemma_seq_dv(s: Seq<DataValue>)
    ensures
        seq_dv(s).len() == s.len(),
        forall|i: int| 0 <= i < s.len() ==> seq_dv(s)[i] == s[i].dv(),
    decreases s.len(),
{
    if s.len() > 0 {
        lemma_seq_dv(s.drop_last());
    }
}

pub proof fn lemma_kv_dv(s: Seq<(String, DataValue)>)
    ensures
        kv_dv(s).len() == s.len(),
        forall|i: int|
            0 <= i < s.len() ==> kv_dv(s)[i] == (s[i].0@, s[i].1.dv()),
    decreases s.len(),
{
    if s.len() > 0 {
        lemma_kv_dv(s.drop_last());
    }
}

impl View for DataValue {
    type V = ValView;

    open spec fn view(&self) -> ValView {
        self.dv()
    }
}

/// The value bound to `key` in an association list: the first binding wins.
pub open spec fn obj_get(fields: Seq<(Seq<char>, ValView)>, key: Seq<char>) -> Option<ValView>
    decreases fields.len(),
{
    if fields.len() == 0 {
        None
    } else if fields[0].0 == key {
        Some(fields[0].1)
    } else {
        obj_get(fields.drop_first(), key)
    }
}

impl ValView {
    /// Looks `key` up in an object value; `None` on any other shape.
    pub open spec fn get_key(self, key: Seq<char>) -> Option<ValView> {
        match self {
            ValView::Obj(fields) => obj_get(fields, key),
            _ => None,
        }
    }
}

pub proof fn lemma_obj_get_skip(fields: Seq<(Seq<char>, ValView)>, key: Seq<char>, j: int)
    requires
        0 <= j <= fields.len(),
        forall|k: int| 0 <= k < j ==> fields[k].0 != key,
    ensures
        obj_get(fields, key) == obj_get(fields.skip(j), key),
    decreases j,
{
    if j == 0 {
        assert(fields.skip(0) =~= fields);
    } else {
        let t = fields.drop_first();
        assert(forall|k: int| 0 <= k < j - 1 ==> #[trigger] t[k].0 == fields[k + 1].0);
        lemma_obj_get_skip(t, key, j - 1);
        assert(t.skip(j - 1) =~= fields.skip(j));
    }
}

impl DataValue {
    /// A reference to the value of `key` when this is an object that
    /// binds it, `None` otherwise.
    #[verifier::loop_isolation(false)]
    pub fn get<'a>(&'a self, key: &str) -> (r: Option<&'a DataValue>)
        ensures
            match r {
                Some(x) => self@.get_key(key@) == Some(x@),
                None => self@.get_key(key@) is None,
            },
    {
        match self {
            DataValue::Obj(fields) => {
                proof {
                    lemma_kv_dv(fields@);
                }
                let ghost fv = kv_dv(fields@);
                let mut i: usize = 0;
                while i < fields.len()
                    invariant
                        0 <= i <= fields@.len(),
                        fv == kv_dv(fields@),
                        fv.len() == fields@.len(),
                        forall|k: int| 0 <= k < fields@.len() ==> fv[k] == (
                            fields@[k].0@,
                            fields@[k].1.dv(),
                        ),
                        forall|k: int| 0 <= k < i ==> fv[k].0 != key@,
                    decreases fields@.len() - i,
                {
                    if str_eq(fields[i].0.as_str(), key) {
                        proof {
                            lemma_obj_get_skip(fv, key@, i as int);
                            assert(fv.skip(i as int).len() > 0);
                            assert(fv.skip(i as int)[0] == fv[i as int]);
                            assert(fv[i as int].0 == key@);
                            assert(obj_get(fv, key@) == Some(fv[i as int].1));
                        }
                        return Some(&fields[i].1);
                    }
                    i = i + 1;
                }
                proof {
                    lemma_obj_get_skip(fv, key@, fields@.len() as int);
                    assert(fv.skip(fields@.len() as int) =~= Seq::<(Seq<char>, ValView)>::empty());
                }
                None
            },
            _ => None,
        }
    }

    /// The string content when this is a string value.
    pub fn as_str(&self) -> (r: Option<&String>)
        ensures
            match r {
                Some(s) => self@ == ValView::Str(s@),
                None => !(self@ is Str),
            },
    {
        match self {
            DataValue::Str(s) => Some(s),
            _ => None,
        }
    }

    /// A structurally equal copy.
    #[verifier::loop_isolation(false)]
    pub fn deep_clone(&self) -> (r: DataValue)
        ensures
            r@ == self@,
        decreases self,
    {
        match self {
            DataValue::Null => DataValue::Null,
            DataValue::Bool(b) => DataValue::Bool(*b),
            DataValue::Num(n) => DataValue::Num(*n),
            DataValue::Str(s) => DataValue::Str(s.clone()),
            DataValue::List(items) => {
                let mut out: Vec<DataValue> = Vec::new();
                let mut i: usize = 0;
                while i < items.len()
                    invariant
                        0 <= i <= items@.len(),
                        out@.len() == i,
                        forall|k: int| 0 <= k < i ==> out@[k].dv() == items@[k].dv(),
                    decreases items@.len() - i,
                {
                    proof {
                        assert(decreases_to!(*items => items@));
                        assert(decreases_to!(items@ => items@[i as int]));
                    }
                    let c = items[i].deep_clone();
                    out.push(c);
                    i = i + 1;
                }
                let r = DataValue::List(out);
                proof {
                    lemma_seq_dv(out@);
                    lemma_seq_dv(items@);
                    assert(seq_dv(out@) =~= seq_dv(items@));
                }
                r
            },
            DataValue::Obj(fields) => {
                let mut out: Vec<(String, DataValue)> = Vec::new();
                let mut i: usize = 0;
                while i < fields.len()
                    invariant
                        0 <= i <= fields@.len(),
                        out@.len() == i,
                        forall|k: int| 0 <= k < i ==> out@[k].0@ == fields@[k].0@ && out@[k].1.dv()
                            == fields@[k].1.dv(),
                    decreases fields@.len() - i,
                {
                    proof {
                        assert(decreases_to!(*fields => fields@));
                        assert(decreases_to!(fields@ => fields@[i as int]));
                    }
                    let key = fields[i].0.clone();
                    let val = fields[i].1.deep_clone();
                    out.push((key, val));
                    i = i + 1;
                }
                let r = DataValue::Obj(out);
                proof {
                    lemma_kv_dv(out@);
                    lemma_kv_dv(fields@);
                    assert(kv_dv(out@) =~= kv_dv(fields@));
                }
                r
            },
        }
    }
}

} // verus!
