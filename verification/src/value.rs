//! The tree of plain values that a raw configuration document is handed to
//! this crate as.
//!
//! A [`DocValue`] is a wire-format-agnostic document value: null, boolean,
//! number, string, array, or object (an ordered list of key/value entries).
//! Numbers carry the two readings a decoder may need — an exact integer
//! reading and an IEEE-754 double bit pattern — each only where the source
//! number allows it; an adapter outside this crate fills them in from the
//! concrete wire format.

use vstd::prelude::*;

verus! {

/// A numeric leaf: the integer reading, if the number is an integer in
/// range, and the IEEE-754 double bit pattern, if the number has one.
#[derive(Debug, Clone, Copy, PartialEq, Eq, Structural)]
pub struct NumValue {
    pub int: Option<i64>,
    pub float_bits: Option<u64>,
}

/// A document value.
#[derive(Debug, PartialEq)]
pub enum DocValue {
    Null,
    Bool(bool),
    Num(NumValue),
    Str(String),
    Arr(Vec<DocValue>),
    Obj(Vec<(String, DocValue)>),
}

/// The mathematical model of a [`DocValue`].
pub enum ValueView {
    Null,
    Bool(bool),
    Num(NumValue),
    Str(Seq<char>),
    Arr(Seq<ValueView>),
    Obj(Seq<(Seq<char>, ValueView)>),
}

/// The models of a list of named values: each key by its characters, each
/// value by its view.
pub open spec fn pairs_view<T: View>(s: Seq<(String, T)>) -> Seq<(Seq<char>, T::V)> {
    Seq::new(
        s.len(),
        |i: int|
            if 0 <= i < s.len() {
                (s[i].0@, s[i].1@)
            } else {
                arbitrary()
            },
    )
}

/// The models of the elements of an array of document values.
pub open spec fn values_view(s: Seq<DocValue>) -> Seq<ValueView>
    decreases s,
{
    Seq::new(
        s.len(),
        |i: int|
            if 0 <= i < s.len() {
                s[i]@
            } else {
                ValueView::Null
            },
    )
}

/// The models of the entries of an object.
pub open spec fn entries_view(s: Seq<(String, DocValue)>) -> Seq<(Seq<char>, ValueView)>
    decreases s,
{
    Seq::new(
        s.len(),
        |i: int|
            if 0 <= i < s.len() {
                (s[i].0@, s[i].1@)
            } else {
                (Seq::<char>::empty(), ValueView::Null)
            },
    )
}

/// An array's model has one element model per element.
pub broadcast proof fn lemma_values_view_len(s: Seq<DocValue>)
    ensures
        (#[trigger] values_view(s)).len() == s.len(),
{
}

/// The model of an array element is the element's model.
pub broadcast proof fn lemma_values_view_index(s: Seq<DocValue>, i: int)
    requires
        0 <= i < s.len(),
    ensures
        #[trigger] values_view(s)[i] == s[i]@,
{
}

/// An object's model has one entry model per entry.
pub broadcast proof fn lemma_entries_view_len(s: Seq<(String, DocValue)>)
    ensures
        (#[trigger] entries_view(s)).len() == s.len(),
{
}

/// The model of an object entry is the pair of its key's characters and
/// its value's model.
pub broadcast proof fn lemma_entries_view_index(s: Seq<(String, DocValue)>, i: int)
    requires
        0 <= i < s.len(),
    ensures
        #[trigger] entries_view(s)[i] == (s[i].0@, s[i].1@),
{
}

/// A named-value list's model has one entry model per entry.
pub broadcast proof fn lemma_pairs_view_len<T: View>(s: Seq<(String, T)>)
    ensures
        (#[trigger] pairs_view(s)).len() == s.len(),
{
}

/// The model of a named-value entry is the pair of its key's characters
/// and its value's model.
pub broadcast proof fn lemma_pairs_view_index<T: View>(s: Seq<(String, T)>, i: int)
    requires
        0 <= i < s.len(),
    ensures
        #[trigger] pairs_view(s)[i] == (s[i].0@, s[i].1@),
{
}

/// The pointwise facts about the view helpers of this module.
pub broadcast group group_value_views {
    lemma_values_view_len,
    lemma_values_view_index,
    lemma_entries_view_len,
    lemma_entries_view_index,
    lemma_pairs_view_len,
    lemma_pairs_view_index,
}

impl View for DocValue {
    type V = ValueView;

    open spec fn view(&self) -> ValueView
        decreases self,
    {
        match self {
            DocValue::Null => ValueView::Null,
            DocValue::Bool(b) => ValueView::Bool(*b),
            DocValue::Num(n) => ValueView::Num(*n),
            DocValue::Str(s) => ValueView::Str(s@),
            DocValue::Arr(vs) => ValueView::Arr(values_view(vs@)),
            DocValue::Obj(es) => ValueView::Obj(entries_view(es@)),
        }
    }
}

/// The index of the first entry of `o` whose key is `k`, or `-1` if no
/// entry has that key.
pub open spec fn lookup_idx<T>(o: Seq<(Seq<char>, T)>, k: Seq<char>) -> int
    decreases o.len(),
{
    if o.len() == 0 {
        -1
    } else if o[0].0 == k {
        0
    } else {
        let r = lookup_idx(o.drop_first(), k);
        if r < 0 {
            -1
        } else {
            r + 1
        }
    }
}

/// The value under the first entry of `o` keyed `k`, if any.
pub open spec fn lookup(o: Seq<(Seq<char>, ValueView)>, k: Seq<char>) -> Option<ValueView> {
    if 0 <= lookup_idx(o, k) < o.len() {
        Some(o[lookup_idx(o, k)].1)
    } else {
        None
    }
}

/// `lookup_idx` finds exactly the first entry keyed `k`: a non-negative
/// result is in range, carries the key, and nothing before it does; a
/// negative result means no entry does.
pub proof fn lemma_lookup_idx<T>(o: Seq<(Seq<char>, T)>, k: Seq<char>)
    ensures
        lookup_idx(o, k) < 0 ==> forall|m: int| 0 <= m < o.len() ==> o[m].0 != k,
        lookup_idx(o, k) >= 0 ==> 0 <= lookup_idx(o, k) < o.len() && o[lookup_idx(o, k)].0 == k
            && (forall|m: int| 0 <= m < lookup_idx(o, k) ==> o[m].0 != k),
    decreases o.len(),
{
    if o.len() == 0 {
    } else if o[0].0 == k {
    } else {
        lemma_lookup_idx(o.drop_first(), k);
        assert forall|m: int| 0 <= m < o.len() && m >= 1 implies o[m].0 == o.drop_first()[m - 1].0 by {
            assert(o.drop_first()[m - 1] == o[m]);
        }
    }
}

impl DocValue {
    /// Looks a key up in an object's entries, returning a reference to the
    /// value under the first entry with that key.
    pub fn obj_get<'a>(entries: &'a Vec<(String, DocValue)>, key: &str) -> (r: Option<
        &'a DocValue,
    >)
        ensures
            match r {
                Some(v) => lookup(entries_view(entries@), key@) == Some(v@) && (exists|i: int|
                    0 <= i < entries@.len() && entries@[i].1 == *v),
                None => lookup(entries_view(entries@), key@) is None,
            },
    {
        let ghost ov = entries_view(entries@);
        proof {
            lemma_lookup_idx(ov, key@);
        }
        let n = entries.len();
        let mut i: usize = 0;
        while i < n
            invariant
                n == entries@.len(),
                ov == entries_view(entries@),
                i <= n,
                forall|m: int| 0 <= m < i ==> ov[m].0 != key@,
            decreases n - i,
        {
            let e = &entries[i];
            if str_eq(e.0.as_str(), key) {
                assert(ov[i as int].0 == key@);
                assert(lookup_idx(ov, key@) == i as int) by {
                    lemma_lookup_idx(ov, key@);
                }
                return Some(&entries[i].1);
            }
            assert(ov[i as int].0 != key@);
            i += 1;
        }
        assert(lookup_idx(ov, key@) < 0) by {
            lemma_lookup_idx(ov, key@);
        }
        None
    }
}

/// Compares two string slices by their characters.
pub fn str_eq(a: &str, b: &str) -> (r: bool)
    ensures
        r == (a@ == b@),
{
    let sa = a.to_owned();
    let sb = b.to_owned();
    sa == sb
}

} // verus!
