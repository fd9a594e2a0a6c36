use vstd::prelude::*;

verus! {

/// One structured value of a row: the closed set of kinds the SQL encoder
/// understands. `Other` stands for every kind outside that set (numbers that
/// do not fit `i64`, nested objects, and so on); it is never encodable.
pub enum DataValue {
    Bool(bool),
    Int(i64),
    Str(String),
    Null,
    List(Vec<DataValue>),
    Other,
}

/// Mathematical model of a `DataValue`: strings become sequences of
/// characters, vectors become sequences.
#[verifier::ext_equal]
pub enum ValueView {
    Bool(bool),
    Int(int),
    Str(Seq<char>),
    Null,
    List(Seq<ValueView>),
    Other,
}

pub open spec fn value_view(v: DataValue) -> ValueView
    decreases v, 0int,
{
    match v {
        DataValue::Bool(b) => ValueView::Bool(b),
        DataValue::Int(i) => ValueView::Int(i as int),
        DataValue::Str(s) => ValueView::Str(s@),
        DataValue::Null => ValueView::Null,
        DataValue::List(elems) => ValueView::List(values_view_from(elems@, 0)),
        DataValue::Other => ValueView::Other,
    }
}

/// Models of the values of `elems` from index `i` on, in order.
pub open spec fn values_view_from(elems: Seq<DataValue>, i: int) -> Seq<ValueView>
    decreases elems, elems.len() - i,
{
    if i < 0 || i >= elems.len() {
        Seq::empty()
    } else {
        seq![value_view(elems[i])] + values_view_from(elems, i + 1)
    }
}

/// Models of all values of `elems`, in order.
pub open spec fn values_view(elems: Seq<DataValue>) -> Seq<ValueView> {
    values_view_from(elems, 0)
}

pub proof fn lemma_values_view_from(elems: Seq<DataValue>, i: int)
    requires
        0 <= i <= elems.len(),
    ensures
        values_view_from(elems, i).len() == elems.len() - i,
        forall|j: int|
            i <= j < elems.len() ==> values_view_from(elems, i)[j - i] == value_view(elems[j]),
    decreases elems.len() - i,
{
    if i < elems.len() {
        lemma_values_view_from(elems, i + 1);
    }
}

pub broadcast proof fn lemma_values_view(elems: Seq<DataValue>)
    ensures
        (#[trigger] values_view(elems)).len() == elems.len(),
        forall|j: int| 0 <= j < elems.len() ==> values_view(elems)[j] == value_view(elems[j]),
{
    lemma_values_view_from(elems, 0);
}

impl View for DataValue {
    type V = ValueView;

    open spec fn view(&self) -> ValueView {
        value_view(*self)
    }
}

impl Clone for DataValue {
    fn clone(&self) -> (r: Self)
        ensures
            r@ == self@,
        decreases *self, 0int,
    {
        match self {
            DataValue::Bool(b) => DataValue::Bool(*b),
            DataValue::Int(i) => DataValue::Int(*i),
            DataValue::Str(s) => DataValue::Str(s.clone()),
            DataValue::Null => DataValue::Null,
            DataValue::List(elems) => DataValue::List(clone_values(elems)),
            DataValue::Other => DataValue::Other,
        }
    }
}

/// Clones every element of `elems`, preserving each element's model.
fn clone_values(elems: &Vec<DataValue>) -> (r: Vec<DataValue>)
    ensures
        values_view(r@) == values_view(elems@),
    decreases elems@, elems@.len(),
{
    let mut r: Vec<DataValue> = Vec::new();
    let n = elems.len();
    for k in 0..n
        invariant
            n == elems@.len(),
            r@.len() == k,
            forall|j: int| 0 <= j < k ==> value_view(r@[j]) == value_view(elems@[j]),
        decreases elems@, elems@.len() - k,
    {
        r.push(elems[k].clone());
    }
    proof {
        lemma_values_view(r@);
        lemma_values_view(elems@);
        assert(values_view(r@) =~= values_view(elems@));
    }
    r
}

} // verus!
