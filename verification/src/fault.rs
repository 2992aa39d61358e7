//! What is wrong with a JSON value that is not of the shape that it should be.

use vstd::prelude::*;
use vstd::string::*;

use crate::json::{json_tree, member_count, Json};

verus! {

/// Why a JSON value is not of the shape that it should be.
#[derive(Debug)]
pub enum Fault {
    /// It is neither an object nor an array
    NotARecord,
    /// It is an array with too few or too many items
    WrongLength,
    /// It lacks the field of this name
    Missing(&'static str),
    /// The field of this name holds something else than it should
    Invalid(&'static str),
    /// It is not a string
    NotAString,
    /// It has the shape of no message
    NoVariant,
    /// It names no variant of an enumeration
    UnknownVariant,
}

/// What a [`Fault`] says.
#[verifier::ext_equal]
pub enum FaultView {
    NotARecord,
    WrongLength,
    Missing(Seq<char>),
    Invalid(Seq<char>),
    NotAString,
    NoVariant,
    UnknownVariant,
}

impl View for Fault {
    type V = FaultView;

    open spec fn view(&self) -> FaultView {
        match *self {
            Fault::NotARecord => FaultView::NotARecord,
            Fault::WrongLength => FaultView::WrongLength,
            Fault::Missing(name) => FaultView::Missing(name@),
            Fault::Invalid(name) => FaultView::Invalid(name@),
            Fault::NotAString => FaultView::NotAString,
            Fault::NoVariant => FaultView::NoVariant,
            Fault::UnknownVariant => FaultView::UnknownVariant,
        }
    }
}

/// The account of a fault in words.
pub open spec fn fault_text(fault: FaultView) -> Seq<char> {
    match fault {
        FaultView::NotARecord => "expected an object or an array"@,
        FaultView::WrongLength => "array of the wrong length"@,
        FaultView::Missing(name) => "missing field `"@ + name + "`"@,
        FaultView::Invalid(name) => "invalid value of field `"@ + name + "`"@,
        FaultView::NotAString => "expected a string"@,
        FaultView::NoVariant => "data did not match any variant of untagged enum WsMessage"@,
        FaultView::UnknownVariant => "unknown variant"@,
    }
}

impl Fault {
    /// The account of the fault in words.
    pub fn describe(&self) -> (r: String)
        ensures
            r@ == fault_text(self@),
    {
        match self {
            Fault::NotARecord => "expected an object or an array".to_owned(),
            Fault::WrongLength => "array of the wrong length".to_owned(),
            Fault::Missing(name) => {
                let mut text = "missing field `".to_owned();
                text.append(name);
                text.append("`");
                text
            },
            Fault::Invalid(name) => {
                let mut text = "invalid value of field `".to_owned();
                text.append(name);
                text.append("`");
                text
            },
            Fault::NotAString => "expected a string".to_owned(),
            Fault::NoVariant =>
                "data did not match any variant of untagged enum WsMessage".to_owned(),
            Fault::UnknownVariant => "unknown variant".to_owned(),
        }
    }
}

/// What a fault that may be absent says.
pub open spec fn fault_view(fault: Option<Fault>) -> Option<FaultView> {
    match fault {
        Some(f) => Some(f@),
        None => None,
    }
}

/// What each of a sequence of faults that may be absent says.
pub open spec fn fault_views(faults: Seq<Option<Fault>>) -> Seq<Option<FaultView>> {
    faults.map_values(|fault: Option<Fault>| fault_view(fault))
}

/// The first fault, in the order that `order` gives, of a field that is there.
pub open spec fn first_present(faults: Seq<Option<FaultView>>, order: Seq<int>) -> Option<FaultView>
    decreases order.len(),
{
    if order.len() == 0 {
        None
    } else {
        match first_present(faults, order.drop_last()) {
            Some(fault) => Some(fault),
            None => match faults[order.last()] {
                Some(FaultView::Missing(_)) => None,
                fault => fault,
            },
        }
    }
}

/// The first fault.
pub open spec fn first_fault(faults: Seq<Option<FaultView>>) -> Option<FaultView>
    decreases faults.len(),
{
    if faults.len() == 0 {
        None
    } else {
        match first_fault(faults.drop_last()) {
            Some(fault) => Some(fault),
            None => faults.last(),
        }
    }
}

/// The numbers below `n`, in order.
pub open spec fn ascending(n: nat) -> Seq<int> {
    Seq::new(n, |i: int| i)
}

/// Why a value that does not hold a record does not: `faults` are those of its
/// fields, and `by_name` lists the fields by their names.
///
/// The members of an object are looked at by their names, and what is missing
/// comes last. The items of an array are looked at in order, and its length
/// comes last.
pub open spec fn record_fault(
    tree: Json,
    faults: Seq<Option<FaultView>>,
    by_name: Seq<int>,
) -> FaultView {
    match tree {
        Json::Object(_) => match (first_present(faults, by_name), first_fault(faults)) {
            (Some(fault), _) => fault,
            (None, Some(fault)) => fault,
            (None, None) => FaultView::WrongLength,
        },
        Json::Array(_) => match first_present(faults, ascending(faults.len())) {
            Some(fault) => fault,
            None => FaultView::WrongLength,
        },
        _ => FaultView::NotARecord,
    }
}

/// The same fault once more.
fn duplicate_fault(fault: &Fault) -> (r: Fault)
    ensures
        r@ == fault@,
{
    match fault {
        Fault::NotARecord => Fault::NotARecord,
        Fault::WrongLength => Fault::WrongLength,
        Fault::Missing(name) => Fault::Missing(name),
        Fault::Invalid(name) => Fault::Invalid(name),
        Fault::NotAString => Fault::NotAString,
        Fault::NoVariant => Fault::NoVariant,
        Fault::UnknownVariant => Fault::UnknownVariant,
    }
}

/// The numbers of a list as integers.
pub open spec fn indices(order: Seq<usize>) -> Seq<int> {
    order.map_values(|i: usize| i as int)
}

/// The first fault, in the order that `order` gives, of a field that is there.
fn find_present(faults: &Vec<Option<Fault>>, order: &Vec<usize>) -> (r: Option<Fault>)
    requires
        forall|k: int| 0 <= k < order@.len() ==> (#[trigger] order@[k]) < faults@.len(),
    ensures
        fault_view(r) == first_present(fault_views(faults@), indices(order@)),
{
    let ghost views = fault_views(faults@);
    let ghost all = indices(order@);
    let mut k: usize = 0;
    while k < order.len()
        invariant
            k <= order.len(),
            views == fault_views(faults@),
            all == indices(order@),
            forall|k: int| 0 <= k < order@.len() ==> (#[trigger] order@[k]) < faults@.len(),
            first_present(views, all.take(k as int)) is None,
        decreases order.len() - k,
    {
        assert(all.take(k + 1).drop_last() =~= all.take(k as int));
        assert(all.take(k + 1).last() == order@[k as int]);
        let i: usize = order[k];
        assert(views[i as int] == fault_view(faults@[i as int]));
        match &faults[i] {
            None => {},
            Some(Fault::Missing(_)) => {},
            Some(fault) => {
                proof {
                    lemma_first_present_stays(views, all, k + 1);
                }
                return Some(duplicate_fault(fault));
            },
        }
        k = k + 1;
    }
    assert(all.take(k as int) =~= all);
    None
}

/// What is found among the first fields is what is found among all.
proof fn lemma_first_present_stays(faults: Seq<Option<FaultView>>, order: Seq<int>, n: int)
    requires
        0 <= n <= order.len(),
        first_present(faults, order.take(n)) is Some,
    ensures
        first_present(faults, order) == first_present(faults, order.take(n)),
    decreases order.len(),
{
    if n == order.len() {
        assert(order.take(n) =~= order);
    } else {
        assert(order.drop_last().take(n) =~= order.take(n));
        lemma_first_present_stays(faults, order.drop_last(), n);
    }
}

/// The first fault.
fn find_fault(faults: &Vec<Option<Fault>>) -> (r: Option<Fault>)
    ensures
        fault_view(r) == first_fault(fault_views(faults@)),
{
    let ghost views = fault_views(faults@);
    let mut i: usize = 0;
    while i < faults.len()
        invariant
            i <= faults.len(),
            views == fault_views(faults@),
            first_fault(views.take(i as int)) is None,
        decreases faults.len() - i,
    {
        assert(views.take(i + 1).drop_last() =~= views.take(i as int));
        assert(views.take(i + 1).last() == fault_view(faults@[i as int]));
        if let Some(fault) = &faults[i] {
            proof {
                lemma_first_fault_stays(views, i + 1);
            }
            return Some(duplicate_fault(fault));
        }
        i = i + 1;
    }
    assert(views.take(i as int) =~= views);
    None
}

/// What is found among the first faults is what is found among all.
proof fn lemma_first_fault_stays(faults: Seq<Option<FaultView>>, n: int)
    requires
        0 <= n <= faults.len(),
        first_fault(faults.take(n)) is Some,
    ensures
        first_fault(faults) == first_fault(faults.take(n)),
    decreases faults.len(),
{
    if n == faults.len() {
        assert(faults.take(n) =~= faults);
    } else {
        assert(faults.drop_last().take(n) =~= faults.take(n));
        lemma_first_fault_stays(faults.drop_last(), n);
    }
}

/// Why a value that does not hold a record does not, from the faults of its
/// fields.
pub(crate) fn choose_fault(
    value: &serde_json::Value,
    faults: &Vec<Option<Fault>>,
    by_name: &Vec<usize>,
) -> (r: Fault)
    requires
        forall|k: int| 0 <= k < by_name@.len() ==> (#[trigger] by_name@[k]) < faults@.len(),
    ensures
        r@ == record_fault(json_tree(*value), fault_views(faults@), indices(by_name@)),
{
    if value.as_array().is_some() {
        let mut order: Vec<usize> = Vec::new();
        let mut i: usize = 0;
        while i < faults.len()
            invariant
                i <= faults.len(),
                i == order.len(),
                forall|k: int| 0 <= k < i ==> (#[trigger] order@[k]) == k,
            decreases faults.len() - i,
        {
            order.push(i);
            i = i + 1;
        }
        assert(indices(order@) =~= ascending(faults@.len()));
        match find_present(faults, &order) {
            Some(fault) => fault,
            None => Fault::WrongLength,
        }
    } else if member_count(value).is_some() {
        match find_present(faults, by_name) {
            Some(fault) => fault,
            None => match find_fault(faults) {
                Some(fault) => fault,
                None => Fault::WrongLength,
            },
        }
    } else {
        Fault::NotARecord
    }
}

/// What is found among the fields that are there is the fault of one of them.
proof fn lemma_first_present_is_of_a_field(faults: Seq<Option<FaultView>>, order: Seq<int>)
    requires
        forall|k: int| 0 <= k < order.len() ==> 0 <= (#[trigger] order[k]) < faults.len(),
    ensures
        first_present(faults, order) is Some ==> faults.contains(first_present(faults, order)),
    decreases order.len(),
{
    if order.len() > 0 {
        let rest = order.drop_last();
        assert forall|k: int| 0 <= k < rest.len() implies 0 <= (#[trigger] rest[k])
            < faults.len() by {
            assert(rest[k] == order[k]);
        }
        lemma_first_present_is_of_a_field(faults, rest);
        if first_present(faults, rest) is None {
            assert(order.last() == order[order.len() - 1]);
            assert(faults.contains(faults[order.last()]));
        }
    }
}

/// Where a field has a fault, one is found, and it is the fault of a field.
proof fn lemma_first_fault_is_of_a_field(faults: Seq<Option<FaultView>>, i: int)
    requires
        0 <= i < faults.len(),
        faults[i] is Some,
    ensures
        first_fault(faults) is Some,
        faults.contains(first_fault(faults)),
    decreases faults.len(),
{
    let rest = faults.drop_last();
    if first_fault(rest) is Some {
        if i == rest.len() {
            lemma_some_fault(rest);
            let k = choose|k: int| 0 <= k < rest.len() && (#[trigger] rest[k]) is Some;
            lemma_first_fault_is_of_a_field(rest, k);
        } else {
            assert(rest[i] == faults[i]);
            lemma_first_fault_is_of_a_field(rest, i);
        }
        let k = rest.index_of(first_fault(rest));
        assert(faults[k] == first_fault(rest));
    } else {
        if i < rest.len() {
            assert(rest[i] == faults[i]);
            lemma_first_fault_is_of_a_field(rest, i);
        }
        assert(faults[rest.len() as int] == faults.last());
    }
}

/// Where a fault is found, a field has one.
proof fn lemma_some_fault(faults: Seq<Option<FaultView>>)
    requires
        first_fault(faults) is Some,
    ensures
        exists|k: int| 0 <= k < faults.len() && (#[trigger] faults[k]) is Some,
    decreases faults.len(),
{
    let rest = faults.drop_last();
    if first_fault(rest) is Some {
        lemma_some_fault(rest);
        let k = choose|k: int| 0 <= k < rest.len() && (#[trigger] rest[k]) is Some;
        assert(faults[k] is Some);
    } else {
        assert(faults[faults.len() - 1] is Some);
    }
}

/// What is told of an object with a field that has a fault is the fault of one
/// of its fields.
pub proof fn law_fault_of_an_object_is_of_a_field(
    tree: Json,
    faults: Seq<Option<FaultView>>,
    by_name: Seq<int>,
    i: int,
)
    requires
        tree is Object,
        0 <= i < faults.len(),
        faults[i] is Some,
        forall|k: int| 0 <= k < by_name.len() ==> 0 <= (#[trigger] by_name[k]) < faults.len(),
    ensures
        faults.contains(Some(record_fault(tree, faults, by_name))),
{
    lemma_first_present_is_of_a_field(faults, by_name);
    lemma_first_fault_is_of_a_field(faults, i);
}

} // verus!
