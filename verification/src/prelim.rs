//! Preliminary values: what a caller hands over to be inserted into a shared
//! type, before the CRDT library integrates it.
use vstd::prelude::*;
use yrs::Any as YAny;
use yrs::ArrayPrelim as YArrayPrelim;
use yrs::In as YIn;
use yrs::MapPrelim as YMapPrelim;
use yrs::TextPrelim as YTextPrelim;

verus! {

#[verifier::external_type_specification]
#[verifier::external_body]
pub struct ExYAny(YAny);

#[verifier::external_type_specification]
#[verifier::external_body]
pub struct ExYIn(YIn);

#[verifier::external_type_specification]
#[verifier::external_body]
pub struct ExYMapPrelim(YMapPrelim);

/// What a `yrs::In` built by this library holds: a plain value, the string
/// of a new text, the plain values of a new array, or the named plain values
/// of a new map.
pub enum InputView {
    Any(yrs::Any),
    Text(Seq<char>),
    Array(Seq<yrs::Any>),
    Entries(Map<Seq<char>, yrs::Any>),
}

/// What a `yrs::In` holds: which kind of input it is, and the values inside.
pub uninterp spec fn input_view(input: yrs::In) -> InputView;

/// The entries of a `yrs::MapPrelim`, each value kept as `yrs::In::Any`.
pub uninterp spec fn map_prelim_entries(p: yrs::MapPrelim) -> Map<Seq<char>, yrs::Any>;

/// Builds a `yrs::ArrayPrelim` from the values with `From<Vec<Any>>`, which
/// turns each into `yrs::In::Any`, and calls `From<ArrayPrelim>` of
/// `yrs::In`: an array input of those values, in order.
#[verifier::external_body]
fn array_prelim_into_in(items: Vec<yrs::Any>) -> (r: yrs::In)
    ensures
        input_view(r) == InputView::Array(items@),
{
    YIn::from(YArrayPrelim::from(items))
}

/// Calls `Default::default` of `yrs::MapPrelim`, which holds no entry.
#[verifier::external_body]
fn map_prelim_new() -> (r: yrs::MapPrelim)
    ensures
        map_prelim_entries(r) =~= Map::empty(),
{
    YMapPrelim::default()
}

/// Calls `HashMap::insert` on the entries of a `yrs::MapPrelim` with the value
/// as `yrs::In::Any`: the key maps to the value afterwards, replacing an
/// earlier value under it.
#[verifier::external_body]
fn map_prelim_insert(p: &mut yrs::MapPrelim, key: &str, value: yrs::Any)
    ensures
        map_prelim_entries(*final(p)) == map_prelim_entries(*old(p)).insert(key@, value),
{
    p.insert(key.into(), YIn::Any(value));
}

/// Calls `From<MapPrelim>` of `yrs::In`: a map input of those entries.
#[verifier::external_body]
fn map_prelim_into_in(p: yrs::MapPrelim) -> (r: yrs::In)
    ensures
        input_view(r) == InputView::Entries(map_prelim_entries(p)),
{
    YIn::from(p)
}

/// Calls `yrs::TextPrelim::new` with a copy of the string and `From<TextPrelim>`
/// of `yrs::In`: `yrs::In::Text` of a delta that inserts the string.
#[verifier::external_body]
fn text_prelim_into_in(text: &str) -> (r: yrs::In)
    ensures
        input_view(r) == InputView::Text(text@),
{
    YIn::from(YTextPrelim::new(text))
}

/// Calls `From<Any>` of `yrs::In`, which gives `yrs::In::Any` of the value.
#[verifier::external_body]
fn any_into_in(value: yrs::Any) -> (r: yrs::In)
    ensures
        input_view(r) == InputView::Any(value),
{
    YIn::from(value)
}

/// Calls the derived `Clone::clone` of `yrs::Any`, which copies the value
/// (its shared parts by reference count).
#[verifier::external_body]
fn any_clone(value: &yrs::Any) -> (r: yrs::Any)
    ensures
        r == *value,
{
    value.clone()
}

/// The kinds of preliminary value.
pub enum PrelimType {
    /// Named values, each inserted as a plain value of a new map.
    Mapping(Vec<(String, yrs::Any)>),
    /// Values, each inserted as a plain value of a new array.
    Array(Vec<yrs::Any>),
    /// The initial string of a new text.
    Text(String),
    /// A plain value.
    Any(yrs::Any),
}

/// A preliminary value.
pub struct Prelim(pub PrelimType);

/// What a value handed over by a caller is to become.
pub enum DetectedKind {
    /// It already is a preliminary value.
    Prelim,
    /// A new text.
    Text,
    /// A new map.
    Mapping,
    /// A new array.
    Array,
    /// A plain value.
    Any,
}

/// The kind that `Prelim::detect` gives a value with these traits.
pub open spec fn detected(is_prelim: bool, is_strings: bool, is_list: bool, has_names: bool) -> DetectedKind {
    if is_prelim {
        DetectedKind::Prelim
    } else if is_strings {
        DetectedKind::Text
    } else if is_list {
        if has_names {
            DetectedKind::Mapping
        } else {
            DetectedKind::Array
        }
    } else {
        DetectedKind::Any
    }
}

/// The map that inserting `entries` one after another gives: a later entry
/// replaces an earlier one of the same name.
pub open spec fn entries_map(entries: Seq<(String, yrs::Any)>) -> Map<Seq<char>, yrs::Any>
    decreases entries.len(),
{
    if entries.len() == 0 {
        Map::empty()
    } else {
        entries_map(entries.drop_last()).insert(entries.last().0@, entries.last().1)
    }
}

/// The input that a preliminary value stands for.
pub open spec fn prelim_input(p: PrelimType) -> InputView {
    match p {
        PrelimType::Mapping(entries) => InputView::Entries(entries_map(entries@)),
        PrelimType::Array(items) => InputView::Array(items@),
        PrelimType::Text(text) => InputView::Text(text@),
        PrelimType::Any(value) => InputView::Any(value),
    }
}

impl Prelim {
    /// A new text starting with `text`.
    pub fn text(text: String) -> (r: Prelim)
        ensures
            r.0 matches PrelimType::Text(t) && t@ == text@,
    {
        Prelim(PrelimType::Text(text))
    }

    /// A new array of `items`.
    pub fn array(items: Vec<yrs::Any>) -> (r: Prelim)
        ensures
            r.0 matches PrelimType::Array(v) && v@ == items@,
    {
        Prelim(PrelimType::Array(items))
    }

    /// A new map of `entries`.
    pub fn map(entries: Vec<(String, yrs::Any)>) -> (r: Prelim)
        ensures
            r.0 matches PrelimType::Mapping(v) && v@ == entries@,
    {
        Prelim(PrelimType::Mapping(entries))
    }

    /// A plain value.
    pub fn any(value: yrs::Any) -> (r: Prelim)
        ensures
            r.0 matches PrelimType::Any(v) && v == value,
    {
        Prelim(PrelimType::Any(value))
    }

    /// What a value with these traits becomes: a preliminary value stays
    /// one; otherwise strings make a text, a list with names a map, a list
    /// without names an array, and anything else a plain value.
    pub fn detect(is_prelim: bool, is_strings: bool, is_list: bool, has_names: bool) -> (r: DetectedKind)
        ensures
            r == detected(is_prelim, is_strings, is_list, has_names),
    {
        if is_prelim {
            DetectedKind::Prelim
        } else if is_strings {
            DetectedKind::Text
        } else if is_list {
            if has_names {
                DetectedKind::Mapping
            } else {
                DetectedKind::Array
            }
        } else {
            DetectedKind::Any
        }
    }

    /// A copy of the values of a new array.
    fn array_items(items: &Vec<yrs::Any>) -> (r: Vec<yrs::Any>)
        ensures
            r@ == items@,
    {
        let mut out: Vec<yrs::Any> = Vec::new();
        let mut i: usize = 0;
        while i < items.len()
            invariant
                i <= items.len(),
                out@ == items@.take(i as int),
            decreases items.len() - i,
        {
            out.push(any_clone(&items[i]));
            i = i + 1;
            assert(out@ =~= items@.take(i as int));
        }
        assert(items@.take(items.len() as int) =~= items@);
        out
    }

    /// The prelim of a new map holding the entries; a later entry replaces an
    /// earlier one of the same name.
    fn map_entries(entries: &Vec<(String, yrs::Any)>) -> (r: yrs::MapPrelim)
        ensures
            map_prelim_entries(r) == entries_map(entries@),
    {
        let mut out = map_prelim_new();
        let mut i: usize = 0;
        while i < entries.len()
            invariant
                i <= entries.len(),
                map_prelim_entries(out) == entries_map(entries@.take(i as int)),
            decreases entries.len() - i,
        {
            let (name, value) = &entries[i];
            map_prelim_insert(&mut out, name.as_str(), any_clone(value));
            assert(entries@.take(i + 1).drop_last() =~= entries@.take(i as int));
            i = i + 1;
        }
        assert(entries@.take(entries.len() as int) =~= entries@);
        out
    }

    /// The input that the CRDT library integrates for this value: a new text,
    /// array or map holding the values given, or the plain value itself.
    pub fn to_in(&self) -> (r: yrs::In)
        ensures
            input_view(r) == prelim_input(self.0),
    {
        match &self.0 {
            PrelimType::Text(text) => text_prelim_into_in(text.as_str()),
            PrelimType::Mapping(entries) => map_prelim_into_in(Self::map_entries(entries)),
            PrelimType::Array(items) => array_prelim_into_in(Self::array_items(items)),
            PrelimType::Any(value) => any_into_in(any_clone(value)),
        }
    }
}

/// What a value becomes depends first on whether it already is a
/// preliminary value, which it then stays whatever else holds of it; then a
/// character vector becomes a text, a list with names a map, a list without
/// names an array, and anything else a plain value.
pub proof fn lemma_detect_order(is_strings: bool, is_list: bool, has_names: bool)
    ensures
        detected(true, is_strings, is_list, has_names) == DetectedKind::Prelim,
        detected(false, true, is_list, has_names) == DetectedKind::Text,
        detected(false, false, true, true) == DetectedKind::Mapping,
        detected(false, false, true, false) == DetectedKind::Array,
        detected(false, false, false, has_names) == DetectedKind::Any,
{
}

/// The map that named values make: every name given is a key; every key is a
/// name given; and under each name stands the value of the last entry with
/// that name.
pub proof fn lemma_entries_map(entries: Seq<(String, yrs::Any)>)
    ensures
        forall|i: int| 0 <= i < entries.len() ==> entries_map(entries).contains_key(#[trigger] entries[i].0@),
        forall|k: Seq<char>|
            #[trigger] entries_map(entries).contains_key(k) ==> exists|i: int|
                0 <= i < entries.len() && entries[i].0@ == k,
        forall|i: int|
            0 <= i < entries.len() && (forall|j: int| i < j < entries.len() ==> entries[j].0@ != entries[i].0@)
                ==> entries_map(entries)[#[trigger] entries[i].0@] == entries[i].1,
    decreases entries.len(),
{
    if entries.len() > 0 {
        let init = entries.drop_last();
        let n = entries.len() - 1;
        lemma_entries_map(init);
        assert forall|i: int| 0 <= i < entries.len() implies entries_map(entries).contains_key(
            #[trigger] entries[i].0@,
        ) by {
            if i < n {
                assert(init[i] == entries[i]);
            }
        }
        assert forall|k: Seq<char>| #[trigger] entries_map(entries).contains_key(k) implies exists|i: int|
            0 <= i < entries.len() && entries[i].0@ == k by {
            if k == entries[n].0@ {
                assert(entries[n].0@ == k);
            } else {
                assert(entries_map(init).contains_key(k));
                let i = choose|i: int| 0 <= i < init.len() && init[i].0@ == k;
                assert(entries[i] == init[i]);
            }
        }
        assert forall|i: int|
            0 <= i < entries.len() && (forall|j: int| i < j < entries.len() ==> entries[j].0@ != entries[i].0@)
            implies entries_map(entries)[#[trigger] entries[i].0@] == entries[i].1 by {
            if i < n {
                assert(init[i] == entries[i]);
                assert(entries[n].0@ != entries[i].0@);
                assert forall|j: int| i < j < init.len() implies init[j].0@ != init[i].0@ by {
                    assert(init[j] == entries[j]);
                }
            }
        }
    }
}

} // verus!
