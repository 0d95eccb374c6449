//! File names, and the order in which a directory lists them.

use crate::paths::Platform;
use vstd::prelude::*;

verus! {

/// The name of a file or a directory.
#[derive(Debug, PartialEq, Eq)]
pub enum FileName {
    /// A name that is Unicode text.
    Text(String),
    /// A name that is not: its bytes, and how they are shown to a developer.
    Raw { bytes: Vec<u8>, shown: String },
}

/// [`FileName`] with a text in place of the string.
pub enum FileNameView {
    Text(Seq<char>),
    Raw { bytes: Seq<u8>, shown: Seq<char> },
}

impl View for FileName {
    type V = FileNameView;

    open spec fn view(&self) -> FileNameView {
        match *self {
            FileName::Text(text) => FileNameView::Text(text@),
            FileName::Raw { bytes, shown } => FileNameView::Raw { bytes: bytes@, shown: shown@ },
        }
    }
}

/// The names as texts and bytes.
pub open spec fn names_view(names: Seq<FileName>) -> Seq<FileNameView> {
    names.map_values(|name: FileName| name@)
}

/// A text in lower case.
pub uninterp spec fn lowercase(text: Seq<char>) -> Seq<char>;

/// Calls `str::to_lowercase`. The result depends on the text alone. What each
/// character becomes is not stated.
#[verifier::external_body]
fn to_lowercase(text: &str) -> (lower: String)
    ensures
        lower@ == lowercase(text@),
{
    text.to_lowercase()
}

/// What names are sorted by: Unicode names come first, and names of each sort
/// go by their bytes. On Windows case makes no difference to Unicode names.
pub struct SortKey {
    /// Whether the name is not Unicode.
    pub raw: bool,
    /// The bytes.
    pub bytes: Seq<u8>,
}

/// The sort key of a name.
pub open spec fn sort_key(platform: Platform, name: FileNameView) -> SortKey {
    match name {
        FileNameView::Text(text) => SortKey {
            raw: false,
            bytes: vstd::utf8::encode_utf8(
                match platform {
                    Platform::Windows => lowercase(text),
                    Platform::Unix => text,
                },
            ),
        },
        FileNameView::Raw { bytes, .. } => SortKey { raw: true, bytes },
    }
}

/// Whether bytes come before others or are the same, as in a dictionary.
pub open spec fn bytes_le(a: Seq<u8>, b: Seq<u8>) -> bool
    decreases a.len(),
{
    if a.len() == 0 {
        true
    } else if b.len() == 0 {
        false
    } else {
        a[0] < b[0] || (a[0] == b[0] && bytes_le(a.drop_first(), b.drop_first()))
    }
}

/// Whether a key comes before another or is the same.
pub open spec fn key_le(a: SortKey, b: SortKey) -> bool {
    if a.raw == b.raw {
        bytes_le(a.bytes, b.bytes)
    } else {
        b.raw
    }
}

/// Whether a name comes before another or beside it.
pub open spec fn name_le(platform: Platform, a: FileNameView, b: FileNameView) -> bool {
    key_le(sort_key(platform, a), sort_key(platform, b))
}

/// Whether names are in order.
pub open spec fn in_order(platform: Platform, names: Seq<FileNameView>) -> bool {
    forall|i: int, j: int|
        0 <= i < j < names.len() ==> name_le(platform, #[trigger] names[i], #[trigger] names[j])
}

/// Whether the second list is the first one sorted: the same names, in order.
pub open spec fn is_sorted_form(
    platform: Platform,
    names: Seq<FileNameView>,
    sorted: Seq<FileNameView>,
) -> bool {
    &&& sorted.to_multiset() == names.to_multiset()
    &&& in_order(platform, sorted)
}

/// Bytes come before themselves or are the same.
proof fn lemma_bytes_le_reflexive(a: Seq<u8>)
    ensures
        bytes_le(a, a),
    decreases a.len(),
{
    if a.len() > 0 {
        lemma_bytes_le_reflexive(a.drop_first());
    }
}

/// Of any two, one comes first.
proof fn lemma_bytes_le_total(a: Seq<u8>, b: Seq<u8>)
    ensures
        bytes_le(a, b) || bytes_le(b, a),
    decreases a.len(),
{
    if a.len() > 0 && b.len() > 0 {
        lemma_bytes_le_total(a.drop_first(), b.drop_first());
    }
}

/// What comes before what comes before the third comes before the third.
proof fn lemma_bytes_le_transitive(a: Seq<u8>, b: Seq<u8>, c: Seq<u8>)
    requires
        bytes_le(a, b),
        bytes_le(b, c),
    ensures
        bytes_le(a, c),
    decreases a.len(),
{
    if a.len() > 0 && b.len() > 0 && c.len() > 0 {
        if a[0] == b[0] && b[0] == c[0] {
            lemma_bytes_le_transitive(a.drop_first(), b.drop_first(), c.drop_first());
        }
    }
}

/// What comes before each other is the same.
proof fn lemma_bytes_le_antisymmetric(a: Seq<u8>, b: Seq<u8>)
    requires
        bytes_le(a, b),
        bytes_le(b, a),
    ensures
        a == b,
    decreases a.len(),
{
    if a.len() > 0 && b.len() > 0 {
        lemma_bytes_le_antisymmetric(a.drop_first(), b.drop_first());
        assert(a =~= seq![a[0]] + a.drop_first());
        assert(b =~= seq![b[0]] + b.drop_first());
    } else {
        assert(a =~= b);
    }
}

/// The order of names is total and transitive, and names that come before each
/// other have the same key.
pub proof fn law_names_are_ordered(
    platform: Platform,
    a: FileNameView,
    b: FileNameView,
    c: FileNameView,
)
    ensures
        name_le(platform, a, a),
        name_le(platform, a, b) || name_le(platform, b, a),
        name_le(platform, a, b) && name_le(platform, b, c) ==> name_le(platform, a, c),
        name_le(platform, a, b) && name_le(platform, b, a) ==> sort_key(platform, a) == sort_key(
            platform,
            b,
        ),
{
    let (x, y, z) = (sort_key(platform, a), sort_key(platform, b), sort_key(platform, c));
    lemma_bytes_le_reflexive(x.bytes);
    lemma_bytes_le_total(x.bytes, y.bytes);
    if bytes_le(x.bytes, y.bytes) && bytes_le(y.bytes, z.bytes) {
        lemma_bytes_le_transitive(x.bytes, y.bytes, z.bytes);
    }
    if bytes_le(x.bytes, y.bytes) && bytes_le(y.bytes, x.bytes) {
        lemma_bytes_le_antisymmetric(x.bytes, y.bytes);
    }
}

/// Whether bytes come before others in a dictionary, or are the same: up to some
/// place they are the same, and there they end or have the smaller byte.
pub open spec fn precedes(a: Seq<u8>, b: Seq<u8>) -> bool {
    exists|k: int|
        0 <= k <= a.len() && k <= b.len() && #[trigger] a.take(k) == b.take(k) && (k == a.len() || (
        k < b.len() && a[k] < b[k]))
}

/// Comparing bytes one after the other gives the order of a dictionary.
proof fn lemma_bytes_le_is_dictionary_order(a: Seq<u8>, b: Seq<u8>)
    ensures
        bytes_le(a, b) <==> precedes(a, b),
    decreases a.len(),
{
    if a.len() == 0 {
        assert(a.take(0) =~= b.take(0));
    } else if b.len() > 0 {
        let (c, d) = (a.drop_first(), b.drop_first());
        lemma_bytes_le_is_dictionary_order(c, d);
        if bytes_le(a, b) {
            if a[0] < b[0] {
                assert(a.take(0) =~= b.take(0));
            } else {
                let k = choose|k: int|
                    0 <= k <= c.len() && k <= d.len() && #[trigger] c.take(k) == d.take(k) && (k
                        == c.len() || (k < d.len() && c[k] < d[k]));
                assert(a.take(k + 1) =~= seq![a[0]] + c.take(k));
                assert(b.take(k + 1) =~= seq![b[0]] + d.take(k));
                assert(a.take(k + 1) == b.take(k + 1));
            }
        }
        if precedes(a, b) {
            let k = choose|k: int|
                0 <= k <= a.len() && k <= b.len() && #[trigger] a.take(k) == b.take(k) && (k
                    == a.len() || (k < b.len() && a[k] < b[k]));
            if k > 0 {
                assert(a.take(k)[0] == b.take(k)[0]);
                assert(c.take(k - 1) =~= a.take(k).drop_first());
                assert(d.take(k - 1) =~= b.take(k).drop_first());
                assert(c.take(k - 1) == d.take(k - 1));
            }
        }
    }
}

/// A sorted list has the names of the list, each as often as the list has it.
pub proof fn law_sorting_keeps_names(
    platform: Platform,
    names: Seq<FileNameView>,
    sorted: Seq<FileNameView>,
)
    requires
        is_sorted_form(platform, names, sorted),
    ensures
        sorted.len() == names.len(),
        sorted.to_multiset() == names.to_multiset(),
{
    broadcast use vstd::seq_lib::group_to_multiset_ensures;

    assert(sorted.len() == sorted.to_multiset().len());
    assert(names.len() == names.to_multiset().len());
}

/// A sorted list is in the order of a dictionary: by the bytes of the names'
/// UTF-8 form, in lower case on Windows. Names that are not Unicode come last,
/// by their bytes.
pub proof fn law_sorted_is_in_dictionary_order(
    platform: Platform,
    names: Seq<FileNameView>,
    sorted: Seq<FileNameView>,
    i: int,
    j: int,
)
    requires
        is_sorted_form(platform, names, sorted),
        0 <= i < j < sorted.len(),
    ensures
        match (sorted[i], sorted[j]) {
            (FileNameView::Text(a), FileNameView::Text(b)) => match platform {
                Platform::Unix => precedes(
                    vstd::utf8::encode_utf8(a),
                    vstd::utf8::encode_utf8(b),
                ),
                Platform::Windows => precedes(
                    vstd::utf8::encode_utf8(lowercase(a)),
                    vstd::utf8::encode_utf8(lowercase(b)),
                ),
            },
            (FileNameView::Raw { bytes: a, .. }, FileNameView::Raw { bytes: b, .. }) => precedes(
                a,
                b,
            ),
            (FileNameView::Text(_), FileNameView::Raw { .. }) => true,
            (FileNameView::Raw { .. }, FileNameView::Text(_)) => false,
        },
{
    assert(name_le(platform, sorted[i], sorted[j]));
    lemma_bytes_le_is_dictionary_order(
        sort_key(platform, sorted[i]).bytes,
        sort_key(platform, sorted[j]).bytes,
    );
}

/// Different Unicode names have different keys where case makes a difference.
pub proof fn law_unix_keys_tell_names_apart(a: Seq<char>, b: Seq<char>)
    requires
        sort_key(Platform::Unix, FileNameView::Text(a)) == sort_key(
            Platform::Unix,
            FileNameView::Text(b),
        ),
    ensures
        a == b,
{
    vstd::utf8::encode_utf8_decode_utf8(a);
    vstd::utf8::encode_utf8_decode_utf8(b);
}

/// Whether no two names have the same key.
pub open spec fn keys_differ(platform: Platform, names: Seq<FileNameView>) -> bool {
    forall|a: FileNameView, b: FileNameView|
        names.contains(a) && names.contains(b) && #[trigger] sort_key(platform, a)
            == #[trigger] sort_key(platform, b) ==> a == b
}

/// However a directory's entries come in, they are listed in the same way, as
/// long as the sort keys tell them apart.
pub proof fn law_order_of_entries_does_not_matter(
    platform: Platform,
    names: Seq<FileNameView>,
    shuffled: Seq<FileNameView>,
    sorted: Seq<FileNameView>,
    sorted_shuffled: Seq<FileNameView>,
)
    requires
        names.to_multiset() == shuffled.to_multiset(),
        keys_differ(platform, names),
        is_sorted_form(platform, names, sorted),
        is_sorted_form(platform, shuffled, sorted_shuffled),
    ensures
        sorted == sorted_shuffled,
{
    assert forall|x: FileNameView| #[trigger] sorted.contains(x) implies names.contains(x) by {
        broadcast use vstd::seq_lib::group_to_multiset_ensures;

        assert(sorted.to_multiset().count(x) > 0);
        assert(names.to_multiset().count(x) > 0);
    }
    lemma_sorted_unique(platform, sorted, sorted_shuffled);
}

/// Two lists in order with the same names are the same.
proof fn lemma_sorted_unique(platform: Platform, a: Seq<FileNameView>, b: Seq<FileNameView>)
    requires
        a.to_multiset() == b.to_multiset(),
        in_order(platform, a),
        in_order(platform, b),
        keys_differ(platform, a),
    ensures
        a == b,
    decreases a.len(),
{
    broadcast use vstd::seq_lib::group_to_multiset_ensures;

    assert(a.len() == a.to_multiset().len());
    assert(b.len() == b.to_multiset().len());
    if a.len() == 0 {
        assert(a =~= b);
    } else {
        let n = a.len() - 1;
        let x = a.last();
        let y = b.last();
        assert(a.contains(x) && b.contains(y)) by {
            assert(a[n] == x && b[n] == y);
        }
        assert(b.to_multiset().count(x) > 0 && a.to_multiset().count(y) > 0);
        assert(b.contains(x) && a.contains(y));
        let i = choose|i: int| 0 <= i < a.len() && a[i] == y;
        let j = choose|j: int| 0 <= j < b.len() && b[j] == x;
        law_names_are_ordered(platform, x, y, x);
        law_names_are_ordered(platform, y, x, y);
        assert(name_le(platform, y, x)) by {
            if i < n {
                assert(name_le(platform, a[i], a[n]));
            }
        }
        assert(name_le(platform, x, y)) by {
            if j < n {
                assert(name_le(platform, b[j], b[n]));
            }
        }
        assert(x == y);
        let c = a.drop_last();
        let d = b.drop_last();
        assert(a =~= c.push(x));
        assert(b =~= d.push(x));
        assert(c.to_multiset() =~= d.to_multiset()) by {
            assert(a.to_multiset() =~= c.to_multiset().insert(x));
            assert(b.to_multiset() =~= d.to_multiset().insert(x));
            assert(c.to_multiset() =~= a.to_multiset().remove(x));
            assert(d.to_multiset() =~= b.to_multiset().remove(x));
        }
        assert forall|z: FileNameView| #[trigger] c.contains(z) implies a.contains(z) by {
            let k = choose|k: int| 0 <= k < c.len() && c[k] == z;
            assert(a[k] == z);
        }
        lemma_sorted_unique(platform, c, d);
    }
}

/// Whether bytes come before others or are the same.
fn compare_bytes(a: &[u8], b: &[u8]) -> (le: bool)
    ensures
        le == bytes_le(a@, b@),
{
    let mut i: usize = 0;
    proof {
        assert(a@.skip(0) =~= a@);
        assert(b@.skip(0) =~= b@);
    }
    while i < a.len() && i < b.len() && a[i] == b[i]
        invariant
            i <= a.len(),
            i <= b.len(),
            bytes_le(a@, b@) == bytes_le(a@.skip(i as int), b@.skip(i as int)),
        decreases a.len() - i,
    {
        proof {
            assert(a@.skip(i as int).drop_first() =~= a@.skip(i + 1));
            assert(b@.skip(i as int).drop_first() =~= b@.skip(i + 1));
        }
        i = i + 1;
    }
    if i == a.len() {
        true
    } else if i == b.len() {
        false
    } else {
        a[i] < b[i]
    }
}

/// Whether a name comes before another or beside it.
fn compare_names(platform: Platform, a: &FileName, b: &FileName) -> (le: bool)
    ensures
        le == name_le(platform, a@, b@),
{
    match (a, b) {
        (FileName::Text(x), FileName::Text(y)) => match platform {
            Platform::Windows => {
                let x = to_lowercase(x.as_str());
                let y = to_lowercase(y.as_str());
                compare_bytes(x.as_str().as_bytes(), y.as_str().as_bytes())
            },
            Platform::Unix => compare_bytes(x.as_str().as_bytes(), y.as_str().as_bytes()),
        },
        (FileName::Raw { bytes: x, .. }, FileName::Raw { bytes: y, .. }) => compare_bytes(
            x.as_slice(),
            y.as_slice(),
        ),
        (FileName::Text(_), FileName::Raw { .. }) => true,
        (FileName::Raw { .. }, FileName::Text(_)) => false,
    }
}

/// Finds where a name belongs among names in order.
fn find_place(platform: Platform, names: &Vec<FileName>, name: &FileName) -> (place: usize)
    requires
        in_order(platform, names_view(names@)),
    ensures
        place <= names.len(),
        forall|i: int| 0 <= i < place ==> name_le(platform, #[trigger] names[i]@, name@),
        forall|i: int| place <= i < names.len() ==> name_le(platform, name@, #[trigger] names[i]@),
{
    let mut low: usize = 0;
    let mut high: usize = names.len();
    while low < high
        invariant
            in_order(platform, names_view(names@)),
            low <= high <= names.len(),
            forall|i: int| 0 <= i < low ==> name_le(platform, #[trigger] names[i]@, name@),
            forall|i: int| high <= i < names.len() ==> name_le(platform, name@, #[trigger] names[i]@),
        decreases high - low,
    {
        let middle = low + (high - low) / 2;
        let ghost view = names_view(names@);
        let le = compare_names(platform, &names[middle], name);
        if le {
            proof {
                assert forall|i: int| 0 <= i < middle + 1 implies name_le(
                    platform,
                    #[trigger] names[i]@,
                    name@,
                ) by {
                    if i < middle {
                        assert(name_le(platform, view[i], view[middle as int]));
                        law_names_are_ordered(platform, view[i], view[middle as int], name@);
                    }
                }
            }
            low = middle + 1;
        } else {
            proof {
                law_names_are_ordered(platform, names[middle as int]@, name@, name@);
                assert forall|i: int| middle <= i < names.len() implies name_le(
                    platform,
                    name@,
                    #[trigger] names[i]@,
                ) by {
                    if middle < i {
                        assert(name_le(platform, view[middle as int], view[i]));
                        law_names_are_ordered(platform, name@, view[middle as int], view[i]);
                    }
                }
            }
            high = middle;
        }
    }
    low
}

/// Sorts names.
pub fn sort_names(platform: Platform, names: Vec<FileName>) -> (sorted: Vec<FileName>)
    ensures
        is_sorted_form(platform, names_view(names@), names_view(sorted@)),
        sorted@.to_multiset() == names@.to_multiset(),
{
    let mut rest = names;
    let mut sorted: Vec<FileName> = Vec::new();
    let ghost all = names_view(names@);
    proof {
        broadcast use vstd::seq_lib::group_to_multiset_ensures;

        assert(names_view(sorted@) =~= Seq::empty());
        assert(names@.to_multiset() =~= names@.to_multiset().add(
            Seq::<FileName>::empty().to_multiset(),
        ));
        assert(sorted@ =~= Seq::empty());
        assert(all.to_multiset() =~= all.to_multiset().add(Seq::<FileNameView>::empty().to_multiset()));
    }
    while rest.len() > 0
        invariant
            in_order(platform, names_view(sorted@)),
            names_view(rest@).to_multiset().add(names_view(sorted@).to_multiset())
                == all.to_multiset(),
            rest@.to_multiset().add(sorted@.to_multiset()) == names@.to_multiset(),
        decreases rest.len(),
    {
        let ghost before = names_view(rest@);
        let ghost done = names_view(sorted@);
        let ghost unsorted = rest@;
        let ghost placed = sorted@;
        match rest.pop() {
            None => {},
            Some(name) => {
                let place = find_place(platform, &sorted, &name);
                let ghost x = name@;
                sorted.insert(place, name);
                proof {
                    broadcast use vstd::seq_lib::group_to_multiset_ensures;

                    let after = names_view(sorted@);
                    assert(after =~= done.insert(place as int, x));
                    vstd::seq_lib::to_multiset_insert(done, place as int, x);
                    vstd::seq_lib::to_multiset_insert(placed, place as int, name);
                    assert(unsorted =~= rest@.push(name));
                    assert(unsorted.to_multiset() =~= rest@.to_multiset().insert(name));
                    assert(rest@.to_multiset().add(sorted@.to_multiset())
                        =~= unsorted.to_multiset().add(placed.to_multiset()));
                    assert(before =~= names_view(rest@).push(x));
                    assert(before.to_multiset() =~= names_view(rest@).to_multiset().insert(x));
                    assert(names_view(rest@).to_multiset().add(after.to_multiset())
                        =~= before.to_multiset().add(done.to_multiset()));
                    assert forall|i: int, j: int| 0 <= i < j < after.len() implies name_le(
                        platform,
                        #[trigger] after[i],
                        #[trigger] after[j],
                    ) by {
                        if i < place && j < place {
                            assert(name_le(platform, done[i], done[j]));
                        } else if i < place && j == place {
                            assert(after[i] == done[i]);
                        } else if i < place {
                            assert(name_le(platform, done[i], done[j - 1]));
                        } else if i == place {
                            assert(after[j] == done[j - 1]);
                        } else {
                            assert(name_le(platform, done[i - 1], done[j - 1]));
                        }
                    }
                }
            },
        }
    }
    proof {
        broadcast use vstd::seq_lib::group_to_multiset_ensures;

        assert(names_view(rest@) =~= Seq::empty());
        assert(names_view(sorted@).to_multiset() =~= all.to_multiset());
        assert(rest@ =~= Seq::empty());
        assert(sorted@.to_multiset() =~= names@.to_multiset());
    }
    sorted
}

} // verus!
