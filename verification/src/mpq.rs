//! Ordering of the MPQ archives that hold the client data.

use crate::text::chars_of;
use vstd::prelude::*;

verus! {

/// The character code of `c` after ASCII upper-casing (other characters unchanged).
pub open spec fn upper_code(c: char) -> u32 {
    let n = c as u32;
    if 97 <= n <= 122 {
        (n - 32) as u32
    } else {
        n
    }
}

/// `s` equals `pat` when compared ASCII case-insensitively (`pat` is upper case).
pub open spec fn matches_upper(s: Seq<char>, pat: Seq<char>) -> bool {
    &&& s.len() == pat.len()
    &&& forall|i: int| 0 <= i < s.len() ==> upper_code(#[trigger] s[i]) == pat[i] as u32
}

/// Sort key of a patch archive name: `patch.mpq` is 0, `patch-0.mpq` .. `patch-9.mpq`
/// are 1 .. 10, `patch-A.mpq` .. `patch-Z.mpq` are 11 .. 36 (letters and the
/// extension compared case-insensitively), anything else is `u32::MAX`.
pub open spec fn spec_patch_sort_key(name: Seq<char>) -> u32 {
    let n = name.len();
    if n < 4 || !matches_upper(name.subrange(n - 4, n as int), seq!['.', 'M', 'P', 'Q']) {
        u32::MAX
    } else {
        let stem = name.subrange(0, n - 4);
        if matches_upper(stem, seq!['P', 'A', 'T', 'C', 'H']) {
            0
        } else if stem.len() == 7 && matches_upper(
            stem.subrange(0, 6),
            seq!['P', 'A', 'T', 'C', 'H', '-'],
        ) {
            let c = upper_code(stem[6]);
            if 48 <= c <= 57 {
                (c - 48 + 1) as u32
            } else if 65 <= c <= 90 {
                (c - 65 + 11) as u32
            } else {
                u32::MAX
            }
        } else {
            u32::MAX
        }
    }
}

fn upper_code_of(c: char) -> (r: u32)
    ensures
        r == upper_code(c),
{
    let n = c as u32;
    if 97 <= n && n <= 122 {
        n - 32
    } else {
        n
    }
}

/// Compares `chars[start .. start + pat.len()]` with the upper-case pattern `pat`.
fn matches_upper_at(chars: &Vec<char>, start: usize, pat: &Vec<char>) -> (r: bool)
    requires
        start + pat.len() <= chars.len(),
    ensures
        r == matches_upper(chars@.subrange(start as int, start + pat.len()), pat@),
{
    let ghost sub = chars@.subrange(start as int, start + pat.len());
    let mut i: usize = 0;
    while i < pat.len()
        invariant
            i <= pat.len(),
            start + pat.len() <= chars.len(),
            sub == chars@.subrange(start as int, start + pat.len()),
            forall|j: int| 0 <= j < i ==> upper_code(#[trigger] sub[j]) == pat@[j] as u32,
        decreases pat.len() - i,
    {
        if upper_code_of(chars[start + i]) != pat[i] as u32 {
            assert(sub[i as int] == chars@[start + i]);
            return false;
        }
        i = i + 1;
    }
    true
}

/// Returns a sort key for patch MPQ filenames (case-insensitive extension).
///
/// Priority order (lowest to highest): `patch.mpq` -> 0, `patch-0.mpq` -> 1, ...,
/// `patch-9.mpq` -> 10, `patch-A.mpq` -> 11, ..., `patch-Z.mpq` -> 36,
/// anything else -> `u32::MAX`.
pub fn patch_sort_key(name: &str) -> (key: u32)
    ensures
        key == spec_patch_sort_key(name@),
{
    let chars = chars_of(name);
    let n = chars.len();
    let ext = vec!['.', 'M', 'P', 'Q'];
    if n < 4 || !matches_upper_at(&chars, n - 4, &ext) {
        return u32::MAX;
    }
    let ghost stem = chars@.subrange(0, n - 4);
    let base = vec!['P', 'A', 'T', 'C', 'H'];
    if n - 4 == 5 && matches_upper_at(&chars, 0, &base) {
        assert(stem =~= chars@.subrange(0, 5));
        return 0;
    }
    assert(n - 4 == 5 ==> stem =~= chars@.subrange(0, 5));
    let prefix = vec!['P', 'A', 'T', 'C', 'H', '-'];
    if n - 4 == 7 && matches_upper_at(&chars, 0, &prefix) {
        assert(stem.subrange(0, 6) =~= chars@.subrange(0, 6));
        let c = upper_code_of(chars[6]);
        if 48 <= c && c <= 57 {
            return c - 48 + 1;
        }
        if 65 <= c && c <= 90 {
            return c - 65 + 11;
        }
        return u32::MAX;
    }
    assert(n - 4 == 7 ==> stem.subrange(0, 6) =~= chars@.subrange(0, 6));
    u32::MAX
}

/// Names of the fixed base archives, in the order the client loads them.
pub open spec fn spec_base_archive_names() -> Seq<Seq<char>> {
    seq![
        "model"@,
        "texture"@,
        "terrain"@,
        "wmo"@,
        "sound"@,
        "misc"@,
        "interface"@,
        "fonts"@,
        "speech"@,
        "dbc"@,
        "speech2"@,
    ]
}

/// Names of the fixed base archives (without extension), in load order.
pub fn base_archive_names() -> (v: Vec<&'static str>)
    ensures
        v@.len() == spec_base_archive_names().len(),
        forall|i: int| 0 <= i < v@.len() ==> (#[trigger] v@[i])@ == spec_base_archive_names()[i],
{
    vec!["model", "texture", "terrain", "wmo", "sound", "misc", "interface", "fonts", "speech", "dbc", "speech2"]
}

/// Which spellings of one base archive exist: `NAME.MPQ` and `NAME.mpq`.
#[derive(Debug, Clone, Copy, PartialEq, Eq, Structural)]
pub struct BaseProbe {
    pub upper_exists: bool,
    pub lower_exists: bool,
}

/// One archive of the load list: a base archive (by its position in the base
/// list, with the upper-case `.MPQ` or the lower-case `.mpq` spelling), or a
/// patch archive by its file name.
#[derive(Debug, Clone, PartialEq)]
pub enum ArchiveName {
    Base { index: usize, upper: bool },
    Patch(String),
}

pub enum ArchiveNameView {
    Base { index: usize, upper: bool },
    Patch(Seq<char>),
}

impl View for ArchiveName {
    type V = ArchiveNameView;

    open spec fn view(&self) -> ArchiveNameView {
        match self {
            ArchiveName::Base { index, upper } => ArchiveNameView::Base {
                index: *index,
                upper: *upper,
            },
            ArchiveName::Patch(s) => ArchiveNameView::Patch(s@),
        }
    }
}

/// The base archives found among the first `n` probes: the upper-case
/// spelling when it exists, else the lower-case one, else none.
pub open spec fn spec_base_archives(probes: Seq<BaseProbe>, n: nat) -> Seq<ArchiveNameView>
    decreases n,
{
    if n == 0 {
        Seq::empty()
    } else {
        let prev = spec_base_archives(probes, (n - 1) as nat);
        let p = probes[n - 1];
        if p.upper_exists {
            prev.push(ArchiveNameView::Base { index: (n - 1) as usize, upper: true })
        } else if p.lower_exists {
            prev.push(ArchiveNameView::Base { index: (n - 1) as usize, upper: false })
        } else {
            prev
        }
    }
}

/// The names among the first `n` of `names` whose sort key is `k`, in order.
pub open spec fn names_with_key(names: Seq<Seq<char>>, k: u32, n: nat) -> Seq<Seq<char>>
    decreases n,
{
    if n == 0 {
        Seq::empty()
    } else {
        let prev = names_with_key(names, k, (n - 1) as nat);
        if spec_patch_sort_key(names[n - 1]) == k {
            prev.push(names[n - 1])
        } else {
            prev
        }
    }
}

/// The patch archives among `names` with a key below `kmax`: grouped by
/// increasing key, and in their original order within one key.
pub open spec fn patches_below(names: Seq<Seq<char>>, kmax: nat) -> Seq<Seq<char>>
    decreases kmax,
{
    if kmax == 0 {
        Seq::empty()
    } else {
        patches_below(names, (kmax - 1) as nat) + names_with_key(
            names,
            (kmax - 1) as u32,
            names.len(),
        )
    }
}

/// The patch archives among `names`, stably sorted by their key.
pub open spec fn spec_patch_order(names: Seq<Seq<char>>) -> Seq<Seq<char>> {
    patches_below(names, 37)
}

/// The load list: the base archives found, then the patch archives in key order.
pub open spec fn spec_build_mpq_list(probes: Seq<BaseProbe>, names: Seq<Seq<char>>) -> Seq<
    ArchiveNameView,
> {
    spec_base_archives(probes, probes.len()) + spec_patch_order(names).map_values(
        |s: Seq<char>| ArchiveNameView::Patch(s),
    )
}

/// Returns the MPQ archives ordered from lowest to highest priority.
///
/// Fixed base archives come first (in the client load order), each resolved to
/// `NAME.MPQ` when that exists, else `NAME.mpq`, and skipped when neither does;
/// then the patch archives among `dir_entries` (file names found in the data
/// directory), sorted by [`patch_sort_key`].
pub fn build_mpq_list(base: &[BaseProbe], dir_entries: &[String]) -> (list: Vec<ArchiveName>)
    ensures
        list@.map_values(|a: ArchiveName| a@) == spec_build_mpq_list(
            base@,
            dir_entries@.map_values(|s: String| s@),
        ),
{
    let ghost names = dir_entries@.map_values(|s: String| s@);
    let mut list: Vec<ArchiveName> = Vec::new();
    let mut i: usize = 0;
    while i < base.len()
        invariant
            i <= base@.len(),
            list@.map_values(|a: ArchiveName| a@) == spec_base_archives(base@, i as nat),
        decreases base@.len() - i,
    {
        if base[i].upper_exists {
            list.push(ArchiveName::Base { index: i, upper: true });
        } else if base[i].lower_exists {
            list.push(ArchiveName::Base { index: i, upper: false });
        }
        assert(list@.map_values(|a: ArchiveName| a@) =~= spec_base_archives(base@, (i + 1) as nat));
        i = i + 1;
    }
    let ghost base_part = list@.map_values(|a: ArchiveName| a@);
    let mut keys: Vec<u32> = Vec::new();
    let mut j: usize = 0;
    while j < dir_entries.len()
        invariant
            j <= dir_entries@.len(),
            keys@.len() == j,
            forall|t: int| 0 <= t < j ==> #[trigger] keys@[t] == spec_patch_sort_key(dir_entries@[t]@),
        decreases dir_entries@.len() - j,
    {
        keys.push(patch_sort_key(dir_entries[j].as_str()));
        j = j + 1;
    }
    let mut k: u32 = 0;
    while k < 37
        invariant
            k <= 37,
            names == dir_entries@.map_values(|s: String| s@),
            keys@.len() == dir_entries@.len(),
            forall|t: int| 0 <= t < keys@.len() ==> #[trigger] keys@[t] == spec_patch_sort_key(dir_entries@[t]@),
            list@.map_values(|a: ArchiveName| a@) == base_part + patches_below(names, k as nat).map_values(
                |s: Seq<char>| ArchiveNameView::Patch(s),
            ),
        decreases 37 - k,
    {
        let ghost before = list@.map_values(|a: ArchiveName| a@);
        let mut t: usize = 0;
        while t < dir_entries.len()
            invariant
                k < 37,
                t <= dir_entries@.len(),
                names == dir_entries@.map_values(|s: String| s@),
                keys@.len() == dir_entries@.len(),
                forall|q: int| 0 <= q < keys@.len() ==> #[trigger] keys@[q] == spec_patch_sort_key(dir_entries@[q]@),
                list@.map_values(|a: ArchiveName| a@) == before + names_with_key(names, k, t as nat).map_values(
                    |s: Seq<char>| ArchiveNameView::Patch(s),
                ),
            decreases dir_entries@.len() - t,
        {
            assert(names[t as int] == dir_entries@[t as int]@);
            assert(keys@[t as int] == spec_patch_sort_key(names[t as int]));
            let ghost prev = names_with_key(names, k, t as nat);
            let ghost old_list = list@;
            if keys[t] == k {
                let name = dir_entries[t].clone();
                list.push(ArchiveName::Patch(name));
                assert(names_with_key(names, k, (t + 1) as nat) == prev.push(names[t as int]));
                assert(list@.map_values(|a: ArchiveName| a@) =~= old_list.map_values(|a: ArchiveName| a@).push(ArchiveNameView::Patch(names[t as int])));
                assert(prev.push(names[t as int]).map_values(|s: Seq<char>| ArchiveNameView::Patch(s)) =~= prev.map_values(|s: Seq<char>| ArchiveNameView::Patch(s)).push(ArchiveNameView::Patch(names[t as int])));
            } else {
                assert(names_with_key(names, k, (t + 1) as nat) == prev);
            }
            assert(list@.map_values(|a: ArchiveName| a@) =~= before + names_with_key(names, k, (t + 1) as nat).map_values(
                |s: Seq<char>| ArchiveNameView::Patch(s),
            ));
            t = t + 1;
        }
        assert(names.len() == dir_entries@.len());
        assert(patches_below(names, (k + 1) as nat) == patches_below(names, k as nat) + names_with_key(names, k, names.len()));
        assert(list@.map_values(|a: ArchiveName| a@) =~= base_part + patches_below(names, (k + 1) as nat).map_values(
            |s: Seq<char>| ArchiveNameView::Patch(s),
        ));
        k = k + 1;
    }
    list
}

proof fn lemma_names_with_key_keys(names: Seq<Seq<char>>, k: u32, n: nat)
    requires
        n <= names.len(),
    ensures
        forall|i: int|
            0 <= i < names_with_key(names, k, n).len() ==> spec_patch_sort_key(
                #[trigger] names_with_key(names, k, n)[i],
            ) == k,
    decreases n,
{
    if n > 0 {
        lemma_names_with_key_keys(names, k, (n - 1) as nat);
        let prev = names_with_key(names, k, (n - 1) as nat);
        assert forall|i: int|
            0 <= i < names_with_key(names, k, n).len() implies spec_patch_sort_key(
            #[trigger] names_with_key(names, k, n)[i],
        ) == k by {
            if i < prev.len() {
                assert(names_with_key(names, k, n)[i] == prev[i]);
            }
        }
    }
}

proof fn lemma_names_with_key_count(names: Seq<Seq<char>>, k: u32, n: nat, x: Seq<char>)
    requires
        n <= names.len(),
    ensures
        names_with_key(names, k, n).to_multiset().count(x) == if spec_patch_sort_key(x) == k {
            names.take(n as int).to_multiset().count(x)
        } else {
            0
        },
    decreases n,
{
    broadcast use vstd::seq_lib::group_to_multiset_ensures;
    broadcast use vstd::multiset::group_multiset_axioms;

    if n == 0 {
        assert(names.take(0) =~= Seq::<Seq<char>>::empty());
    } else {
        lemma_names_with_key_count(names, k, (n - 1) as nat, x);
        assert(names.take(n as int) =~= names.take(n - 1).push(names[n - 1]));
    }
}

proof fn lemma_patches_below(names: Seq<Seq<char>>, kmax: nat)
    requires
        kmax <= 37,
    ensures
        forall|i: int|
            0 <= i < patches_below(names, kmax).len() ==> spec_patch_sort_key(
                #[trigger] patches_below(names, kmax)[i],
            ) < kmax,
        forall|i: int, j: int|
            0 <= i < j < patches_below(names, kmax).len() ==> spec_patch_sort_key(
                #[trigger] patches_below(names, kmax)[i],
            ) <= spec_patch_sort_key(#[trigger] patches_below(names, kmax)[j]),
        forall|x: Seq<char>|
            #[trigger] patches_below(names, kmax).to_multiset().count(x) == if spec_patch_sort_key(x)
                < kmax {
                names.to_multiset().count(x)
            } else {
                0
            },
    decreases kmax,
{
    broadcast use vstd::seq_lib::group_to_multiset_ensures;
    broadcast use vstd::multiset::group_multiset_axioms;

    if kmax == 0 {
        assert forall|x: Seq<char>| #[trigger]
            patches_below(names, kmax).to_multiset().count(x) == 0 by {}
    } else {
        let k = (kmax - 1) as u32;
        let prev = patches_below(names, (kmax - 1) as nat);
        let bucket = names_with_key(names, k, names.len());
        lemma_patches_below(names, (kmax - 1) as nat);
        lemma_names_with_key_keys(names, k, names.len());
        assert(patches_below(names, kmax) == prev + bucket);
        assert forall|i: int|
            0 <= i < patches_below(names, kmax).len() implies spec_patch_sort_key(
            #[trigger] patches_below(names, kmax)[i],
        ) < kmax by {
            if i < prev.len() {
                assert(patches_below(names, kmax)[i] == prev[i]);
            } else {
                assert(patches_below(names, kmax)[i] == bucket[i - prev.len()]);
            }
        }
        assert forall|i: int, j: int|
            0 <= i < j < patches_below(names, kmax).len() implies spec_patch_sort_key(
            #[trigger] patches_below(names, kmax)[i],
        ) <= spec_patch_sort_key(#[trigger] patches_below(names, kmax)[j]) by {
            if j < prev.len() {
                assert(patches_below(names, kmax)[i] == prev[i]);
                assert(patches_below(names, kmax)[j] == prev[j]);
            } else if i < prev.len() {
                assert(patches_below(names, kmax)[i] == prev[i]);
                assert(patches_below(names, kmax)[j] == bucket[j - prev.len()]);
            } else {
                assert(patches_below(names, kmax)[i] == bucket[i - prev.len()]);
                assert(patches_below(names, kmax)[j] == bucket[j - prev.len()]);
            }
        }
        assert forall|x: Seq<char>| #[trigger]
            patches_below(names, kmax).to_multiset().count(x) == if spec_patch_sort_key(x)
                < kmax {
                names.to_multiset().count(x)
            } else {
                0
            } by {
            vstd::seq_lib::lemma_multiset_commutative(prev, bucket);
            lemma_names_with_key_count(names, k, names.len(), x);
            assert(names.take(names.len() as int) =~= names);
        }
    }
}

/// A patch name has a key other than `u32::MAX` exactly when its key is at most 36.
proof fn lemma_key_range(name: Seq<char>)
    ensures
        spec_patch_sort_key(name) != u32::MAX <==> spec_patch_sort_key(name) < 37,
{
}

/// The patch part of the load list is sorted by key, holds only patch
/// archives, and holds each patch archive of the directory as often as the
/// directory lists it.
pub proof fn lemma_patch_order_sorted_permutation(names: Seq<Seq<char>>)
    ensures
        forall|i: int, j: int|
            0 <= i < j < spec_patch_order(names).len() ==> spec_patch_sort_key(
                #[trigger] spec_patch_order(names)[i],
            ) <= spec_patch_sort_key(#[trigger] spec_patch_order(names)[j]),
        forall|i: int|
            0 <= i < spec_patch_order(names).len() ==> spec_patch_sort_key(
                #[trigger] spec_patch_order(names)[i],
            ) != u32::MAX,
        forall|x: Seq<char>|
            #[trigger] spec_patch_order(names).to_multiset().count(x) == if spec_patch_sort_key(x)
                != u32::MAX {
                names.to_multiset().count(x)
            } else {
                0
            },
{
    lemma_patches_below(names, 37);
    assert forall|x: Seq<char>| #[trigger]
        spec_patch_order(names).to_multiset().count(x) == if spec_patch_sort_key(x) != u32::MAX {
            names.to_multiset().count(x)
        } else {
            0
        } by {
        lemma_key_range(x);
    }
}


/// Whether either spelling of a base archive exists.
pub open spec fn probe_found() -> spec_fn(BaseProbe) -> bool {
    |p: BaseProbe| p.upper_exists || p.lower_exists
}

/// Whether a load-list entry is a base archive.
pub open spec fn is_base_archive() -> spec_fn(ArchiveNameView) -> bool {
    |a: ArchiveNameView| a is Base
}

proof fn lemma_base_archives_shape(probes: Seq<BaseProbe>, n: nat)
    requires
        n <= probes.len(),
        probes.len() <= usize::MAX,
    ensures
        forall|p: int|
            0 <= p < spec_base_archives(probes, n).len() ==> (#[trigger] spec_base_archives(
                probes,
                n,
            )[p]) is Base && spec_base_archives(probes, n)[p]->index < n && (probes[spec_base_archives(
                probes,
                n,
            )[p]->index as int].upper_exists || probes[spec_base_archives(probes, n)[p]->index as int].lower_exists)
                && spec_base_archives(probes, n)[p]->upper == probes[spec_base_archives(
                probes,
                n,
            )[p]->index as int].upper_exists,
        forall|p: int, q: int|
            0 <= p < q < spec_base_archives(probes, n).len() ==> (#[trigger] spec_base_archives(
                probes,
                n,
            )[p])->index < (#[trigger] spec_base_archives(probes, n)[q])->index,
        forall|i: int|
            0 <= i < n && ((#[trigger] probes[i]).upper_exists || probes[i].lower_exists)
                ==> spec_base_archives(probes, n).contains(
                ArchiveNameView::Base { index: i as usize, upper: probes[i].upper_exists },
            ),
        spec_base_archives(probes, n).len() == probes.take(n as int).filter(probe_found()).len(),
    decreases n,
{
    reveal(Seq::filter);
    if n > 0 {
        let m = (n - 1) as nat;
        lemma_base_archives_shape(probes, m);
        let prev = spec_base_archives(probes, m);
        let b = spec_base_archives(probes, n);
        assert(probes.take(n as int).drop_last() =~= probes.take(m as int));
        assert forall|p: int| 0 <= p < b.len() implies (#[trigger] b[p]) is Base && b[p]->index < n
            && (probes[b[p]->index as int].upper_exists || probes[b[p]->index as int].lower_exists)
            && b[p]->upper == probes[b[p]->index as int].upper_exists by {
            if p < prev.len() {
                assert(b[p] == prev[p]);
            }
        }
        assert forall|p: int, q: int| 0 <= p < q < b.len() implies (#[trigger] b[p])->index < (
        #[trigger] b[q])->index by {
            if q < prev.len() {
                assert(b[p] == prev[p] && b[q] == prev[q]);
            } else {
                assert(b[p] == prev[p]);
            }
        }
        assert forall|i: int|
            0 <= i < n && ((#[trigger] probes[i]).upper_exists || probes[i].lower_exists) implies b.contains(
            ArchiveNameView::Base { index: i as usize, upper: probes[i].upper_exists },
        ) by {
            let a = ArchiveNameView::Base { index: i as usize, upper: probes[i].upper_exists };
            if i < m {
                let p = choose|p: int| 0 <= p < prev.len() && prev[p] == a;
                assert(b[p] == prev[p]);
            } else {
                assert(b[b.len() - 1] == a);
            }
        }
    }
}

proof fn lemma_filter_keeps_all<A>(s: Seq<A>, pred: spec_fn(A) -> bool)
    requires
        forall|i: int| 0 <= i < s.len() ==> pred(#[trigger] s[i]),
    ensures
        s.filter(pred) == s,
    decreases s.len(),
{
    reveal(Seq::filter);
    if s.len() > 0 {
        lemma_filter_keeps_all(s.drop_last(), pred);
        assert(s.drop_last().push(s.last()) =~= s);
    }
}

proof fn lemma_filter_keeps_none<A>(s: Seq<A>, pred: spec_fn(A) -> bool)
    requires
        forall|i: int| 0 <= i < s.len() ==> !pred(#[trigger] s[i]),
    ensures
        s.filter(pred).len() == 0,
    decreases s.len(),
{
    reveal(Seq::filter);
    if s.len() > 0 {
        lemma_filter_keeps_none(s.drop_last(), pred);
    }
}

/// The load list holds every base archive that exists, and nothing else
/// before the patches: for each probe with either spelling found, the entry
/// for that base position with the upper-case spelling exactly when it exists;
/// each base entry names a found probe with its spelling; base entries come
/// first, in increasing position; and there are as many base entries as found
/// probes.
pub proof fn lemma_load_list_base_archives(probes: Seq<BaseProbe>, names: Seq<Seq<char>>)
    requires
        probes.len() <= usize::MAX,
    ensures
        forall|i: int|
            0 <= i < probes.len() && ((#[trigger] probes[i]).upper_exists || probes[i].lower_exists)
                ==> spec_build_mpq_list(probes, names).contains(
                ArchiveNameView::Base { index: i as usize, upper: probes[i].upper_exists },
            ),
        forall|p: int|
            0 <= p < spec_build_mpq_list(probes, names).len() && (#[trigger] spec_build_mpq_list(
                probes,
                names,
            )[p]) is Base ==> spec_build_mpq_list(probes, names)[p]->index < probes.len() && (
            probes[spec_build_mpq_list(probes, names)[p]->index as int].upper_exists
                || probes[spec_build_mpq_list(probes, names)[p]->index as int].lower_exists)
                && spec_build_mpq_list(probes, names)[p]->upper == probes[spec_build_mpq_list(
                probes,
                names,
            )[p]->index as int].upper_exists,
        forall|p: int, q: int|
            0 <= p < q < spec_build_mpq_list(probes, names).len() && (#[trigger] spec_build_mpq_list(
                probes,
                names,
            )[q]) is Base ==> (#[trigger] spec_build_mpq_list(probes, names)[p]) is Base
                && spec_build_mpq_list(probes, names)[p]->index < spec_build_mpq_list(
                probes,
                names,
            )[q]->index,
        spec_build_mpq_list(probes, names).filter(is_base_archive()).len() == probes.filter(
            probe_found(),
        ).len(),
{
    broadcast use Seq::filter_distributes_over_add;

    let n = probes.len();
    lemma_base_archives_shape(probes, n);
    let b = spec_base_archives(probes, n);
    let pt = spec_patch_order(names).map_values(|s: Seq<char>| ArchiveNameView::Patch(s));
    let l = spec_build_mpq_list(probes, names);
    assert(l == b + pt);
    assert(probes.take(n as int) =~= probes);
    assert forall|i: int|
        0 <= i < probes.len() && ((#[trigger] probes[i]).upper_exists || probes[i].lower_exists)
            implies l.contains(ArchiveNameView::Base { index: i as usize, upper: probes[i].upper_exists }) by {
        let a = ArchiveNameView::Base { index: i as usize, upper: probes[i].upper_exists };
        let p = choose|p: int| 0 <= p < b.len() && b[p] == a;
        assert(l[p] == b[p]);
    }
    assert forall|p: int| 0 <= p < l.len() && (#[trigger] l[p]) is Base implies l[p]->index
        < probes.len() && (probes[l[p]->index as int].upper_exists || probes[l[p]->index as int].lower_exists)
        && l[p]->upper == probes[l[p]->index as int].upper_exists by {
        assert(p < b.len());
        assert(l[p] == b[p]);
    }
    assert forall|p: int, q: int| 0 <= p < q < l.len() && (#[trigger] l[q]) is Base implies (
    #[trigger] l[p]) is Base && l[p]->index < l[q]->index by {
        assert(q < b.len());
        assert(l[p] == b[p] && l[q] == b[q]);
    }
    lemma_filter_keeps_all(b, is_base_archive());
    lemma_filter_keeps_none(pt, is_base_archive());
    assert(l.filter(is_base_archive()) == b.filter(is_base_archive()) + pt.filter(is_base_archive()));
}

} // verus!
