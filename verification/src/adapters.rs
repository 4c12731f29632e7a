//! Registry of the table adapters that load and update File scan status.
//!
//! Products register an adapter per File table at boot; the Meson teaching tables
//! are registered the first time the registry is consulted.

use vstd::prelude::*;
use crate::readiness::FileScanAdapterError;
use crate::text::{chars_eq, chars_of};

verus! {

/// Which adapter serves a table: one of the built-in File models, or a host adapter
/// identified by the host's own number.
#[derive(Clone, Copy, Debug, PartialEq, Eq, Structural)]
pub enum AdapterRef {
    /// The `e2e_meson_file` model.
    E2eMesonFile,
    /// The `e2e_meson_profile_photo` model.
    E2eMesonProfilePhoto,
    /// The `receipt_scan` model.
    ReceiptScan,
    /// A host adapter.
    Custom(u64),
}

/// Generic adapter over a generated File model.
pub struct ModelFileScanAdapter<M> {
    _marker: core::marker::PhantomData<M>,
}

impl<M> ModelFileScanAdapter<M> {
    /// The adapter for model `M`.
    pub fn default() -> (r: Self) {
        ModelFileScanAdapter { _marker: core::marker::PhantomData }
    }
}

/// Table → adapter map of a list of registrations, later ones winning.
pub open spec fn entries_map(s: Seq<(Seq<char>, AdapterRef)>) -> Map<Seq<char>, AdapterRef>
    decreases s.len(),
{
    if s.len() == 0 {
        Map::empty()
    } else {
        entries_map(s.drop_last()).insert(s.last().0, s.last().1)
    }
}

/// No table occurs twice.
pub open spec fn unique_tables(s: Seq<(Seq<char>, AdapterRef)>) -> bool {
    forall|i: int, j: int| 0 <= i < j < s.len() ==> #[trigger] s[i].0 != #[trigger] s[j].0
}

/// The table adapters and whether the built-in ones have been registered.
pub struct FileScanAdapters {
    entries: Vec<(String, AdapterRef)>,
    builtins_registered: bool,
}

/// The built-in teaching tables and their adapters.
pub open spec fn builtin_adapters() -> Map<Seq<char>, AdapterRef> {
    Map::empty().insert("e2e_meson_file"@, AdapterRef::E2eMesonFile).insert(
        "e2e_meson_profile_photo"@,
        AdapterRef::E2eMesonProfilePhoto,
    ).insert("receipt_scan"@, AdapterRef::ReceiptScan)
}

proof fn lemma_entries_map_update(s: Seq<(Seq<char>, AdapterRef)>, i: int, a: AdapterRef)
    requires
        unique_tables(s),
        0 <= i < s.len(),
    ensures
        entries_map(s.update(i, (s[i].0, a))) == entries_map(s).insert(s[i].0, a),
        unique_tables(s.update(i, (s[i].0, a))),
    decreases s.len(),
{
    let k = s[i].0;
    let t = s.update(i, (k, a));
    if i == s.len() - 1 {
        assert(t.drop_last() =~= s.drop_last());
        assert(entries_map(t) =~= entries_map(s).insert(k, a));
    } else {
        let d = s.drop_last();
        assert(unique_tables(d)) by {
            assert forall|x: int, y: int| 0 <= x < y < d.len() implies #[trigger] d[x].0
                != #[trigger] d[y].0 by {
                assert(d[x] == s[x] && d[y] == s[y]);
            }
        }
        lemma_entries_map_update(d, i, a);
        assert(t.drop_last() =~= d.update(i, (k, a)));
        assert(s.last().0 != k);
        assert(entries_map(t) =~= entries_map(s).insert(k, a));
    }
    assert forall|x: int, y: int| 0 <= x < y < t.len() implies #[trigger] t[x].0
        != #[trigger] t[y].0 by {
        assert(s[x].0 != s[y].0);
    }
}

proof fn lemma_entries_map_push(s: Seq<(Seq<char>, AdapterRef)>, k: Seq<char>, a: AdapterRef)
    requires
        unique_tables(s),
        !entries_map(s).dom().contains(k),
    ensures
        entries_map(s.push((k, a))) == entries_map(s).insert(k, a),
        unique_tables(s.push((k, a))),
{
    assert(s.push((k, a)).drop_last() =~= s);
    let t = s.push((k, a));
    assert forall|x: int, y: int| 0 <= x < y < t.len() implies #[trigger] t[x].0
        != #[trigger] t[y].0 by {
        if y == t.len() - 1 {
            lemma_entries_map_contains(s, x);
        } else {
            assert(s[x].0 != s[y].0);
        }
    }
}

proof fn lemma_entries_map_contains(s: Seq<(Seq<char>, AdapterRef)>, i: int)
    requires
        0 <= i < s.len(),
    ensures
        entries_map(s).dom().contains(s[i].0),
    decreases s.len(),
{
    if i < s.len() - 1 {
        lemma_entries_map_contains(s.drop_last(), i);
        assert(s.drop_last()[i] == s[i]);
    }
}

proof fn lemma_entries_map_lookup(s: Seq<(Seq<char>, AdapterRef)>, i: int)
    requires
        unique_tables(s),
        0 <= i < s.len(),
    ensures
        entries_map(s).dom().contains(s[i].0),
        entries_map(s)[s[i].0] == s[i].1,
    decreases s.len(),
{
    if i < s.len() - 1 {
        let d = s.drop_last();
        assert(unique_tables(d)) by {
            assert forall|x: int, y: int| 0 <= x < y < d.len() implies #[trigger] d[x].0
                != #[trigger] d[y].0 by {
                assert(d[x] == s[x] && d[y] == s[y]);
            }
        }
        lemma_entries_map_lookup(d, i);
        assert(d[i] == s[i]);
    }
}

proof fn lemma_entries_map_absent(s: Seq<(Seq<char>, AdapterRef)>, k: Seq<char>)
    requires
        forall|i: int| 0 <= i < s.len() ==> #[trigger] s[i].0 != k,
    ensures
        !entries_map(s).dom().contains(k),
    decreases s.len(),
{
    if s.len() > 0 {
        let d = s.drop_last();
        assert forall|i: int| 0 <= i < d.len() implies #[trigger] d[i].0 != k by {
            assert(d[i] == s[i]);
        }
        lemma_entries_map_absent(d, k);
    }
}

impl FileScanAdapters {
    /// The registrations as table names and adapters.
    pub closed spec fn entries_view(&self) -> Seq<(Seq<char>, AdapterRef)> {
        Seq::new(self.entries@.len(), |i: int| (self.entries@[i].0@, self.entries@[i].1))
    }

    /// Table → adapter.
    pub closed spec fn adapters(&self) -> Map<Seq<char>, AdapterRef> {
        entries_map(self.entries_view())
    }

    /// Whether the built-in adapters have been registered since the last clear.
    pub closed spec fn builtins_done(&self) -> bool {
        self.builtins_registered
    }

    /// The registry's invariant: no table registered twice.
    pub closed spec fn wf(&self) -> bool {
        unique_tables(self.entries_view())
    }

    /// An empty registry.
    pub fn new() -> (r: Self)
        ensures
            r.wf(),
            r.adapters() == Map::<Seq<char>, AdapterRef>::empty(),
            !r.builtins_done(),
    {
        let r = FileScanAdapters { entries: Vec::new(), builtins_registered: false };
        assert(r.entries_view() =~= Seq::<(Seq<char>, AdapterRef)>::empty());
        r
    }

    /// Index of `table`'s registration.
    fn position(&self, table: &str) -> (r: Option<usize>)
        requires
            self.wf(),
        ensures
            r matches Some(i) ==> i < self.entries_view().len() && self.entries_view()[i as int].0
                == table@,
            r is None ==> forall|i: int|
                0 <= i < self.entries_view().len() ==> #[trigger] self.entries_view()[i].0
                    != table@,
    {
        let want = chars_of(table);
        let mut i: usize = 0;
        while i < self.entries.len()
            invariant
                i <= self.entries@.len(),
                want@ == table@,
                forall|k: int| 0 <= k < i ==> #[trigger] self.entries_view()[k].0 != table@,
            decreases self.entries@.len() - i,
        {
            let name = chars_of(self.entries[i].0.as_str());
            if chars_eq(&name, &want) {
                return Some(i);
            }
            i = i + 1;
        }
        None
    }
}

/// Register (or replace) the adapter for `table`.
pub fn register_file_scan_adapter(reg: &mut FileScanAdapters, table: &str, adapter: AdapterRef)
    requires
        old(reg).wf(),
    ensures
        final(reg).wf(),
        final(reg).adapters() == old(reg).adapters().insert(table@, adapter),
        final(reg).builtins_done() == old(reg).builtins_done(),
{
    let ghost before = reg.entries_view();
    match reg.position(table) {
        Some(i) => {
            reg.entries.set(i, (String::from_str(table), adapter));
            proof {
                lemma_entries_map_update(before, i as int, adapter);
                assert(reg.entries_view() =~= before.update(i as int, (before[i as int].0, adapter)));
            }
        },
        None => {
            proof {
                lemma_entries_map_absent(before, table@);
                lemma_entries_map_push(before, table@, adapter);
            }
            reg.entries.push((String::from_str(table), adapter));
            assert(reg.entries_view() =~= before.push((table@, adapter)));
        },
    }
}

/// Register the Meson teaching File models (`e2e_meson_file`,
/// `e2e_meson_profile_photo`, `receipt_scan`).
pub fn register_builtin_file_scan_adapters(reg: &mut FileScanAdapters)
    requires
        old(reg).wf(),
    ensures
        final(reg).wf(),
        final(reg).adapters() == old(reg).adapters().union_prefer_right(builtin_adapters()),
        final(reg).builtins_done() == old(reg).builtins_done(),
        final(reg).adapters().dom().contains("e2e_meson_file"@),
        final(reg).adapters()["e2e_meson_file"@] == AdapterRef::E2eMesonFile,
        final(reg).adapters().dom().contains("e2e_meson_profile_photo"@),
        final(reg).adapters()["e2e_meson_profile_photo"@] == AdapterRef::E2eMesonProfilePhoto,
        final(reg).adapters().dom().contains("receipt_scan"@),
        final(reg).adapters()["receipt_scan"@] == AdapterRef::ReceiptScan,
{
    register_file_scan_adapter(reg, "e2e_meson_file", AdapterRef::E2eMesonFile);
    register_file_scan_adapter(reg, "e2e_meson_profile_photo", AdapterRef::E2eMesonProfilePhoto);
    register_file_scan_adapter(reg, "receipt_scan", AdapterRef::ReceiptScan);
    assert(reg.adapters() =~= old(reg).adapters().union_prefer_right(builtin_adapters()));
    proof {
        lemma_builtin_tables(old(reg).adapters(), "receipt_scan"@);
    }
}

/// Law: the built-in tables resolve to their own models. Whatever a registry held, once
/// the built-ins are registered on top of it, `e2e_meson_file` maps to the
/// `E2eMesonFile` adapter, `e2e_meson_profile_photo` to `E2eMesonProfilePhoto` and
/// `receipt_scan` to `ReceiptScan`, and every other table keeps its adapter.
pub proof fn lemma_builtin_tables(before: Map<Seq<char>, AdapterRef>, table: Seq<char>)
    ensures
        before.union_prefer_right(builtin_adapters())["e2e_meson_file"@] == AdapterRef::E2eMesonFile,
        before.union_prefer_right(builtin_adapters())["e2e_meson_profile_photo"@]
            == AdapterRef::E2eMesonProfilePhoto,
        before.union_prefer_right(builtin_adapters())["receipt_scan"@] == AdapterRef::ReceiptScan,
        table != "e2e_meson_file"@ && table != "e2e_meson_profile_photo"@ && table
            != "receipt_scan"@ ==> (before.union_prefer_right(builtin_adapters()).dom().contains(
            table,
        ) == before.dom().contains(table) && (before.dom().contains(table) ==> before.union_prefer_right(
            builtin_adapters(),
        )[table] == before[table])),
{
    lemma_builtin_names_distinct();
}

/// The three built-in table names differ.
proof fn lemma_builtin_names_distinct()
    ensures
        "e2e_meson_file"@ != "e2e_meson_profile_photo"@,
        "e2e_meson_file"@ != "receipt_scan"@,
        "e2e_meson_profile_photo"@ != "receipt_scan"@,
{
    reveal_strlit("e2e_meson_file");
    reveal_strlit("e2e_meson_profile_photo");
    reveal_strlit("receipt_scan");
    assert("e2e_meson_file"@.len() != "e2e_meson_profile_photo"@.len());
    assert("e2e_meson_file"@[0] != "receipt_scan"@[0]);
    assert("e2e_meson_profile_photo"@[0] != "receipt_scan"@[0]);
}

/// Register the built-in adapters once (until the next clear).
pub fn ensure_builtins_registered(reg: &mut FileScanAdapters)
    requires
        old(reg).wf(),
    ensures
        final(reg).wf(),
        final(reg).builtins_done(),
        old(reg).builtins_done() ==> final(reg).adapters() == old(reg).adapters(),
        !old(reg).builtins_done() ==> final(reg).adapters() == old(reg).adapters().union_prefer_right(
            builtin_adapters(),
        ),
{
    if reg.builtins_registered {
        return;
    }
    register_builtin_file_scan_adapters(reg);
    reg.builtins_registered = true;
}

/// The adapter for `table`, registering the built-in ones first when needed.
pub fn file_scan_adapter(reg: &mut FileScanAdapters, table: &str) -> (r: Result<
    AdapterRef,
    FileScanAdapterError,
>)
    requires
        old(reg).wf(),
    ensures
        final(reg).wf(),
        final(reg).builtins_done(),
        final(reg).adapters() == (if old(reg).builtins_done() {
            old(reg).adapters()
        } else {
            old(reg).adapters().union_prefer_right(builtin_adapters())
        }),
        r is Ok <==> final(reg).adapters().dom().contains(table@),
        r matches Ok(a) ==> final(reg).adapters()[table@] == a,
        r matches Err(e) ==> e is UnknownTable,
        !old(reg).builtins_done() && table@ == "e2e_meson_file"@ ==> (r matches Ok(a) && a
            == AdapterRef::E2eMesonFile),
        !old(reg).builtins_done() && table@ == "e2e_meson_profile_photo"@ ==> (r matches Ok(a)
            && a == AdapterRef::E2eMesonProfilePhoto),
        !old(reg).builtins_done() && table@ == "receipt_scan"@ ==> (r matches Ok(a) && a
            == AdapterRef::ReceiptScan),
{
    ensure_builtins_registered(reg);
    proof {
        lemma_builtin_tables(old(reg).adapters(), table@);
    }
    match reg.position(table) {
        Some(i) => {
            let a = reg.entries[i].1;
            proof {
                lemma_entries_map_lookup(reg.entries_view(), i as int);
            }
            Ok(a)
        },
        None => {
            proof {
                lemma_entries_map_absent(reg.entries_view(), table@);
            }
            Err(FileScanAdapterError::UnknownTable)
        },
    }
}

/// Clear the registry, including the built-in registrations.
pub fn clear_file_scan_adapters_for_test(reg: &mut FileScanAdapters)
    ensures
        final(reg).wf(),
        final(reg).adapters() == Map::<Seq<char>, AdapterRef>::empty(),
        !final(reg).builtins_done(),
{
    reg.entries.clear();
    reg.builtins_registered = false;
    assert(reg.entries_view() =~= Seq::<(Seq<char>, AdapterRef)>::empty());
}

} // verus!
