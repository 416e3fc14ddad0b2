//! The probe registry: tracks every probe a scan has discovered and enforces
//! exclusive lending, the sole mechanism that keeps two sessions from driving
//! the same probe at once.
//!
//! An entry stays in the registry while its probe is lent; a scan refreshes
//! the available entries (dropping those that vanished, adding new ones) and
//! never touches a lent entry. The laws at the end of this module state the
//! registry's guarantees: scanning is idempotent, a probe cannot be lent
//! twice, and any number of lend/return cycles restores the registry exactly.

use vstd::pervasive::VecAdditionalExecFns;
use vstd::prelude::*;
use vstd::string::*;

use crate::error::{ConnectionFailureKind, CubeProgrammerError};
use crate::probe::{Probe, Serial};
use crate::utility::str_eq;

verus! {

/// One registry slot: a serial and, while the probe is not lent out, the
/// probe itself.
#[derive(Debug)]
pub struct RegistryEntry {
    pub serial: String,
    pub probe: Option<Probe>,
}

/// Whether some entry carries this serial.
pub open spec fn has_serial(entries: Seq<RegistryEntry>, serial: Seq<char>) -> bool {
    exists|i: int| 0 <= i < entries.len() && entries[i].serial@ == serial
}

/// The position of the entry carrying this serial; meaningful only when
/// `has_serial` holds, unique under `wf_entries`.
pub open spec fn serial_index(entries: Seq<RegistryEntry>, serial: Seq<char>) -> int {
    choose|i: int| 0 <= i < entries.len() && entries[i].serial@ == serial
}

/// Whether the probe with this serial is present and not lent out.
pub open spec fn serial_available(entries: Seq<RegistryEntry>, serial: Seq<char>) -> bool {
    has_serial(entries, serial) && entries[serial_index(entries, serial)].probe is Some
}

/// An entry holds a probe only under the probe's own serial.
pub open spec fn entry_coherent(e: RegistryEntry) -> bool {
    e.probe matches Some(p) ==> p.serial_number == e.serial
}

/// Registry well-formedness: serials are unique, and every held probe sits
/// under its own serial.
pub open spec fn wf_entries(entries: Seq<RegistryEntry>) -> bool {
    &&& forall|i: int, j: int|
        0 <= i < j < entries.len() ==> entries[i].serial@ != entries[j].serial@
    &&& forall|i: int| 0 <= i < entries.len() ==> entry_coherent(#[trigger] entries[i])
}

/// The entry a freshly discovered or returned probe occupies.
pub open spec fn available_entry(probe: Probe) -> RegistryEntry {
    RegistryEntry { serial: probe.serial_number, probe: Some(probe) }
}

/// The registry after lending the probe with this serial: the entry stays,
/// emptied. Meaningful only when the serial is available.
pub open spec fn spec_after_lend(entries: Seq<RegistryEntry>, serial: Seq<char>) -> Seq<
    RegistryEntry,
> {
    let i = serial_index(entries, serial);
    entries.update(i, RegistryEntry { serial: entries[i].serial, probe: None })
}

/// The probe that lending this serial hands out.
pub open spec fn lent_probe(entries: Seq<RegistryEntry>, serial: Seq<char>) -> Probe {
    entries[serial_index(entries, serial)].probe.unwrap()
}

/// The registry after a probe is returned: its entry is re-filled, or a new
/// entry is appended if the serial was never seen.
pub open spec fn spec_after_insert(entries: Seq<RegistryEntry>, probe: Probe) -> Seq<
    RegistryEntry,
> {
    if has_serial(entries, probe.serial_number@) {
        entries.update(serial_index(entries, probe.serial_number@), available_entry(probe))
    } else {
        entries.push(available_entry(probe))
    }
}

/// The lent entries of the registry, in order: what a scan must not touch.
pub open spec fn keep_lent(entries: Seq<RegistryEntry>) -> Seq<RegistryEntry>
    decreases entries.len(),
{
    if entries.len() == 0 {
        Seq::empty()
    } else {
        let rest = keep_lent(entries.drop_last());
        if entries.last().probe is None {
            rest.push(entries.last())
        } else {
            rest
        }
    }
}

/// Fold a scan result into the registry: each discovered probe whose serial
/// is not yet present is appended as available.
pub open spec fn add_discovered(entries: Seq<RegistryEntry>, discovered: Seq<Probe>) -> Seq<
    RegistryEntry,
>
    decreases discovered.len(),
{
    if discovered.len() == 0 {
        entries
    } else {
        let prev = add_discovered(entries, discovered.drop_last());
        if has_serial(prev, discovered.last().serial_number@) {
            prev
        } else {
            prev.push(available_entry(discovered.last()))
        }
    }
}

/// The registry after a scan that discovered these probes: lent entries are
/// kept untouched, available entries not re-discovered are dropped, new
/// serials are added as available.
pub open spec fn spec_sync(entries: Seq<RegistryEntry>, discovered: Seq<Probe>) -> Seq<
    RegistryEntry,
> {
    add_discovered(keep_lent(entries), discovered)
}

/// The serials of the available entries, in registry order.
pub open spec fn spec_available_serials(entries: Seq<RegistryEntry>) -> Seq<Seq<char>>
    decreases entries.len(),
{
    if entries.len() == 0 {
        Seq::empty()
    } else {
        let rest = spec_available_serials(entries.drop_last());
        if entries.last().probe is Some {
            rest.push(entries.last().serial@)
        } else {
            rest
        }
    }
}

/// How many entries carry this serial.
pub open spec fn count_serial(entries: Seq<RegistryEntry>, serial: Seq<char>) -> nat
    decreases entries.len(),
{
    if entries.len() == 0 {
        0
    } else {
        count_serial(entries.drop_last(), serial) + if entries.last().serial@ == serial {
            1nat
        } else {
            0nat
        }
    }
}

/// Under well-formedness, an entry's position determines `serial_index`.
proof fn lemma_index_unique(entries: Seq<RegistryEntry>, serial: Seq<char>, i: int)
    requires
        wf_entries(entries),
        0 <= i < entries.len(),
        entries[i].serial@ == serial,
    ensures
        has_serial(entries, serial),
        serial_index(entries, serial) == i,
{
    assert(has_serial(entries, serial));
    let j = serial_index(entries, serial);
    assert(0 <= j < entries.len() && entries[j].serial@ == serial);
    if i < j {
        assert(entries[i].serial@ != entries[j].serial@);
        assert(false);
    } else if j < i {
        assert(entries[j].serial@ != entries[i].serial@);
        assert(false);
    }
}

/// The registry of discovered probes.
#[derive(Debug)]
pub struct ProbeRegistry {
    pub entries: Vec<RegistryEntry>,
}

impl ProbeRegistry {
    /// Registry well-formedness.
    pub open spec fn wf(&self) -> bool {
        wf_entries(self.entries@)
    }

    /// An empty registry.
    pub fn new() -> (r: Self)
        ensures
            r.entries@ =~= Seq::<RegistryEntry>::empty(),
            r.wf(),
    {
        ProbeRegistry { entries: Vec::new() }
    }

    /// The position of the entry carrying this serial, scanning from the
    /// front.
    fn find(&self, serial: &str) -> (r: Option<usize>)
        ensures
            r matches Some(i) ==> 0 <= i < self.entries@.len() && self.entries@[i as int].serial@
                == serial@,
            r is None ==> !has_serial(self.entries@, serial@),
    {
        let mut i: usize = 0;
        let n = self.entries.len();
        while i < n
            invariant
                0 <= i <= n,
                n == self.entries@.len(),
                forall|j: int| 0 <= j < i ==> self.entries@[j].serial@ != serial@,
            decreases n - i,
        {
            if str_eq(self.entries[i].serial.as_str(), serial) {
                return Some(i);
            }
            i = i + 1;
        }
        None
    }

    /// Hand the probe with this serial out for exclusive use. Fails when the
    /// serial was never discovered, and when the probe is already lent; the
    /// registry is unchanged on failure. On success the entry stays, emptied,
    /// so no second lend of the same serial can succeed before the probe is
    /// returned.
    pub fn lend(&mut self, serial: &Serial) -> (r: Result<Probe, CubeProgrammerError>)
        requires
            old(self).wf(),
        ensures
            final(self).wf(),
            !has_serial(old(self).entries@, serial@) ==> (r matches Err(
                CubeProgrammerError::ConnectionFailure(ConnectionFailureKind::ProbeNotFound),
            ) && final(self).entries@ == old(self).entries@),
            has_serial(old(self).entries@, serial@) && !serial_available(old(self).entries@, serial@)
                ==> (r matches Err(
                CubeProgrammerError::ConnectionFailure(ConnectionFailureKind::ProbeAlreadyLent),
            ) && final(self).entries@ == old(self).entries@),
            serial_available(old(self).entries@, serial@) ==> r == Ok::<Probe, CubeProgrammerError>(
                lent_probe(old(self).entries@, serial@),
            ) && final(self).entries@ == spec_after_lend(old(self).entries@, serial@),
    {
        let idx = self.find(serial.as_str());
        match idx {
            None => Err(
                CubeProgrammerError::ConnectionFailure(ConnectionFailureKind::ProbeNotFound),
            ),
            Some(i) => {
                proof {
                    lemma_index_unique(self.entries@, serial@, i as int);
                }
                let ghost old_entries = self.entries@;
                let mut taken = RegistryEntry { serial: String::new(), probe: None };
                self.entries.set_and_swap(i, &mut taken);
                let RegistryEntry { serial: entry_serial, probe } = taken;
                self.entries.set(
                    i,
                    RegistryEntry { serial: entry_serial, probe: None },
                );
                proof {
                    assert(self.entries@ == old_entries.update(
                        i as int,
                        RegistryEntry { serial: old_entries[i as int].serial, probe: None },
                    ));
                    assert forall|p: int, q: int|
                        0 <= p < q < self.entries@.len() implies self.entries@[p].serial@
                        != self.entries@[q].serial@ by {
                        assert(self.entries@[p].serial@ == old_entries[p].serial@);
                        assert(self.entries@[q].serial@ == old_entries[q].serial@);
                    }
                    assert(forall|p: int|
                        0 <= p < self.entries@.len() ==> entry_coherent(#[trigger] self.entries@[p]));
                }
                match probe {
                    Some(p) => Ok(p),
                    None => {
                        proof {
                            assert(self.entries@ =~= old_entries);
                        }
                        Err(
                            CubeProgrammerError::ConnectionFailure(
                                ConnectionFailureKind::ProbeAlreadyLent,
                            ),
                        )
                    },
                }
            },
        }
    }

    /// Return a probe to the registry: its entry becomes available again, or
    /// a new entry is appended if the serial was never seen. Returning an
    /// available probe's twin value again simply re-fills the same entry, so
    /// the operation is idempotent.
    pub fn insert_probe(&mut self, probe: Probe)
        requires
            old(self).wf(),
        ensures
            final(self).wf(),
            final(self).entries@ == spec_after_insert(old(self).entries@, probe),
    {
        let idx = self.find(probe.serial_number.as_str());
        let entry_serial = probe.serial_number.clone();
        let entry = RegistryEntry { serial: entry_serial, probe: Some(probe) };
        proof {
            assert(entry == available_entry(probe));
        }
        match idx {
            Some(i) => {
                proof {
                    lemma_index_unique(self.entries@, probe.serial_number@, i as int);
                }
                let ghost old_entries = self.entries@;
                self.entries.set(i, entry);
                proof {
                    assert forall|p: int, q: int|
                        0 <= p < q < self.entries@.len() implies self.entries@[p].serial@
                        != self.entries@[q].serial@ by {
                        assert(old_entries[p].serial@ != old_entries[q].serial@);
                        assert(self.entries@[p].serial@ == old_entries[p].serial@);
                        assert(self.entries@[q].serial@ == old_entries[q].serial@);
                    }
                }
            },
            None => {
                let ghost old_entries = self.entries@;
                self.entries.push(entry);
                proof {
                    assert forall|p: int, q: int|
                        0 <= p < q < self.entries@.len() implies self.entries@[p].serial@
                        != self.entries@[q].serial@ by {
                        if q < old_entries.len() {
                            assert(old_entries[p].serial@ != old_entries[q].serial@);
                        } else {
                            assert(self.entries@[q] == available_entry(probe));
                            assert(!has_serial(old_entries, probe.serial_number@));
                            assert(self.entries@[p] == old_entries[p]);
                        }
                    }
                }
            },
        }
    }

    /// The serials of the probes currently available for lending, in registry
    /// order.
    pub fn list_available(&self) -> (r: Vec<Serial>)
        ensures
            r@.map_values(|s: Serial| s@) == spec_available_serials(self.entries@),
    {
        let mut r: Vec<Serial> = Vec::new();
        let mut i: usize = 0;
        let n = self.entries.len();
        while i < n
            invariant
                0 <= i <= n,
                n == self.entries@.len(),
                r@.map_values(|s: Serial| s@) == spec_available_serials(self.entries@.take(i as int)),
            decreases n - i,
        {
            proof {
                assert(self.entries@.take(i + 1).drop_last() =~= self.entries@.take(i as int));
                assert(self.entries@.take(i + 1).last() == self.entries@[i as int]);
            }
            let entry = &self.entries[i];
            match entry.probe {
                Some(_) => {
                    let s = Serial(entry.serial.clone());
                    r.push(s);
                    proof {
                        assert(r@.map_values(|s: Serial| s@) =~= spec_available_serials(
                            self.entries@.take(i + 1),
                        ));
                    }
                },
                None => {},
            }
            i = i + 1;
        }
        proof {
            assert(self.entries@.take(n as int) =~= self.entries@);
        }
        r
    }

    /// Fold a scan result into the registry: lent entries are kept untouched,
    /// available entries that were not re-discovered are dropped, and newly
    /// seen serials are appended as available. Not a disconnect: no lent
    /// probe is affected.
    pub fn sync_scan(&mut self, discovered: Vec<Probe>)
        requires
            old(self).wf(),
        ensures
            final(self).wf(),
            final(self).entries@ == spec_sync(old(self).entries@, discovered@),
    {
        let ghost old_entries = self.entries@;
        let mut src: Vec<RegistryEntry> = Vec::new();
        core::mem::swap(&mut src, &mut self.entries);
        let ghost orig = src@;
        let n0 = src.len();
        proof {
            assert(orig.len() == n0);
        }
        let mut k: usize = 0;
        while src.len() > 0
            invariant
                orig == old_entries,
                orig.len() <= usize::MAX,
                k + src@.len() == orig.len(),
                src@ == orig.skip(k as int),
                self.entries@ == keep_lent(orig.take(k as int)),
            decreases src@.len(),
        {
            let e = src.remove(0);
            proof {
                assert(e == orig.skip(k as int)[0]);
                assert(e == orig[k as int]);
                assert(orig.take(k + 1).drop_last() =~= orig.take(k as int));
                assert(orig.take(k + 1).last() == orig[k as int]);
                assert(src@ =~= orig.skip(k + 1));
            }
            match &e.probe {
                None => {
                    self.entries.push(e);
                },
                Some(_) => {},
            }
            k = k + 1;
        }
        proof {
            assert(orig.take(k as int) =~= orig);
        }
        let ghost base = self.entries@;
        let mut rest = discovered;
        let ghost dorig = rest@;
        let m0 = rest.len();
        proof {
            assert(dorig.len() == m0);
        }
        let mut m: usize = 0;
        while rest.len() > 0
            invariant
                dorig.len() <= usize::MAX,
                m + rest@.len() == dorig.len(),
                rest@ == dorig.skip(m as int),
                self.entries@ == add_discovered(base, dorig.take(m as int)),
            decreases rest@.len(),
        {
            let p = rest.remove(0);
            proof {
                assert(p == dorig.skip(m as int)[0]);
                assert(p == dorig[m as int]);
                assert(dorig.take(m + 1).drop_last() =~= dorig.take(m as int));
                assert(dorig.take(m + 1).last() == dorig[m as int]);
                assert(rest@ =~= dorig.skip(m + 1));
            }
            match self.find(p.serial_number.as_str()) {
                Some(i) => {
                    proof {
                        assert(has_serial(self.entries@, p.serial_number@));
                    }
                },
                None => {
                    let entry_serial = p.serial_number.clone();
                    let entry = RegistryEntry { serial: entry_serial, probe: Some(p) };
                    proof {
                        assert(entry == available_entry(p));
                    }
                    self.entries.push(entry);
                },
            }
            m = m + 1;
        }
        proof {
            assert(dorig.take(m as int) =~= dorig);
            lemma_sync_wf(old_entries, dorig);
        }
    }
}

/// Whether some entry of `a.push(x)` carries a serial, reduced to `a` and
/// `x`.
proof fn lemma_has_serial_push(a: Seq<RegistryEntry>, x: RegistryEntry, s: Seq<char>)
    ensures
        has_serial(a.push(x), s) <==> (has_serial(a, s) || x.serial@ == s),
{
    if has_serial(a, s) {
        let i = choose|i: int| 0 <= i < a.len() && a[i].serial@ == s;
        assert(a.push(x)[i].serial@ == s);
    }
    if x.serial@ == s {
        assert(a.push(x)[a.len() as int].serial@ == s);
    }
    if has_serial(a.push(x), s) && !has_serial(a, s) && x.serial@ != s {
        let i = choose|i: int| 0 <= i < a.push(x).len() && a.push(x)[i].serial@ == s;
        if i < a.len() {
            assert(a[i].serial@ == s);
        }
        assert(false);
    }
}

/// The lent entries keep well-formedness, and introduce no serial that the
/// registry did not hold.
proof fn lemma_keep_lent_wf(entries: Seq<RegistryEntry>)
    requires
        wf_entries(entries),
    ensures
        wf_entries(keep_lent(entries)),
        forall|s: Seq<char>| #[trigger]
            has_serial(keep_lent(entries), s) ==> has_serial(entries, s),
    decreases entries.len(),
{
    if entries.len() > 0 {
        let d = entries.drop_last();
        assert(wf_entries(d));
        lemma_keep_lent_wf(d);
        assert forall|s: Seq<char>| #[trigger] has_serial(d, s) implies has_serial(entries, s) by {
            let i = choose|i: int| 0 <= i < d.len() && d[i].serial@ == s;
            assert(entries[i].serial@ == s);
        }
        if entries.last().probe is None {
            let x = entries.last();
            assert(keep_lent(entries) == keep_lent(d).push(x));
            if has_serial(keep_lent(d), x.serial@) {
                assert(has_serial(d, x.serial@));
                let i = choose|i: int| 0 <= i < d.len() && d[i].serial@ == x.serial@;
                assert(entries[i].serial@ == entries[entries.len() - 1].serial@);
                assert(false);
            }
            assert forall|p: int, q: int|
                0 <= p < q < keep_lent(entries).len() implies keep_lent(entries)[p].serial@
                != keep_lent(entries)[q].serial@ by {
                if q < keep_lent(d).len() {
                    assert(keep_lent(entries)[p] == keep_lent(d)[p]);
                    assert(keep_lent(entries)[q] == keep_lent(d)[q]);
                } else {
                    assert(keep_lent(entries)[q] == x);
                    assert(keep_lent(entries)[p] == keep_lent(d)[p]);
                    if keep_lent(d)[p].serial@ == x.serial@ {
                        assert(has_serial(keep_lent(d), x.serial@));
                    }
                }
            }
            assert forall|s: Seq<char>| #[trigger]
                has_serial(keep_lent(entries), s) implies has_serial(entries, s) by {
                lemma_has_serial_push(keep_lent(d), x, s);
                if has_serial(keep_lent(d), s) {
                    assert(has_serial(d, s));
                } else {
                    assert(entries[entries.len() - 1].serial@ == s);
                }
            }
        }
    }
}

/// Folding discovered probes into a well-formed registry keeps it
/// well-formed.
proof fn lemma_add_discovered_wf(entries: Seq<RegistryEntry>, discovered: Seq<Probe>)
    requires
        wf_entries(entries),
    ensures
        wf_entries(add_discovered(entries, discovered)),
    decreases discovered.len(),
{
    if discovered.len() > 0 {
        lemma_add_discovered_wf(entries, discovered.drop_last());
        let prev = add_discovered(entries, discovered.drop_last());
        let x = discovered.last();
        if !has_serial(prev, x.serial_number@) {
            assert(add_discovered(entries, discovered) == prev.push(available_entry(x)));
            assert forall|p: int, q: int|
                0 <= p < q < prev.push(available_entry(x)).len() implies prev.push(
                available_entry(x),
            )[p].serial@ != prev.push(available_entry(x))[q].serial@ by {
                if q < prev.len() {
                    assert(prev.push(available_entry(x))[p] == prev[p]);
                    assert(prev.push(available_entry(x))[q] == prev[q]);
                } else {
                    assert(prev.push(available_entry(x))[q] == available_entry(x));
                    assert(prev.push(available_entry(x))[p] == prev[p]);
                    if prev[p].serial@ == x.serial_number@ {
                        assert(has_serial(prev, x.serial_number@));
                    }
                }
            }
        }
    }
}

/// A scan keeps the registry well-formed.
proof fn lemma_sync_wf(entries: Seq<RegistryEntry>, discovered: Seq<Probe>)
    requires
        wf_entries(entries),
    ensures
        wf_entries(spec_sync(entries, discovered)),
{
    lemma_keep_lent_wf(entries);
    lemma_add_discovered_wf(keep_lent(entries), discovered);
}

/// Keeping only the lent entries is idempotent.
proof fn lemma_keep_lent_idempotent(entries: Seq<RegistryEntry>)
    ensures
        keep_lent(keep_lent(entries)) == keep_lent(entries),
    decreases entries.len(),
{
    if entries.len() > 0 {
        let d = entries.drop_last();
        lemma_keep_lent_idempotent(d);
        if entries.last().probe is None {
            let x = entries.last();
            assert(keep_lent(entries) == keep_lent(d).push(x));
            assert(keep_lent(d).push(x).drop_last() =~= keep_lent(d));
            assert(keep_lent(keep_lent(d).push(x)) == keep_lent(keep_lent(d)).push(x));
        }
    }
}

/// Discovered probes are added as available entries, so they never change
/// which entries are lent.
proof fn lemma_keep_lent_add_discovered(entries: Seq<RegistryEntry>, discovered: Seq<Probe>)
    ensures
        keep_lent(add_discovered(entries, discovered)) == keep_lent(entries),
    decreases discovered.len(),
{
    if discovered.len() > 0 {
        lemma_keep_lent_add_discovered(entries, discovered.drop_last());
        let prev = add_discovered(entries, discovered.drop_last());
        let x = discovered.last();
        if !has_serial(prev, x.serial_number@) {
            assert(add_discovered(entries, discovered) == prev.push(available_entry(x)));
            assert(prev.push(available_entry(x)).drop_last() =~= prev);
            assert(keep_lent(prev.push(available_entry(x))) == keep_lent(prev));
        }
    }
}

/// Law: scanning is idempotent. Two consecutive scans that discover the same
/// probes, with no lend or return in between, leave the registry — and with
/// it the list of available serials — exactly as one scan does.
pub proof fn lemma_scan_idempotent(entries: Seq<RegistryEntry>, discovered: Seq<Probe>)
    ensures
        spec_sync(spec_sync(entries, discovered), discovered) == spec_sync(entries, discovered),
        spec_available_serials(spec_sync(spec_sync(entries, discovered), discovered))
            == spec_available_serials(spec_sync(entries, discovered)),
{
    lemma_keep_lent_add_discovered(keep_lent(entries), discovered);
    lemma_keep_lent_idempotent(entries);
}

/// Law: a probe cannot be lent twice. After a successful lend, the serial is
/// still known to the registry but no longer available, so a second lend
/// without an intervening return fails as already lent.
pub proof fn lemma_second_lend_already_lent(entries: Seq<RegistryEntry>, serial: Seq<char>)
    requires
        wf_entries(entries),
        serial_available(entries, serial),
    ensures
        has_serial(spec_after_lend(entries, serial), serial),
        !serial_available(spec_after_lend(entries, serial), serial),
        wf_entries(spec_after_lend(entries, serial)),
{
    let i = serial_index(entries, serial);
    assert(0 <= i < entries.len() && entries[i].serial@ == serial);
    let after = spec_after_lend(entries, serial);
    assert(after[i].serial@ == serial);
    assert forall|p: int, q: int| 0 <= p < q < after.len() implies after[p].serial@
        != after[q].serial@ by {
        assert(after[p].serial@ == entries[p].serial@);
        assert(after[q].serial@ == entries[q].serial@);
    }
    assert(forall|p: int| 0 <= p < after.len() ==> entry_coherent(#[trigger] after[p]));
    lemma_index_unique(after, serial, i);
    assert(after[serial_index(after, serial)].probe is None);
}

/// Law: returning the lent probe restores the registry exactly. Together with
/// the lend and insert contracts, any number of lend/return cycles — a failed
/// connect included, since it returns the probe the same way — leaves the
/// registry with exactly the entries it had.
pub proof fn lemma_return_after_lend_restores(entries: Seq<RegistryEntry>, serial: Seq<char>)
    requires
        wf_entries(entries),
        serial_available(entries, serial),
    ensures
        spec_after_insert(spec_after_lend(entries, serial), lent_probe(entries, serial)) == entries,
{
    let i = serial_index(entries, serial);
    assert(0 <= i < entries.len() && entries[i].serial@ == serial);
    let p = lent_probe(entries, serial);
    assert(entries[i].probe == Some(p));
    assert(entry_coherent(entries[i]));
    assert(p.serial_number == entries[i].serial);
    let after = spec_after_lend(entries, serial);
    assert(after[i].serial@ == serial);
    assert forall|q: int, r: int| 0 <= q < r < after.len() implies after[q].serial@
        != after[r].serial@ by {
        assert(after[q].serial@ == entries[q].serial@);
        assert(after[r].serial@ == entries[r].serial@);
    }
    assert(forall|q: int| 0 <= q < after.len() ==> entry_coherent(#[trigger] after[q]));
    lemma_index_unique(after, p.serial_number@, i);
    assert(has_serial(after, p.serial_number@));
    assert(spec_after_insert(after, p) == after.update(i, available_entry(p)));
    assert(available_entry(p) == entries[i]);
    assert(spec_after_insert(after, p) =~= entries);
}

/// How many entries carry a serial, reduced to membership: under
/// well-formedness a known serial has exactly one entry.
pub proof fn lemma_count_unique(entries: Seq<RegistryEntry>, serial: Seq<char>)
    requires
        wf_entries(entries),
    ensures
        has_serial(entries, serial) ==> count_serial(entries, serial) == 1,
        !has_serial(entries, serial) ==> count_serial(entries, serial) == 0,
    decreases entries.len(),
{
    if entries.len() > 0 {
        let d = entries.drop_last();
        assert(wf_entries(d));
        lemma_count_unique(d, serial);
        let x = entries.last();
        if x.serial@ == serial {
            if has_serial(d, serial) {
                let i = choose|i: int| 0 <= i < d.len() && d[i].serial@ == serial;
                assert(entries[i].serial@ == entries[entries.len() - 1].serial@);
                assert(false);
            }
            assert(count_serial(entries, serial) == 1);
        } else {
            if has_serial(entries, serial) {
                let i = choose|i: int| 0 <= i < entries.len() && entries[i].serial@ == serial;
                assert(i < entries.len() - 1);
                assert(d[i].serial@ == serial);
                assert(has_serial(d, serial));
            }
            if has_serial(d, serial) {
                let i = choose|i: int| 0 <= i < d.len() && d[i].serial@ == serial;
                assert(entries[i].serial@ == serial);
                assert(has_serial(entries, serial));
            }
        }
    }
}

/// The sequence of registry states after `n` lend/return cycles on one
/// serial.
pub open spec fn spec_connect_cycles(entries: Seq<RegistryEntry>, serial: Seq<char>, n: nat) -> Seq<
    RegistryEntry,
>
    decreases n,
{
    if n == 0 {
        entries
    } else {
        let prev = spec_connect_cycles(entries, serial, (n - 1) as nat);
        spec_after_insert(spec_after_lend(prev, serial), lent_probe(prev, serial))
    }
}

/// Law: after any number of lend/return cycles on one serial the registry is
/// unchanged, and in particular holds exactly one entry for that serial,
/// available. A cycle in which the connect attempt failed returns the probe
/// through the same insert, so it is covered by the same statement.
pub proof fn lemma_connect_cycles_preserve(
    entries: Seq<RegistryEntry>,
    serial: Seq<char>,
    n: nat,
)
    requires
        wf_entries(entries),
        serial_available(entries, serial),
    ensures
        spec_connect_cycles(entries, serial, n) == entries,
        count_serial(entries, serial) == 1,
        serial_available(spec_connect_cycles(entries, serial, n), serial),
    decreases n,
{
    lemma_count_unique(entries, serial);
    if n > 0 {
        lemma_connect_cycles_preserve(entries, serial, (n - 1) as nat);
        lemma_return_after_lend_restores(entries, serial);
    }
}

} // verus!
