//! Settings store: classification of the platform registry call outcomes,
//! and a model of the per-user settings namespace the store operates on.
//!
//! The platform's own registry calls happen outside this crate; they hand
//! back raw status codes, which [`exists_outcome`] and [`write_outcome`]
//! classify. [`SettingsStore`] models the namespace itself — subpaths with
//! named string values — so that the store's behaviour (what `exists`
//! answers, what `write_string` changes) is stated and proved over it.

use vstd::prelude::*;

use crate::to_utf16;
use crate::utf16_z;

verus! {

/// Supported registry roots. Only the per-user settings root is in scope.
#[derive(Clone, Copy, Debug, PartialEq, Eq, Structural)]
pub enum HKEY {
    CurrentUser,
}

/// Classified failure of a settings-store operation.
#[derive(Clone, Copy, Debug, PartialEq, Eq, Structural)]
pub enum RegError {
    OpenFailed,
    QueryFailed,
    CreateFailed,
    WriteFailed,
    CloseFailed,
}

impl RegError {
    /// The failure text reported for each classified error.
    pub fn message(&self) -> (m: &'static str)
        ensures
            *self == RegError::OpenFailed ==> m@ == "Failed to open registry key"@,
            *self == RegError::QueryFailed ==> m@ == "Failed to query registry key"@,
            *self == RegError::CreateFailed ==> m@ == "Failed to create registry key"@,
            *self == RegError::WriteFailed ==> m@ == "Failed to set registry key"@,
            *self == RegError::CloseFailed ==> m@ == "Failed to close registry key"@,
    {
        match self {
            RegError::OpenFailed => "Failed to open registry key",
            RegError::QueryFailed => "Failed to query registry key",
            RegError::CreateFailed => "Failed to create registry key",
            RegError::WriteFailed => "Failed to set registry key",
            RegError::CloseFailed => "Failed to close registry key",
        }
    }
}

/// Platform status code reporting success.
pub const ERROR_SUCCESS: u32 = 0;

/// Platform status code reporting that a queried value is absent.
pub const ERROR_FILE_NOT_FOUND: u32 = 2;

/// Result of an existence check, decided from the raw status codes of the
/// platform calls it makes: open the subpath, query the value, close the
/// handle. A missing value is a successful `false` answer, not an error,
/// and it is decided before the close status matters.
pub open spec fn spec_exists_outcome(
    open_status: u32,
    query_status: u32,
    close_status: u32,
) -> Result<bool, RegError> {
    if open_status != ERROR_SUCCESS {
        Err(RegError::OpenFailed)
    } else if query_status == ERROR_FILE_NOT_FOUND {
        Ok(false)
    } else if query_status != ERROR_SUCCESS {
        Err(RegError::QueryFailed)
    } else if close_status != ERROR_SUCCESS {
        Err(RegError::CloseFailed)
    } else {
        Ok(true)
    }
}

/// Classifies the raw platform statuses of an existence check.
pub fn exists_outcome(open_status: u32, query_status: u32, close_status: u32) -> (r: Result<
    bool,
    RegError,
>)
    ensures
        r == spec_exists_outcome(open_status, query_status, close_status),
{
    if open_status != ERROR_SUCCESS {
        Err(RegError::OpenFailed)
    } else if query_status == ERROR_FILE_NOT_FOUND {
        Ok(false)
    } else if query_status != ERROR_SUCCESS {
        Err(RegError::QueryFailed)
    } else if close_status != ERROR_SUCCESS {
        Err(RegError::CloseFailed)
    } else {
        Ok(true)
    }
}

/// Law: the existence check keeps its two negative cases apart. A subpath
/// that cannot be opened is the error `OpenFailed`; an opened subpath whose
/// value is absent is the successful answer `Ok(false)`, never an error.
pub proof fn lemma_exists_negative_cases(open_status: u32, query_status: u32, close_status: u32)
    ensures
        open_status != ERROR_SUCCESS ==> spec_exists_outcome(open_status, query_status, close_status)
            == Err::<bool, RegError>(RegError::OpenFailed),
        query_status == ERROR_FILE_NOT_FOUND ==> spec_exists_outcome(
            ERROR_SUCCESS,
            query_status,
            close_status,
        ) == Ok::<bool, RegError>(false),
{
}

/// Result of a string write, decided from the raw status codes of the
/// platform calls it makes: create-or-open the subpath, set the value,
/// close the handle. A close failure is reported even though it does not
/// undo a successful write.
pub open spec fn spec_write_outcome(
    create_status: u32,
    set_status: u32,
    close_status: u32,
) -> Result<(), RegError> {
    if create_status != ERROR_SUCCESS {
        Err(RegError::CreateFailed)
    } else if set_status != ERROR_SUCCESS {
        Err(RegError::WriteFailed)
    } else if close_status != ERROR_SUCCESS {
        Err(RegError::CloseFailed)
    } else {
        Ok(())
    }
}

/// Classifies the raw platform statuses of a string write.
pub fn write_outcome(create_status: u32, set_status: u32, close_status: u32) -> (r: Result<
    (),
    RegError,
>)
    ensures
        r == spec_write_outcome(create_status, set_status, close_status),
{
    if create_status != ERROR_SUCCESS {
        Err(RegError::CreateFailed)
    } else if set_status != ERROR_SUCCESS {
        Err(RegError::WriteFailed)
    } else if close_status != ERROR_SUCCESS {
        Err(RegError::CloseFailed)
    } else {
        Ok(())
    }
}

/// Byte payload of a UTF-16 string as the platform stores it: two bytes
/// per code unit, low byte first.
pub open spec fn spec_le_bytes(v: Seq<u16>) -> Seq<u8> {
    Seq::new(
        (2 * v.len()) as nat,
        |i: int|
            if i % 2 == 0 {
                ((v[i / 2] % 256) as u8)
            } else {
                ((v[i / 2] / 256) as u8)
            },
    )
}

/// Renders UTF-16 code units as the little-endian byte payload handed to
/// the platform's write call.
pub fn v16_to_v8(v: &[u16]) -> (r: Vec<u8>)
    ensures
        r@ == spec_le_bytes(v@),
{
    let mut out: Vec<u8> = Vec::new();
    let mut i: usize = 0;
    while i < v.len()
        invariant
            i <= v@.len(),
            out@.len() == 2 * i,
            forall|j: int| 0 <= j < out@.len() ==> out@[j] == spec_le_bytes(v@)[j],
        decreases v@.len() - i,
    {
        let x = v[i];
        out.push((x % 256) as u8);
        out.push((x / 256) as u8);
        i = i + 1;
    }
    proof {
        assert(out@ =~= spec_le_bytes(v@));
    }
    out
}

/// One stored value of the model namespace: a subpath, a value name, and
/// the byte payload stored under them (all strings as the platform sees
/// them, i.e. null-terminated UTF-16).
pub struct RegEntry {
    pub path: Vec<u16>,
    pub name: Vec<u16>,
    pub data: Vec<u8>,
}

/// Model of the per-user settings namespace: the set of (subpath, name,
/// payload) triples currently stored. A subpath exists exactly when some
/// value has been written under it.
pub struct SettingsStore {
    pub entries: Vec<RegEntry>,
}

impl SettingsStore {
    /// Each (subpath, name) pair is stored at most once.
    pub open spec fn wf(self) -> bool {
        forall|i: int, j: int|
            #![trigger self.entries@[i], self.entries@[j]]
            0 <= i < j < self.entries@.len() ==> !(self.entries@[i].path@ == self.entries@[j].path@
                && self.entries@[i].name@ == self.entries@[j].name@)
    }

    /// The subpath has been created: some value is stored under it.
    pub open spec fn has_subkey(self, path: Seq<u16>) -> bool {
        exists|i: int|
            #![trigger self.entries@[i]]
            0 <= i < self.entries@.len() && self.entries@[i].path@ == path
    }

    /// A value of this name is stored under the subpath.
    pub open spec fn has_value(self, path: Seq<u16>, name: Seq<u16>) -> bool {
        exists|i: int|
            #![trigger self.entries@[i]]
            0 <= i < self.entries@.len() && self.entries@[i].path@ == path
                && self.entries@[i].name@ == name
    }

    /// The value stored under (subpath, name) has exactly this payload.
    pub open spec fn value_is(self, path: Seq<u16>, name: Seq<u16>, data: Seq<u8>) -> bool {
        exists|i: int|
            #![trigger self.entries@[i]]
            0 <= i < self.entries@.len() && self.entries@[i].path@ == path
                && self.entries@[i].name@ == name && self.entries@[i].data@ == data
    }

    /// An empty settings root: no subpath has been created yet.
    pub fn new() -> (s: SettingsStore)
        ensures
            s.wf(),
            forall|p: Seq<u16>| !s.has_subkey(p),
            forall|p: Seq<u16>, n: Seq<u16>| !s.has_value(p, n),
    {
        SettingsStore { entries: Vec::new() }
    }
}

/// Element-wise equality of two code-unit strings.
fn u16_vec_eq(a: &Vec<u16>, b: &Vec<u16>) -> (r: bool)
    ensures
        r <==> a@ == b@,
{
    if a.len() != b.len() {
        return false;
    }
    let mut i: usize = 0;
    while i < a.len()
        invariant
            i <= a@.len(),
            a@.len() == b@.len(),
            forall|j: int| 0 <= j < i ==> a@[j] == b@[j],
        decreases a@.len() - i,
    {
        if a[i] != b[i] {
            return false;
        }
        i = i + 1;
    }
    proof {
        assert(a@ =~= b@);
    }
    true
}

/// Checks whether a named value exists under a subpath of the per-user
/// settings root. A subpath that was never created cannot be opened and is
/// reported as `Err(OpenFailed)`; a subpath that opens but holds no value
/// of that name is the successful answer `Ok(false)`.
pub fn value_exists(store: &SettingsStore, hkey: HKEY, subkey: &str, name: &str) -> (r: Result<
    bool,
    RegError,
>)
    ensures
        ({
            let path = utf16_z(subkey@);
            let nm = utf16_z(name@);
            r == if !store.has_subkey(path) {
                Err::<bool, RegError>(RegError::OpenFailed)
            } else {
                Ok::<bool, RegError>(store.has_value(path, nm))
            }
        }),
{
    match hkey {
        HKEY::CurrentUser => {},
    }
    let path = to_utf16(subkey);
    let nm = to_utf16(name);
    let mut found_sub = false;
    let mut found_val = false;
    let n = store.entries.len();
    let mut i: usize = 0;
    while i < n
        invariant
            n == store.entries@.len(),
            i <= n,
            path@ == utf16_z(subkey@),
            nm@ == utf16_z(name@),
            found_sub <==> (exists|k: int|
                #![trigger store.entries@[k]]
                0 <= k < i && store.entries@[k].path@ == path@),
            found_val <==> (exists|k: int|
                #![trigger store.entries@[k]]
                0 <= k < i && store.entries@[k].path@ == path@ && store.entries@[k].name@ == nm@),
        decreases n - i,
    {
        let e = &store.entries[i];
        if u16_vec_eq(&e.path, &path) {
            found_sub = true;
            if u16_vec_eq(&e.name, &nm) {
                found_val = true;
            }
        }
        i = i + 1;
    }
    if !found_sub {
        Err(RegError::OpenFailed)
    } else {
        Ok(found_val)
    }
}

/// Writes a string value under a subpath of the per-user settings root,
/// creating the subpath when it is absent and overwriting the value when
/// the name is already present. The payload stored is the value's
/// null-terminated UTF-16 encoding rendered as bytes. Nothing else in the
/// store changes. In the model, creation and writing always succeed.
pub fn write_string(
    store: &mut SettingsStore,
    hkey: HKEY,
    subkey: &str,
    name: &str,
    value: &str,
) -> (r: Result<(), RegError>)
    requires
        old(store).wf(),
    ensures
        r is Ok,
        final(store).wf(),
        final(store).value_is(
            utf16_z(subkey@),
            utf16_z(name@),
            spec_le_bytes(utf16_z(value@)),
        ),
        forall|p: Seq<u16>|
            #[trigger] final(store).has_subkey(p) <==> (old(store).has_subkey(p)
                || p == utf16_z(subkey@)),
        forall|p: Seq<u16>, n2: Seq<u16>, d: Seq<u8>|
            !(p == utf16_z(subkey@) && n2 == utf16_z(name@)) ==> (#[trigger] final(store).value_is(
                p, n2, d) <==> old(store).value_is(p, n2, d)),
        forall|p: Seq<u16>, n2: Seq<u16>|
            !(p == utf16_z(subkey@) && n2 == utf16_z(name@)) ==> (#[trigger] final(store).has_value(
                p, n2) <==> old(store).has_value(p, n2)),
{
    match hkey {
        HKEY::CurrentUser => {},
    }
    let path = to_utf16(subkey);
    let nm = to_utf16(name);
    let data = v16_to_v8(to_utf16(value).as_slice());
    let ghost pv = path@;
    let ghost nv = nm@;
    let ghost dv = data@;
    let n = store.entries.len();
    let mut i: usize = 0;
    while i < n
        invariant
            *store == *old(store),
            old(store).wf(),
            n == store.entries@.len(),
            i <= n,
            pv == path@ && nv == nm@ && dv == data@,
            pv == utf16_z(subkey@),
            nv == utf16_z(name@),
            dv == spec_le_bytes(utf16_z(value@)),
            forall|k: int|
                #![trigger store.entries@[k]]
                0 <= k < i ==> !(store.entries@[k].path@ == pv && store.entries@[k].name@ == nv),
        decreases n - i,
    {
        let e = &store.entries[i];
        if u16_vec_eq(&e.path, &path) && u16_vec_eq(&e.name, &nm) {
            let ghost s0 = *store;
            store.entries[i] = RegEntry { path, name: nm, data };
            proof {
                lemma_store_update(s0, *store, i as int, pv, nv, dv);
            }
            return Ok(());
        }
        i = i + 1;
    }
    let ghost s0 = *store;
    store.entries.push(RegEntry { path, name: nm, data });
    proof {
        lemma_store_push(s0, *store, pv, nv, dv);
    }
    Ok(())
}

/// Overwriting the payload of the entry at one index — its subpath and name
/// kept — leaves the store well formed, stores the new payload there, and
/// changes no other (subpath, name) pair.
proof fn lemma_store_update(
    s0: SettingsStore,
    s1: SettingsStore,
    ii: int,
    pv: Seq<u16>,
    nv: Seq<u16>,
    dv: Seq<u8>,
)
    requires
        s0.wf(),
        0 <= ii < s0.entries@.len(),
        s1.entries@.len() == s0.entries@.len(),
        forall|k: int|
            #![trigger s1.entries@[k]]
            0 <= k < s1.entries@.len() && k != ii ==> s1.entries@[k] == s0.entries@[k],
        s0.entries@[ii].path@ == pv && s0.entries@[ii].name@ == nv,
        s1.entries@[ii].path@ == pv && s1.entries@[ii].name@ == nv && s1.entries@[ii].data@ == dv,
    ensures
        s1.wf(),
        s1.value_is(pv, nv, dv),
        forall|p: Seq<u16>| #[trigger] s1.has_subkey(p) <==> (s0.has_subkey(p) || p == pv),
        forall|p: Seq<u16>, n2: Seq<u16>, d: Seq<u8>|
            !(p == pv && n2 == nv) ==> (#[trigger] s1.value_is(p, n2, d) <==> s0.value_is(
                p, n2, d)),
        forall|p: Seq<u16>, n2: Seq<u16>|
            !(p == pv && n2 == nv) ==> (#[trigger] s1.has_value(p, n2) <==> s0.has_value(p, n2)),
{
    let e0 = s0.entries@;
    let e1 = s1.entries@;
    assert(forall|k: int|
        #![trigger e1[k]]
        0 <= k < e1.len() ==> e1[k].path@ == e0[k].path@ && e1[k].name@ == e0[k].name@);
    assert forall|k: int, l: int|
        #![trigger e1[k], e1[l]]
        0 <= k < l < e1.len() implies !(e1[k].path@ == e1[l].path@ && e1[k].name@
        == e1[l].name@) by {
        assert(!(e0[k].path@ == e0[l].path@ && e0[k].name@ == e0[l].name@));
    }
    assert(s1.value_is(pv, nv, dv)) by {
        assert(0 <= ii < e1.len() && e1[ii].path@ == pv && e1[ii].name@ == nv && e1[ii].data@
            == dv);
    }
    assert forall|p: Seq<u16>| #[trigger] s1.has_subkey(p) <==> (s0.has_subkey(p) || p == pv) by {
        if s1.has_subkey(p) {
            let k = choose|k: int|
                #![trigger e1[k]]
                0 <= k < e1.len() && e1[k].path@ == p;
            assert(e0[k].path@ == p);
            assert(s0.has_subkey(p));
        }
        if s0.has_subkey(p) {
            let k = choose|k: int|
                #![trigger e0[k]]
                0 <= k < e0.len() && e0[k].path@ == p;
            assert(e1[k].path@ == p);
            assert(s1.has_subkey(p));
        }
        if p == pv {
            assert(e1[ii].path@ == p);
            assert(s1.has_subkey(p));
        }
    }
    assert forall|p: Seq<u16>, n2: Seq<u16>, d: Seq<u8>|
        !(p == pv && n2 == nv) implies (#[trigger] s1.value_is(p, n2, d) <==> s0.value_is(
        p, n2, d)) by {
        if s1.value_is(p, n2, d) {
            let k = choose|k: int|
                #![trigger e1[k]]
                0 <= k < e1.len() && e1[k].path@ == p && e1[k].name@ == n2 && e1[k].data@ == d;
            assert(k != ii);
            assert(e0[k].path@ == p && e0[k].name@ == n2 && e0[k].data@ == d);
        }
        if s0.value_is(p, n2, d) {
            let k = choose|k: int|
                #![trigger e0[k]]
                0 <= k < e0.len() && e0[k].path@ == p && e0[k].name@ == n2 && e0[k].data@ == d;
            assert(k != ii);
            assert(e1[k].path@ == p && e1[k].name@ == n2 && e1[k].data@ == d);
        }
    }
    assert forall|p: Seq<u16>, n2: Seq<u16>|
        !(p == pv && n2 == nv) implies (#[trigger] s1.has_value(p, n2) <==> s0.has_value(
        p, n2)) by {
        if s1.has_value(p, n2) {
            let k = choose|k: int|
                #![trigger e1[k]]
                0 <= k < e1.len() && e1[k].path@ == p && e1[k].name@ == n2;
            assert(k != ii);
            assert(e0[k].path@ == p && e0[k].name@ == n2);
        }
        if s0.has_value(p, n2) {
            let k = choose|k: int|
                #![trigger e0[k]]
                0 <= k < e0.len() && e0[k].path@ == p && e0[k].name@ == n2;
            assert(k != ii);
            assert(e1[k].path@ == p && e1[k].name@ == n2);
        }
    }
}

/// Appending one entry whose (subpath, name) pair is new leaves the store
/// well formed, stores the payload under that pair, and changes no other
/// pair.
proof fn lemma_store_push(
    s0: SettingsStore,
    s1: SettingsStore,
    pv: Seq<u16>,
    nv: Seq<u16>,
    dv: Seq<u8>,
)
    requires
        s0.wf(),
        s1.entries@.len() == s0.entries@.len() + 1,
        forall|k: int|
            #![trigger s1.entries@[k]]
            0 <= k < s0.entries@.len() ==> s1.entries@[k] == s0.entries@[k],
        s1.entries@[s0.entries@.len() as int].path@ == pv,
        s1.entries@[s0.entries@.len() as int].name@ == nv,
        s1.entries@[s0.entries@.len() as int].data@ == dv,
        forall|k: int|
            #![trigger s0.entries@[k]]
            0 <= k < s0.entries@.len() ==> !(s0.entries@[k].path@ == pv && s0.entries@[k].name@
                == nv),
    ensures
        s1.wf(),
        s1.value_is(pv, nv, dv),
        forall|p: Seq<u16>| #[trigger] s1.has_subkey(p) <==> (s0.has_subkey(p) || p == pv),
        forall|p: Seq<u16>, n2: Seq<u16>, d: Seq<u8>|
            !(p == pv && n2 == nv) ==> (#[trigger] s1.value_is(p, n2, d) <==> s0.value_is(
                p, n2, d)),
        forall|p: Seq<u16>, n2: Seq<u16>|
            !(p == pv && n2 == nv) ==> (#[trigger] s1.has_value(p, n2) <==> s0.has_value(p, n2)),
{
    let e0 = s0.entries@;
    let e1 = s1.entries@;
    let last = e0.len() as int;
    assert forall|k: int, l: int|
        #![trigger e1[k], e1[l]]
        0 <= k < l < e1.len() implies !(e1[k].path@ == e1[l].path@ && e1[k].name@
        == e1[l].name@) by {
        if l == last {
            assert(e1[k] == e0[k]);
            assert(!(e0[k].path@ == pv && e0[k].name@ == nv));
        } else {
            assert(e1[k] == e0[k] && e1[l] == e0[l]);
            assert(!(e0[k].path@ == e0[l].path@ && e0[k].name@ == e0[l].name@));
        }
    }
    assert(s1.value_is(pv, nv, dv)) by {
        assert(0 <= last < e1.len() && e1[last].path@ == pv && e1[last].name@ == nv
            && e1[last].data@ == dv);
    }
    assert forall|p: Seq<u16>| #[trigger] s1.has_subkey(p) <==> (s0.has_subkey(p) || p == pv) by {
        if s1.has_subkey(p) {
            let k = choose|k: int|
                #![trigger e1[k]]
                0 <= k < e1.len() && e1[k].path@ == p;
            if k == last {
                assert(p == pv);
            } else {
                assert(e0[k].path@ == p);
                assert(s0.has_subkey(p));
            }
        }
        if s0.has_subkey(p) {
            let k = choose|k: int|
                #![trigger e0[k]]
                0 <= k < e0.len() && e0[k].path@ == p;
            assert(e1[k].path@ == p);
            assert(s1.has_subkey(p));
        }
        if p == pv {
            assert(e1[last].path@ == p);
            assert(s1.has_subkey(p));
        }
    }
    assert forall|p: Seq<u16>, n2: Seq<u16>, d: Seq<u8>|
        !(p == pv && n2 == nv) implies (#[trigger] s1.value_is(p, n2, d) <==> s0.value_is(
        p, n2, d)) by {
        if s1.value_is(p, n2, d) {
            let k = choose|k: int|
                #![trigger e1[k]]
                0 <= k < e1.len() && e1[k].path@ == p && e1[k].name@ == n2 && e1[k].data@ == d;
            assert(k != last);
            assert(e0[k].path@ == p && e0[k].name@ == n2 && e0[k].data@ == d);
        }
        if s0.value_is(p, n2, d) {
            let k = choose|k: int|
                #![trigger e0[k]]
                0 <= k < e0.len() && e0[k].path@ == p && e0[k].name@ == n2 && e0[k].data@ == d;
            assert(e1[k].path@ == p && e1[k].name@ == n2 && e1[k].data@ == d);
        }
    }
    assert forall|p: Seq<u16>, n2: Seq<u16>|
        !(p == pv && n2 == nv) implies (#[trigger] s1.has_value(p, n2) <==> s0.has_value(
        p, n2)) by {
        if s1.has_value(p, n2) {
            let k = choose|k: int|
                #![trigger e1[k]]
                0 <= k < e1.len() && e1[k].path@ == p && e1[k].name@ == n2;
            assert(k != last);
            assert(e0[k].path@ == p && e0[k].name@ == n2);
        }
        if s0.has_value(p, n2) {
            let k = choose|k: int|
                #![trigger e0[k]]
                0 <= k < e0.len() && e0[k].path@ == p && e0[k].name@ == n2;
            assert(e1[k].path@ == p && e1[k].name@ == n2);
        }
    }
}

/// Write-then-read consistency: once a value is stored at a (subpath, name)
/// pair — which is what `write_string` ensures of its own pair — the subpath
/// opens and the value is reported present, so `exists` on the same pair
/// answers `Ok(true)`.
pub proof fn lemma_write_then_exists(
    store: SettingsStore,
    path: Seq<u16>,
    name: Seq<u16>,
    data: Seq<u8>,
)
    requires
        store.value_is(path, name, data),
    ensures
        store.has_value(path, name),
        store.has_subkey(path),
{
    let i = choose|i: int|
        #![trigger store.entries@[i]]
        0 <= i < store.entries@.len() && store.entries@[i].path@ == path
            && store.entries@[i].name@ == name && store.entries@[i].data@ == data;
    assert(store.entries@[i].path@ == path);
}

} // verus!
